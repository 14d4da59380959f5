use gifdeck::decode::{
    assemble, decode_focus, decode_preview, decode_preview_at, decode_with, DecodeError, GifFrame,
    MAX_FRAMES,
};
use gifdeck::encode::{Encoder, Scaling};
use gifdeck::geometry::Size;
use image::{ImageBuffer, Rgba};
use ratatui_image::picker::Picker;

fn encoder() -> Encoder {
    Encoder::new(Picker::halfblocks()).expect("cells have a size")
}

fn gif_of(frames: &[(u8, u32)]) -> Vec<u8> {
    let mut bytes = Vec::new();
    {
        let mut encoder = image::codecs::gif::GifEncoder::new(&mut bytes);
        encoder
            .set_repeat(image::codecs::gif::Repeat::Infinite)
            .unwrap();
        for (gray, ms) in frames {
            let f: image::RgbaImage =
                ImageBuffer::from_pixel(20, 10, Rgba([*gray, *gray, *gray, 255]));
            let delay = image::Delay::from_numer_denom_ms(*ms, 1);
            encoder
                .encode_frame(image::Frame::from_parts(f, 0, 0, delay))
                .unwrap();
        }
    }
    bytes
}

fn two_frame_gif() -> Vec<u8> {
    let mut gif_bytes = Vec::new();
    {
        let mut encoder = image::codecs::gif::GifEncoder::new(&mut gif_bytes);
        encoder
            .set_repeat(image::codecs::gif::Repeat::Infinite)
            .unwrap();
        let f1: image::RgbaImage = ImageBuffer::from_pixel(20, 10, Rgba([10, 10, 10, 255]));
        let f2: image::RgbaImage = ImageBuffer::from_pixel(20, 10, Rgba([200, 200, 200, 255]));
        encoder.encode_frame(image::Frame::new(f1)).unwrap();
        encoder.encode_frame(image::Frame::new(f2)).unwrap();
    }
    gif_bytes
}

const CELL: Size = Size {
    width: 12,
    height: 4,
};

/// A frame as its gray and size.
fn gray(f: &GifFrame, _: Size, _: Scaling) -> Result<(u8, u32, u32), String> {
    Ok((f.pixels[0], f.width, f.height))
}

#[test]
fn decode_non_gif_returns_none() {
    let to = encoder();
    let png = [0x89u8, 0x50, 0x4E, 0x47, 0x0D, 0x0A, 0x1A, 0x0A];
    assert!(decode_preview(&png, &to, 0).unwrap().is_none());
    assert!(decode_preview(b"", &to, 0).unwrap().is_none());
    assert!(
        decode_preview_at(&png, &to, Size::new(40, 20), Scaling::Enlarge, 0)
            .unwrap()
            .is_none()
    );
}

#[test]
fn decode_gif_frame_counts() {
    let to = encoder();
    let gif_bytes = two_frame_gif();
    let cached = decode_preview(&gif_bytes, &to, 0)
        .unwrap()
        .expect("should decode");
    assert_eq!(cached.frame_count(), 2);
}

#[test]
fn decode_preview_at_larger_size_keeps_frames_and_bytes() {
    let to = encoder();
    let gif_bytes = two_frame_gif();
    let cached = decode_preview_at(&gif_bytes, &to, Size::new(40, 20), Scaling::Enlarge, 0)
        .unwrap()
        .expect("should decode");
    assert_eq!(cached.frame_count(), 2);
    assert_eq!(cached.raw_bytes().as_slice(), gif_bytes.as_slice());
    // The enlarged decode fits within the requested cell size.
    let size = cached.frame(0).size;
    assert!(size.width <= 40 && size.height <= 20);
}

#[test]
fn focus_resize_upscales_small_gifs_but_fit_does_not() {
    let to = encoder();
    let gif_bytes = two_frame_gif();

    // Fit: the 20x10px source already fits 40x20 cells, so it stays at
    // its natural size.
    let fitted = decode_preview_at(&gif_bytes, &to, Size::new(40, 20), Scaling::Fit, 0)
        .unwrap()
        .expect("should decode");
    let fitted_size = fitted.frame(0).size;
    assert!(
        fitted_size.width < 40,
        "fit keeps natural size, got {fitted_size:?}"
    );

    // Scale: the same source is upscaled towards the requested size.
    let scaled = decode_preview_at(&gif_bytes, &to, Size::new(40, 20), Scaling::Enlarge, 0)
        .unwrap()
        .expect("should decode");
    let scaled_size = scaled.frame(0).size;
    assert!(
        scaled_size.width > fitted_size.width,
        "scale enlarges beyond natural size, got {scaled_size:?} vs {fitted_size:?}"
    );
}

#[test]
fn frames_come_in_order_with_their_delays() {
    let bytes = gif_of(&[(10, 100), (200, 0), (90, 50)]);
    let cached = decode_with(&bytes, gray, CELL, Scaling::Fit, 77).unwrap().unwrap();
    let grays: Vec<u8> = cached.frames.iter().map(|f| f.0).collect();
    assert_eq!(grays, vec![10, 200, 90]);
    assert!(cached.frames.iter().all(|f| (f.1, f.2) == (20, 10)));
    assert_eq!(cached.delays, vec![100, 40, 50], "never under the least delay");
    assert_eq!(cached.loaded_at, 77);
}

#[test]
fn frames_are_prepared_for_the_size_that_was_asked_for() {
    let seen = |_: &GifFrame, s: Size, c: Scaling| -> Result<(Size, Scaling), String> { Ok((s, c)) };
    let cached = decode_with(&two_frame_gif(), seen, Size::new(40, 20), Scaling::Enlarge, 0)
        .unwrap()
        .unwrap();
    assert_eq!(cached.frames[1], (Size::new(40, 20), Scaling::Enlarge));
}

#[test]
fn encoded_frames_cover_no_more_cells_than_they_may() {
    let to = encoder();
    let mut bytes = Vec::new();
    {
        let mut gif = image::codecs::gif::GifEncoder::new(&mut bytes);
        let big: image::RgbaImage = ImageBuffer::from_pixel(400, 300, Rgba([9, 9, 9, 255]));
        gif.encode_frame(image::Frame::new(big)).unwrap();
    }
    let grid = decode_preview(&bytes, &to, 3).unwrap().unwrap();
    let size = grid.frame(3).size;
    assert!(size.width <= 12 && size.height <= 4, "{size:?}");
    assert_eq!(size, {
        let covered = grid.frame(3).protocol.size();
        Size::new(covered.width, covered.height)
    });
    assert_eq!(grid.loaded_at, 3);
    let small = decode_preview_at(&bytes, &to, Size::new(1, 1), Scaling::Enlarge, 0)
        .unwrap()
        .unwrap();
    assert_eq!(small.frame(0).size, Size::new(1, 1));
}

#[test]
fn small_frames_are_enlarged_only_where_asked() {
    let to = encoder();
    let covered = |w: u32, h: u32, size: Size, scaling: Scaling| {
        let frame = GifFrame {
            width: w,
            height: h,
            pixels: vec![7; (4 * w * h) as usize],
            delay_numer: 10,
            delay_denom: 1,
        };
        to.encode(&frame, size, scaling).unwrap().size
    };
    // Cells are 10 by 20 pixels here: 21 by 20 pixels need 3 cells by 1.
    assert_eq!(covered(21, 20, Size::new(12, 4), Scaling::Fit), Size::new(3, 1));
    assert_eq!(covered(21, 20, Size::new(40, 20), Scaling::Fit), Size::new(3, 1));
    assert_eq!(covered(1, 1, Size::new(12, 4), Scaling::Fit), Size::new(1, 1));
    // Just fitting, with or without enlarging.
    assert_eq!(covered(120, 80, Size::new(12, 4), Scaling::Fit), Size::new(12, 4));
    assert_eq!(covered(120, 80, Size::new(12, 4), Scaling::Enlarge), Size::new(12, 4));
    // Too wide, and too high.
    assert_eq!(covered(240, 40, Size::new(12, 4), Scaling::Fit), Size::new(12, 1));
    assert_eq!(covered(20, 160, Size::new(12, 4), Scaling::Fit), Size::new(1, 4));
    // Enlarged until a side is reached.
    assert_eq!(covered(10, 10, Size::new(40, 10), Scaling::Enlarge), Size::new(20, 10));
    assert_eq!(covered(40, 10, Size::new(12, 4), Scaling::Enlarge), Size::new(12, 2));
}

#[test]
fn the_enlarged_view_is_filled() {
    let to = encoder();
    let gif = two_frame_gif();
    let focus = decode_focus(&gif, &to, Size::new(40, 20), 5).unwrap().unwrap();
    assert_eq!(focus.frame(5).size, Size::new(40, 10));
    assert_eq!(focus.loaded_at, 5);
    assert!(decode_focus(b"no gif", &to, Size::new(40, 20), 0).unwrap().is_none());
    let grid = decode_preview(&gif, &to, 0).unwrap().unwrap();
    assert_eq!(grid.frame(0).size, Size::new(2, 1));
}

#[test]
fn encoders_know_which_sizes_they_take() {
    let to = encoder();
    assert!(to.can_take(Size::new(12, 4), Scaling::Fit));
    assert!(!to.can_take(Size::new(0, 4), Scaling::Fit));
    assert!(!to.can_take(Size::new(12, 0), Scaling::Enlarge));
    assert!(to.can_take(Size::new(u16::MAX, u16::MAX), Scaling::Fit));
    // Cells are 10 by 20 pixels here.
    assert!(to.can_take(Size::new(6553, 3276), Scaling::Enlarge));
    assert!(!to.can_take(Size::new(6554, 3276), Scaling::Enlarge));
    assert!(!to.can_take(Size::new(6553, 3277), Scaling::Enlarge));
    let frame = GifFrame {
        width: 20,
        height: 10,
        pixels: vec![255; 800],
        delay_numer: 10,
        delay_denom: 1,
    };
    let encoded = to.encode(&frame, Size::new(40, 20), Scaling::Enlarge).unwrap();
    assert_eq!(encoded.size, Size::new(40, 10));
}

#[test]
#[allow(deprecated)]
fn a_terminal_whose_cells_have_no_size_gets_no_encoder() {
    assert!(Encoder::new(Picker::from_fontsize((0, 20).into())).is_none());
    assert!(Encoder::new(Picker::from_fontsize((10, 0).into())).is_none());
    assert!(Encoder::new(Picker::from_fontsize((10, 20).into())).is_some());
}

#[test]
fn only_the_first_frames_are_decoded() {
    let many: Vec<(u8, u32)> = (0..30).map(|i| (i * 8, 40)).collect();
    let cached = decode_with(&gif_of(&many), gray, CELL, Scaling::Fit, 0).unwrap().unwrap();
    assert_eq!(cached.frame_count(), MAX_FRAMES);
    assert_eq!(cached.delays.len(), MAX_FRAMES);
}

#[test]
fn truncated_gif_is_a_decode_error() {
    let mut bytes = two_frame_gif();
    bytes.truncate(bytes.len() / 2);
    assert!(matches!(
        decode_with(&bytes, gray, CELL, Scaling::Fit, 0),
        Err(DecodeError::Gif(_))
    ));
    assert!(matches!(
        decode_with(b"GIF89a", gray, CELL, Scaling::Fit, 0),
        Err(DecodeError::Gif(_))
    ));
}

#[test]
fn older_gifs_are_not_taken() {
    let mut bytes = two_frame_gif();
    bytes[4] = b'7';
    assert!(decode_with(&bytes, gray, CELL, Scaling::Fit, 0).unwrap().is_none());
}

#[test]
fn frames_that_cannot_be_prepared_are_an_error() {
    let bytes = gif_of(&[(10, 100), (200, 100)]);
    let picky = |f: &GifFrame, _: Size, _: Scaling| {
        if f.pixels[0] > 100 {
            Err("too bright")
        } else {
            Ok(())
        }
    };
    assert!(matches!(
        decode_with(&bytes, picky, CELL, Scaling::Fit, 0),
        Err(DecodeError::Encode("too bright"))
    ));
}

#[test]
fn frames_are_put_together_in_order() {
    let frame = |p: u8, numer, denom| GifFrame {
        width: 1,
        height: 1,
        pixels: vec![p, 0, 0, 255],
        delay_numer: numer,
        delay_denom: denom,
    };
    let size = Size::new(1, 1);
    let given = vec![Ok(frame(1, 999, 10)), Ok(frame(2, 5, 0)), Ok(frame(3, 500, 1))];
    let cached = assemble(given, b"raw", gray, size, Scaling::Fit, 5)
        .unwrap()
        .unwrap();
    assert_eq!(cached.delays, vec![99, 40, 500]);
    assert_eq!(cached.frames[2].0, 3);
    assert_eq!(cached.bytes.as_slice(), b"raw");
    assert!(assemble(Vec::new(), b"", gray, size, Scaling::Fit, 0)
        .unwrap()
        .is_none());
}
