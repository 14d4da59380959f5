//! Decoding of GIFs into previews.

use std::io::Cursor;
use std::sync::Arc;

use image::AnimationDecoder;
use vstd::prelude::*;

use crate::encode::{Encoded, Encoder, Scaling};
use crate::geometry::Size;
use crate::grid::{PREVIEW_HEIGHT, PREVIEW_WIDTH};
use crate::preview::CachedPreview;

verus! {

/// How many frames of a GIF are shown.
pub const MAX_FRAMES: usize = 24;

/// The least time, in milliseconds, for which a frame is shown.
pub const MIN_FRAME_DELAY: u64 = 40;

/// An error of the image decoder.
#[verifier::external_type_specification]
#[verifier::external_body]
pub struct ExImageError(image::ImageError);

/// One frame of a GIF: its size, the four bytes of each of its pixels, and how
/// long it is shown, as a fraction of milliseconds.
#[derive(Debug)]
pub struct GifFrame {
    pub width: u32,
    pub height: u32,
    pub pixels: Vec<u8>,
    pub delay_numer: u32,
    pub delay_denom: u32,
}

impl GifFrame {
    /// Its size is one that a GIF can have, and all its pixels are there.
    pub open spec fn whole(&self) -> bool {
        &&& self.width <= u16::MAX
        &&& self.height <= u16::MAX
        &&& self.pixels@.len() == 4 * self.width * self.height
    }
}

/// Whether every frame that could be decoded is whole.
pub open spec fn all_whole(frames: Seq<Result<GifFrame, image::ImageError>>) -> bool {
    forall|i: int|
        0 <= i < frames.len() && (#[trigger] frames[i]) is Ok ==> frames[i]->Ok_0.whole()
}

/// What a frame holds: width, height, pixels and delay.
pub open spec fn frame_data(f: GifFrame) -> (u32, u32, Seq<u8>, u32, u32) {
    (f.width, f.height, f.pixels@, f.delay_numer, f.delay_denom)
}

/// What decoding made of each frame: its data, or `None` for an error.
pub open spec fn frames_data(frames: Seq<Result<GifFrame, image::ImageError>>) -> Seq<
    Option<(u32, u32, Seq<u8>, u32, u32)>,
> {
    frames.map_values(
        |f: Result<GifFrame, image::ImageError>|
            match f {
                Ok(g) => Some(frame_data(g)),
                Err(_) => None,
            },
    )
}

/// What decoding makes of the first frames, at most `limit`, of a GIF; `None`
/// for bytes that do not start as a GIF has to.
pub uninterp spec fn gif_frames(bytes: Seq<u8>, limit: usize) -> Option<
    Seq<Option<(u32, u32, Seq<u8>, u32, u32)>>,
>;

/// `GifDecoder::new` of the image crate on the bytes, and as many frames as it
/// gives, at most `limit`, out of `into_frames`. What comes out depends on the
/// bytes and the limit alone. A frame has the size of the GIF's screen, which is
/// counted in 16 bits, and comes with all its pixels. What an error says is left
/// open.
#[verifier::external_body]
fn decode_frames(bytes: &[u8], limit: usize) -> (r: Result<
    Vec<Result<GifFrame, image::ImageError>>,
    image::ImageError,
>)
    ensures
        match r {
            Ok(frames) => {
                &&& gif_frames(bytes@, limit) == Some(frames_data(frames@))
                &&& frames@.len() <= limit
                &&& all_whole(frames@)
            },
            Err(_) => gif_frames(bytes@, limit) is None,
        },
{
    let decoder = image::codecs::gif::GifDecoder::new(Cursor::new(bytes))?;
    Ok(decoder.into_frames().take(limit).map(|frame| frame.map(|f| {
        let (delay_numer, delay_denom) = f.delay().numer_denom_ms();
        let (width, height) = f.buffer().dimensions();
        let pixels = f.into_buffer().into_raw();
        GifFrame { width, height, pixels, delay_numer, delay_denom }
    })).collect())
}

/// Why a GIF could not be made into a preview.
#[derive(Debug)]
pub enum DecodeError<E> {
    /// It could not be decoded.
    Gif(image::ImageError),
    /// A frame could not be prepared for the terminal.
    Encode(E),
}

/// How many milliseconds a frame is shown: as long as it says, rounded down,
/// and not too short.
pub open spec fn shown_for(numer: u32, denom: u32) -> u64 {
    let asked = numer / if denom < 1 {
        1
    } else {
        denom
    };
    if asked < MIN_FRAME_DELAY {
        MIN_FRAME_DELAY
    } else {
        asked as u64
    }
}

/// Whether the first `n` frames could be decoded and prepared.
pub open spec fn prepared<F, E, P: Fn(&GifFrame, Size, Scaling) -> Result<F, E>>(
    given: Seq<Result<GifFrame, image::ImageError>>,
    prepare: P,
    size: Size,
    scaling: Scaling,
    n: int,
) -> bool {
    forall|i: int|
        0 <= i < n ==> (#[trigger] given[i]) is Ok && exists|f: F| #[trigger]
            prepare.ensures((&given[i]->Ok_0, size, scaling), Ok(f))
}

/// What becomes of decoded frames: a preview made of all of them, in order, each
/// prepared for the terminal; nothing if there are none; or the first error, be
/// it in decoding a frame or in preparing it.
pub open spec fn assembled<F, E, P: Fn(&GifFrame, Size, Scaling) -> Result<F, E>>(
    given: Seq<Result<GifFrame, image::ImageError>>,
    bytes: Seq<u8>,
    prepare: P,
    size: Size,
    scaling: Scaling,
    now: u128,
    r: Result<Option<CachedPreview<F>>, DecodeError<E>>,
) -> bool {
    match r {
        Ok(Some(c)) => {
            &&& given.len() > 0
            &&& c.frames@.len() == given.len()
            &&& c.delays@.len() == given.len()
            &&& forall|i: int|
                0 <= i < given.len() ==> {
                    &&& (#[trigger] given[i]) is Ok
                    &&& prepare.ensures((&given[i]->Ok_0, size, scaling), Ok(c.frames@[i]))
                    &&& c.delays@[i] == shown_for(
                        given[i]->Ok_0.delay_numer,
                        given[i]->Ok_0.delay_denom,
                    )
                }
            &&& c.loaded_at == now
            &&& c.bytes@ == bytes
        },
        Ok(None) => given.len() == 0,
        Err(DecodeError::Gif(e)) => exists|k: int|
            0 <= k < given.len() && (#[trigger] given[k]) == Err::<GifFrame, image::ImageError>(e)
                && prepared(given, prepare, size, scaling, k),
        Err(DecodeError::Encode(e)) => exists|k: int|
            0 <= k < given.len() && (#[trigger] given[k]) is Ok && prepare.ensures(
                (&given[k]->Ok_0, size, scaling),
                Err(e),
            ) && prepared(given, prepare, size, scaling, k),
    }
}

fn copy_bytes(bytes: &[u8]) -> (r: Vec<u8>)
    ensures
        r@ == bytes@,
{
    let mut out: Vec<u8> = Vec::new();
    let mut i: usize = 0;
    while i < bytes.len()
        invariant
            i <= bytes@.len(),
            out@ == bytes@.take(i as int),
        decreases bytes@.len() - i,
    {
        out.push(bytes[i]);
        i += 1;
        assert(bytes@.take(i as int) == bytes@.take(i - 1).push(bytes@[i - 1]));
    }
    assert(bytes@.take(i as int) == bytes@);
    out
}

/// Makes a preview of decoded frames; `prepare` brings a frame to its size and
/// into the form that the terminal takes.
pub fn assemble<F, E, P: Fn(&GifFrame, Size, Scaling) -> Result<F, E>>(
    given: Vec<Result<GifFrame, image::ImageError>>,
    bytes: &[u8],
    prepare: P,
    size: Size,
    scaling: Scaling,
    now: u128,
) -> (r: Result<Option<CachedPreview<F>>, DecodeError<E>>)
    requires
        all_whole(given@),
        forall|f: GifFrame| f.whole() ==> #[trigger] prepare.requires((&f, size, scaling)),
    ensures
        assembled(given@, bytes@, prepare, size, scaling, now, r),
{
    let ghost all = given@;
    let mut frames: Vec<F> = Vec::new();
    let mut delays: Vec<u64> = Vec::new();
    for item in it: given
        invariant
            it.seq() == all,
            frames@.len() == it.index(),
            delays@.len() == it.index(),
            all_whole(all),
            forall|f: GifFrame| f.whole() ==> #[trigger] prepare.requires((&f, size, scaling)),
            forall|i: int|
                0 <= i < it.index() ==> {
                    &&& (#[trigger] all[i]) is Ok
                    &&& prepare.ensures((&all[i]->Ok_0, size, scaling), Ok(frames@[i]))
                    &&& delays@[i] == shown_for(
                        all[i]->Ok_0.delay_numer,
                        all[i]->Ok_0.delay_denom,
                    )
                },
    {
        let ghost k = it.index() as int;
        assert(all[k] == item);
        assert(prepared(all, prepare, size, scaling, k));
        match item {
            Err(e) => {
                return Err(DecodeError::Gif(e));
            },
            Ok(frame) => {
                match prepare(&frame, size, scaling) {
                    Err(e) => {
                        return Err(DecodeError::Encode(e));
                    },
                    Ok(f) => {
                        let denom: u32 = if frame.delay_denom < 1 {
                            1
                        } else {
                            frame.delay_denom
                        };
                        let asked: u64 = (frame.delay_numer / denom) as u64;
                        frames.push(f);
                        delays.push(
                            if asked < MIN_FRAME_DELAY {
                                MIN_FRAME_DELAY
                            } else {
                                asked
                            },
                        );
                    },
                }
            },
        }
    }
    if frames.len() == 0 {
        return Ok(None);
    }
    Ok(
        Some(
            CachedPreview { frames, delays, loaded_at: now, bytes: Arc::new(copy_bytes(bytes)) },
        ),
    )
}

/// The bytes that a GIF starts with: `GIF89a`.
pub open spec fn gif_magic() -> Seq<u8> {
    seq![71u8, 73u8, 70u8, 56u8, 57u8, 97u8]
}

/// Whether bytes start as a GIF does.
pub open spec fn looks_like_gif(bytes: Seq<u8>) -> bool {
    bytes.len() >= 6 && bytes.take(6) == gif_magic()
}

fn has_magic(bytes: &[u8]) -> (r: bool)
    ensures
        r == looks_like_gif(bytes@),
{
    if bytes.len() < 6 {
        return false;
    }
    let r: bool = bytes[0] == 71 && bytes[1] == 73 && bytes[2] == 70 && bytes[3] == 56 && bytes[4]
        == 57 && bytes[5] == 97;
    proof {
        let t = bytes@.take(6);
        if r {
            assert(t == gif_magic());
        } else if t == gif_magic() {
            assert(t[0] == 71 && t[1] == 73 && t[2] == 70 && t[3] == 56 && t[4] == 57 && t[5]
                == 97);
        }
    }
    r
}

/// Decodes a GIF and makes a preview of it; `prepare` brings a frame to its size
/// and into the form that the terminal takes. Bytes that are no GIF, and a GIF
/// without frames, give nothing.
pub fn decode_with<F, E, P: Fn(&GifFrame, Size, Scaling) -> Result<F, E>>(
    bytes: &[u8],
    prepare: P,
    size: Size,
    scaling: Scaling,
    now: u128,
) -> (r: Result<Option<CachedPreview<F>>, DecodeError<E>>)
    requires
        forall|f: GifFrame| f.whole() ==> #[trigger] prepare.requires((&f, size, scaling)),
    ensures
        !looks_like_gif(bytes@) ==> r == Ok::<Option<CachedPreview<F>>, DecodeError<E>>(None),
        looks_like_gif(bytes@) && gif_frames(bytes@, MAX_FRAMES) is None ==> r is Err
            && r->Err_0 is Gif,
        looks_like_gif(bytes@) && gif_frames(bytes@, MAX_FRAMES) is Some ==> exists|
            given: Seq<Result<GifFrame, image::ImageError>>,
        |
            gif_frames(bytes@, MAX_FRAMES) == Some(#[trigger] frames_data(given)) && given.len()
                <= MAX_FRAMES && assembled(given, bytes@, prepare, size, scaling, now, r),
{
    if !has_magic(bytes) {
        return Ok(None);
    }
    match decode_frames(bytes, MAX_FRAMES) {
        Err(e) => Err(DecodeError::Gif(e)),
        Ok(given) => {
            let ghost all = given@;
            assert(gif_frames(bytes@, MAX_FRAMES) == Some(frames_data(all)));
            assemble(given, bytes, prepare, size, scaling, now)
        },
    }
}

/// Whether the first `n` frames could be decoded and encoded.
pub open spec fn all_encoded(
    given: Seq<Result<GifFrame, image::ImageError>>,
    encoder: Encoder,
    size: Size,
    scaling: Scaling,
    n: int,
) -> bool {
    forall|i: int|
        0 <= i < n ==> (#[trigger] given[i]) is Ok && exists|f: Encoded| #[trigger]
            encoder.gives(given[i]->Ok_0, size, scaling, Ok(f))
}

/// What becomes of decoded frames: a preview made of all of them, in order, each
/// as the encoder gives it for the size and the scaling, with its delay and
/// covering as many cells as it may; nothing if there are none; or the first
/// error, be it in decoding a frame or in encoding it.
pub open spec fn shown_as(
    given: Seq<Result<GifFrame, image::ImageError>>,
    bytes: Seq<u8>,
    encoder: Encoder,
    size: Size,
    scaling: Scaling,
    now: u128,
    r: Result<Option<CachedPreview<Encoded>>, DecodeError<ratatui_image::errors::Errors>>,
) -> bool {
    match r {
        Ok(Some(c)) => {
            &&& given.len() > 0
            &&& c.frames@.len() == given.len()
            &&& c.delays@.len() == given.len()
            &&& forall|i: int|
                0 <= i < given.len() ==> {
                    &&& (#[trigger] given[i]) is Ok
                    &&& encoder.gives(given[i]->Ok_0, size, scaling, Ok(c.frames@[i]))
                    &&& encoder.covers(given[i]->Ok_0, size, scaling, c.frames@[i].size)
                    &&& c.delays@[i] == shown_for(
                        given[i]->Ok_0.delay_numer,
                        given[i]->Ok_0.delay_denom,
                    )
                }
            &&& c.loaded_at == now
            &&& c.bytes@ == bytes
        },
        Ok(None) => given.len() == 0,
        Err(DecodeError::Gif(e)) => exists|k: int|
            0 <= k < given.len() && (#[trigger] given[k]) == Err::<GifFrame, image::ImageError>(e)
                && all_encoded(given, encoder, size, scaling, k),
        Err(DecodeError::Encode(e)) => exists|k: int|
            0 <= k < given.len() && (#[trigger] given[k]) is Ok && encoder.gives(
                given[k]->Ok_0,
                size,
                scaling,
                Err(e),
            ) && all_encoded(given, encoder, size, scaling, k),
    }
}

/// Decodes a GIF into frames fitted to `size` cells (used for both grid previews
/// and the enlarged view). Bytes that are no GIF, and a GIF without frames, give
/// nothing.
pub fn decode_preview_at(
    bytes: &[u8],
    encoder: &Encoder,
    size: Size,
    scaling: Scaling,
    now: u128,
) -> (r: Result<Option<CachedPreview<Encoded>>, DecodeError<ratatui_image::errors::Errors>>)
    requires
        encoder.takes(size, scaling),
    ensures
        !looks_like_gif(bytes@) ==> r is Ok && r->Ok_0 is None,
        looks_like_gif(bytes@) && gif_frames(bytes@, MAX_FRAMES) is None ==> r is Err
            && r->Err_0 is Gif,
        looks_like_gif(bytes@) && gif_frames(bytes@, MAX_FRAMES) is Some ==> exists|
            given: Seq<Result<GifFrame, image::ImageError>>,
        |
            gif_frames(bytes@, MAX_FRAMES) == Some(#[trigger] frames_data(given)) && given.len()
                <= MAX_FRAMES && shown_as(given, bytes@, *encoder, size, scaling, now, r),
{
    let prepare = |f: &GifFrame, s: Size, c: Scaling| -> (e: Result<
        Encoded,
        ratatui_image::errors::Errors,
    >)
        requires
            f.whole(),
            encoder.takes(s, c),
        ensures
            encoder.gives(*f, s, c, e),
            e is Ok ==> encoder.covers(*f, s, c, e->Ok_0.size),
        { encoder.encode(f, s, c) };
    decode_with(bytes, prepare, size, scaling, now)
}

/// Decodes a GIF for a cell of the grid.
pub fn decode_preview(bytes: &[u8], encoder: &Encoder, now: u128) -> (r: Result<
    Option<CachedPreview<Encoded>>,
    DecodeError<ratatui_image::errors::Errors>,
>)
    ensures
        !looks_like_gif(bytes@) ==> r is Ok && r->Ok_0 is None,
        looks_like_gif(bytes@) && gif_frames(bytes@, MAX_FRAMES) is None ==> r is Err
            && r->Err_0 is Gif,
        looks_like_gif(bytes@) && gif_frames(bytes@, MAX_FRAMES) is Some ==> exists|
            given: Seq<Result<GifFrame, image::ImageError>>,
        |
            gif_frames(bytes@, MAX_FRAMES) == Some(#[trigger] frames_data(given)) && given.len()
                <= MAX_FRAMES && shown_as(
                given,
                bytes@,
                *encoder,
                Size { width: PREVIEW_WIDTH, height: PREVIEW_HEIGHT },
                Scaling::Fit,
                now,
                r,
            ),
{
    let size: Size = Size { width: PREVIEW_WIDTH, height: PREVIEW_HEIGHT };
    decode_preview_at(bytes, encoder, size, Scaling::Fit, now)
}

/// Decodes a GIF for the enlarged view, of the given size, which small frames are
/// scaled up to fill.
pub fn decode_focus(bytes: &[u8], encoder: &Encoder, size: Size, now: u128) -> (r: Result<
    Option<CachedPreview<Encoded>>,
    DecodeError<ratatui_image::errors::Errors>,
>)
    requires
        encoder.takes(size, Scaling::Enlarge),
    ensures
        !looks_like_gif(bytes@) ==> r is Ok && r->Ok_0 is None,
        looks_like_gif(bytes@) && gif_frames(bytes@, MAX_FRAMES) is None ==> r is Err
            && r->Err_0 is Gif,
        looks_like_gif(bytes@) && gif_frames(bytes@, MAX_FRAMES) is Some ==> exists|
            given: Seq<Result<GifFrame, image::ImageError>>,
        |
            gif_frames(bytes@, MAX_FRAMES) == Some(#[trigger] frames_data(given)) && given.len()
                <= MAX_FRAMES && shown_as(given, bytes@, *encoder, size, Scaling::Enlarge, now, r),
{
    decode_preview_at(bytes, encoder, size, Scaling::Enlarge, now)
}

} // verus!
