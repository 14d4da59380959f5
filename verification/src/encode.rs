//! Encoding of frames into the form that the terminal takes.

use vstd::prelude::*;

use crate::decode::GifFrame;
use crate::geometry::Size;

verus! {

/// How a frame is brought to the size of its place.
#[derive(Debug, Clone, Copy, PartialEq, Eq, Structural)]
pub enum Scaling {
    /// Made smaller where it has to be, so that small GIFs stay crisp in the
    /// cells of the grid: `Resize::Fit` of ratatui-image, without a filter.
    Fit,
    /// Made smaller or larger, so that a small GIF fills the enlarged view, and
    /// smoothly so: `Resize::Scale` of ratatui-image, with the triangle filter.
    Enlarge,
}

/// What the terminal can show, as ratatui-image found out.
#[verifier::external_type_specification]
#[verifier::external_body]
pub struct ExPicker(ratatui_image::picker::Picker);

/// An image in the form that the terminal takes.
#[verifier::external_type_specification]
#[verifier::external_body]
pub struct ExProtocol(ratatui_image::protocol::Protocol);

/// An error of ratatui-image.
#[verifier::external_type_specification]
#[verifier::external_body]
pub struct ExErrors(ratatui_image::errors::Errors);

/// A frame in the form that the terminal takes, and how many cells it covers.
pub struct Encoded {
    pub protocol: ratatui_image::protocol::Protocol,
    pub size: Size,
}

/// Encodes frames for the terminal that a picker was made for.
pub struct Encoder {
    picker: ratatui_image::picker::Picker,
    font: Size,
}

/// `Picker::font_size` of ratatui-image: the size of a cell in pixels, as the
/// terminal told it. Nothing is claimed of it.
#[verifier::external_body]
fn font_size(picker: &ratatui_image::picker::Picker) -> (r: Size) {
    let font = picker.font_size();
    Size { width: font.width, height: font.height }
}

/// `Picker::new_protocol` of ratatui-image on the pixels of a frame. What comes
/// out rests on the terminal and, by the number that an image is given, on
/// chance; whatever it is, it covers no more cells than it was asked to, as many
/// as `Encoder::covers` says. How the shorter side of a frame that was scaled is
/// rounded, and whether a frame can be encoded, is left open.
#[verifier::external_body]
fn new_protocol(encoder: &Encoder, frame: &GifFrame, size: Size, scaling: Scaling) -> (r: Result<
    Encoded,
    ratatui_image::errors::Errors,
>)
    requires
        frame.whole(),
        encoder.takes(size, scaling),
    ensures
        r is Ok ==> encoder.covers(*frame, size, scaling, r->Ok_0.size),
{
    let pixels = image::ImageBuffer::from_raw(frame.width, frame.height, frame.pixels.clone());
    let image = image::DynamicImage::ImageRgba8(pixels.expect("a whole frame"));
    let resize = match scaling {
        Scaling::Fit => ratatui_image::Resize::Fit(None),
        Scaling::Enlarge => ratatui_image::Resize::Scale(Some(image::imageops::FilterType::Triangle)),
    };
    let cells = ratatui::layout::Size { width: size.width, height: size.height };
    let protocol = encoder.picker.new_protocol(image, cells, resize)?;
    let covered = protocol.size();
    Ok(Encoded { protocol, size: Size { width: covered.width, height: covered.height } })
}

/// Whether `font` is a size that `Picker::font_size` gives for a picker.
pub closed spec fn reports(picker: ratatui_image::picker::Picker, font: Size) -> bool {
    call_ensures(font_size, (&picker,), font)
}

impl Encoder {
    /// The cells of the terminal have a size, and it is the one that the picker
    /// gives.
    #[verifier::type_invariant]
    spec fn has_font(self) -> bool {
        &&& reports(self.picker, self.font)
        &&& self.font.width > 0 && self.font.height > 0
    }

    /// The size of a cell in pixels.
    pub closed spec fn cell(&self) -> Size {
        self.font
    }

    /// The picker that the encoder was made with.
    pub closed spec fn terminal(&self) -> ratatui_image::picker::Picker {
        self.picker
    }

    /// Whether frames can be brought to a size: it is not empty and, where frames
    /// are made larger, its pixels can be counted in a `u16`.
    pub open spec fn takes(&self, size: Size, scaling: Scaling) -> bool {
        &&& size.width > 0 && size.height > 0
        &&& scaling == Scaling::Enlarge ==> {
            &&& size.width * self.cell().width <= u16::MAX
            &&& size.height * self.cell().height <= u16::MAX
        }
    }

    /// Whether a frame has no more pixels each way than a place of the given size.
    pub open spec fn fits(&self, frame: GifFrame, size: Size) -> bool {
        &&& frame.width <= size.width * self.cell().width
        &&& frame.height <= size.height * self.cell().height
    }

    /// Whether `covered` is a size that a frame can have once it was brought to a
    /// place: within the place and, unless the frame has no pixels, reaching from
    /// side to side or from top to bottom. The exception is a frame that fits and
    /// is not to be enlarged: it covers just the cells that its own pixels need.
    /// Nor does any other that is not to be enlarged cover more.
    pub open spec fn covers(
        &self,
        frame: GifFrame,
        size: Size,
        scaling: Scaling,
        covered: Size,
    ) -> bool {
        &&& covered.within(size)
        &&& frame.width > 0 && frame.height > 0 ==> {
            &&& scaling == Scaling::Fit ==> {
                &&& (covered.width - 1) * self.cell().width < frame.width
                &&& (covered.height - 1) * self.cell().height < frame.height
            }
            &&& if scaling == Scaling::Fit && self.fits(frame, size) {
                self.fits(frame, covered)
            } else {
                covered.width == size.width || covered.height == size.height
            }
        }
    }

    /// Whether `r` is an outcome of `Picker::new_protocol`, with the picker that
    /// the encoder was made with, for a frame and a place of the given size.
    pub closed spec fn gives(
        &self,
        frame: GifFrame,
        size: Size,
        scaling: Scaling,
        r: Result<Encoded, ratatui_image::errors::Errors>,
    ) -> bool {
        call_ensures(new_protocol, (self, &frame, size, scaling), r)
    }

    /// An encoder for the terminal, unless its cells have no size.
    pub fn new(picker: ratatui_image::picker::Picker) -> (r: Option<Encoder>)
        ensures
            match r {
                Some(e) => {
                    &&& reports(picker, e.cell())
                    &&& e.cell().width > 0 && e.cell().height > 0
                    &&& e.terminal() == picker
                },
                None => exists|font: Size| #[trigger]
                    reports(picker, font) && (font.width == 0 || font.height == 0),
            },
    {
        let font: Size = font_size(&picker);
        assert(reports(picker, font));
        if font.is_empty() {
            None
        } else {
            Some(Encoder { picker, font })
        }
    }

    /// Whether frames can be brought to a size.
    pub fn can_take(&self, size: Size, scaling: Scaling) -> (r: bool)
        ensures
            r == self.takes(size, scaling),
    {
        if size.is_empty() {
            return false;
        }
        match scaling {
            Scaling::Fit => true,
            Scaling::Enlarge => {
                proof {
                    assert(size.width * self.font.width <= u16::MAX * u16::MAX) by (nonlinear_arith)
                        requires
                            size.width <= u16::MAX,
                            self.font.width <= u16::MAX,
                    ;
                    assert(size.height * self.font.height <= u16::MAX * u16::MAX)
                        by (nonlinear_arith)
                        requires
                            size.height <= u16::MAX,
                            self.font.height <= u16::MAX,
                    ;
                }
                size.width as u64 * self.font.width as u64 <= u16::MAX as u64 && size.height as u64
                    * self.font.height as u64 <= u16::MAX as u64
            },
        }
    }

    /// Encodes a frame for a place of the given size: what comes out, be it an
    /// error, is what the terminal's encoding gives for it.
    pub fn encode(&self, frame: &GifFrame, size: Size, scaling: Scaling) -> (r: Result<
        Encoded,
        ratatui_image::errors::Errors,
    >)
        requires
            frame.whole(),
            self.takes(size, scaling),
        ensures
            self.gives(*frame, size, scaling, r),
            r is Ok ==> self.covers(*frame, size, scaling, r->Ok_0.size),
    {
        new_protocol(self, frame, size, scaling)
    }
}

proof fn lemma_needed_cells_agree(pixels: int, cell: int, a: int, b: int)
    requires
        cell > 0,
        (a - 1) * cell < pixels <= b * cell,
    ensures
        a <= b,
{
    assert(a <= b) by (nonlinear_arith)
        requires
            cell > 0,
            (a - 1) * cell < b * cell,
    ;
}

/// A frame that is not to be enlarged covers the same cells in every place that it
/// fits.
pub proof fn lemma_small_frames_keep_their_size(
    encoder: Encoder,
    frame: GifFrame,
    one: Size,
    other: Size,
    a: Size,
    b: Size,
)
    requires
        encoder.cell().width > 0,
        encoder.cell().height > 0,
        frame.width > 0,
        frame.height > 0,
        encoder.fits(frame, one),
        encoder.fits(frame, other),
        encoder.covers(frame, one, Scaling::Fit, a),
        encoder.covers(frame, other, Scaling::Fit, b),
    ensures
        a == b,
{
    let cell = encoder.cell();
    let (w, h) = (frame.width as int, frame.height as int);
    lemma_needed_cells_agree(w, cell.width as int, a.width as int, b.width as int);
    lemma_needed_cells_agree(w, cell.width as int, b.width as int, a.width as int);
    lemma_needed_cells_agree(h, cell.height as int, a.height as int, b.height as int);
    lemma_needed_cells_agree(h, cell.height as int, b.height as int, a.height as int);
}

} // verus!
