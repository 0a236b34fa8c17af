//! Decoded pixel buffers and alpha-channel removal.
use printpdf::image_crate::codecs::png::PngDecoder;
use printpdf::{ColorBits, ColorSpace};
use vstd::prelude::*;

verus! {

/// How the bytes of a pixel are laid out.
#[derive(Debug, Clone, Copy, PartialEq, Eq, Structural)]
pub enum ColorModel {
    Rgb,
    Rgba,
    Palette,
    Cmyk,
    Greyscale,
    GreyscaleAlpha,
}

/// Bits per color component.
#[derive(Debug, Clone, Copy, PartialEq, Eq, Structural)]
pub enum ComponentBits {
    Bit1,
    Bit8,
    Bit16,
}

/// A decoded image: its size in pixels, its layout and its raw pixel bytes in
/// row-major order.
#[derive(Debug)]
pub struct RasterImage {
    pub width: usize,
    pub height: usize,
    pub color: ColorModel,
    pub bits: ComponentBits,
    pub data: Vec<u8>,
}

/// What a `RasterImage` holds, as mathematical values.
pub struct ImageModel {
    pub width: nat,
    pub height: nat,
    pub color: ColorModel,
    pub bits: ComponentBits,
    pub data: Seq<u8>,
}

impl View for RasterImage {
    type V = ImageModel;

    open spec fn view(&self) -> ImageModel {
        ImageModel {
            width: self.width as nat,
            height: self.height as nat,
            color: self.color,
            bits: self.bits,
            data: self.data@,
        }
    }
}

/// The bytes left when each group of four (R, G, B, A) keeps its first three.
pub open spec fn rgb_of(s: Seq<u8>) -> Seq<u8> {
    Seq::new(s.len() / 4 * 3, |i: int| s[(i / 3) * 4 + i % 3])
}

/// Drops the fourth byte of every four-byte pixel, keeping row-major order.
pub fn strip_alpha(data: &Vec<u8>) -> (r: Vec<u8>)
    requires
        data@.len() % 4 == 0,
    ensures
        r@ == rgb_of(data@),
        r@.len() * 4 == data@.len() * 3,
{
    let len: usize = data.len();
    let n: usize = len / 4;
    let mut out: Vec<u8> = Vec::new();
    let mut p: usize = 0;
    while p < n
        invariant
            len == data@.len(),
            n == len / 4,
            p <= n,
            out@.len() == 3 * p,
            forall|i: int| 0 <= i < 3 * p ==> #[trigger] out@[i] == data@[(i / 3) * 4 + i % 3],
        decreases n - p,
    {
        assert(4 * p + 3 < data@.len());
        out.push(data[4 * p]);
        out.push(data[4 * p + 1]);
        out.push(data[4 * p + 2]);
        assert forall|i: int| 0 <= i < 3 * (p + 1) implies #[trigger] out@[i] == data@[(i / 3) * 4
            + i % 3] by {
            if i >= 3 * p {
                assert(i / 3 == p && i % 3 == i - 3 * p) by (nonlinear_arith)
                    requires
                        3 * p <= i < 3 * p + 3,
                ;
            }
        }
        p = p + 1;
    }
    assert(out@ =~= rgb_of(data@));
    out
}

/// Whether an image is a buffer of 8-bit RGBA pixels.
pub open spec fn is_rgba8(m: ImageModel) -> bool {
    &&& m.color == ColorModel::Rgba
    &&& m.bits == ComponentBits::Bit8
    &&& m.data.len() % 4 == 0
}

/// The image that removing the alpha channel of `m` leaves.
pub open spec fn without_alpha(m: ImageModel) -> ImageModel {
    ImageModel { color: ColorModel::Rgb, data: rgb_of(m.data), ..m }
}

/// Removes the alpha channel of an RGBA image in place.
pub fn remove_alpha(img: &mut RasterImage)
    requires
        old(img).data@.len() % 4 == 0,
    ensures
        final(img)@ == without_alpha(old(img)@),
{
    let rgb = strip_alpha(&img.data);
    img.color = ColorModel::Rgb;
    img.data = rgb;
}

/// The image that decoding the PNG bytes `b` gives, or `None` where they are
/// not a PNG that can be decoded.
pub uninterp spec fn png_decoded(b: Seq<u8>) -> Option<ImageModel>;

/// Relies on printpdf's `Image::try_from` over image's `PngDecoder`: decoding
/// depends on the bytes alone; the fields are moved over as they are.
#[verifier::external_body]
pub(crate) fn decode_png(bytes: &Vec<u8>) -> (r: Option<RasterImage>)
    ensures
        r is Some <==> png_decoded(bytes@) is Some,
        r is Some ==> r->Some_0@ == png_decoded(bytes@)->Some_0,
{
    let d = match PngDecoder::new(std::io::Cursor::new(bytes.as_slice())) { Ok(d) => d, Err(_) => return None };
    let x = match printpdf::Image::try_from(d) { Ok(i) => i.image, Err(_) => return None };
    let color = match x.color_space {
        ColorSpace::Rgb => ColorModel::Rgb, ColorSpace::Rgba => ColorModel::Rgba,
        ColorSpace::Palette => ColorModel::Palette, ColorSpace::Cmyk => ColorModel::Cmyk,
        ColorSpace::Greyscale => ColorModel::Greyscale, ColorSpace::GreyscaleAlpha => ColorModel::GreyscaleAlpha,
    };
    let bits = match x.bits_per_component {
        ColorBits::Bit1 => ComponentBits::Bit1, ColorBits::Bit8 => ComponentBits::Bit8, ColorBits::Bit16 => ComponentBits::Bit16,
    };
    Some(RasterImage { width: x.width.0, height: x.height.0, color, bits, data: x.image_data })
}

} // verus!
