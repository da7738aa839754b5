//! Images on their way between the clipboard (RGBA) and the wire (PNG).

use image::{GenericImageView, ImageEncoder};

use vstd::prelude::*;

verus! {

/// The most bytes that decoding an image may take.
pub const DECODE_MAX_ALLOC: u64 = 67108864;

/// An image of `width` by `height` pixels, four bytes each, row by row.
#[derive(Debug, Clone, PartialEq, Eq)]
pub struct RgbaImage {
    pub width: usize,
    pub height: usize,
    pub bytes: Vec<u8>,
}

/// An image as a mathematical value.
#[verifier::ext_equal]
pub struct Picture {
    pub width: nat,
    pub height: nat,
    pub rgba: Seq<u8>,
}

impl View for RgbaImage {
    type V = Picture;

    open spec fn view(&self) -> Picture {
        Picture { width: self.width as nat, height: self.height as nat, rgba: self.bytes@ }
    }
}

/// Why an image could not be converted.
#[derive(Debug, Clone, Copy, PartialEq, Eq, Structural)]
pub enum ImageCodecError {
    /// The codec refused the data.
    Codec,
    /// The decoded image would take more than [`DECODE_MAX_ALLOC`] bytes.
    OverBudget,
}

#[verifier::external_type_specification]
#[verifier::external_body]
pub struct ExDynamicImage(image::DynamicImage);

#[verifier::external_type_specification]
#[verifier::external_body]
pub struct ExImageError(image::ImageError);

/// The pixels that a decoded image holds, as RGBA bytes.
pub uninterp spec fn decoded_rgba(img: image::DynamicImage) -> Seq<u8>;

/// Width and height of a decoded image.
pub uninterp spec fn decoded_size(img: image::DynamicImage) -> (u32, u32);

/// What the PNG decoder makes of `png` within `max_alloc` bytes: width, height
/// and RGBA bytes, or nothing where it fails.
pub uninterp spec fn png_decoding(png: Seq<u8>, max_alloc: u64) -> Option<(u32, u32, Seq<u8>)>;

/// What the PNG encoder makes of RGBA bytes, or nothing where it fails.
pub uninterp spec fn png_encoding(rgba: Seq<u8>, width: u32, height: u32) -> Option<Seq<u8>>;

/// `image::codecs::png::PngEncoder::write_image` with `ExtendedColorType::Rgba8`.
/// Claimed: the encoding depends on the pixels and the size alone, and PNG
/// keeps them: where the encoding decodes at all, it decodes to the same image.
#[verifier::external_body]
fn write_png(rgba: &[u8], width: u32, height: u32) -> (r: Result<Vec<u8>, image::ImageError>)
    requires
        rgba@.len() == width * height * 4,
    ensures
        match r {
            Ok(png) => png_encoding(rgba@, width, height) == Some(png@),
            Err(_) => png_encoding(rgba@, width, height) is None,
        },
        r matches Ok(png) ==> forall|max_alloc: u64|
            #![trigger png_decoding(png@, max_alloc)]
            png_decoding(png@, max_alloc) matches Some(img) ==> img == (width, height, rgba@),
{
    let mut out = Vec::new();
    let encoder = image::codecs::png::PngEncoder::new(&mut out);
    encoder.write_image(rgba, width, height, image::ExtendedColorType::Rgba8)?;
    Ok(out)
}

/// `image::ImageReader::decode` for PNG with `Limits::max_alloc`. Claimed: what
/// comes out depends on the bytes and the limit alone, and has four bytes for
/// each pixel when it is taken as RGBA.
#[verifier::external_body]
fn read_png(png: &[u8], max_alloc: u64) -> (r: Result<image::DynamicImage, image::ImageError>)
    ensures
        match r {
            Ok(img) => png_decoding(png@, max_alloc) == Some(
                (decoded_size(img).0, decoded_size(img).1, decoded_rgba(img)),
            ),
            Err(_) => png_decoding(png@, max_alloc) is None,
        },
        r matches Ok(img) ==> decoded_rgba(img).len() == decoded_size(img).0 * decoded_size(img).1
            * 4,
{
    let mut limits = image::Limits::default();
    limits.max_alloc = Some(max_alloc);
    let cursor = std::io::Cursor::new(png);
    let mut reader = image::ImageReader::with_format(cursor, image::ImageFormat::Png);
    reader.limits(limits);
    reader.decode()
}

/// `image::GenericImageView::dimensions`: width and height of the image.
#[verifier::external_body]
fn image_dimensions(img: &image::DynamicImage) -> (r: (u32, u32))
    ensures
        r == decoded_size(*img),
{
    img.dimensions()
}

/// `image::DynamicImage::to_rgba8`: a copy of the image as RGBA bytes, of the
/// same size.
#[verifier::external_body]
fn image_to_rgba8(img: &image::DynamicImage) -> (r: (u32, u32, Vec<u8>))
    ensures
        (r.0, r.1) == decoded_size(*img),
        r.2@ == decoded_rgba(*img),
{
    let rgba = img.to_rgba8();
    let (w, h) = rgba.dimensions();
    (w, h, rgba.into_raw())
}

/// Encodes an image as PNG. What is decoded again is the same image.
pub fn encode_rgba_to_png(img: &RgbaImage) -> (r: Result<Vec<u8>, ImageCodecError>)
    requires
        img.bytes@.len() == (img.width as u32) * (img.height as u32) * 4,
    ensures
        match png_encoding(img.bytes@, img.width as u32, img.height as u32) {
            Some(png) => r matches Ok(v) && v@ == png,
            None => r == Err::<Vec<u8>, ImageCodecError>(ImageCodecError::Codec),
        },
        r matches Ok(v) ==> (decoded_picture(png_decoding(v@, DECODE_MAX_ALLOC)) matches Ok(back)
            ==> back == (Picture {
            width: (img.width as u32) as nat,
            height: (img.height as u32) as nat,
            rgba: img.bytes@,
        })),
{
    match write_png(img.bytes.as_slice(), img.width as u32, img.height as u32) {
        Ok(png) => Ok(png),
        Err(_) => Err(ImageCodecError::Codec),
    }
}

/// What decoding a PNG gives: the image, unless the decoder fails or the image
/// is over the budget.
pub open spec fn decoded_picture(
    decoding: Option<(u32, u32, Seq<u8>)>,
) -> Result<Picture, ImageCodecError> {
    match decoding {
        None => Err(ImageCodecError::Codec),
        Some((w, h, rgba)) => if w * h * 4 > DECODE_MAX_ALLOC {
            Err(ImageCodecError::OverBudget)
        } else {
            Ok(Picture { width: w as nat, height: h as nat, rgba })
        },
    }
}

/// Whether `w` by `h` pixels of four bytes fit the budget.
pub fn within_budget(w: u32, h: u32) -> (r: bool)
    ensures
        r == (w * h * 4 <= DECODE_MAX_ALLOC),
{
    assert(w * h <= 0xffff_ffff * 0xffff_ffff) by (nonlinear_arith)
        requires
            w <= 0xffff_ffff,
            h <= 0xffff_ffff,
    ;
    let pixels: u64 = w as u64 * h as u64;
    pixels <= DECODE_MAX_ALLOC / 4
}

/// Decodes a PNG to RGBA, within [`DECODE_MAX_ALLOC`] bytes.
pub fn decode_png_to_rgba(bytes: &[u8]) -> (r: Result<RgbaImage, ImageCodecError>)
    ensures
        match decoded_picture(png_decoding(bytes@, DECODE_MAX_ALLOC)) {
            Ok(picture) => r matches Ok(img) && img@ == picture && img.bytes@.len() == img.width
                * img.height * 4,
            Err(e) => r == Err::<RgbaImage, ImageCodecError>(e),
        },
{
    let img = match read_png(bytes, DECODE_MAX_ALLOC) {
        Ok(img) => img,
        Err(_) => return Err(ImageCodecError::Codec),
    };
    let (w, h) = image_dimensions(&img);
    if !within_budget(w, h) {
        return Err(ImageCodecError::OverBudget);
    }
    let (width, height, rgba) = image_to_rgba8(&img);
    Ok(RgbaImage { width: width as usize, height: height as usize, bytes: rgba })
}

/// An image that the decoder makes of a PNG is taken as it is, up to 64 MiB of
/// pixels; a larger one is refused, and so is what is no PNG.
pub proof fn law_decoded_image_is_taken_as_it_is(
    png: &[u8],
    r: Result<RgbaImage, ImageCodecError>,
    w: u32,
    h: u32,
    rgba: Seq<u8>,
)
    requires
        call_ensures(decode_png_to_rgba, (png,), r),
    ensures
        png_decoding(png@, 67108864) is None ==> r == Err::<RgbaImage, _>(
            ImageCodecError::Codec,
        ),
        png_decoding(png@, 67108864) == Some((w, h, rgba)) ==> {
            &&& w * h * 4 <= 64 * 1024 * 1024 ==> (r matches Ok(img) && img.width == w && img.height
                == h && img.bytes@ == rgba)
            &&& w * h * 4 > 64 * 1024 * 1024 ==> r == Err::<RgbaImage, _>(
                ImageCodecError::OverBudget,
            )
        },
{
}

/// An image is encoded by its own pixels and its own size, and a failure of the
/// encoder is told.
pub proof fn law_image_is_encoded_as_it_is(img: RgbaImage, r: Result<Vec<u8>, ImageCodecError>)
    requires
        call_ensures(encode_rgba_to_png, (&img,), r),
    ensures
        r is Ok <==> png_encoding(img.bytes@, img.width as u32, img.height as u32) is Some,
        r matches Ok(png) ==> png_encoding(img.bytes@, img.width as u32, img.height as u32) == Some(
            png@,
        ),
{
}

} // verus!
