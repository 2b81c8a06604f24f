//! Decoding of the game's PNG images, through minipng.

use vstd::prelude::*;
use minipng::{BitDepth, ColorType, ImageData, ImageHeader};

verus! {

/// A decoding error of minipng.
#[verifier::external_type_specification]
#[verifier::external_body]
pub struct ExPngError(minipng::Error);

/// Image metadata read by minipng.
#[verifier::external_type_specification]
#[verifier::external_body]
pub struct ExImageHeader(ImageHeader);

/// An image decoded by minipng into a buffer that it borrows.
#[verifier::external_type_specification]
#[verifier::external_body]
pub struct ExImageData<'a>(ImageData<'a>);

/// The bits per sample of a PNG image.
#[verifier::external_type_specification]
#[verifier::external_body]
pub struct ExBitDepth(BitDepth);

/// The colour format of a PNG image.
#[verifier::external_type_specification]
#[verifier::external_body]
pub struct ExColorType(ColorType);

/// The image width that a PNG file declares (the big-endian word at bytes 16
/// to 19, inside the leading IHDR chunk) is below 2^26, which is to say its
/// first byte is below 4; a file too short to hold it is refused by minipng
/// before the width is read. minipng multiplies the width by up to 64 bits
/// per pixel in a `usize`, which overflows on 32-bit targets for wider images.
pub open spec fn width_in_range(bytes: Seq<u8>) -> bool {
    bytes.len() < 20 || bytes[16] < 4
}

/// Relies on `minipng::decode_png_header`, which reads the image's metadata.
pub assume_specification[ minipng::decode_png_header ](bytes: &[u8]) -> minipng::Result<
    ImageHeader,
>
    requires
        width_in_range(bytes@),
;

/// Relies on `minipng::ImageHeader::required_bytes`, the buffer size that
/// `decode_png` needs.
pub assume_specification[ ImageHeader::required_bytes ](h: &ImageHeader) -> usize;

/// Relies on `minipng::decode_png`, which reads the metadata as
/// `decode_png_header` does, then decodes the image into `buf`.
pub assume_specification<'a>[ minipng::decode_png ](bytes: &[u8], buf: &'a mut [u8]) -> minipng::Result<
    ImageData<'a>,
>
    requires
        width_in_range(bytes@),
;

/// Relies on `minipng::ImageData::width`.
pub assume_specification<'a>[ ImageData::<'a>::width ](d: &ImageData<'a>) -> u32;

/// Relies on `minipng::ImageData::height`.
pub assume_specification<'a>[ ImageData::<'a>::height ](d: &ImageData<'a>) -> u32;

/// Relies on `minipng::ImageData::bit_depth`.
pub assume_specification<'a>[ ImageData::<'a>::bit_depth ](d: &ImageData<'a>) -> BitDepth;

/// Relies on `minipng::ImageData::color_type`.
pub assume_specification<'a>[ ImageData::<'a>::color_type ](d: &ImageData<'a>) -> ColorType;

/// Relies on `minipng::ImageData::palette`: the red, green, blue and alpha
/// of a palette entry.
pub assume_specification<'a>[ ImageData::<'a>::palette ](d: &ImageData<'a>, index: u8) -> [u8; 4];

/// Relies on `minipng::BitDepth` being `repr(u8)` with each variant's
/// discriminant equal to its number of bits.
#[verifier::external_body]
fn depth_bits(d: BitDepth) -> (r: u8)
    ensures
        r == 1 || r == 2 || r == 4 || r == 8 || r == 16,
{
    d as u8
}

/// Relies on `minipng::ColorType`'s variants: tells the indexed format apart.
#[verifier::external_body]
fn is_indexed(t: ColorType) -> bool {
    match t {
        ColorType::Indexed => true,
        _ => false,
    }
}

/// Why an image could not be loaded.
#[derive(Debug, Clone, Copy, PartialEq, Eq, Structural)]
pub enum AssetError {
    /// The bytes are no PNG image that minipng can decode.
    Decode,
    /// The image is not in the indexed colour format.
    NotIndexed,
    /// The image is too small for what it has to hold.
    TooSmall,
}

/// What is read from a decoded PNG image.
pub struct DecodedImage {
    pub width: u32,
    pub height: u32,
    /// The decoding buffer, whose first bytes are the pixels, row by row.
    pub pixels: Vec<u8>,
    /// Bits per sample: 1, 2, 4, 8 or 16.
    pub bit_depth: u8,
    pub indexed: bool,
    /// Red, green and blue of the first `bit_depth` palette entries.
    pub palette: Vec<u8>,
}

/// Reads the red, green and blue of palette entries `0..count` of `image`.
fn palette_from_imagedata(image: &ImageData, count: u8) -> (r: Vec<u8>)
    ensures
        r@.len() == 3 * count,
{
    let mut palette: Vec<u8> = Vec::new();
    let mut i: u8 = 0;
    while i < count
        invariant
            i <= count,
            palette@.len() == 3 * i,
        decreases count - i,
    {
        let rgba = image.palette(i);
        palette.push(rgba[0]);
        palette.push(rgba[1]);
        palette.push(rgba[2]);
        i = i + 1;
    }
    palette
}

/// Decodes `png`: first its header, for the size of the buffer, then the
/// image into that buffer. The palette holds as many entries as the image
/// has bits per sample. An image 2^26 pixels wide or more is refused before
/// minipng sees it.
pub fn decode(png: &[u8]) -> (r: Result<DecodedImage, AssetError>)
    ensures
        r matches Ok(d) ==> {
            &&& d.bit_depth == 1 || d.bit_depth == 2 || d.bit_depth == 4 || d.bit_depth == 8
                || d.bit_depth == 16
            &&& d.palette@.len() == 3 * d.bit_depth
        },
        r matches Err(e) ==> e == AssetError::Decode,
        !width_in_range(png@) ==> r is Err,
{
    if png.len() >= 20 && png[16] >= 4 {
        return Err(AssetError::Decode);
    }
    let header = match minipng::decode_png_header(png) {
        Ok(h) => h,
        Err(_) => return Err(AssetError::Decode),
    };
    let bytes_needed = header.required_bytes();
    let mut buffer: Vec<u8> = Vec::new();
    buffer.resize(bytes_needed, 0);
    let (width, height, bit_depth, indexed, palette) = match minipng::decode_png(
        png,
        buffer.as_mut_slice(),
    ) {
        Ok(image) => {
            let bit_depth = depth_bits(image.bit_depth());
            (
                image.width(),
                image.height(),
                bit_depth,
                is_indexed(image.color_type()),
                palette_from_imagedata(&image, bit_depth),
            )
        },
        Err(_) => return Err(AssetError::Decode),
    };
    Ok(DecodedImage { width, height, pixels: buffer, bit_depth, indexed, palette })
}

} // verus!
