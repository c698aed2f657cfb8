use vstd::prelude::*;

verus! {

/// A decoded in-memory raster of the image library, carried opaquely
/// through the pipeline.
#[verifier::external_type_specification]
#[verifier::external_body]
pub struct ExDynamicImage(image::DynamicImage);

/// The decoded pixel content of a raster, as a sequence of samples.  Two
/// byte-different files that decode to the same picture have equal pixel
/// content.
pub uninterp spec fn pixels_of(img: image::DynamicImage) -> Seq<u8>;

/// What decoding a byte stream yields: `None` where the bytes are not a
/// readable image in any supported format, otherwise the pixel content.
pub uninterp spec fn content_of(bytes: Seq<u8>) -> Option<Seq<u8>>;

/// The 64-bit perceptual fingerprint of pixel content.
pub uninterp spec fn fp_of(pixels: Seq<u8>) -> u64;

/// The PNG encoding of pixel content, `None` where the encoder refuses it.
pub uninterp spec fn png_of(pixels: Seq<u8>) -> Option<Seq<u8>>;

/// Pixel content downsized to fit a square bound.
pub uninterp spec fn shrunk_of(pixels: Seq<u8>, bound: u32) -> Seq<u8>;

/// The JPEG encoding of pixel content at a quality setting, `None` where
/// the encoder refuses it.
pub uninterp spec fn jpeg_of(pixels: Seq<u8>, quality: u8) -> Option<Seq<u8>>;

/// Relies on image::io::Reader: the format is guessed from the bytes
/// themselves, never from a file name, and the decode runs without any
/// allocation limit, so the decoded raster is a function of the bytes
/// alone, however large the picture.
#[verifier::external_body]
pub(crate) fn decode_image(bytes: &Vec<u8>) -> (r: Option<image::DynamicImage>)
    ensures
        r is Some <==> content_of(bytes@) is Some,
        r matches Some(img) ==> Some(pixels_of(img)) == content_of(bytes@),
{
    let reader = image::io::Reader::new(std::io::Cursor::new(bytes));
    match reader.with_guessed_format() {
        Ok(mut guessed) => {
            guessed.no_limits();
            guessed.decode().ok()
        },
        Err(_) => None,
    }
}

/// Relies on imagehash::average_hash: a 64-bit perceptual summary computed
/// from the decoded pixel content alone, so identical pictures always give
/// identical fingerprints.
#[verifier::external_body]
pub(crate) fn hash_image(img: &image::DynamicImage) -> (h: u64)
    ensures
        h == fp_of(pixels_of(*img)),
{
    let bytes = imagehash::average_hash(img).to_bytes();
    let mut raw = [0u8; 8];
    raw.copy_from_slice(&bytes[..8]);
    u64::from_be_bytes(raw)
}

/// Relies on image::DynamicImage::write_to with the PNG encoder: the
/// encoding is a function of the pixel content alone, and PNG is lossless,
/// so decoding the encoded bytes yields the same pixel content back.
#[verifier::external_body]
pub(crate) fn encode_png(img: &image::DynamicImage) -> (r: Option<Vec<u8>>)
    ensures
        r is Some <==> png_of(pixels_of(*img)) is Some,
        r matches Some(b) ==> Some(b@) == png_of(pixels_of(*img)),
        r matches Some(b) ==> content_of(b@) == Some(pixels_of(*img)),
{
    let mut buffer = Vec::new();
    let cursor = &mut std::io::Cursor::new(&mut buffer);
    match img.write_to(cursor, image::ImageOutputFormat::Png) {
        Ok(()) => Some(buffer),
        Err(_) => None,
    }
}

/// Relies on image::DynamicImage::resize: downsizes to fit the square bound
/// with Lanczos3 resampling, preserving aspect ratio, a function of the
/// pixel content and the bound alone.
#[verifier::external_body]
pub(crate) fn resize_to_fit(img: &image::DynamicImage, bound: u32) -> (t: image::DynamicImage)
    ensures
        pixels_of(t) == shrunk_of(pixels_of(*img), bound),
{
    img.resize(bound, bound, image::imageops::FilterType::Lanczos3)
}

/// Relies on image::DynamicImage::write_to with the JPEG encoder at the
/// given quality: a function of the pixel content and the quality alone.
#[verifier::external_body]
pub(crate) fn encode_jpeg(img: &image::DynamicImage, quality: u8) -> (r: Option<Vec<u8>>)
    ensures
        r is Some <==> jpeg_of(pixels_of(*img), quality) is Some,
        r matches Some(b) ==> Some(b@) == jpeg_of(pixels_of(*img), quality),
{
    let mut buffer = Vec::new();
    let cursor = &mut std::io::Cursor::new(&mut buffer);
    match img.write_to(cursor, image::ImageOutputFormat::Jpeg(quality)) {
        Ok(()) => Some(buffer),
        Err(_) => None,
    }
}

/// JPEG quality used for every thumbnail: a fixed moderate setting.
pub const THUMBNAIL_QUALITY: u8 = 60;

/// Decodes a file's bytes and computes the content fingerprint used as the
/// dedup key.  `None` exactly on bytes that are not a readable image.
pub fn decode_and_fingerprint(bytes: &Vec<u8>) -> (r: Option<(image::DynamicImage, u64)>)
    ensures
        r is Some <==> content_of(bytes@) is Some,
        r matches Some(p) ==> {
            &&& Some(pixels_of(p.0)) == content_of(bytes@)
            &&& p.1 == fp_of(pixels_of(p.0))
        },
{
    match decode_image(bytes) {
        Some(img) => {
            let fingerprint = hash_image(&img);
            Some((img, fingerprint))
        },
        None => None,
    }
}

/// The PNG bytes submitted to the classification service and written to
/// content-addressed storage for this raster.
pub fn render_png(img: &image::DynamicImage) -> (r: Option<Vec<u8>>)
    ensures
        r is Some <==> png_of(pixels_of(*img)) is Some,
        r matches Some(b) ==> Some(b@) == png_of(pixels_of(*img)),
        r matches Some(b) ==> content_of(b@) == Some(pixels_of(*img)),
{
    encode_png(img)
}

/// The thumbnail bytes for a raster: downsized to the configured bound and
/// encoded as JPEG at the fixed moderate quality.
pub fn render_thumbnail(img: &image::DynamicImage, bound: u32) -> (r: Option<Vec<u8>>)
    ensures
        r is Some <==> jpeg_of(shrunk_of(pixels_of(*img), bound), THUMBNAIL_QUALITY) is Some,
        r matches Some(b)
            ==> Some(b@) == jpeg_of(shrunk_of(pixels_of(*img), bound), THUMBNAIL_QUALITY),
{
    let small = resize_to_fit(img, bound);
    encode_jpeg(&small, THUMBNAIL_QUALITY)
}

} // verus!
