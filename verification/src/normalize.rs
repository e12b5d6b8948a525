use vstd::prelude::*;

use crate::PAGE_HEIGHT_PX;
use crate::PAGE_WIDTH_PX;
use crate::errors::PipelineError;

verus! {

/// The RGB raster a byte buffer decodes to: its pixel bytes (three per
/// pixel, row-major), its width and its height; `None` when the bytes
/// are not a decodable image.
pub uninterp spec fn decoded_rgb(file: Seq<u8>) -> Option<(Seq<u8>, nat, nat)>;

/// The quarter-turn counter-clockwise rotation of a w-by-h RGB raster:
/// the result is h wide and w tall, and its pixel (x, y) is the source
/// pixel (w - 1 - y, x), channel by channel.
pub open spec fn rotated270_rgb(px: Seq<u8>, w: nat, h: nat) -> Seq<u8>
    recommends
        px.len() == 3 * w * h,
{
    Seq::new(
        3 * w * h,
        |i: int|
            {
                let c = i % 3;
                let q = i / 3;
                let x = q % (h as int);
                let y = q / (h as int);
                px[3 * (x * (w as int) + ((w as int) - 1 - y)) + c]
            },
    )
}

/// The luminance of one sRGB pixel, by the integer coefficients
/// 2126/7152/722 over 10000; the result always fits a byte.
pub open spec fn spec_luma(r: u8, g: u8, b: u8) -> u8 {
    ((2126 * (r as int) + 7152 * (g as int) + 722 * (b as int)) / 10000) as u8
}

/// The single-channel luminance raster of a w-by-h RGB raster: one
/// byte per pixel, each the luminance of the pixel's three channels.
pub open spec fn grayscale_rgb(px: Seq<u8>, w: nat, h: nat) -> Seq<u8>
    recommends
        px.len() == 3 * w * h,
{
    Seq::new(w * h, |q: int| spec_luma(px[3 * q], px[3 * q + 1], px[3 * q + 2]))
}

/// The w-by-h grayscale raster resampled to tw-by-th with the
/// Catmull-Rom filter.
pub uninterp spec fn resized_gray(px: Seq<u8>, w: nat, h: nat, tw: nat, th: nat) -> Seq<u8>;

/// The JPEG encoding of a w-by-h grayscale raster, at the encoder's
/// default quality.
pub uninterp spec fn jpeg_gray(px: Seq<u8>, w: nat, h: nat) -> Seq<u8>;

/// Relies on image::load_from_memory and DynamicImage::to_rgb8: what a
/// byte buffer decodes to depends on the buffer alone, and the raw
/// container of an RGB8 buffer holds three bytes per pixel.
#[verifier::external_body]
fn decode_rgb(file: &Vec<u8>) -> (r: Result<(Vec<u8>, u32, u32), PipelineError>)
    ensures
        r is Ok <==> decoded_rgb(file@) is Some,
        r is Ok ==> r->Ok_0.0@ == decoded_rgb(file@)->Some_0.0 && r->Ok_0.1 as nat == decoded_rgb(
            file@,
        )->Some_0.1 && r->Ok_0.2 as nat == decoded_rgb(file@)->Some_0.2,
        r is Ok ==> r->Ok_0.0@.len() == 3 * (r->Ok_0.1 as int) * (r->Ok_0.2 as int),
        r is Err ==> r->Err_0 == PipelineError::Decode,
{
    match image::load_from_memory(file.as_slice()) {
        Ok(img) => {
            let rgb = img.to_rgb8();
            let (w, h) = rgb.dimensions();
            Ok((rgb.into_raw(), w, h))
        },
        Err(_) => Err(PipelineError::Decode),
    }
}

/// Relies on imageops::rotate270: it writes source pixel (x, y) to
/// destination pixel (y, w - 1 - x) of an h-by-w raster, which is
/// exactly the mapping `rotated270_rgb` states.
#[verifier::external_body]
fn rotate270_rgb(px: Vec<u8>, w: u32, h: u32) -> (r: Vec<u8>)
    requires
        px@.len() == 3 * (w as int) * (h as int),
    ensures
        r@ == rotated270_rgb(px@, w as nat, h as nat),
{
    let buf: image::RgbImage = image::RgbImage::from_raw(w, h, px).unwrap();
    image::imageops::rotate270(&buf).into_raw()
}

/// Relies on imageops::grayscale: it keeps the dimensions and maps
/// each pixel to its integer sRGB luminance, which is exactly what
/// `grayscale_rgb` states.
#[verifier::external_body]
fn grayscale_rgb_px(px: Vec<u8>, w: u32, h: u32) -> (r: Vec<u8>)
    requires
        px@.len() == 3 * (w as int) * (h as int),
    ensures
        r@ == grayscale_rgb(px@, w as nat, h as nat),
{
    let buf: image::RgbImage = image::RgbImage::from_raw(w, h, px).unwrap();
    image::imageops::grayscale(&buf).into_raw()
}

/// Relies on imageops::resize: the result has exactly the requested
/// dimensions, and resampling is a pure function of its input.
#[verifier::external_body]
fn resize_gray(px: Vec<u8>, w: u32, h: u32, tw: u32, th: u32) -> (r: Vec<u8>)
    requires
        px@.len() == (w as int) * (h as int),
        w >= 1,
        h >= 1,
        tw >= 1,
        th >= 1,
    ensures
        r@ == resized_gray(px@, w as nat, h as nat, tw as nat, th as nat),
        r@.len() == (tw as int) * (th as int),
{
    let buf: image::GrayImage = image::GrayImage::from_raw(w, h, px).unwrap();
    image::imageops::resize(&buf, tw, th, image::imageops::FilterType::CatmullRom).into_raw()
}

/// Relies on codecs::jpeg::JpegEncoder: encoding to an in-memory buffer
/// cannot fail for a grayscale raster within JPEG's dimension limits,
/// and the bytes produced depend on the raster alone.
#[verifier::external_body]
fn encode_gray_jpeg(px: Vec<u8>, w: u32, h: u32) -> (r: Vec<u8>)
    requires
        px@.len() == (w as int) * (h as int),
        1 <= w <= 65535,
        1 <= h <= 65535,
    ensures
        r@ == jpeg_gray(px@, w as nat, h as nat),
{
    let mut out: Vec<u8> = Vec::new();
    let mut enc = image::codecs::jpeg::JpegEncoder::new(&mut out);
    enc.encode(px.as_slice(), w, h, image::ColorType::L8).expect("in-memory jpeg encoding");
    out
}

/// A source image wider than tall is considered landscape and must be
/// rotated into portrait orientation before it is placed on a page.
pub fn needs_rotation(width: u32, height: u32) -> (r: bool)
    ensures
        r == (width > height),
{
    width > height
}

/// The orientation-corrected raster: rotated a quarter turn
/// counter-clockwise when landscape, untouched otherwise.
pub open spec fn spec_oriented(px: Seq<u8>, w: nat, h: nat) -> (Seq<u8>, nat, nat) {
    if w > h {
        (rotated270_rgb(px, w, h), h, w)
    } else {
        (px, w, h)
    }
}

/// What normalization produces from one source image's bytes: decode
/// to RGB, correct the orientation, convert to grayscale, resample to
/// the fixed page resolution, and encode as JPEG. `None` exactly when
/// the bytes do not decode to a usable raster.
pub open spec fn spec_normalized(file: Seq<u8>) -> Option<Seq<u8>> {
    match decoded_rgb(file) {
        Option::None => Option::None,
        Option::Some(t) => {
            if t.1 >= 1 && t.2 >= 1 {
                let o = spec_oriented(t.0, t.1, t.2);
                Option::Some(
                    jpeg_gray(
                        resized_gray(
                            grayscale_rgb(o.0, o.1, o.2),
                            o.1,
                            o.2,
                            PAGE_WIDTH_PX as nat,
                            PAGE_HEIGHT_PX as nat,
                        ),
                        PAGE_WIDTH_PX as nat,
                        PAGE_HEIGHT_PX as nat,
                    ),
                )
            } else {
                Option::None
            }
        },
    }
}

/// Turns one source image into a normalized page artifact. Fails with
/// `Decode` exactly when the bytes do not decode to a usable raster;
/// every other input yields the JPEG of the oriented, grayscaled,
/// page-sized raster.
pub fn normalize_image(file: &Vec<u8>) -> (r: Result<Vec<u8>, PipelineError>)
    ensures
        r is Ok <==> spec_normalized(file@) is Some,
        r is Ok ==> r->Ok_0@ == spec_normalized(file@)->Some_0,
        r is Err ==> r->Err_0 == PipelineError::Decode,
{
    let (px, w, h) = match decode_rgb(file) {
        Result::Ok(t) => t,
        Result::Err(e) => {
            return Err(e);
        },
    };
    if w < 1 || h < 1 {
        return Err(PipelineError::Decode);
    }
    let (opx, ow, oh) = if needs_rotation(w, h) {
        let turned = rotate270_rgb(px, w, h);
        proof {
            assert(3 * (w as int) * (h as int) == 3 * (h as int) * (w as int)) by (nonlinear_arith);
        }
        (turned, h, w)
    } else {
        (px, w, h)
    };
    let gray = grayscale_rgb_px(opx, ow, oh);
    let resized = resize_gray(gray, ow, oh, PAGE_WIDTH_PX, PAGE_HEIGHT_PX);
    Ok(encode_gray_jpeg(resized, PAGE_WIDTH_PX, PAGE_HEIGHT_PX))
}

/// Normalizes a whole corpus of source images, in order: one page
/// artifact per image. One undecodable image fails the whole run; on
/// success there are exactly as many artifacts as images, each the
/// normalization of the image in its place.
pub fn normalize_corpus(images: &Vec<Vec<u8>>) -> (r: Result<Vec<Vec<u8>>, PipelineError>)
    ensures
        r is Ok <==> (forall|i: int| 0 <= i < images@.len() ==> spec_normalized(images@[i]@) is Some),
        r is Ok ==> r->Ok_0@.len() == images@.len(),
        r is Ok ==> (forall|i: int|
            0 <= i < images@.len() ==> r->Ok_0@[i]@ == spec_normalized(images@[i]@)->Some_0),
        r is Err ==> r->Err_0 == PipelineError::Decode,
{
    let mut pages: Vec<Vec<u8>> = Vec::new();
    let mut idx: usize = 0;
    while idx < images.len()
        invariant
            idx <= images@.len(),
            pages@.len() == idx,
            forall|i: int| 0 <= i < idx ==> spec_normalized(images@[i]@) is Some,
            forall|i: int| 0 <= i < idx ==> pages@[i]@ == spec_normalized(images@[i]@)->Some_0,
        decreases images@.len() - idx,
    {
        let src = &images[idx];
        match normalize_image(src) {
            Result::Ok(page) => {
                pages.push(page);
            },
            Result::Err(e) => {
                return Err(e);
            },
        }
        idx = idx + 1;
    }
    Ok(pages)
}

/// Every normalized artifact encodes a raster of exactly the fixed
/// page resolution, whatever the source resolution or aspect ratio.
pub proof fn lemma_normalized_page_sized(file: Seq<u8>)
    ensures
        spec_normalized(file) is Some ==> exists|px: Seq<u8>|
            spec_normalized(file)->Some_0 == jpeg_gray(
                px,
                PAGE_WIDTH_PX as nat,
                PAGE_HEIGHT_PX as nat,
            ),
{
    if spec_normalized(file) is Some {
        let t = decoded_rgb(file)->Some_0;
        let o = spec_oriented(t.0, t.1, t.2);
        let witness = resized_gray(
            grayscale_rgb(o.0, o.1, o.2),
            o.1,
            o.2,
            PAGE_WIDTH_PX as nat,
            PAGE_HEIGHT_PX as nat,
        );
        assert(spec_normalized(file)->Some_0 == jpeg_gray(
            witness,
            PAGE_WIDTH_PX as nat,
            PAGE_HEIGHT_PX as nat,
        ));
    }
}

/// The orientation rule: a source wider than tall goes through the
/// quarter-turn rotation before grayscale and resampling, and one
/// taller than or as tall as wide does not.
pub proof fn lemma_orientation_rule(px: Seq<u8>, w: nat, h: nat)
    ensures
        w > h ==> spec_oriented(px, w, h) == (rotated270_rgb(px, w, h), h, w),
        w <= h ==> spec_oriented(px, w, h) == (px, w, h),
{
}

} // verus!
