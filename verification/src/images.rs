//! Covers and comic pages as images: decoding the bytes found in a book,
//! shrinking them, and encoding them as JPEG for the storage and the
//! browser. The pixel work is the `image` crate's.

use vstd::prelude::*;
use image::imageops::FilterType;
use std::io::Cursor;

verus! {

/// Whether `image::load_from_memory` decodes these bytes (it guesses the
/// format from them): a function of the bytes alone.
pub uninterp spec fn image_decodes(bytes: Seq<u8>) -> bool;

/// The JPEG cover made from an image's bytes: decoded, shrunk with
/// `filter` to fit in `width` by `height` pixels, turned into 8-bit RGB
/// and encoded at `quality`; none when the bytes do not decode or the
/// encoder fails. A function of its arguments alone.
pub uninterp spec fn cover_jpeg(
    bytes: Seq<u8>,
    width: u32,
    height: u32,
    filter: ResizeFilter,
    quality: u8,
) -> Option<Seq<u8>>;

/// The JPEG comic page made from an image's bytes at their own size:
/// decoded and encoded at `quality`; none when the bytes do not decode or
/// the encoder fails. A function of its arguments alone.
pub uninterp spec fn page_jpeg(bytes: Seq<u8>, quality: u8) -> Option<Seq<u8>>;

/// The JPEG comic page made from an image's bytes, shrunk with `filter`
/// to fit in `width` by `height` pixels: decoded, resized, encoded at
/// `quality`; none when the bytes do not decode or the encoder fails. A
/// function of its arguments alone.
pub uninterp spec fn page_jpeg_within(
    bytes: Seq<u8>,
    width: u32,
    height: u32,
    filter: ResizeFilter,
    quality: u8,
) -> Option<Seq<u8>>;

/// The filters that images are resized with (those of
/// `image::imageops::FilterType` that the library uses).
#[derive(PartialEq, Eq, Structural)]
pub enum ResizeFilter {
    /// Linear interpolation (`FilterType::Triangle`).
    Triangle,
}

/// The box a cover is shrunk into, in pixels.
pub const COVER_WIDTH: u32 = 280;

/// The box a cover is shrunk into, in pixels.
pub const COVER_HEIGHT: u32 = 430;

/// The JPEG quality of covers and comic pages.
pub const JPEG_QUALITY: u8 = 75;

/// The filter covers and comic pages are resized with.
pub open spec fn resize_filter() -> ResizeFilter {
    ResizeFilter::Triangle
}

/// The view of optional bytes.
pub open spec fn opt_bytes(o: Option<Vec<u8>>) -> Option<Seq<u8>> {
    match o {
        Some(v) => Some(v@),
        None => None,
    }
}

/// `image::load_from_memory`, then `DynamicImage::resize(width, height,
/// filter)` (aspect ratio kept), then `into_rgb8` written by
/// `JpegEncoder::new_with_quality(.., quality)`. Claimed: the result is the
/// name `cover_jpeg` of the arguments, and bytes that do not decode give
/// none.
#[verifier::external_body]
fn cover_jpeg_of(
    bytes: &Vec<u8>,
    width: u32,
    height: u32,
    filter: ResizeFilter,
    quality: u8,
) -> (r: Option<Vec<u8>>)
    ensures
        opt_bytes(r) == cover_jpeg(bytes@, width, height, filter, quality),
        !image_decodes(bytes@) ==> r is None,
{
    let img = match image::load_from_memory(bytes.as_slice()) {
        Ok(img) => img,
        Err(_) => return None,
    };
    let filter_type = match filter {
        ResizeFilter::Triangle => FilterType::Triangle,
    };
    let mut out: Vec<u8> = Vec::new();
    let encoder = image::codecs::jpeg::JpegEncoder::new_with_quality(&mut out, quality);
    match img.resize(width, height, filter_type).into_rgb8().write_with_encoder(encoder) {
        Ok(_) => Some(out),
        Err(_) => None,
    }
}

/// `image::load_from_memory`, then `DynamicImage::write_to` with
/// `ImageOutputFormat::Jpeg(quality)`. Claimed: the result is the name
/// `page_jpeg` of the arguments, and bytes that do not decode give none.
#[verifier::external_body]
fn page_jpeg_of(bytes: &Vec<u8>, quality: u8) -> (r: Option<Vec<u8>>)
    ensures
        opt_bytes(r) == page_jpeg(bytes@, quality),
        !image_decodes(bytes@) ==> r is None,
{
    let img = match image::load_from_memory(bytes.as_slice()) {
        Ok(img) => img,
        Err(_) => return None,
    };
    let mut out: Vec<u8> = Vec::new();
    match img.write_to(&mut Cursor::new(&mut out), image::ImageOutputFormat::Jpeg(quality)) {
        Ok(_) => Some(out),
        Err(_) => None,
    }
}

/// `image::load_from_memory`, then `DynamicImage::resize(width, height,
/// filter)` (aspect ratio kept), then `DynamicImage::write_to` with
/// `ImageOutputFormat::Jpeg(quality)`. Claimed: the result is the name
/// `page_jpeg_within` of the arguments, and bytes that do not decode give
/// none.
#[verifier::external_body]
fn page_jpeg_within_of(
    bytes: &Vec<u8>,
    width: u32,
    height: u32,
    filter: ResizeFilter,
    quality: u8,
) -> (r: Option<Vec<u8>>)
    ensures
        opt_bytes(r) == page_jpeg_within(bytes@, width, height, filter, quality),
        !image_decodes(bytes@) ==> r is None,
{
    let img = match image::load_from_memory(bytes.as_slice()) {
        Ok(img) => img,
        Err(_) => return None,
    };
    let filter_type = match filter {
        ResizeFilter::Triangle => FilterType::Triangle,
    };
    let page = img.resize(width, height, filter_type);
    let mut out: Vec<u8> = Vec::new();
    match page.write_to(&mut Cursor::new(&mut out), image::ImageOutputFormat::Jpeg(quality)) {
        Ok(_) => Some(out),
        Err(_) => None,
    }
}

/// The cover stored for a book, from the bytes of its cover image:
/// decoded, shrunk with the triangle filter to fit in 280 by 430 pixels,
/// encoded as JPEG of quality 75; none when the bytes do not decode or the
/// encoder fails.
pub fn cover_from_bytes(bytes: &Vec<u8>) -> (r: Option<Vec<u8>>)
    ensures
        opt_bytes(r) == cover_jpeg(bytes@, 280, 430, resize_filter(), 75),
        !image_decodes(bytes@) ==> r is None,
{
    cover_jpeg_of(bytes, COVER_WIDTH, COVER_HEIGHT, ResizeFilter::Triangle, JPEG_QUALITY)
}

/// The comic page sent for a size asked by the reader: shrunk with the
/// triangle filter into the box of that size when it has one, else at its
/// own size; JPEG of quality 75.
pub open spec fn comic_page_jpeg(bytes: Seq<u8>, bounds: Option<(u32, u32)>) -> Option<Seq<u8>> {
    match bounds {
        Some((w, h)) => page_jpeg_within(bytes, w, h, resize_filter(), 75),
        None => page_jpeg(bytes, 75),
    }
}

/// A comic page as the reader gets it: the image found in the archive,
/// shrunk into the box of the size asked for (`800px`, `1000px`; other
/// sizes keep the image as it is), encoded as JPEG. None when the bytes
/// do not decode or the encoder fails.
pub fn comic_page_image(bytes: &Vec<u8>, size: &str) -> (r: Option<Vec<u8>>)
    ensures
        opt_bytes(r) == comic_page_jpeg(bytes@, crate::scan::comic_page_bounds_of(size@)),
        !image_decodes(bytes@) ==> r is None,
{
    match crate::scan::comic_page_bounds(size) {
        Some((w, h)) => page_jpeg_within_of(bytes, w, h, ResizeFilter::Triangle, JPEG_QUALITY),
        None => page_jpeg_of(bytes, JPEG_QUALITY),
    }
}

} // verus!
