use std::sync::Arc;
use vstd::prelude::*;

use crate::geometry::Aspect;
use crate::text::str_eq;

verus! {

/// One batch request: an identifier, the destination stem of the
/// untouched source, an optional size floor, the backgrounds to pick
/// from by orientation, and every output recipe.
pub struct ImageProcessingRequest {
    pub id: String,
    pub path: String,
    pub min_size: Option<i32>,
    pub save_original: bool,
    pub portrait_environment_image: Option<EnvironmentImage>,
    pub landscape_environment_image: Option<EnvironmentImage>,
    pub configurations: Vec<ImageConfiguration>,
}

/// One output's recipe.
pub struct ImageConfiguration {
    pub id: String,
    pub path: String,
    pub aspect: Aspect,
    pub margin_percent: i32,
    pub size: i32,
    pub quality: i32,
    pub conditions: ImageConditions,
}

/// The boolean switches of one output.
#[derive(Clone, Copy, PartialEq, Eq, Structural, Debug)]
pub struct ImageConditions {
    pub transparent: bool,
    pub trim: bool,
    pub black_and_white: bool,
    pub use_environment_image: bool,
    pub allow_vector: bool,
}

/// Descriptor of a background image to composite behind the subject.
#[derive(Debug)]
pub struct EnvironmentImage {
    pub path: String,
    pub width: i32,
    pub height: i32,
    pub x: i32,
    pub y: i32,
    pub margin_percent: i32,
}

/// The response record of one produced output; the only data that
/// survives a request.
#[derive(Debug)]
pub struct ProcessedImage {
    pub id: String,
    pub alternative_to: Option<String>,
    pub path: String,
    pub url: String,
    pub mime: String,
    pub hash: String,
    pub size: u64,
}

/// One produced output on its way to storage.
#[derive(Debug, Clone)]
pub struct UploadImage {
    pub id: String,
    pub alternative_to: Option<String>,
    pub mime: String,
    pub path: String,
    pub data: Arc<Vec<u8>>,
}

/// How one output is encoded; the pixel capability writes the bytes.
#[derive(Clone, Copy, PartialEq, Eq, Structural, Debug)]
pub enum EncodeFormat {
    /// PNG with an sRGB profile.
    Png,
    /// JPEG at the given quality over a white background, sRGB.
    Jpeg { quality: i32 },
    /// The sibling encoding at the given quality, sRGB.
    Webp { quality: i32 },
}

/// The MIME type a decoder name stands for.
pub open spec fn spec_loader_mime(loader: Seq<char>) -> Seq<char> {
    if loader == "jpegload_buffer"@ {
        "image/jpeg"@
    } else if loader == "jxlload_buffer"@ {
        "image/jxl"@
    } else if loader == "magickload_buffer"@ {
        "application/octet-stream"@
    } else if loader == "pngload_buffer"@ {
        "image/png"@
    } else if loader == "radload_buffer"@ {
        "image/x-radiance"@
    } else if loader == "svgload_buffer"@ {
        "image/svg+xml"@
    } else if loader == "tiffload_buffer"@ {
        "image/tiff"@
    } else if loader == "webpload_buffer"@ {
        "image/webp"@
    } else if loader == "pdfload_buffer"@ {
        "application/pdf"@
    } else if loader == "jp2kload_buffer"@ {
        "image/jp2"@
    } else if loader == "heifload_buffer"@ {
        "image/heif"@
    } else if loader == "gifload_buffer"@ {
        "image/gif"@
    } else {
        "application/octet-stream"@
    }
}

/// The file extension a decoder name stands for.
pub open spec fn spec_loader_ext(loader: Seq<char>) -> Seq<char> {
    if loader == "jpegload_buffer"@ {
        "jpg"@
    } else if loader == "jxlload_buffer"@ {
        "jxl"@
    } else if loader == "magickload_buffer"@ {
        "magick"@
    } else if loader == "pngload_buffer"@ {
        "png"@
    } else if loader == "radload_buffer"@ {
        "rad"@
    } else if loader == "svgload_buffer"@ {
        "svg"@
    } else if loader == "tiffload_buffer"@ {
        "tiff"@
    } else if loader == "webpload_buffer"@ {
        "webp"@
    } else if loader == "pdfload_buffer"@ {
        "pdf"@
    } else if loader == "jp2kload_buffer"@ {
        "jp2"@
    } else if loader == "heifload_buffer"@ {
        "heif"@
    } else if loader == "gifload_buffer"@ {
        "gif"@
    } else {
        "bin"@
    }
}

/// Maps the source decoder's name to the MIME type and file extension
/// under which the untouched source is stored.
pub fn loader_to_mime_ext(loader: &str) -> (r: (&'static str, &'static str))
    ensures
        r.0@ == spec_loader_mime(loader@),
        r.1@ == spec_loader_ext(loader@),
{
    if str_eq(loader, "jpegload_buffer") {
        ("image/jpeg", "jpg")
    } else if str_eq(loader, "jxlload_buffer") {
        ("image/jxl", "jxl")
    } else if str_eq(loader, "magickload_buffer") {
        ("application/octet-stream", "magick")
    } else if str_eq(loader, "pngload_buffer") {
        ("image/png", "png")
    } else if str_eq(loader, "radload_buffer") {
        ("image/x-radiance", "rad")
    } else if str_eq(loader, "svgload_buffer") {
        ("image/svg+xml", "svg")
    } else if str_eq(loader, "tiffload_buffer") {
        ("image/tiff", "tiff")
    } else if str_eq(loader, "webpload_buffer") {
        ("image/webp", "webp")
    } else if str_eq(loader, "pdfload_buffer") {
        ("application/pdf", "pdf")
    } else if str_eq(loader, "jp2kload_buffer") {
        ("image/jp2", "jp2")
    } else if str_eq(loader, "heifload_buffer") {
        ("image/heif", "heif")
    } else if str_eq(loader, "gifload_buffer") {
        ("image/gif", "gif")
    } else {
        ("application/octet-stream", "bin")
    }
}

/// The sources whose decoder allows a sibling output in the modern
/// encoding.
pub open spec fn spec_alternative_possible(loader: Seq<char>) -> bool {
    ||| loader == "jpegload_buffer"@
    ||| loader == "jxlload_buffer"@
    ||| loader == "magickload_buffer"@
    ||| loader == "pngload_buffer"@
    ||| loader == "tiffload_buffer"@
    ||| loader == "webpload_buffer"@
    ||| loader == "jp2kload_buffer"@
    ||| loader == "heifload_buffer"@
    ||| loader == "gifload_buffer"@
}

/// Whether the source decoder admits a sibling output in the modern
/// encoding; vector, document and radiance sources do not.
pub fn alternative_possible(loader: &str) -> (r: bool)
    ensures
        r == spec_alternative_possible(loader@),
{
    if str_eq(loader, "jpegload_buffer") {
        true
    } else if str_eq(loader, "jxlload_buffer") {
        true
    } else if str_eq(loader, "magickload_buffer") {
        true
    } else if str_eq(loader, "pngload_buffer") {
        true
    } else if str_eq(loader, "tiffload_buffer") {
        true
    } else if str_eq(loader, "webpload_buffer") {
        true
    } else if str_eq(loader, "jp2kload_buffer") {
        true
    } else if str_eq(loader, "heifload_buffer") {
        true
    } else if str_eq(loader, "gifload_buffer") {
        true
    } else {
        false
    }
}

} // verus!
