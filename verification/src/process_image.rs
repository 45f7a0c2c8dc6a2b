use std::sync::Arc;
use vstd::prelude::*;
use vstd::string::StringExecFns;

use crate::error::AppError;
use crate::image_modifier::blackandwhite::BlackAndWhiteModifier;
use crate::image_modifier::environment::{EnvironmentModifier, EnvironmentOptions};
use crate::image_modifier::scale::ScaleModifier;
use crate::image_modifier::trim::TrimModifier;
use crate::image_modifier::Modifier;
use crate::image_processing::{
    alternative_possible, loader_to_mime_ext, spec_alternative_possible, spec_loader_ext,
    spec_loader_mime, EncodeFormat, EnvironmentImage, ImageConfiguration, ImageProcessingRequest,
    ProcessedImage, UploadImage,
};
use crate::storage::PutObjectOutput;
use crate::text::{path_with_extension, str_eq};

verus! {

/// The batch flow's first gate: a request must carry both an image
/// field and a details field.
pub fn check_required_parts(has_image: bool, has_details: bool) -> (r: Result<(), AppError>)
    ensures
        (has_image && has_details) <==> r is Ok,
        r is Err ==> (r->Err_0 matches AppError::BadRequest(m) && m@
            == "missing image or details"@),
{
    if has_image && has_details {
        Ok(())
    } else {
        Err(AppError::BadRequest(String::from_str("missing image or details")))
    }
}

/// Portrait means strictly taller than wide, as the batch flow reads
/// the decoded source edges.
pub fn is_portrait(width: i32, height: i32) -> (r: bool)
    ensures
        r == (width < height),
{
    width < height
}

/// The size floor: a request carrying `min_size` rejects a source
/// whose edges are both below it, before any transform runs.
pub fn check_min_size(width: i32, height: i32, min_size: Option<i32>) -> (r: Result<(), AppError>)
    ensures
        (match min_size {
            Some(m) => width < m && height < m,
            None => false,
        }) <==> r is Err,
        r is Err ==> (r->Err_0 matches AppError::BadRequest(m) && m@ == "image too small"@),
{
    match min_size {
        Some(m) => {
            if width < m && height < m {
                Err(AppError::BadRequest(String::from_str("image too small")))
            } else {
                Ok(())
            }
        },
        None => Ok(()),
    }
}

/// Picks the background descriptor matching the source orientation.
pub fn select_environment<'a>(portrait: bool, request: &'a ImageProcessingRequest) -> (r: Option<
    &'a EnvironmentImage,
>)
    ensures
        ({
            let chosen = if portrait {
                request.portrait_environment_image
            } else {
                request.landscape_environment_image
            };
            match r {
                Some(e) => chosen is Some && *e == chosen->0,
                None => chosen is None,
            }
        }),
{
    if portrait {
        request.portrait_environment_image.as_ref()
    } else {
        request.landscape_environment_image.as_ref()
    }
}

/// The composite offsets and edges a background descriptor carries.
pub fn environment_options_of(env: &EnvironmentImage) -> (r: EnvironmentOptions)
    ensures
        r == (EnvironmentOptions {
            width: env.width,
            height: env.height,
            x: env.x,
            y: env.y,
            margin_percent: env.margin_percent,
        }),
{
    EnvironmentOptions {
        width: env.width,
        height: env.height,
        x: env.x,
        y: env.y,
        margin_percent: env.margin_percent,
    }
}

/// The fixed chain one output runs: desaturate first when asked, trim
/// next, always the scale step (uncropped when trimming), and the
/// composite last when a background was resolved and asked for.
pub open spec fn spec_build_modifiers(
    config: ImageConfiguration,
    env: Option<EnvironmentModifier>,
) -> Seq<Modifier> {
    let bw: Seq<Modifier> = if config.conditions.black_and_white {
        seq![Modifier::BlackAndWhite(BlackAndWhiteModifier)]
    } else {
        Seq::empty()
    };
    let tr: Seq<Modifier> = if config.conditions.trim {
        seq![Modifier::Trim(TrimModifier { background: (255u8, 255u8, 255u8) })]
    } else {
        Seq::empty()
    };
    let sc: Seq<Modifier> = seq![
        Modifier::Scale(
            ScaleModifier {
                aspect: config.aspect,
                margin_percentage: config.margin_percent,
                size: Some(config.size),
                crop: !config.conditions.trim,
            },
        ),
    ];
    let en: Seq<Modifier> = if config.conditions.use_environment_image {
        match env {
            Some(e) => seq![Modifier::Environment(e)],
            None => Seq::empty(),
        }
    } else {
        Seq::empty()
    };
    bw + tr + sc + en
}

/// Builds the chain one output runs.
pub fn build_modifiers(config: &ImageConfiguration, environment: Option<EnvironmentModifier>) -> (
    mods: Vec<Modifier>)
    ensures
        mods@ == spec_build_modifiers(*config, environment),
{
    let ghost env0 = environment;
    let mut mods: Vec<Modifier> = Vec::new();
    if config.conditions.black_and_white {
        mods.push(Modifier::BlackAndWhite(BlackAndWhiteModifier));
    }
    if config.conditions.trim {
        mods.push(Modifier::Trim(TrimModifier::new((255, 255, 255))));
    }
    mods.push(
        Modifier::Scale(
            ScaleModifier::new(
                config.aspect,
                config.margin_percent,
                Some(config.size),
                !config.conditions.trim,
            ),
        ),
    );
    if config.conditions.use_environment_image {
        match environment {
            Some(e) => mods.push(Modifier::Environment(e)),
            None => (),
        }
    }
    proof {
        assert(mods@ =~= spec_build_modifiers(*config, env0));
    }
    mods
}

/// The MIME type an output's transparency switch dictates.
pub open spec fn spec_output_mime(transparent: bool) -> Seq<char> {
    if transparent {
        "image/png"@
    } else {
        "image/jpeg"@
    }
}

/// The encoding of one output: lossless with transparency, JPEG at the
/// configured quality over white otherwise.
pub open spec fn spec_encode_format(transparent: bool, quality: i32) -> EncodeFormat {
    if transparent {
        EncodeFormat::Png
    } else {
        EncodeFormat::Jpeg { quality }
    }
}

/// Chooses the encoding of one output.
pub fn encode_format(config: &ImageConfiguration) -> (r: EncodeFormat)
    ensures
        r == spec_encode_format(config.conditions.transparent, config.quality),
{
    if config.conditions.transparent {
        EncodeFormat::Png
    } else {
        EncodeFormat::Jpeg { quality: config.quality }
    }
}

/// Whether a configuration lets a recognized vector source bypass the
/// whole chain.
pub fn vector_bypass(config: &ImageConfiguration, loader: &str) -> (r: bool)
    ensures
        r == (config.conditions.allow_vector && loader@ == "svgload_buffer"@),
{
    config.conditions.allow_vector && str_eq(loader, "svgload_buffer")
}

/// How the worker handles one configuration: pass the source through
/// under the vector extension, or run the chain and encode, with a
/// sibling output exactly when the source decoder allows one.
pub enum ConfigPlan {
    Bypass,
    Transform { modifiers: Vec<Modifier>, encode: EncodeFormat, alternative: bool },
}

/// Plans one configuration of a batch request.
pub fn plan_configuration(
    config: &ImageConfiguration,
    loader: &str,
    environment: Option<EnvironmentModifier>,
) -> (r: ConfigPlan)
    ensures
        r is Bypass <==> (config.conditions.allow_vector && loader@ == "svgload_buffer"@),
        (r matches ConfigPlan::Transform { modifiers, encode, alternative } ==> (modifiers@
            == spec_build_modifiers(*config, environment) && encode == spec_encode_format(
            config.conditions.transparent,
            config.quality,
        ) && alternative == spec_alternative_possible(loader@))),
{
    if vector_bypass(config, loader) {
        ConfigPlan::Bypass
    } else {
        ConfigPlan::Transform {
            modifiers: build_modifiers(config, environment),
            encode: encode_format(config),
            alternative: alternative_possible(loader),
        }
    }
}

/// The pass-through record of a vector source: the original bytes,
/// byte for byte, renamed under the vector extension.
pub fn bypass_upload(config: &ImageConfiguration, data: Arc<Vec<u8>>) -> (r: UploadImage)
    ensures
        r.id == config.id,
        r.alternative_to is None,
        r.data == data,
        r.mime@ == "image/svg+xml"@,
        r.path@ == config.path@ + "."@ + "svg"@,
{
    UploadImage {
        path: path_with_extension(config.path.as_str(), "svg"),
        mime: String::from_str("image/svg+xml"),
        id: config.id.clone(),
        data,
        alternative_to: None,
    }
}

/// The primary record of one output: the configuration's identity, the
/// path under the matching extension, the MIME its transparency
/// dictates, and the encoded bytes as handed in.
pub fn primary_upload(config: &ImageConfiguration, data: Arc<Vec<u8>>) -> (r: UploadImage)
    ensures
        r.id == config.id,
        r.alternative_to is None,
        r.data == data,
        r.mime@ == spec_output_mime(config.conditions.transparent),
        config.conditions.transparent ==> r.path@ == config.path@ + "."@ + "png"@,
        !config.conditions.transparent ==> r.path@ == config.path@ + "."@ + "jpg"@,
{
    let (mime, ext): (&str, &str) = if config.conditions.transparent {
        ("image/png", "png")
    } else {
        ("image/jpeg", "jpg")
    };
    UploadImage {
        path: path_with_extension(config.path.as_str(), ext),
        mime: mime.to_owned(),
        id: config.id.clone(),
        data,
        alternative_to: None,
    }
}

/// Relies on the uuid crate's version-4 generator and its hyphenated
/// lower-hex text form: a fresh random identifier, 36 characters long.
#[verifier::external_body]
fn fresh_identifier() -> (r: String)
    ensures
        r@.len() == 36,
{
    uuid::Uuid::new_v4().into()
}

/// The sibling record of one output: a fresh identifier, the sibling
/// encoding's MIME and extension, and `alternative_to` naming the
/// configuration it accompanies.
pub fn alternative_upload(config: &ImageConfiguration, data: Arc<Vec<u8>>) -> (r: UploadImage)
    ensures
        r.id@.len() == 36,
        r.alternative_to == Some(config.id),
        r.data == data,
        r.mime@ == "image/webp"@,
        r.path@ == config.path@ + "."@ + "webp"@,
{
    UploadImage {
        path: path_with_extension(config.path.as_str(), "webp"),
        id: fresh_identifier(),
        data,
        mime: String::from_str("image/webp"),
        alternative_to: Some(config.id.clone()),
    }
}

/// The record of the untouched source when the request asks to keep
/// it: stored under the request's own identity with the extension and
/// MIME of its decoder.
pub fn save_original_upload(
    request: &ImageProcessingRequest,
    loader: &str,
    data: Arc<Vec<u8>>,
) -> (r: UploadImage)
    ensures
        r.id == request.id,
        r.alternative_to is None,
        r.data == data,
        r.mime@ == spec_loader_mime(loader@),
        r.path@ == request.path@ + "."@ + spec_loader_ext(loader@),
{
    let meta = loader_to_mime_ext(loader);
    UploadImage {
        path: path_with_extension(request.path.as_str(), meta.1),
        id: request.id.clone(),
        data,
        mime: meta.0.to_owned(),
        alternative_to: None,
    }
}

/// Assembles the response record of one uploaded output from the
/// produced record and what the storage backend reported.
pub fn processed_record(img: UploadImage, output: PutObjectOutput) -> (r: ProcessedImage)
    ensures
        r.id == img.id,
        r.path == img.path,
        r.hash == output.etag,
        r.size == output.size,
        r.url == output.url,
        r.mime == img.mime,
        r.alternative_to == img.alternative_to,
{
    ProcessedImage {
        id: img.id,
        path: img.path,
        hash: output.etag,
        size: output.size,
        url: output.url,
        mime: img.mime,
        alternative_to: img.alternative_to,
    }
}

} // verus!
