use std::sync::Arc;

use rusty_pixel::error::AppError;
use rusty_pixel::geometry::Aspect;
use rusty_pixel::image_processing::{
    EncodeFormat, EnvironmentImage, ImageConditions, ImageConfiguration, ImageProcessingRequest,
};
use rusty_pixel::process_image::{
    alternative_upload, check_min_size, check_required_parts, environment_options_of, is_portrait,
    plan_configuration, primary_upload, processed_record, select_environment, ConfigPlan,
};
use rusty_pixel::scale_image::scale_begin;
use rusty_pixel::storage::PutObjectOutput;

fn one_configuration_request() -> ImageProcessingRequest {
    ImageProcessingRequest {
        id: "req-1".to_string(),
        path: "originals/photo".to_string(),
        min_size: None,
        save_original: false,
        portrait_environment_image: None,
        landscape_environment_image: None,
        configurations: vec![ImageConfiguration {
            id: "cfg-1".to_string(),
            path: "outputs/photo".to_string(),
            aspect: Aspect { num: 0, den: 0 },
            margin_percent: 0,
            size: 1024,
            quality: 80,
            conditions: ImageConditions {
                transparent: false,
                trim: false,
                black_and_white: false,
                use_environment_image: false,
                allow_vector: false,
            },
        }],
    }
}

fn upload_report(key: &str, size: u64) -> PutObjectOutput {
    PutObjectOutput {
        etag: format!("etag-{}", key),
        url: format!("https://cdn.example/{}", key),
        size,
    }
}

#[test]
fn batch_with_one_plain_configuration_yields_two_records() {
    // A 2000 by 1000 JPEG source against one opaque configuration:
    // the primary JPEG output plus its sibling, two records in all.
    let request = one_configuration_request();
    let source = Arc::new(vec![1u8; 64]);

    assert!(check_min_size(2000, 1000, request.min_size).is_ok());
    assert!(!is_portrait(2000, 1000));
    assert!(select_environment(false, &request).is_none());

    let config = &request.configurations[0];
    let mut records = Vec::new();
    match plan_configuration(config, "jpegload_buffer", None) {
        ConfigPlan::Transform { modifiers, encode, alternative } => {
            assert_eq!(modifiers.len(), 1);
            assert_eq!(encode, EncodeFormat::Jpeg { quality: 80 });
            let encoded = Arc::new(vec![2u8; 32]);
            let primary = primary_upload(config, encoded);
            records.push(processed_record(primary, upload_report("outputs/photo.jpg", 32)));
            assert!(alternative);
            let sibling_bytes = Arc::new(vec![3u8; 16]);
            let sibling = alternative_upload(config, sibling_bytes);
            records.push(processed_record(sibling, upload_report("outputs/photo.webp", 16)));
        }
        ConfigPlan::Bypass => panic!("a raster source must run the chain"),
    }
    drop(source);

    assert_eq!(records.len(), 2);
    assert_eq!(records[0].mime, "image/jpeg");
    assert_eq!(records[0].id, "cfg-1");
    assert_eq!(records[0].alternative_to, None);
    assert_eq!(records[0].path, "outputs/photo.jpg");
    assert_eq!(records[0].hash, "etag-outputs/photo.jpg");
    assert_eq!(records[0].size, 32);
    assert_eq!(records[1].mime, "image/webp");
    assert_eq!(records[1].alternative_to, Some("cfg-1".to_string()));
}

#[test]
fn undersized_source_fails_before_any_transform() {
    // A floor of 5000 against a 2000 by 1000 source: rejected as a bad
    // request before any plan is built.
    let outcome = check_min_size(2000, 1000, Some(5000));
    match outcome {
        Err(AppError::BadRequest(m)) => assert_eq!(m, "image too small"),
        other => panic!("expected a bad request, got {:?}", other.is_ok()),
    }
    // One edge at or above the floor passes.
    assert!(check_min_size(5000, 1000, Some(5000)).is_ok());
    assert!(check_min_size(2000, 1000, None).is_ok());
}

#[test]
fn missing_source_object_is_not_found_without_a_plan() {
    // The single-URI flow against a missing storage key: not-found,
    // and no step list is ever produced.
    let outcome = scale_begin(None, "bw-s400x400-m20");
    assert!(matches!(outcome, Err(AppError::NotFound)));
}

#[test]
fn scale_flow_runs_parsed_steps_with_fixed_jpeg_quality() {
    let data = vec![7u8; 8];
    let plan = scale_begin(Some(data.clone()), "bw-s400x400-m20").expect("a plan");
    assert_eq!(plan.data, data);
    assert_eq!(plan.modifiers.len(), 2);
    assert_eq!(plan.encode, EncodeFormat::Jpeg { quality: 80 });
}

#[test]
fn scale_flow_without_valid_options_fails_server_side() {
    let outcome = scale_begin(Some(vec![7u8; 8]), "nonsense");
    match outcome {
        Err(AppError::InternalServerError(m)) => assert_eq!(m, "no valid options provided"),
        _ => panic!("expected a server-side failure"),
    }
}

#[test]
fn multipart_needs_both_fields() {
    assert!(check_required_parts(true, true).is_ok());
    for (image, details) in [(false, true), (true, false), (false, false)] {
        match check_required_parts(image, details) {
            Err(AppError::BadRequest(m)) => assert_eq!(m, "missing image or details"),
            _ => panic!("expected a bad request"),
        }
    }
}

#[test]
fn environment_descriptor_follows_orientation() {
    let portrait_env = EnvironmentImage {
        path: "env/portrait.png".to_string(),
        width: 172,
        height: 235,
        x: 164,
        y: 32,
        margin_percent: 20,
    };
    let mut request = one_configuration_request();
    request.portrait_environment_image = Some(portrait_env);
    let chosen = select_environment(true, &request).expect("the portrait background");
    assert_eq!(chosen.path, "env/portrait.png");
    assert!(select_environment(false, &request).is_none());

    let opts = environment_options_of(chosen);
    assert_eq!(opts.width, 172);
    assert_eq!(opts.height, 235);
    assert_eq!(opts.x, 164);
    assert_eq!(opts.y, 32);
    assert_eq!(opts.margin_percent, 20);
}

#[test]
fn error_messages_render() {
    assert_eq!(AppError::NotFound.message(), "not found");
    assert_eq!(AppError::BadRequest("image too small".to_string()).message(), "bad request image too small");
    assert_eq!(
        AppError::InternalServerError("boom".to_string()).message(),
        "internal server error boom"
    );
}
