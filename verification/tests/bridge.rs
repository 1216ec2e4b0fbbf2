use dee_config_gen::bridge::{
    generate_config, render_error, validate_job, BridgeError, GenerateOptions, RenderFormat,
    ResolveOptions,
};
use dee_config_gen::ffi::{generate_text, validate_text, BridgeError as StageError, DcgStatusCode};
use dee_config_gen::{parse_job_str, render_config, RenderFormat as CoreFormat};

fn sample_job(template_id: &str) -> String {
    format!(
        r#"
template_id: {template_id}
profile: standard
job_mode: single
encode_mode: streaming
input:
  storage_path: ./input
  file_names: [testADM.wav]
output:
  storage_path: ./output
  file_names: [output.ec3]
misc:
  temp_dir: ./tmp
"#
    )
}

#[test]
fn validate_defaults_follow_core_defaults() {
    let out = validate_job(sample_job("atmos_ec3_v1"), None).expect("validate should succeed");
    assert_eq!(out.template_id, "atmos_ec3_v1");
    assert_eq!(out.profile, "standard");
}

#[test]
fn generate_json_succeeds_for_supported_template() {
    let out = generate_config(
        sample_job("atmos_ec3_v1"),
        Some(GenerateOptions { resolve: None, format: Some(RenderFormat::JSON {}) }),
    )
    .expect("generate should succeed");
    assert!(out.rendered_config.contains("\"job_config\""));
    assert!(matches!(out.format, RenderFormat::JSON { .. }));
}

#[test]
fn parse_error_is_mapped() {
    let err = validate_job("template_id: [".to_string(), None).expect_err("parse should fail");
    assert!(matches!(err, BridgeError::PARSE_ERROR { .. }));
}

#[test]
fn resolve_error_is_mapped() {
    let err = validate_job(sample_job("definitely_unknown_template"), None).expect_err("resolve should fail");
    assert!(matches!(err, BridgeError::RESOLVE_ERROR { .. }));
}

#[test]
fn render_error_is_mapped() {
    let err = render_error("render failed".to_string());
    assert!(matches!(err, BridgeError::RENDER_ERROR { .. }));
}

#[test]
fn invalid_windows_drive_is_invalid_argument() {
    let err = validate_job(
        sample_job("atmos_ec3_v1"),
        Some(ResolveOptions {
            template_override: None,
            allow_fixed_override: false,
            windows_drive: Some("YY".to_string()),
        }),
    )
    .expect_err("invalid windows drive should fail");
    assert!(matches!(err, BridgeError::INVALID_ARGUMENT { .. }));
}

#[test]
fn generate_defaults_to_xml() {
    let out = generate_config(sample_job("atmos_ec3_v1"), None).expect("generate default should work");
    assert!(matches!(out.format, RenderFormat::XML { .. }));
    assert!(out.rendered_config.contains("<job_config>"));
}

#[test]
fn render_errors_are_mapped() {
    let spec = parse_job_str(&sample_job("atmos_ec3_v1")).expect("parse");
    let mut resolved =
        dee_config_gen::validate_job(spec, &dee_config_gen::ResolveOptions::default()).expect("resolve");
    resolved.template_id = "__render_break__".to_string();
    let render_err = render_config(&resolved, CoreFormat::Json).expect_err("render fails");
    let mapped = StageError::stage(DcgStatusCode::RenderError, render_err);
    assert_eq!(mapped.code, DcgStatusCode::RenderError);
    assert!(mapped.message.contains("unsupported template_id"));
}

#[test]
fn c_generation_fails_where_c_validation_fails() {
    let options = dee_config_gen::ResolveOptions::default();
    let bad = sample_job("no_such_template");
    let v = validate_text(&bad, &options).unwrap_err();
    let g = generate_text(&bad, &options, CoreFormat::Xml).unwrap_err();
    assert_eq!(v.code, DcgStatusCode::ResolveError);
    assert_eq!(g.code, v.code);
    assert_eq!(g.message, v.message);
    let good = sample_job("atmos_ec3_v1");
    let j = validate_text(&good, &options).unwrap();
    let (k, text) = generate_text(&good, &options, CoreFormat::Xml).unwrap();
    assert_eq!(j.template_id, k.template_id);
    assert!(text.starts_with("<?xml"));
}
