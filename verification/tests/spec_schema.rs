use dee_config_gen::metadata::{find_param_schema, template_metadata};
use dee_config_gen::registry::{canonicalize_enum, validate_data_rate};
use dee_config_gen::schema::{
    evaluate_constraints, validate_value, Constraint, ConstraintContext, FixedValue, ParamRule,
    ParamValue, ValidationContext, Value,
};
use dee_config_gen::spec::{normalize_drive, normalize_windows_path};
use dee_config_gen::template::timecode::{
    is_valid_timecode, validate_atmos_silence_duration, validate_boundary_timecode,
    validate_thd_silence_duration, validate_thd_starting_timecode,
};
use dee_config_gen::{
    parse_job_str, resolve_job, EncodeMode, FilterOverrides, IoSpec, JobMode, JobSpec, MiscSpec,
    OutputSpec, Profile, ResolveOptions, RunSpec, DEFAULT_TEMPLATE_ID,
};

#[test]
fn config_normalizes_drive_letter() {
    assert_eq!(normalize_drive('y').unwrap(), 'Y');
    assert!(normalize_drive('1').is_err());
}

#[test]
fn config_normalizes_windows_paths() {
    assert_eq!(normalize_windows_path("/tmp/in", 'Y'), "Y:/tmp/in");
    assert_eq!(normalize_windows_path("tmp/in", 'Y'), "Y:/tmp/in");
    assert_eq!(normalize_windows_path("z:/tmp/in", 'Y'), "Z:/tmp/in");
}

#[test]
fn spec_normalizes_drive_letter() {
    assert_eq!(normalize_drive('y').unwrap(), 'Y');
    assert!(normalize_drive('1').is_err());
}

#[test]
fn spec_normalizes_windows_paths() {
    assert_eq!(normalize_windows_path("/tmp/in", 'Y'), "Y:/tmp/in");
    assert_eq!(normalize_windows_path("tmp/in", 'Y'), "Y:/tmp/in");
    assert_eq!(normalize_windows_path("z:/tmp/in", 'Y'), "Z:/tmp/in");
}

#[test]
fn parses_yaml_and_json_strings() {
    let yaml = r#"
template_id: atmos_ec3_v1
output:
  storage_path: ./output
  file_names: [output.ec3]
misc:
  temp_dir: ./tmp
"#;
    let json = r#"{
  "template_id": "atmos_ec3_v1",
  "output": {"storage_path": "./output", "file_names": ["output.ec3"]},
  "misc": {"temp_dir": "./tmp"}
}"#;
    assert_eq!(parse_job_str(yaml).unwrap().template_id.as_deref(), Some(DEFAULT_TEMPLATE_ID));
    assert_eq!(parse_job_str(json).unwrap().template_id.as_deref(), Some(DEFAULT_TEMPLATE_ID));
}

#[test]
fn exposes_template_metadata_without_template_module() {
    let metadata = template_metadata("atmos_ec3_v1").unwrap();
    assert_eq!(metadata.template_id, "atmos_ec3_v1");
    assert!(metadata.valid_encode_modes.contains(&"streaming"));
    assert!(find_param_schema("atmos_ec3_v1", "data_rate").unwrap().is_some());
}

#[test]
fn validates_bluray_data_rate_upper_bound() {
    assert!(validate_data_rate(1664, "bluray").is_ok());
    assert!(validate_data_rate(1665, "bluray").is_err());
}

#[test]
fn canonicalizes_case_insensitive_enums() {
    let got = canonicalize_enum("preferred_downmix_mode", "LoRo").unwrap();
    assert_eq!(got, "loro");
}

fn sets() -> Vec<(&'static str, Vec<u16>)> {
    vec![("streaming", vec![384, 448, 576]), ("bluray", vec![768, 1280, 1664]), ("ddp71", vec![448, 1024, 1664])]
}

#[test]
fn canonicalizes_enum_case_insensitive() {
    let sets = sets();
    let ctx = ValidationContext { encode_mode: "bluray", bitrate_sets: &sets, bitrate_hard_max: 1664 };
    let out = validate_value(
        "preferred_downmix_mode",
        &ParamRule::Enum(vec!["loro", "ltrt"]),
        ParamValue::Str("LoRo".to_string()),
        &ctx,
    )
    .unwrap();
    assert!(matches!(out, ParamValue::Str(ref s) if s == "loro"));
}

#[test]
fn validates_data_rate_hard_max() {
    let sets = sets();
    let ctx = ValidationContext { encode_mode: "bluray", bitrate_sets: &sets, bitrate_hard_max: 1664 };
    let err = validate_value("data_rate", &ParamRule::DataRate, ParamValue::Int(1700), &ctx)
        .unwrap_err()
        .to_string();
    assert!(err.contains("hard max"));
}

#[test]
fn evaluates_required_constraint() {
    let constraints = vec![Constraint::Required {
        param: "encoder_mode",
        when_mode: "bluray",
        value: FixedValue::Str("bluray"),
    }];
    let values = vec![("encoder_mode", Value::Str("ddp71".to_string()))];
    let err = evaluate_constraints(
        &constraints,
        &ConstraintContext { profile: "standard", encode_mode: "bluray", allow_fixed_override: false },
        &values,
    )
    .unwrap_err()
    .to_string();
    assert!(err.contains("bluray mode requires encoder_mode=bluray"));
}

#[test]
fn accepts_documented_atmos_start_end_formats() {
    assert_eq!(validate_boundary_timecode("start", "first_frame_of_action").unwrap(), "first_frame_of_action");
    assert_eq!(validate_boundary_timecode("start", "00:00:00.0").unwrap(), "00:00:00.0");
    assert_eq!(validate_boundary_timecode("end", "00:00:00:00df").unwrap(), "00:00:00:00df");
}

#[test]
fn rejects_undocumented_atmos_start_end_formats() {
    let err = validate_boundary_timecode("start", "0:00:00.0").unwrap_err().to_string();
    assert!(err.contains("HH:MM:SS:FF[df], or HH:MM:SS.xx"));
    let err = validate_boundary_timecode("end", "00:00").unwrap_err().to_string();
    assert!(err.contains("HH:MM:SS:FF[df], or HH:MM:SS.xx"));
}

#[test]
fn validates_atmos_silence_duration_formats() {
    assert_eq!(
        validate_atmos_silence_duration("prepend_silence_duration", "0.005333", "not_indicated", "file_position")
            .unwrap(),
        "0.005333"
    );
    assert_eq!(
        validate_atmos_silence_duration("append_silence_duration", "1f", "23.976", "file_position").unwrap(),
        "1f"
    );
    assert_eq!(
        validate_atmos_silence_duration("append_silence_duration", "1f", "not_indicated", "embedded_timecode")
            .unwrap(),
        "1f"
    );
}

#[test]
fn rejects_atmos_invalid_silence_duration_formats() {
    let err = validate_atmos_silence_duration(
        "prepend_silence_duration",
        "0:00:00.005333",
        "not_indicated",
        "file_position",
    )
    .unwrap_err()
    .to_string();
    assert!(err.contains("seconds.milliseconds or xf"));
    let err = validate_atmos_silence_duration("append_silence_duration", "1f", "not_indicated", "file_position")
        .unwrap_err()
        .to_string();
    assert!(err.contains("frame syntax requires"));
}

#[test]
fn timecode_helper_accepts_drop_frame_and_decimal_notation() {
    assert!(is_valid_timecode("00:00:00:00df"));
    assert!(is_valid_timecode("00:00:00.0"));
    assert!(!is_valid_timecode("0:00:00.0"));
}

#[test]
fn accepts_documented_truehd_start_end_formats() {
    assert_eq!(validate_boundary_timecode("start", "first_frame_of_action").unwrap(), "first_frame_of_action");
    assert_eq!(validate_boundary_timecode("end", "00:00:00.0").unwrap(), "00:00:00.0");
    assert_eq!(validate_boundary_timecode("end", "00:00:00:00df").unwrap(), "00:00:00:00df");
}

#[test]
fn rejects_invalid_truehd_start_end_formats() {
    let err = validate_boundary_timecode("start", "0:00:00.0").unwrap_err().to_string();
    assert!(err.contains("HH:MM:SS:FF[df], or HH:MM:SS.xx"));
}

#[test]
fn validates_truehd_silence_decimal_durations() {
    assert_eq!(validate_thd_silence_duration("prepend_silence_duration", "0").unwrap(), "0");
    assert_eq!(validate_thd_silence_duration("append_silence_duration", "0.005333").unwrap(), "0.005333");
}

#[test]
fn rejects_truehd_frame_silence_duration() {
    let err = validate_thd_silence_duration("append_silence_duration", "1f").unwrap_err().to_string();
    assert!(err.contains("seconds.milliseconds"));
}

#[test]
fn validates_truehd_embedded_timecode_start_values() {
    assert_eq!(validate_thd_starting_timecode("off").unwrap(), "off");
    assert_eq!(validate_thd_starting_timecode("auto").unwrap(), "auto");
    assert_eq!(validate_thd_starting_timecode("00:23:01:00").unwrap(), "00:23:01:00");
    assert_eq!(validate_thd_starting_timecode("00:23:01.000").unwrap(), "00:23:01.000");
}

#[test]
fn rejects_invalid_truehd_embedded_timecode_start_values() {
    let err = validate_thd_starting_timecode("bogus").unwrap_err().to_string();
    assert!(err.contains("invalid starting_timecode"));
}

fn sample_thd_job() -> JobSpec {
    JobSpec {
        template_id: Some("thd_v1".to_string()),
        profile: Profile::Standard,
        job_mode: JobMode::Single,
        encode_mode: EncodeMode::Mlp,
        input: IoSpec { storage_path: "testfiles".to_string(), file_names: vec!["testADM.wav".to_string()] },
        inputs: None,
        output: OutputSpec {
            storage_path: "/tmp/out".to_string(),
            file_names: vec!["test.mlp".to_string()],
            container: dee_config_gen::OutputContainer::Ac4,
            ac4_output_mode: dee_config_gen::Ac4OutputMode::Single,
        },
        misc: MiscSpec { temp_dir: "/tmp/dee".to_string(), clean_temp: true },
        filter: FilterOverrides::default(),
        run: RunSpec::default(),
    }
}

#[test]
fn resolves_thd_example_with_defaults() {
    resolve_job(
        sample_thd_job(),
        &ResolveOptions { template_override: None, allow_fixed_override: false, windows_drive: 'Y' },
    )
    .expect("thd_v1 defaults should resolve");
}

#[test]
fn renders_thd_jobs_as_json() {
    let job = resolve_job(
        sample_thd_job(),
        &ResolveOptions { template_override: None, allow_fixed_override: false, windows_drive: 'Y' },
    )
    .unwrap();
    let text = dee_config_gen::render_config(&job, dee_config_gen::RenderFormat::Json).unwrap();
    assert!(text.starts_with("{\n  \"job_config\": {"));
    assert!(text.contains("\"encode_to_dthd\": {"));
    assert!(text.contains("\"mlp\": {"));
    assert!(text.contains("\"log_format\": \"txt\""));
    assert!(text.contains("\"path\": \"\\\"Y:/tmp/out\\\"\""));
    assert!(text.contains("\"file_name\": \"testADM.wav\""));
}

fn job_with_output(output: &str) -> JobSpec {
    let text = format!(
        "template_id: atmos_ec3_v1\ninput:\n  storage_path: ./in\n  file_names: [a.wav]\noutput:\n{output}misc:\n  temp_dir: ./tmp\n"
    );
    parse_job_str(&text).unwrap()
}

#[test]
fn job_output_defaults_container_to_ac4() {
    let spec = job_with_output("  storage_path: ./output\n  file_name: demo.ac4\n");
    assert_eq!(spec.output.container, dee_config_gen::OutputContainer::Ac4);
    assert_eq!(spec.output.ac4_output_mode, dee_config_gen::Ac4OutputMode::Single);
    assert_eq!(spec.output.file_names, vec!["demo.ac4"]);
}

#[test]
fn job_output_parses_ac4_output_mode_multi3() {
    let spec = job_with_output("  storage_path: ./output\n  file_names: [a.ac4, b.ac4, c.ac4]\n  ac4_output_mode: multi3\n");
    assert_eq!(spec.output.ac4_output_mode, dee_config_gen::Ac4OutputMode::Multi3);
}

#[test]
fn find_param_gives_the_whole_catalogue_entry() {
    let d = dee_config_gen::registry::find_param("data_rate").unwrap();
    assert_eq!(d.key, "data_rate");
    assert!(matches!(d.rule, dee_config_gen::registry::Rule::DataRate));
    assert_eq!(
        d.sources,
        vec![
            dee_config_gen::registry::SourceTag::DolbyOfficial,
            dee_config_gen::registry::SourceTag::DeewObserved,
            dee_config_gen::registry::SourceTag::DeezyObserved,
        ]
    );
    assert_eq!(d.notes, "Streaming and bluray bitrate sets differ.");
    assert!(dee_config_gen::registry::find_param("bitstream_mode").is_none());
}

#[test]
fn absent_fields_take_their_defaults() {
    let yaml = "output:\n  storage_path: /out\n  file_names: [a.ec3]\nmisc:\n  temp_dir: /tmp/x\n";
    let spec = parse_job_str(yaml).unwrap();
    assert!(spec.template_id.is_none());
    assert_eq!(spec.profile, Profile::Standard);
    assert_eq!(spec.job_mode, JobMode::Single);
    assert_eq!(spec.encode_mode, EncodeMode::Streaming);
    assert!(spec.input.storage_path.is_empty() && spec.input.file_names.is_empty());
    assert!(spec.inputs.is_none());
    assert!(spec.run.runner_args.is_empty() && spec.run.env.is_empty());
    assert!(spec.misc.clean_temp);
    assert!(spec.filter.data_rate.is_none());
}

#[test]
fn constraints_report_the_first_failing_one() {
    let cs = vec![
        Constraint::Required { param: "encoder_mode", when_mode: "dd", value: FixedValue::Str("dd") },
        Constraint::Required { param: "downmix_config", when_mode: "dd", value: FixedValue::Str("5.1") },
    ];
    let ctx = ConstraintContext { profile: "standard", encode_mode: "dd", allow_fixed_override: false };
    let none: Vec<(&'static str, Value)> = vec![];
    assert_eq!(evaluate_constraints(&cs, &ctx, &none).unwrap_err(), "dd mode requires encoder_mode=dd");
    let one = vec![("encoder_mode", Value::Str("dd".to_string()))];
    assert_eq!(evaluate_constraints(&cs, &ctx, &one).unwrap_err(), "dd mode requires downmix_config=5.1");
    let both = vec![("encoder_mode", Value::Str("dd".to_string())), ("downmix_config", Value::Str("5.1".to_string()))];
    assert_eq!(evaluate_constraints(&cs, &ctx, &both), Ok(()));
}
