use dee_config_gen::runner::{keeps_generated_config, plan_run, RunOptions};
use dee_config_gen::render::{render_config, render_xml_tree, Predicate, RenderFormat, XmlNode};
use dee_config_gen::resolve::{ResolvedIo, ResolvedMisc};
use dee_config_gen::template::atmos_ec3_v1::AtmosEc3V1Filter;
use dee_config_gen::{
    resolve_job, Ac4OutputMode, EncodeMode, FilterOverrides, InputMediaInfo, IoSpec, JobMode,
    JobSpec, MiscSpec, OutputContainer, OutputSpec, Profile, ResolveOptions, ResolvedFilter,
    ResolvedJob, ResolvedOutput, RunSpec, DEFAULT_TEMPLATE_ID,
};

fn sample_job_file() -> JobSpec {
    JobSpec {
        template_id: Some(DEFAULT_TEMPLATE_ID.to_string()),
        profile: Profile::Standard,
        job_mode: JobMode::Single,
        encode_mode: EncodeMode::Streaming,
        input: IoSpec { storage_path: "/tmp/in".to_string(), file_names: vec!["a.wav".to_string()] },
        inputs: None,
        output: OutputSpec {
            storage_path: "/tmp/out".to_string(),
            file_names: vec!["a.ec3".to_string()],
            container: OutputContainer::Ac4,
            ac4_output_mode: Ac4OutputMode::Single,
        },
        misc: MiscSpec { temp_dir: "/tmp/dee".to_string(), clean_temp: true },
        filter: FilterOverrides::default(),
        run: RunSpec::default(),
    }
}

fn sample_atmos_filter() -> AtmosEc3V1Filter {
    AtmosEc3V1Filter {
        metering_mode: "1770-4".to_string(),
        dialogue_intelligence: true,
        speech_threshold: 15,
        data_rate: 448,
        timecode_frame_rate: "not_indicated".to_string(),
        start: "first_frame_of_action".to_string(),
        end: "end_of_file".to_string(),
        time_base: "file_position".to_string(),
        prepend_silence_duration: "0.0".to_string(),
        append_silence_duration: "0.0".to_string(),
        line_mode_drc_profile: "film_light".to_string(),
        rf_mode_drc_profile: "film_light".to_string(),
        loro_center_mix_level: "-3".to_string(),
        loro_surround_mix_level: "-3".to_string(),
        ltrt_center_mix_level: "-3".to_string(),
        ltrt_surround_mix_level: "-3".to_string(),
        preferred_downmix_mode: "loro".to_string(),
        surround_trim_5_1: "auto".to_string(),
        height_trim_5_1: "auto".to_string(),
        custom_dialnorm: 0,
        encoding_backend: None,
        encoder_mode: None,
    }
}

fn sample_resolved_job() -> ResolvedJob {
    ResolvedJob {
        template_id: DEFAULT_TEMPLATE_ID.to_string(),
        profile: Profile::Standard,
        job_mode: JobMode::Single,
        encode_mode: EncodeMode::Streaming,
        input_media: vec![InputMediaInfo {
            path: "/tmp/in/in.wav".to_string(),
            channels: 2,
            sample_rate: 48_000,
            bits_per_sample: 24,
            channel_layout: "stereo".to_string(),
            codec_name: "pcm_s24le".to_string(),
        }],
        input: ResolvedIo { storage_path: "Y:/in".to_string(), file_names: vec!["in.wav".to_string()] },
        input_groups: None,
        output: ResolvedOutput {
            storage_path: "Y:/out".to_string(),
            file_names: vec!["out.ec3".to_string()],
            container: OutputContainer::Ac4,
            ac4_output_mode: Ac4OutputMode::Single,
        },
        misc: ResolvedMisc { temp_dir: "Y:/tmp".to_string(), clean_temp: true },
        filter: ResolvedFilter::AtmosEc3V1(sample_atmos_filter()),
        run: RunSpec::default(),
    }
}

fn options() -> ResolveOptions {
    ResolveOptions { template_override: None, allow_fixed_override: false, windows_drive: 'Y' }
}

fn resolve_with_default_options(job: JobSpec) -> Result<ResolvedJob, String> {
    resolve_job(job, &options())
}

fn set_enum_override(job: &mut JobSpec, key: &str, value: &str) {
    let value = Some(value.to_string());
    match key {
        "metering_mode" => job.filter.metering_mode = value,
        "timecode_frame_rate" => job.filter.timecode_frame_rate = value,
        "time_base" => job.filter.time_base = value,
        "line_mode_drc_profile" => job.filter.line_mode_drc_profile = value,
        "rf_mode_drc_profile" => job.filter.rf_mode_drc_profile = value,
        "loro_center_mix_level" => job.filter.loro_center_mix_level = value,
        "loro_surround_mix_level" => job.filter.loro_surround_mix_level = value,
        "ltrt_center_mix_level" => job.filter.ltrt_center_mix_level = value,
        "ltrt_surround_mix_level" => job.filter.ltrt_surround_mix_level = value,
        "preferred_downmix_mode" => job.filter.preferred_downmix_mode = value,
        "surround_trim_5_1" => job.filter.surround_trim_5_1 = value,
        "height_trim_5_1" => job.filter.height_trim_5_1 = value,
        "encoding_backend" => job.filter.encoding_backend = value,
        "encoder_mode" => job.filter.encoder_mode = value,
        other => panic!("unsupported enum parameter in test: {other}"),
    }
}

#[test]
fn injects_bluray_defaults() {
    let mut job = sample_job_file();
    job.encode_mode = EncodeMode::Bluray;
    let resolved = resolve_job(job, &options()).unwrap();
    let ResolvedFilter::AtmosEc3V1(filter) = &resolved.filter else {
        panic!("expected AtmosEc3V1 filter");
    };
    assert_eq!(filter.data_rate, 1280);
    assert_eq!(filter.encoding_backend.as_deref(), Some("atmosprocessor"));
    assert_eq!(filter.encoder_mode.as_deref(), Some("bluray"));
}

#[test]
fn rejects_atmos_ddp71_with_migration_message() {
    let mut job = sample_job_file();
    job.encode_mode = EncodeMode::Ddp71;
    let err = resolve_job(job, &options()).unwrap_err().to_string();
    assert_eq!(
        err,
        "template_id 'atmos_ec3_v1' does not support encode_mode 'ddp71'; use template_id 'pcm_ddp_v1'"
    );
}

#[test]
fn locks_music_fixed_values_without_override() {
    let mut job = sample_job_file();
    job.profile = Profile::Music;
    job.filter.line_mode_drc_profile = Some("film_light".to_string());
    let err = resolve_job(job, &options()).unwrap_err().to_string();
    assert!(err.contains("profile=music"));
}

#[test]
fn accepts_music_override_when_flag_enabled() {
    let mut job = sample_job_file();
    job.profile = Profile::Music;
    job.filter.line_mode_drc_profile = Some("film_light".to_string());
    let resolved = resolve_job(
        job,
        &ResolveOptions { template_override: None, allow_fixed_override: true, windows_drive: 'Y' },
    )
    .unwrap();
    let ResolvedFilter::AtmosEc3V1(filter) = &resolved.filter else {
        panic!("expected AtmosEc3V1 filter");
    };
    assert_eq!(filter.line_mode_drc_profile, "film_light");
}

#[test]
fn rejects_bluray_data_rate_over_hard_max() {
    let mut job = sample_job_file();
    job.encode_mode = EncodeMode::Bluray;
    job.filter.data_rate = Some(1800);
    assert!(resolve_job(job, &options()).is_err());
}

#[test]
fn rejects_invalid_encode_mode_for_pcm_template() {
    let mut job = sample_job_file();
    job.template_id = Some("pcm_ddp_v1".to_string());
    job.encode_mode = EncodeMode::Streaming;
    let err = resolve_job(job, &options()).unwrap_err().to_string();
    assert_eq!(err, "unsupported encode_mode 'streaming'; allowed: dd, ddp, bluray, ddp71");
}

#[test]
fn rejects_invalid_values_for_all_enum_filter_params() {
    let cases = [
        ("metering_mode", EncodeMode::Streaming),
        ("timecode_frame_rate", EncodeMode::Streaming),
        ("time_base", EncodeMode::Streaming),
        ("line_mode_drc_profile", EncodeMode::Streaming),
        ("rf_mode_drc_profile", EncodeMode::Streaming),
        ("loro_center_mix_level", EncodeMode::Streaming),
        ("loro_surround_mix_level", EncodeMode::Streaming),
        ("ltrt_center_mix_level", EncodeMode::Streaming),
        ("ltrt_surround_mix_level", EncodeMode::Streaming),
        ("preferred_downmix_mode", EncodeMode::Streaming),
        ("surround_trim_5_1", EncodeMode::Streaming),
        ("height_trim_5_1", EncodeMode::Streaming),
        ("encoding_backend", EncodeMode::Bluray),
        ("encoder_mode", EncodeMode::Bluray),
    ];
    for (key, encode_mode) in cases {
        let mut job = sample_job_file();
        job.encode_mode = encode_mode;
        set_enum_override(&mut job, key, "__invalid__");
        let err = resolve_with_default_options(job).unwrap_err().to_string();
        assert!(
            err.contains(&format!("invalid value '__invalid__' for {key}")),
            "expected invalid enum error for {key}, got: {err}"
        );
    }
}

#[test]
fn validates_custom_dialnorm_boundaries() {
    for ok in [-31_i8, 0_i8] {
        let mut job = sample_job_file();
        job.filter.custom_dialnorm = Some(ok);
        assert!(resolve_with_default_options(job).is_ok(), "expected custom_dialnorm={ok} to be accepted");
    }
    for invalid in [-32_i8, 1_i8] {
        let mut job = sample_job_file();
        job.filter.custom_dialnorm = Some(invalid);
        let err = resolve_with_default_options(job).unwrap_err().to_string();
        assert!(err.contains("custom_dialnorm"));
        assert!(err.contains("expected -31..0"));
    }
}

#[test]
fn validates_streaming_bitrate_boundaries() {
    for ok in [384_u16, 1024_u16] {
        let mut job = sample_job_file();
        job.encode_mode = EncodeMode::Streaming;
        job.filter.data_rate = Some(ok);
        assert!(resolve_with_default_options(job).is_ok(), "expected streaming data_rate={ok} to be accepted");
    }
    for invalid in [383_u16, 1025_u16] {
        let mut job = sample_job_file();
        job.encode_mode = EncodeMode::Streaming;
        job.filter.data_rate = Some(invalid);
        let err = resolve_with_default_options(job).unwrap_err().to_string();
        assert!(err.contains("invalid data_rate"));
        assert!(err.contains("mode 'streaming'"));
    }
}

#[test]
fn rejects_bluray_bitrates_below_runtime_minimum() {
    for invalid in [768_u16, 1024_u16] {
        let mut job = sample_job_file();
        job.encode_mode = EncodeMode::Bluray;
        job.filter.data_rate = Some(invalid);
        let err = resolve_with_default_options(job).unwrap_err().to_string();
        assert!(err.contains("invalid data_rate"));
        assert!(err.contains("mode 'bluray'"));
        assert!(err.contains("1152, 1280, 1408, 1512, 1536, 1664"));
    }
}

#[test]
fn rejects_atmos_bluray_ltrt_pl2_preferred_downmix_mode() {
    let mut job = sample_job_file();
    job.encode_mode = EncodeMode::Bluray;
    job.filter.preferred_downmix_mode = Some("ltrt-pl2".to_string());
    let err = resolve_with_default_options(job).unwrap_err().to_string();
    assert_eq!(err, "Preferred Downmix mode Pro Logic II is not supported in Blu-ray Mode");
}

#[test]
fn rejects_encoding_backend_in_streaming_mode() {
    let mut job = sample_job_file();
    job.encode_mode = EncodeMode::Streaming;
    job.filter.encoding_backend = Some("atmosprocessor".to_string());
    let err = resolve_with_default_options(job).unwrap_err().to_string();
    assert_eq!(
        err,
        "encoding_backend/encoder_mode are mode extensions and cannot be set for streaming mode"
    );
}

#[test]
fn resolves_atmos_bluray_frame_silence_with_embedded_time_base() {
    let mut job = sample_job_file();
    job.encode_mode = EncodeMode::Bluray;
    job.filter.time_base = Some("embedded_timecode".to_string());
    job.filter.prepend_silence_duration = Some("1f".to_string());
    resolve_job(job, &options()).expect("bluray embedded frame silence should resolve");
}

#[test]
fn rejects_atmos_streaming_frame_silence_without_timecode_context() {
    let mut job = sample_job_file();
    job.encode_mode = EncodeMode::Streaming;
    job.filter.prepend_silence_duration = Some("1f".to_string());
    let err = resolve_job(job, &options()).unwrap_err().to_string();
    assert!(err.contains("frame syntax requires"));
}

#[test]
fn renders_when_node_only_if_predicate_true() {
    let node = XmlNode::element(
        "job_config".to_string(),
        vec![],
        vec![XmlNode::when_node(
            Predicate::ParamSome("encoding_backend".to_string()),
            vec![XmlNode::leaf("encoding_backend".to_string(), "atmosprocessor".to_string())],
        )],
    );
    let xml = render_xml_tree(&node, &sample_resolved_job());
    assert!(!xml.contains("encoding_backend"));
}

#[test]
fn render_config_xml_matches_render_xml_tree() {
    let job = sample_resolved_job();
    let rendered = render_config(&job, RenderFormat::Xml).expect("render xml");
    assert!(rendered.starts_with("<?xml version=\"1.0\"?>"));
}

#[test]
fn json_render_is_not_supported_for_non_json_templates_by_default() {
    let mut job = sample_resolved_job();
    job.template_id = "definitely_unknown_template".to_string();
    let err = render_config(&job, RenderFormat::Json).expect_err("json unsupported");
    assert!(err.to_string().contains("unsupported template_id"));
}

#[test]
fn run_plan_passes_the_job_environment_and_keeps_given_configs() {
    let mut job = sample_resolved_job();
    job.run.env = vec![("DEE_LICENSE".to_string(), "abc".to_string())];
    job.run.runner_args = vec!["--temp".to_string(), "/tmp/t".to_string()];
    let mut options = RunOptions::default();
    options.runner_args = vec!["--verbose".to_string()];
    let plan = plan_run(&job, &options, Some("deew -x".to_string()), "/tmp/c.xml", false).unwrap();
    assert_eq!(plan.invocation.program, "deew");
    assert_eq!(
        plan.invocation.args,
        vec!["-x", "--verbose", "--temp", "/tmp/t", "--xml", "/tmp/c.xml"]
            .into_iter()
            .map(String::from)
            .collect::<Vec<_>>()
    );
    assert_eq!(plan.env, vec![("DEE_LICENSE".to_string(), "abc".to_string())]);
    assert_eq!(plan.dirs.len(), 1);
    assert!(plan.remove_config);
    assert!(!keeps_generated_config(&options));
    options.generated_config = Some("/tmp/keep.xml".to_string());
    assert!(keeps_generated_config(&options));
    assert!(!plan_run(&job, &options, None, "/tmp/c.xml", false).unwrap().remove_config);
    options.generated_config = None;
    options.keep_config = true;
    assert!(!plan_run(&job, &options, None, "/tmp/c.xml", false).unwrap().remove_config);
}

#[test]
fn run_plan_reports_a_bad_runner_command() {
    let mut options = RunOptions::default();
    options.runner_cmd = Some("dee 'unterminated".to_string());
    assert_eq!(
        plan_run(&sample_resolved_job(), &options, None, "/tmp/c.xml", false).unwrap_err(),
        "invalid runner command syntax: dee 'unterminated"
    );
}
