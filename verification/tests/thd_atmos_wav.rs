use dee_config_gen::ffi::{generate_with_media, prepare_text, DcgStatusCode};
use dee_config_gen::mixed_inputs::{resolve_mixed_finish, resolve_mixed_prepare, uses_mixed_inputs};
use dee_config_gen::template::TemplateRegistry;
use dee_config_gen::{
    generate_config_with_media, render_config, resolve_job, Ac4OutputMode, EncodeMode, FilterOverrides,
    GenerateOptions, InputMediaInfo, InputsSpec, IoSpec, JobMode, JobSpec, MiscSpec, OutputContainer, OutputSpec,
    Profile, RenderFormat, ResolveOptions, ResolvedFilter, RunSpec,
};

fn io(path: &str, names: &[&str]) -> IoSpec {
    IoSpec { storage_path: path.to_string(), file_names: names.iter().map(|n| n.to_string()).collect() }
}

fn job() -> JobSpec {
    JobSpec {
        template_id: Some("thd_atmos_wav_v1".to_string()),
        profile: Profile::Standard,
        job_mode: JobMode::Single,
        encode_mode: EncodeMode::Mlp,
        input: IoSpec { storage_path: String::new(), file_names: vec![] },
        inputs: Some(InputsSpec {
            atmos_mezz: Some(io("/mnt/atmos", &["mezz.atmos"])),
            wav: Some(io("/mnt/wav", &["bed.wav"])),
            wav_list: None,
        }),
        output: OutputSpec {
            storage_path: "/mnt/out".to_string(),
            file_names: vec!["out.thd".to_string()],
            container: OutputContainer::Ac4,
            ac4_output_mode: Ac4OutputMode::Single,
        },
        misc: MiscSpec { temp_dir: "/tmp/dee".to_string(), clean_temp: true },
        filter: FilterOverrides::default(),
        run: RunSpec::default(),
    }
}

fn media(path: &str, channels: u16) -> InputMediaInfo {
    InputMediaInfo {
        path: path.to_string(),
        channels,
        sample_rate: 48000,
        bits_per_sample: 24,
        channel_layout: "5.1".to_string(),
        codec_name: "pcm_s24le".to_string(),
    }
}

fn options() -> ResolveOptions {
    ResolveOptions::default()
}

#[test]
fn registry_knows_the_mixed_template() {
    assert_eq!(TemplateRegistry::get("thd_atmos_wav_v1").unwrap().id(), "thd_atmos_wav_v1");
    assert!(TemplateRegistry::get("thd_wav_v1").unwrap_err().starts_with("unsupported template_id 'thd_wav_v1'"));
}

#[test]
fn prepare_gives_the_names_to_probe() {
    let spec = job();
    assert!(uses_mixed_inputs(&spec, &options()));
    let (a, w) = resolve_mixed_prepare(&spec, &options()).unwrap();
    assert_eq!(a, vec!["mezz.atmos".to_string()]);
    assert_eq!(w, vec!["bed.wav".to_string()]);
    let mut other = job();
    other.template_id = Some("thd_v1".to_string());
    assert!(!uses_mixed_inputs(&other, &options()));
    let (a, w) = resolve_mixed_prepare(&other, &options()).unwrap();
    assert!(a.is_empty() && w.is_empty());
}

#[test]
fn prepare_checks_profile_mode_and_inputs() {
    let mut spec = job();
    spec.encode_mode = EncodeMode::Ddp;
    assert_eq!(resolve_mixed_prepare(&spec, &options()).unwrap_err(), "unsupported encode_mode 'ddp'; allowed: mlp");
    let mut spec = job();
    spec.job_mode = JobMode::Album;
    assert_eq!(
        resolve_mixed_prepare(&spec, &options()).unwrap_err(),
        "template_id 'thd_atmos_wav_v1' only supports job_mode=single"
    );
}

#[test]
fn finish_resolves_with_the_probed_media() {
    let j = resolve_mixed_finish(job(), &options(), vec![media("mezz.atmos", 10)], vec![media("bed.wav", 6)]).unwrap();
    assert_eq!(j.template_id, "thd_atmos_wav_v1");
    assert_eq!(j.input_media.len(), 2);
    assert_eq!(j.input.storage_path, "Y:/mnt/atmos");
    let g = j.input_groups.as_ref().unwrap();
    assert_eq!(g.wav.as_ref().unwrap().storage_path, "Y:/mnt/wav");
    match &j.filter {
        ResolvedFilter::ThdAtmosWavV1(f) => {
            assert_eq!(f.offset, "auto");
            assert_eq!(f.ffoa, "auto");
            assert_eq!(f.input_timecode_frame_rate, "not_indicated");
            assert_eq!(f.encode.metering_mode, "1770-4");
        }
        _ => panic!("expected the mixed filter"),
    }
    let xml = render_config(&j, RenderFormat::Xml).unwrap();
    assert!(xml.contains("<atmos_mezz version=\"1\">"));
    assert!(xml.contains("<wav version=\"1\">"));
    assert!(xml.contains("<file_name>bed.wav</file_name>"));
    assert!(xml.contains("<encode_to_dthd version=\"1\">"));
    let json = render_config(&j, RenderFormat::Json).unwrap();
    assert!(json.contains("\"wav\""));
    assert!(json.contains("\"encode_to_dthd\""));
}

#[test]
fn finish_checks_the_wav_channels() {
    let err = resolve_mixed_finish(job(), &options(), vec![media("mezz.atmos", 10)], vec![media("bed.wav", 4)])
        .unwrap_err();
    assert_eq!(err, "template_id 'thd_atmos_wav_v1' currently supports wav side inputs with 2, 6 or 8 channels; got 4");
}

#[test]
fn resolve_job_probes_nothing() {
    assert_eq!(resolve_job(job(), &options()).unwrap_err(), "inputs.atmos_mezz probing returned no media info");
}

#[test]
fn wav_timing_overrides_are_validated() {
    let mut spec = job();
    spec.filter.offset = Some("00:00:01:00".to_string());
    spec.filter.start = Some("00:00:00:00".to_string());
    let j = resolve_mixed_finish(spec, &options(), vec![media("m", 10)], vec![media("w", 2)]).unwrap();
    match &j.filter {
        ResolvedFilter::ThdAtmosWavV1(f) => assert_eq!(f.offset, "00:00:01:00"),
        _ => panic!("expected the mixed filter"),
    }
    let mut spec = job();
    spec.filter.ffoa = Some("soon".to_string());
    assert_eq!(
        resolve_mixed_finish(spec, &options(), vec![media("m", 10)], vec![media("w", 2)]).unwrap_err(),
        "invalid value 'soon' for ffoa; expected auto, HH:MM:SS:FF[df], or HH:MM:SS.xx"
    );
    let mut spec = job();
    spec.filter.offset = Some("00:00:01:00".to_string());
    assert!(resolve_mixed_finish(spec, &options(), vec![media("m", 10)], vec![media("w", 2)])
        .unwrap_err()
        .starts_with("template_id 'thd_atmos_wav_v1' requires an explicit start value"));
}

#[test]
fn unsupported_overrides_are_refused() {
    let mut spec = job();
    spec.filter.data_rate = Some(640);
    assert_eq!(
        resolve_mixed_finish(spec, &options(), vec![media("m", 10)], vec![media("w", 2)]).unwrap_err(),
        "parameter 'data_rate' is not supported by template_id 'thd_wav_v1'"
    );
}

#[test]
fn generation_with_media_renders() {
    let opts = GenerateOptions { resolve: options(), format: RenderFormat::Xml };
    let g = generate_config_with_media(job(), &opts, vec![media("m", 10)], vec![media("w", 8)]).unwrap();
    assert!(g.rendered.starts_with("<?xml"));
    assert_eq!(g.resolved.template_id, "thd_atmos_wav_v1");
}

#[test]
fn c_interface_prepares_then_generates() {
    let text = "template_id: thd_atmos_wav_v1\nencode_mode: mlp\ninputs:\n  atmos_mezz:\n    storage_path: /a\n    file_names: [m.atmos]\n  wav:\n    storage_path: /w\n    file_names: [w.wav]\noutput:\n  storage_path: /o\n  file_names: [o.thd]\nmisc:\n  temp_dir: /t\n";
    let (spec, a, w) = prepare_text(text, &options()).unwrap();
    assert_eq!(a, vec!["m.atmos".to_string()]);
    assert_eq!(w, vec!["w.wav".to_string()]);
    let (job, xml) = generate_with_media(spec.clone(), &options(), RenderFormat::Xml, vec![media("m", 10)], vec![media("w", 2)]).unwrap();
    assert_eq!(job.template_id, "thd_atmos_wav_v1");
    assert!(xml.contains("<file_name>w.wav</file_name>"));
    let err = generate_with_media(spec, &options(), RenderFormat::Xml, vec![], vec![]).unwrap_err();
    assert_eq!(err.code, DcgStatusCode::ResolveError);
    assert_eq!(err.message, "inputs.atmos_mezz probing returned no media info");
}

#[test]
fn the_mixed_template_is_shown() {
    let text = dee_config_gen::catalog::show_template_text("thd_atmos_wav_v1").unwrap();
    assert!(text.starts_with(
        "Template: thd_atmos_wav_v1\nDescription: TrueHD MLP from mixed atmos_mezz and WAV inputs\nProfiles: standard, music\nEncode modes: mlp\n"
    ));
    assert!(text.contains("  - offset: string; modes=all; sources=dolby_official\n"));
}
