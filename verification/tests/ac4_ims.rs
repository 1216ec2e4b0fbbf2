use dee_config_gen::json::JsonValue;
use dee_config_gen::render::{render_config, render_xml_tree, RenderFormat};
use dee_config_gen::template::pcm_ddp_v1;
use dee_config_gen::resolve::{ResolvedInputGroups, ResolvedIo, ResolvedMisc};
use dee_config_gen::template::ac4_ims_shared::json::{
    atmos_input_json_node_with_timecodes, json_structure, pcm_input_json_node_with_timecodes,
};
use dee_config_gen::template::ac4_ims_shared::xml::{pcm_input_node_with_timecodes, xml_structure};
use dee_config_gen::template::ac4_ims_shared::defaults;
use dee_config_gen::template::ac4_ims_pcm_v1::Ac4ImsPcmV1;
use dee_config_gen::template::atmos_ec3_v1::AtmosEc3V1Filter;
use dee_config_gen::{
    Ac4OutputMode, EncodeMode, InputMediaInfo, JobMode, OutputContainer, Profile, ResolvedFilter,
    ResolvedJob, ResolvedOutput, RunSpec,
};

fn io(path: &str, files: &[&str]) -> ResolvedIo {
    ResolvedIo { storage_path: path.to_string(), file_names: files.iter().map(|s| s.to_string()).collect() }
}

fn entry<'a>(v: &'a JsonValue, key: &str) -> &'a JsonValue {
    match v {
        JsonValue::Object(es) => &es.iter().find(|(k, _)| k == key).expect("missing key").1,
        other => panic!("not an object: {other:?}"),
    }
}

fn keys(v: &JsonValue) -> Vec<String> {
    match v {
        JsonValue::Object(es) => es.iter().map(|(k, _)| k.clone()).collect(),
        other => panic!("not an object: {other:?}"),
    }
}

fn job(container: OutputContainer) -> ResolvedJob {
    ResolvedJob {
        template_id: "ac4_ims_pcm_v1".to_string(),
        profile: Profile::Standard,
        job_mode: JobMode::Single,
        encode_mode: EncodeMode::Ac4,
        input_media: vec![],
        input: io("Y:/in", &["a.wav"]),
        input_groups: None,
        output: ResolvedOutput {
            storage_path: "Y:/out".to_string(),
            file_names: vec!["o.ac4".to_string()],
            container,
            ac4_output_mode: Ac4OutputMode::Single,
        },
        misc: ResolvedMisc { temp_dir: "Y:/tmp".to_string(), clean_temp: false },
        filter: ResolvedFilter::AtmosEc3V1(other_template_filter()),
        run: RunSpec::default(),
    }
}

fn other_template_filter() -> AtmosEc3V1Filter {
    AtmosEc3V1Filter {
        metering_mode: String::new(),
        dialogue_intelligence: false,
        speech_threshold: 0,
        data_rate: 0,
        timecode_frame_rate: String::new(),
        start: String::new(),
        end: String::new(),
        time_base: String::new(),
        prepend_silence_duration: String::new(),
        append_silence_duration: String::new(),
        line_mode_drc_profile: String::new(),
        rf_mode_drc_profile: String::new(),
        loro_center_mix_level: String::new(),
        loro_surround_mix_level: String::new(),
        ltrt_center_mix_level: String::new(),
        ltrt_surround_mix_level: String::new(),
        preferred_downmix_mode: String::new(),
        surround_trim_5_1: String::new(),
        height_trim_5_1: String::new(),
        custom_dialnorm: 0,
        encoding_backend: None,
        encoder_mode: None,
    }
}

#[test]
fn ac4_ims_json_tree_has_the_dee_layout() {
    let filter = defaults(Profile::Standard, EncodeMode::Ac4);
    let input = atmos_input_json_node_with_timecodes("local", &io("Y:/in", &["a.atmos"]), "25", "auto", "auto");
    let tree = json_structure(&job(OutputContainer::Mp4), &filter, input);
    assert_eq!(keys(&tree), vec!["job_config"]);
    let cfg = entry(&tree, "job_config");
    assert_eq!(keys(cfg), vec!["input", "filter", "output", "misc"]);
    let mezz = entry(entry(entry(cfg, "input"), "audio"), "atmos_mezz");
    assert!(matches!(entry(mezz, "file_name"), JsonValue::Str(s) if s == "a.atmos"));
    assert!(matches!(entry(entry(entry(mezz, "storage"), "local"), "path"), JsonValue::Str(s) if s == "\"Y:/in\""));
    let mp4 = entry(entry(cfg, "output"), "mp4");
    assert!(matches!(entry(mp4, "fill_video"), JsonValue::Bool(false)));
    assert!(matches!(entry(mp4, "override_frame_rate"), JsonValue::Str(s) if s == "no"));
    let ims = entry(entry(entry(cfg, "filter"), "audio"), "encode_to_ims_ac4");
    assert!(matches!(entry(ims, "data_rate"), JsonValue::Int(n) if *n == i64::from(filter.data_rate)));
    let misc = entry(entry(cfg, "misc"), "temp_dir");
    assert!(matches!(entry(misc, "clean_temp"), JsonValue::Str(s) if s == "false"));
}

#[test]
fn ac4_ims_wav_list_lists_at_most_six_channels() {
    let groups = ResolvedInputGroups {
        atmos_mezz: None,
        wav: Some(io("Y:/w", &["x.wav"])),
        wav_list: Some(io("Y:/l", &["L.wav", "R.wav", "C.wav", "LFE.wav", "Ls.wav", "Rs.wav", "extra.wav"])),
    };
    let v = pcm_input_json_node_with_timecodes("local", &groups, "24", "0", "0");
    assert_eq!(keys(&v), vec!["wav", "wav_list"]);
    let wl = entry(&v, "wav_list");
    assert_eq!(
        keys(wl),
        vec![
            "-version", "file_name_L", "file_name_R", "file_name_C", "file_name_LFE", "file_name_LS",
            "file_name_RS", "channel_configuration", "timecode_frame_rate", "offset", "ffoa", "storage"
        ]
    );
    assert!(matches!(entry(wl, "file_name_RS"), JsonValue::Str(s) if s == "Rs.wav"));
}

#[test]
fn ac4_ims_xml_tree_renders() {
    let filter = defaults(Profile::Standard, EncodeMode::Ac4);
    let groups = ResolvedInputGroups { atmos_mezz: None, wav: Some(io("Y:/w", &["x.wav"])), wav_list: None };
    let input = pcm_input_node_with_timecodes("local", &groups, "24", "0", "0");
    let j = job(OutputContainer::Ac4);
    let text = render_xml_tree(&xml_structure(&j, &filter, input), &j);
    assert!(text.starts_with("<?xml version=\"1.0\"?>\n<job_config>\n  <input>\n    <audio>\n      <wav version=\"1\">\n        <file_name>x.wav</file_name>\n"));
    assert!(text.contains("<encode_to_ims_ac4 version=\"1\">"));
    assert!(text.contains("    <ac4 version=\"1\">\n      <file_name>o.ac4</file_name>\n"));
}

#[test]
fn ac4_ims_pcm_runtime_checks_the_wav_layout() {
    let t = Ac4ImsPcmV1;
    let wav = |path: &str, channels: u16| InputMediaInfo {
        path: path.to_string(),
        channels,
        sample_rate: 48_000,
        bits_per_sample: 24,
        channel_layout: String::new(),
        codec_name: String::new(),
    };
    assert!(t.validate_runtime_compatibility(&vec![wav("a", 6)], &vec!["a".to_string()]).is_ok());
    assert_eq!(
        t.validate_runtime_compatibility(&vec![wav("a", 2)], &vec!["a".to_string()]).unwrap_err(),
        "template_id 'ac4_ims_pcm_v1' requires inputs.wav to be a single 5.1 WAV; got 2 channels"
    );
    let names: Vec<String> = (0..6).map(|i| format!("s{i}.wav")).collect();
    let stems: Vec<InputMediaInfo> = (0..6).map(|i| wav(&format!("s{i}.wav"), if i == 3 { 2 } else { 1 })).collect();
    assert_eq!(
        t.validate_runtime_compatibility(&stems, &names).unwrap_err(),
        "template_id 'ac4_ims_pcm_v1' requires inputs.wav_list entries to be mono WAV stems; got 2 channels for s3.wav"
    );
    assert_eq!(
        t.validate_runtime_compatibility(&stems[..2].to_vec(), &names[..2].to_vec()).unwrap_err(),
        "template_id 'ac4_ims_pcm_v1' requires inputs.wav_list to contain 6 mono WAV stems; got 2"
    );
}

#[test]
fn pcm_ddp_json_names_the_codec_of_the_mode() {
    for (mode, tag) in [(EncodeMode::Dd, "\"ac3\""), (EncodeMode::Ddp71, "\"ec3\"")] {
        let mut j = job(OutputContainer::Ac4);
        j.template_id = "pcm_ddp_v1".to_string();
        j.encode_mode = mode;
        j.filter = ResolvedFilter::PcmDdpV1(pcm_ddp_v1::defaults(Profile::Standard, mode));
        let text = render_config(&j, RenderFormat::Json).unwrap();
        assert!(text.starts_with("{\n  \"job_config\": {"));
        assert!(text.contains(tag));
        assert!(text.contains("\"pcm_to_ddp\": {\n          \"-version\": \"3\""));
        assert!(text.contains("\"user_data\": \"-1\""));
        assert!(text.contains("\"lfe_on\": \"true\""));
        let xml = render_config(&j, RenderFormat::Xml).unwrap();
        assert!(xml.starts_with("<?xml version=\"1.0\"?>\n<job_config>"));
    }
}
