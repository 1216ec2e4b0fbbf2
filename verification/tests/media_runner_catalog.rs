use dee_config_gen::catalog::{
    availability_text_label, default_init_output_path, rule_text_label,
    select_init_example, show_template_text, source_label,
};
use dee_config_gen::media::{
    check_audio_extension, check_riff_header, finish_probe, infer_channel_layout,
    infer_codec_name, parse_fmt_chunk, validate_consistent_audio_inputs, wav_chunk, ParsedFmt,
};
use dee_config_gen::runner::{
    contains_format_arg, host_path_candidate, is_windows_drive_path, merge_runner_args,
    prepare_known_dee_dirs, runner_command, runner_invocation, DeeDir, RunOptions,
};
use dee_config_gen::schema::{ModeAvailability, ParamRule, SourceTag};
use dee_config_gen::{InputMediaInfo, RenderFormat};

fn wav_bytes(channels: u16, bits_per_sample: u16) -> Vec<u8> {
    let sample_rate = 48_000_u32;
    let data_size = u32::from(channels) * u32::from(bits_per_sample / 8) * 8;
    let byte_rate = sample_rate * u32::from(channels) * u32::from(bits_per_sample / 8);
    let block_align = channels * (bits_per_sample / 8);
    let riff_size = 36 + data_size;
    let mut out = Vec::new();
    out.extend_from_slice(b"RIFF");
    out.extend_from_slice(&riff_size.to_le_bytes());
    out.extend_from_slice(b"WAVE");
    out.extend_from_slice(b"fmt ");
    out.extend_from_slice(&16_u32.to_le_bytes());
    out.extend_from_slice(&1_u16.to_le_bytes());
    out.extend_from_slice(&channels.to_le_bytes());
    out.extend_from_slice(&sample_rate.to_le_bytes());
    out.extend_from_slice(&byte_rate.to_le_bytes());
    out.extend_from_slice(&block_align.to_le_bytes());
    out.extend_from_slice(&bits_per_sample.to_le_bytes());
    out.extend_from_slice(b"data");
    out.extend_from_slice(&data_size.to_le_bytes());
    out.extend(std::iter::repeat(0_u8).take(data_size as usize));
    out
}

fn probe_bytes(path: &str, bytes: &[u8]) -> Result<InputMediaInfo, String> {
    let head = &bytes[..bytes.len().min(12)];
    check_riff_header(path, head)?;
    let mut pos = 12_usize;
    let mut fmt: Option<ParsedFmt> = None;
    while pos + 8 <= bytes.len() {
        let chunk = wav_chunk(&bytes[pos..pos + 8]);
        pos += 8;
        if chunk.is_fmt {
            let end = pos + chunk.size as usize;
            fmt = Some(parse_fmt_chunk(path, &bytes[pos..end])?);
        }
        pos += chunk.skip_after as usize;
    }
    finish_probe(path, fmt)
}

fn info(path: &str, channels: u16) -> InputMediaInfo {
    InputMediaInfo {
        path: path.to_string(),
        channels,
        sample_rate: 48_000,
        bits_per_sample: 16,
        channel_layout: String::new(),
        codec_name: String::new(),
    }
}

#[test]
fn probes_wav_bytes_in_memory() {
    let info = probe_bytes("/tmp/input.wav", &wav_bytes(6, 16)).expect("probe wav");
    assert_eq!(info.path, "/tmp/input.wav");
    assert_eq!(info.channels, 6);
    assert_eq!(info.sample_rate, 48_000);
    assert_eq!(info.bits_per_sample, 16);
    assert_eq!(info.channel_layout, "5.1");
    assert_eq!(info.codec_name, "pcm_s16le");
}

#[test]
fn rejects_inconsistent_album_inputs_in_memory() {
    let a = probe_bytes("a.wav", &wav_bytes(6, 16)).unwrap();
    let b = probe_bytes("b.wav", &wav_bytes(8, 16)).unwrap();
    let err = validate_consistent_audio_inputs(&vec![a, b]).expect_err("mismatched channels should fail");
    assert!(err.contains("album mode requires consistent audio input media"));
    assert!(err.contains("6/48000/16"));
    assert!(err.contains("8/48000/16"));
    assert_eq!(
        err,
        "album mode requires consistent audio input media; expected channels/sample_rate/bits_per_sample = 6/48000/16, got 8/48000/16 for b.wav"
    );
}

#[test]
fn consistent_inputs_names_the_first_mismatch() {
    assert!(validate_consistent_audio_inputs(&vec![]).is_ok());
    assert!(validate_consistent_audio_inputs(&vec![info("a", 2), info("b", 2)]).is_ok());
    let err = validate_consistent_audio_inputs(&vec![info("a", 2), info("b", 2), info("c", 6), info("d", 8)])
        .unwrap_err();
    assert!(err.ends_with("got 6/48000/16 for c"));
}

#[test]
fn parses_extensible_fmt_chunk() {
    let mut data = vec![0_u8; 40];
    data[0..2].copy_from_slice(&0xFFFE_u16.to_le_bytes());
    data[2..4].copy_from_slice(&8_u16.to_le_bytes());
    data[4..8].copy_from_slice(&96_000_u32.to_le_bytes());
    data[14..16].copy_from_slice(&24_u16.to_le_bytes());
    data[20..24].copy_from_slice(&0x063F_u32.to_le_bytes());
    data[24..26].copy_from_slice(&1_u16.to_le_bytes());
    let f = parse_fmt_chunk("x.wav", &data).unwrap();
    assert_eq!(f.channels, 8);
    assert_eq!(f.sample_rate, 96_000);
    assert_eq!(f.bits_per_sample, 24);
    assert_eq!(f.channel_layout, "7.1");
    assert_eq!(f.codec_name, "pcm_s24le");
}

#[test]
fn extensible_tag_without_extension_uses_the_tag() {
    let mut data = vec![0_u8; 16];
    data[0..2].copy_from_slice(&0xFFFE_u16.to_le_bytes());
    data[2..4].copy_from_slice(&3_u16.to_le_bytes());
    data[14..16].copy_from_slice(&16_u16.to_le_bytes());
    let f = parse_fmt_chunk("x.wav", &data).unwrap();
    assert_eq!(f.channel_layout, "unknown");
    assert_eq!(f.codec_name, "format_0xfffe_16bit");
}

#[test]
fn rejects_short_fmt_chunk() {
    let err = parse_fmt_chunk("in/x.wav", &[0_u8; 15]).unwrap_err();
    assert_eq!(err, "invalid WAV fmt chunk in in/x.wav; expected at least 16 bytes");
}

#[test]
fn infers_layouts_and_codecs() {
    assert_eq!(infer_channel_layout(2, Some(0x4)), "mono");
    assert_eq!(infer_channel_layout(6, Some(0x3)), "stereo");
    assert_eq!(infer_channel_layout(6, Some(0x1234)), "5.1");
    assert_eq!(infer_channel_layout(1, None), "mono");
    assert_eq!(infer_channel_layout(3, None), "unknown");
    assert_eq!(infer_codec_name(1, 16), "pcm_s16le");
    assert_eq!(infer_codec_name(1, 20), "pcm_s20le");
    assert_eq!(infer_codec_name(3, 32), "pcm_f32le");
    assert_eq!(infer_codec_name(3, 64), "pcm_f64le");
    assert_eq!(infer_codec_name(0x55, 16), "format_0x0055_16bit");
}

#[test]
fn checks_riff_headers_and_extensions() {
    assert!(check_riff_header("a.wav", b"RIFF\0\0\0\0WAVE").is_ok());
    assert_eq!(
        check_riff_header("a.wav", b"RIFX\0\0\0\0WAVE").unwrap_err(),
        "unsupported wav container in a.wav; expected RIFF/WAVE"
    );
    assert_eq!(check_riff_header("a.wav", b"RIFF").unwrap_err(), "failed to read RIFF header from a.wav");
    assert!(check_audio_extension("a.WAV", "WAV").is_ok());
    assert_eq!(
        check_audio_extension("a.mp3", "mp3").unwrap_err(),
        "unsupported input audio format for a.mp3; only wav/bwf/adm-wav inputs are currently supported"
    );
}

#[test]
fn decodes_chunk_headers() {
    let c = wav_chunk(b"fmt \x10\0\0\0");
    assert!(c.is_fmt);
    assert_eq!(c.size, 16);
    assert_eq!(c.skip_after, 16);
    let d = wav_chunk(b"LIST\x03\0\0\0");
    assert!(!d.is_fmt);
    assert_eq!(d.skip_after, 4);
    assert_eq!(finish_probe("z.wav", None).unwrap_err(), "missing WAV fmt chunk in z.wav");
}

#[test]
fn detects_xml_flag_presence() {
    assert!(!contains_format_arg(&vec!["--output".to_string()], RenderFormat::Xml));
    assert!(contains_format_arg(
        &vec!["--xml".to_string(), "y:/job.xml".to_string()],
        RenderFormat::Xml
    ));
    assert!(contains_format_arg(&vec!["-x".to_string(), "job.xml".to_string()], RenderFormat::Xml));
}

#[test]
fn detects_json_flag_presence() {
    assert!(!contains_format_arg(&vec!["--output".to_string()], RenderFormat::Json));
    assert!(contains_format_arg(
        &vec!["--json".to_string(), "y:/job.json".to_string()],
        RenderFormat::Json
    ));
    assert!(contains_format_arg(&vec!["-j".to_string(), "job.json".to_string()], RenderFormat::Json));
}

#[test]
fn runner_command_precedence() {
    assert_eq!(runner_command(Some("a".to_string()), Some("b".to_string())), "a");
    assert_eq!(runner_command(None, Some("b".to_string())), "b");
    assert_eq!(runner_command(None, None), "dee");
}

#[test]
fn merges_runner_args_in_order() {
    let merged = merge_runner_args(&vec!["-a".to_string()], &vec!["-b".to_string(), "-c".to_string()]);
    assert_eq!(merged, vec!["-a", "-b", "-c"]);
}

#[test]
fn injects_format_flag_and_config_path() {
    let inv = runner_invocation("dee --verbose", &vec![], RenderFormat::Json, "/tmp/c.json").unwrap();
    assert_eq!(inv.program, "dee");
    assert_eq!(inv.args, vec!["--verbose", "--json", "/tmp/c.json"]);
    let inv = runner_invocation("dee", &vec!["-x".to_string(), "mine.xml".to_string()], RenderFormat::Xml, "c.xml")
        .unwrap();
    assert_eq!(inv.args, vec!["-x", "mine.xml"]);
}

#[test]
fn splits_quoted_runner_commands() {
    let inv = runner_invocation("\"/opt/my dee\" -v 'a b'", &vec!["--temp".to_string()], RenderFormat::Xml, "c.xml")
        .unwrap();
    assert_eq!(inv.program, "/opt/my dee");
    assert_eq!(inv.args, vec!["-v", "a b", "--temp", "--xml", "c.xml"]);
}

#[test]
fn rejects_bad_runner_commands() {
    assert_eq!(
        runner_invocation("dee 'open", &vec![], RenderFormat::Xml, "c.xml").unwrap_err(),
        "invalid runner command syntax: dee 'open"
    );
    assert_eq!(runner_invocation("   ", &vec![], RenderFormat::Xml, "c.xml").unwrap_err(), "empty runner command");
}

#[test]
fn plans_known_runner_directories() {
    let args: Vec<String> = vec![
        "--output", "/tmp/t/out/x.ec3", "--temp", "/tmp/t/tmpd", "--log-file", "/tmp/t/logs/run.log",
        "--input-audio", "Y:/testADM.wav",
    ]
    .into_iter()
    .map(String::from)
    .collect();
    let plan = prepare_known_dee_dirs(&args, false);
    assert_eq!(plan.len(), 3);
    assert!(matches!(&plan[0], DeeDir::CreateParent(p) if p == "/tmp/t/out/x.ec3"));
    assert!(matches!(&plan[1], DeeDir::Create(p) if p == "/tmp/t/tmpd"));
    assert!(matches!(&plan[2], DeeDir::CreateParent(p) if p == "/tmp/t/logs/run.log"));
    let win: Vec<String> = vec!["--output-file", "Y:/out/x.ec3", "--temp-dir"].into_iter().map(String::from).collect();
    assert!(prepare_known_dee_dirs(&win, false).is_empty());
    assert_eq!(prepare_known_dee_dirs(&win, true).len(), 1);
}

#[test]
fn recognises_windows_drive_paths() {
    assert!(is_windows_drive_path("Y:/a"));
    assert!(is_windows_drive_path("c:\\a"));
    assert!(!is_windows_drive_path("1:/a"));
    assert!(!is_windows_drive_path("Y:"));
    assert!(!host_path_candidate("Y:/a", false));
    assert!(host_path_candidate("Y:/a", true));
    assert!(host_path_candidate("/a", false));
    let d = RunOptions::default();
    assert_eq!(d.format, RenderFormat::Xml);
    assert!(d.runner_cmd.is_none() && !d.keep_config && d.generated_config.is_none());
}

#[test]
fn shows_template_details() {
    let text = show_template_text("atmos_ec3_v1").unwrap();
    assert!(text.starts_with(
        "Template: atmos_ec3_v1\nDescription: Atmos Dolby Digital Plus configs for streaming or Blu-ray workflows\nProfiles: standard, music\nEncode modes: streaming, bluray\nCanonical example: atmos_ec3_single.streaming.yaml\nExamples:\n  - atmos_ec3_single.streaming.yaml\n  - atmos_ec3_single.bluray.yaml\n  - atmos_ec3_album.music.json\nParameters:\n  - metering_mode: enum(1770-1|1770-2|1770-3|1770-4|LeqA); modes=all; sources=dolby_official,deezy_observed\n"
    ));
    assert!(text.contains("  - speech_threshold: int(0..100); modes=all;"));
    assert!(text.contains("  - data_rate: data_rate; modes=all; sources=dolby_official,deew_observed,deezy_observed\n"));
}

#[test]
fn show_rejects_unknown_templates() {
    assert_eq!(
        show_template_text("nope").unwrap_err(),
        "unknown template 'nope'; supported templates: ac4_ims_atmos_v1, ac4_ims_pcm_v1, atmos_ec3_v1, pcm_ddp_v1, thd_v1, thd_wav_v1, thd_wav_list_v1, thd_atmos_wav_v1, thd_atmos_wav_list_v1"
    );
}

#[test]
fn selects_init_examples() {
    assert_eq!(select_init_example(None, None).unwrap().name, "atmos_ec3_single.streaming.yaml");
    assert_eq!(select_init_example(Some("pcm_ddp_v1"), None).unwrap().name, "pcm_ddp_single.ddp.yaml");
    assert_eq!(
        select_init_example(Some("pcm_ddp_v1"), Some("examples/thd_single.mlp.yaml")).unwrap().name,
        "thd_single.mlp.yaml"
    );
    assert!(select_init_example(None, Some("nope.yaml"))
        .unwrap_err()
        .starts_with("unknown example 'nope.yaml'; supported examples: ac4_ims_atmos_multi3.ac4.yaml, "));
    assert!(select_init_example(Some("x"), None).unwrap_err().starts_with("unknown template 'x'"));
    assert_eq!(default_init_output_path("atmos_ec3_album.music.json"), "job.json");
    assert_eq!(default_init_output_path("thd_single.mlp.yaml"), "job.yaml");
    assert_eq!(default_init_output_path("json"), "job.yaml");
}

#[test]
fn labels_rules_and_availability() {
    assert_eq!(rule_text_label(&ParamRule::IntRange { min: -31, max: 0 }), "int(-31..0)");
    assert_eq!(rule_text_label(&ParamRule::Enum(vec!["a", "b"])), "enum(a|b)");
    assert_eq!(rule_text_label(&ParamRule::FreeString), "string");
    assert_eq!(availability_text_label(&ModeAvailability::Only(vec!["dd", "ddp"])), "only(dd|ddp)");
    assert_eq!(availability_text_label(&ModeAvailability::Except(vec!["bluray"])), "except(bluray)");
    assert_eq!(availability_text_label(&ModeAvailability::All), "all");
    assert_eq!(source_label(SourceTag::DeewObserved), "deew_observed");
}
