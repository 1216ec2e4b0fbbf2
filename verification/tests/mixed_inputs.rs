use dee_config_gen::mixed_inputs::{
    check_thd_atmos_wav_inputs, check_thd_atmos_wav_list_inputs, combine_thd_atmos_wav_inputs,
    combine_thd_atmos_wav_list_inputs, validate_thd_atmos_wav_runtime,
    validate_truehd_mixed_media_alignment, validate_truehd_mixed_offset_start_guard,
};
use dee_config_gen::{
    Ac4OutputMode, EncodeMode, FilterOverrides, InputMediaInfo, InputsSpec, IoSpec, JobMode, JobSpec,
    MiscSpec, OutputContainer, OutputSpec, Profile, RunSpec,
};

fn io(path: &str, names: &[&str]) -> IoSpec {
    IoSpec { storage_path: path.to_string(), file_names: names.iter().map(|n| n.to_string()).collect() }
}

fn mixed_job(template: &str, wav: Option<IoSpec>, wav_list: Option<IoSpec>) -> JobSpec {
    JobSpec {
        template_id: Some(template.to_string()),
        profile: Profile::Standard,
        job_mode: JobMode::Single,
        encode_mode: EncodeMode::Mlp,
        input: IoSpec { storage_path: String::new(), file_names: vec![] },
        inputs: Some(InputsSpec { atmos_mezz: Some(io("/mnt/atmos", &[" mezz.atmos "])), wav, wav_list }),
        output: OutputSpec {
            storage_path: "/mnt/out".to_string(),
            file_names: vec!["out.thd".to_string()],
            container: OutputContainer::Ac4,
            ac4_output_mode: Ac4OutputMode::Single,
        },
        misc: MiscSpec { temp_dir: "/tmp/dee".to_string(), clean_temp: true },
        filter: FilterOverrides::default(),
        run: RunSpec::default(),
    }
}

fn media(path: &str, rate: u32, bits: u16) -> InputMediaInfo {
    InputMediaInfo {
        path: path.to_string(),
        channels: 2,
        sample_rate: rate,
        bits_per_sample: bits,
        channel_layout: "stereo".to_string(),
        codec_name: "pcm_s24le".to_string(),
    }
}

fn single_wav_job() -> JobSpec {
    mixed_job("thd_atmos_wav_v1", Some(io("/mnt/wav", &["bed.wav "])), None)
}

fn wav_list_job(names: &[&str]) -> JobSpec {
    mixed_job("thd_atmos_wav_list_v1", None, Some(io("/mnt/stems", names)))
}

#[test]
fn wav_check_gives_trimmed_probe_names() {
    let (atmos, wav) = check_thd_atmos_wav_inputs(&single_wav_job()).unwrap();
    assert_eq!(atmos, vec!["mezz.atmos".to_string()]);
    assert_eq!(wav, vec!["bed.wav".to_string()]);
}

#[test]
fn wav_check_refuses_batch_mode() {
    let mut job = single_wav_job();
    job.job_mode = JobMode::Album;
    assert_eq!(
        check_thd_atmos_wav_inputs(&job).unwrap_err(),
        "template_id 'thd_atmos_wav_v1' only supports job_mode=single"
    );
}

#[test]
fn wav_check_refuses_two_outputs() {
    let mut job = single_wav_job();
    job.output.file_names.push("b.thd".to_string());
    assert_eq!(
        check_thd_atmos_wav_inputs(&job).unwrap_err(),
        "template_id 'thd_atmos_wav_v1' requires exactly one output file name"
    );
}

#[test]
fn wav_check_refuses_top_level_input() {
    let mut job = single_wav_job();
    job.input = io("/mnt/in", &["a.wav"]);
    assert_eq!(
        check_thd_atmos_wav_inputs(&job).unwrap_err(),
        "template_id 'thd_atmos_wav_v1' requires the 'inputs' block and does not accept top-level 'input'"
    );
}

#[test]
fn wav_check_needs_inputs_block() {
    let mut job = single_wav_job();
    job.inputs = None;
    assert_eq!(
        check_thd_atmos_wav_inputs(&job).unwrap_err(),
        "template_id 'thd_atmos_wav_v1' requires the 'inputs' block"
    );
}

#[test]
fn missing_groups_name_the_list_template() {
    let mut job = single_wav_job();
    job.inputs.as_mut().unwrap().atmos_mezz = None;
    assert_eq!(
        check_thd_atmos_wav_inputs(&job).unwrap_err(),
        "template_id 'thd_atmos_wav_list_v1' requires inputs.atmos_mezz"
    );
    let job = mixed_job("thd_atmos_wav_v1", None, None);
    assert_eq!(
        check_thd_atmos_wav_inputs(&job).unwrap_err(),
        "template_id 'thd_atmos_wav_list_v1' requires inputs.wav"
    );
    let job = mixed_job("thd_atmos_wav_list_v1", None, None);
    assert_eq!(
        check_thd_atmos_wav_list_inputs(&job).unwrap_err(),
        "template_id 'thd_atmos_wav_list_v1' requires inputs.wav_list"
    );
}

#[test]
fn each_mixed_template_refuses_the_other_group() {
    let job = mixed_job("thd_atmos_wav_v1", Some(io("/w", &["a.wav"])), Some(io("/l", &["a.wav", "b.wav"])));
    assert_eq!(
        check_thd_atmos_wav_inputs(&job).unwrap_err(),
        "template_id 'thd_atmos_wav_v1' does not support inputs.wav_list"
    );
    assert_eq!(
        check_thd_atmos_wav_list_inputs(&job).unwrap_err(),
        "template_id 'thd_atmos_wav_list_v1' does not support inputs.wav"
    );
}

#[test]
fn mezzanine_needs_one_file() {
    let mut job = single_wav_job();
    job.inputs.as_mut().unwrap().atmos_mezz = Some(io("/mnt/atmos", &["a.atmos", "b.atmos"]));
    assert_eq!(
        check_thd_atmos_wav_inputs(&job).unwrap_err(),
        "template_id 'thd_atmos_wav_v1' requires exactly one inputs.atmos_mezz.file_names entry"
    );
}

#[test]
fn single_wav_needs_one_file() {
    let job = mixed_job("thd_atmos_wav_v1", Some(io("/w", &["a.wav", "b.wav"])), None);
    assert_eq!(
        check_thd_atmos_wav_inputs(&job).unwrap_err(),
        "template_id 'thd_atmos_wav_v1' requires exactly one inputs.wav.file_names entry"
    );
}

#[test]
fn wav_list_accepts_two_six_or_eight_stems() {
    for n in [2usize, 6, 8] {
        let names: Vec<String> = (0..n).map(|i| format!(" s{i}.wav")).collect();
        let refs: Vec<&str> = names.iter().map(|s| s.as_str()).collect();
        let (atmos, stems) = check_thd_atmos_wav_list_inputs(&wav_list_job(&refs)).unwrap();
        assert_eq!(atmos, vec!["mezz.atmos".to_string()]);
        assert_eq!(stems.len(), n);
        assert_eq!(stems[0], "s0.wav");
    }
}

#[test]
fn wav_list_refuses_other_counts() {
    assert_eq!(
        check_thd_atmos_wav_list_inputs(&wav_list_job(&["a.wav", "b.wav", "c.wav"])).unwrap_err(),
        "template_id 'thd_atmos_wav_list_v1' requires 2, 6 or 8 inputs.wav_list.file_names entries; got 3"
    );
    assert_eq!(
        check_thd_atmos_wav_list_inputs(&wav_list_job(&["a.wav"])).unwrap_err(),
        "template_id 'thd_atmos_wav_list_v1' requires 2, 6 or 8 inputs.wav_list.file_names entries; got 1"
    );
}

#[test]
fn wav_list_refuses_placeholders() {
    assert_eq!(
        check_thd_atmos_wav_list_inputs(&wav_list_job(&["a.wav", "-"])).unwrap_err(),
        "template_id 'thd_atmos_wav_list_v1' does not support '-' placeholders in inputs.wav_list.file_names"
    );
}

#[test]
fn blank_stem_names_are_refused() {
    assert_eq!(
        check_thd_atmos_wav_list_inputs(&wav_list_job(&["a.wav", "  "])).unwrap_err(),
        "file_name entries must not be empty"
    );
}

#[test]
fn wav_context_joins_the_probed_media() {
    let job = single_wav_job();
    let ctx = combine_thd_atmos_wav_inputs(
        &job,
        'Y',
        vec![media("mezz.atmos", 48000, 24)],
        vec![media("bed.wav", 48000, 24)],
    )
    .unwrap();
    assert_eq!(ctx.input.storage_path, "Y:/mnt/atmos");
    assert_eq!(ctx.input.file_names, vec!["mezz.atmos".to_string()]);
    let groups = ctx.input_groups.unwrap();
    assert_eq!(groups.wav.unwrap().storage_path, "Y:/mnt/wav");
    assert!(groups.wav_list.is_none());
    assert_eq!(groups.atmos_mezz.unwrap().file_names, vec!["mezz.atmos".to_string()]);
    assert_eq!(ctx.input_media.len(), 2);
    assert_eq!(ctx.input_media[0].path, "mezz.atmos");
    assert_eq!(ctx.input_media[1].path, "bed.wav");
    assert_eq!(ctx.runtime_input_file_names, vec!["bed.wav".to_string()]);
}

#[test]
fn wav_list_context_keeps_every_stem() {
    let job = wav_list_job(&["l.wav", "r.wav"]);
    let ctx = combine_thd_atmos_wav_list_inputs(
        &job,
        'Z',
        vec![media("mezz.atmos", 48000, 24)],
        vec![media("l.wav", 48000, 24), media("r.wav", 96000, 16)],
    )
    .unwrap();
    let groups = ctx.input_groups.unwrap();
    assert!(groups.wav.is_none());
    assert_eq!(groups.wav_list.unwrap().storage_path, "Z:/mnt/stems");
    assert_eq!(ctx.input_media.len(), 3);
    assert_eq!(ctx.runtime_input_file_names, vec!["l.wav".to_string(), "r.wav".to_string()]);
}

#[test]
fn mismatched_sample_rates_are_refused() {
    let err = combine_thd_atmos_wav_inputs(
        &single_wav_job(),
        'Y',
        vec![media("mezz.atmos", 48000, 24)],
        vec![media("bed.wav", 96000, 24)],
    )
    .unwrap_err();
    assert_eq!(
        err,
        "template_id 'thd_atmos_wav_v1' requires matching sample_rate between atmos_mezz and wav; got 48000 and 96000"
    );
}

#[test]
fn mismatched_sample_sizes_are_refused() {
    let err = combine_thd_atmos_wav_list_inputs(
        &wav_list_job(&["l.wav", "r.wav"]),
        'Y',
        vec![media("mezz.atmos", 48000, 24)],
        vec![media("l.wav", 48000, 16)],
    )
    .unwrap_err();
    assert_eq!(
        err,
        "template_id 'thd_atmos_wav_list_v1' requires matching bits_per_sample between atmos_mezz and wav_list; got 24 and 16"
    );
}

#[test]
fn empty_probe_results_are_refused() {
    let job = single_wav_job();
    assert_eq!(
        combine_thd_atmos_wav_inputs(&job, 'Y', vec![], vec![media("bed.wav", 48000, 24)]).unwrap_err(),
        "inputs.atmos_mezz probing returned no media info"
    );
    assert_eq!(
        combine_thd_atmos_wav_inputs(&job, 'Y', vec![media("m", 48000, 24)], vec![]).unwrap_err(),
        "inputs.wav probing returned no media info"
    );
}

#[test]
fn mixed_media_must_align() {
    let a = media("m", 48000, 24);
    assert_eq!(validate_truehd_mixed_media_alignment("thd_atmos_wav_v1", &a, &media("w", 48000, 24)), Ok(()));
    assert_eq!(
        validate_truehd_mixed_media_alignment("thd_atmos_wav_v1", &a, &media("w", 44100, 24)).unwrap_err(),
        "template_id 'thd_atmos_wav_v1' requires matching sample_rate between atmos_mezz and secondary input; got 48000 and 44100"
    );
    assert_eq!(
        validate_truehd_mixed_media_alignment("thd_atmos_wav_list_v1", &a, &media("w", 48000, 16)).unwrap_err(),
        "template_id 'thd_atmos_wav_list_v1' requires matching bits_per_sample between atmos_mezz and secondary input; got 24 and 16"
    );
}

#[test]
fn offset_or_ffoa_needs_an_explicit_start() {
    assert_eq!(
        validate_truehd_mixed_offset_start_guard("thd_atmos_wav_v1", "wav input", "auto", "auto", "first_frame_of_action"),
        Ok(())
    );
    assert_eq!(
        validate_truehd_mixed_offset_start_guard("thd_atmos_wav_v1", "wav input", "00:00:01:00", "auto", "00:00:00:00"),
        Ok(())
    );
    assert_eq!(
        validate_truehd_mixed_offset_start_guard("thd_atmos_wav_v1", "wav input", "auto", "00:00:05:00", "first_frame_of_action")
            .unwrap_err(),
        "template_id 'thd_atmos_wav_v1' requires an explicit start value when offset or ffoa is set on the wav input; 'first_frame_of_action' follows the atmos_mezz boundary and can fail at runtime"
    );
}

#[test]
fn thd_atmos_wav_runtime_checks() {
    let a = media("m", 48000, 24);
    let mut w = media("w", 48000, 24);
    assert_eq!(
        validate_thd_atmos_wav_runtime(&vec![a.clone()], "auto", "auto", "first_frame_of_action").unwrap_err(),
        "template_id 'thd_atmos_wav_v1' requires one atmos_mezz input and one wav input"
    );
    assert_eq!(validate_thd_atmos_wav_runtime(&vec![a.clone(), w.clone()], "auto", "auto", "first_frame_of_action"), Ok(()));
    w.channels = 4;
    assert_eq!(
        validate_thd_atmos_wav_runtime(&vec![a.clone(), w.clone()], "auto", "auto", "first_frame_of_action").unwrap_err(),
        "template_id 'thd_atmos_wav_v1' currently supports wav side inputs with 2, 6 or 8 channels; got 4"
    );
    w.channels = 6;
    assert!(validate_thd_atmos_wav_runtime(&vec![a, w], "1", "auto", "first_frame_of_action").is_err());
}
