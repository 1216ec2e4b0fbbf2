//! The inputs of the mixed TrueHD jobs: an Atmos mezzanine together with a
//! WAV file (`thd_atmos_wav_v1`) or a list of WAV stems
//! (`thd_atmos_wav_list_v1`), given in the `inputs` block.
//!
//! Resolving them takes two steps around probing the files: the checks of
//! the spec, which give the trimmed names to probe, and the combination of
//! the probed media into the resolved input context. Before a run, the
//! probed media and the start settings get the checks of mixed inputs.
use vstd::prelude::*;

use crate::decode::JobSpecModel;
use crate::media::InputMediaInfo;
use crate::resolve::{
    chosen_template_id, file_names_outcome, filter_outcome, groups_model, kind_env, FilterModel, job_result, mode_error, names_model,
    normalize_file_names, profile_error, resolve_job, resolve_outcome, IoModel, JobModel, OutputModel,
    ResolveOptions, ResolveOptionsModel, ResolvedInputGroups, ResolvedIo, ResolvedJob, ResolvedMisc,
    ResolvedOutput,
};
use crate::schema::{evaluate_constraints, ConstraintContext};
use crate::spec::{
    drive_error, normalize_drive, normalize_windows_path, spec_encode_mode_name, spec_profile_name, windows_path,
    IoSpec, JobMode, JobSpec, DEFAULT_TEMPLATE_ID,
};
use crate::template::{kind_modes, kind_profiles, template_of, TemplateKind};
use crate::text::{nat_digits, owned, seq_lower, seq_trim, str_eq, u64_text};

verus! {

/// The inputs of a resolved job, with the media probed from them and the
/// file names the run-time checks read.
#[derive(Debug, Clone)]
pub struct ResolvedInputContext {
    pub input: ResolvedIo,
    pub input_groups: Option<ResolvedInputGroups>,
    pub input_media: Vec<InputMediaInfo>,
    pub runtime_input_file_names: Vec<String>,
}

/// Model of a resolved input context: the main input, the three groups (where
/// there are groups), the media and the run-time file names.
pub struct ContextModel {
    pub input: IoModel,
    pub groups: Option<(Option<IoModel>, Option<IoModel>, Option<IoModel>)>,
    pub media: Seq<InputMediaInfo>,
    pub runtime_names: Seq<Seq<char>>,
}

impl View for ResolvedInputContext {
    type V = ContextModel;

    open spec fn view(&self) -> ContextModel {
        ContextModel {
            input: self.input@,
            groups: groups_model(self.input_groups),
            media: self.input_media@,
            runtime_names: names_model(self.runtime_input_file_names@),
        }
    }
}

pub open spec fn context_result(r: Result<ResolvedInputContext, String>) -> Result<ContextModel, Seq<char>> {
    match r {
        Ok(c) => Ok(c@),
        Err(e) => Err(e@),
    }
}

pub open spec fn names_result(r: Result<(Vec<String>, Vec<String>), String>) -> Result<
    (Seq<Seq<char>>, Seq<Seq<char>>),
    Seq<char>,
> {
    match r {
        Ok((a, b)) => Ok((names_model(a@), names_model(b@))),
        Err(e) => Err(e@),
    }
}

/// The template id of a mixed job: with a WAV list or with one WAV.
pub open spec fn mixed_id(list: bool) -> Seq<char> {
    if list {
        "thd_atmos_wav_list_v1"@
    } else {
        "thd_atmos_wav_v1"@
    }
}

/// The name of the group that goes with the mezzanine.
pub open spec fn secondary(list: bool) -> Seq<char> {
    if list {
        "wav_list"@
    } else {
        "wav"@
    }
}

/// The name of the group that a mixed job must not have.
pub open spec fn excluded(list: bool) -> Seq<char> {
    if list {
        "wav"@
    } else {
        "wav_list"@
    }
}

/// Whether a location is unset: a blank storage path and no file names.
pub open spec fn io_is_empty(io: IoModel) -> bool {
    seq_trim(io.storage_path).len() == 0 && io.file_names.len() == 0
}

/// The message of a missing group (it names the list template for both).
pub open spec fn missing_group_error(field: Seq<char>) -> Seq<char> {
    "template_id 'thd_atmos_wav_list_v1' requires "@ + field
}

/// The secondary group of the inputs block.
pub open spec fn secondary_group(inputs: crate::decode::InputsModel, list: bool) -> Option<IoModel> {
    if list {
        inputs.wav_list
    } else {
        inputs.wav
    }
}

pub open spec fn excluded_group(inputs: crate::decode::InputsModel, list: bool) -> Option<IoModel> {
    if list {
        inputs.wav
    } else {
        inputs.wav_list
    }
}

/// Whether the secondary group has an accepted number of files, and what is
/// refused otherwise.
pub open spec fn secondary_count_error(names: Seq<Seq<char>>, list: bool) -> Option<Seq<char>> {
    if !list {
        if names.len() != 1 {
            Some("template_id 'thd_atmos_wav_v1' requires exactly one inputs.wav.file_names entry"@)
        } else {
            None
        }
    } else if !(names.len() == 2 || names.len() == 6 || names.len() == 8) {
        Some(
            "template_id 'thd_atmos_wav_list_v1' requires 2, 6 or 8 inputs.wav_list.file_names entries; got "@
                + nat_digits(names.len()),
        )
    } else if names.contains("-"@) {
        Some("template_id 'thd_atmos_wav_list_v1' does not support '-' placeholders in inputs.wav_list.file_names"@)
    } else {
        None
    }
}

/// The checks of a mixed job's spec, in order, and the trimmed names to
/// probe: those of the mezzanine and those of the secondary group.
pub open spec fn mixed_inputs_outcome(spec: JobSpecModel, list: bool) -> Result<
    (Seq<Seq<char>>, Seq<Seq<char>>),
    Seq<char>,
> {
    let id = mixed_id(list);
    if spec.job_mode != JobMode::Single {
        Err("template_id '"@ + id + "' only supports job_mode=single"@)
    } else if spec.output.file_names.len() != 1 {
        Err("template_id '"@ + id + "' requires exactly one output file name"@)
    } else if !io_is_empty(spec.input) {
        Err("template_id '"@ + id + "' requires the 'inputs' block and does not accept top-level 'input'"@)
    } else {
        match spec.inputs {
            None => Err("template_id '"@ + id + "' requires the 'inputs' block"@),
            Some(inputs) => match inputs.atmos_mezz {
                None => Err(missing_group_error("inputs.atmos_mezz"@)),
                Some(a) => match secondary_group(inputs, list) {
                    None => Err(missing_group_error("inputs."@ + secondary(list))),
                    Some(s) => if excluded_group(inputs, list) is Some {
                        Err("template_id '"@ + id + "' does not support inputs."@ + excluded(list))
                    } else if a.file_names.len() != 1 {
                        Err("template_id '"@ + id + "' requires exactly one inputs.atmos_mezz.file_names entry"@)
                    } else if secondary_count_error(s.file_names, list) is Some {
                        Err(secondary_count_error(s.file_names, list)->0)
                    } else {
                        match file_names_outcome(a.file_names) {
                            Err(e) => Err(e),
                            Ok(an) => match file_names_outcome(s.file_names) {
                                Err(e) => Err(e),
                                Ok(sn) => Ok((an, sn)),
                            },
                        }
                    },
                },
            },
        }
    }
}

/// Checks of `thd_atmos_wav_v1`.
pub open spec fn thd_atmos_wav_inputs_outcome(spec: JobSpecModel) -> Result<(Seq<Seq<char>>, Seq<Seq<char>>), Seq<char>> {
    mixed_inputs_outcome(spec, false)
}

/// Checks of `thd_atmos_wav_list_v1`.
pub open spec fn thd_atmos_wav_list_inputs_outcome(spec: JobSpecModel) -> Result<
    (Seq<Seq<char>>, Seq<Seq<char>>),
    Seq<char>,
> {
    mixed_inputs_outcome(spec, true)
}

fn id_str(list: bool) -> (r: &'static str)
    ensures
        r@ == mixed_id(list),
{
    if list {
        "thd_atmos_wav_list_v1"
    } else {
        "thd_atmos_wav_v1"
    }
}

fn message(list: bool, after: &str) -> (r: String)
    ensures
        r@ == "template_id '"@ + mixed_id(list) + after@,
{
    let mut e = owned("template_id '");
    e.append(id_str(list));
    e.append(after);
    e
}

fn secondary_str(list: bool) -> (r: &'static str)
    ensures
        r@ == secondary(list),
{
    if list {
        "wav_list"
    } else {
        "wav"
    }
}

fn missing(field: &str) -> (r: String)
    ensures
        r@ == missing_group_error(field@),
{
    let mut e = owned("template_id 'thd_atmos_wav_list_v1' requires ");
    e.append(field);
    e
}

fn has_placeholder(names: &Vec<String>) -> (r: bool)
    ensures
        r == names_model(names@).contains("-"@),
{
    let ghost nm = names_model(names@);
    let mut i: usize = 0;
    while i < names.len()
        invariant
            i <= names.len(),
            nm == names_model(names@),
            forall|j: int| 0 <= j < i ==> nm[j] != "-"@,
        decreases names.len() - i,
    {
        if str_eq(names[i].as_str(), "-") {
            assert(nm[i as int] == "-"@);
            return true;
        }
        i += 1;
    }
    false
}

fn secondary_count_check(names: &Vec<String>, list: bool) -> (r: Option<String>)
    ensures
        match secondary_count_error(names_model(names@), list) {
            Some(m) => r matches Some(e) && e@ == m,
            None => r is None,
        },
{
    let n = names.len();
    if !list {
        if n != 1 {
            return Some(owned("template_id 'thd_atmos_wav_v1' requires exactly one inputs.wav.file_names entry"));
        }
        None
    } else if !(n == 2 || n == 6 || n == 8) {
        let mut e = owned(
            "template_id 'thd_atmos_wav_list_v1' requires 2, 6 or 8 inputs.wav_list.file_names entries; got ",
        );
        e.append(u64_text(n as u64).as_str());
        Some(e)
    } else if has_placeholder(names) {
        Some(
            owned(
                "template_id 'thd_atmos_wav_list_v1' does not support '-' placeholders in inputs.wav_list.file_names",
            ),
        )
    } else {
        None
    }
}

fn check_mixed_inputs(spec: &JobSpec, list: bool) -> (r: Result<(Vec<String>, Vec<String>), String>)
    ensures
        names_result(r) == mixed_inputs_outcome(spec@, list),
{
    if spec.job_mode != JobMode::Single {
        return Err(message(list, "' only supports job_mode=single"));
    }
    if spec.output.file_names.len() != 1 {
        return Err(message(list, "' requires exactly one output file name"));
    }
    if !spec.input.is_empty() {
        return Err(message(list, "' requires the 'inputs' block and does not accept top-level 'input'"));
    }
    let inputs = match &spec.inputs {
        None => {
            return Err(message(list, "' requires the 'inputs' block"));
        },
        Some(i) => i,
    };
    let atmos: &IoSpec = match &inputs.atmos_mezz {
        None => {
            return Err(missing("inputs.atmos_mezz"));
        },
        Some(a) => a,
    };
    let sec_opt = if list {
        &inputs.wav_list
    } else {
        &inputs.wav
    };
    let sec: &IoSpec = match sec_opt {
        None => {
            let mut field = owned("inputs.");
            field.append(secondary_str(list));
            return Err(missing(field.as_str()));
        },
        Some(s) => s,
    };
    let excluded_present = if list {
        inputs.wav.is_some()
    } else {
        inputs.wav_list.is_some()
    };
    if excluded_present {
        let mut e = message(list, "' does not support inputs.");
        e.append(if list {
            "wav"
        } else {
            "wav_list"
        });
        return Err(e);
    }
    if atmos.file_names.len() != 1 {
        return Err(message(list, "' requires exactly one inputs.atmos_mezz.file_names entry"));
    }
    if let Some(e) = secondary_count_check(&sec.file_names, list) {
        return Err(e);
    }
    let an = match normalize_file_names(&atmos.file_names) {
        Ok(v) => v,
        Err(e) => {
            return Err(e);
        },
    };
    let sn = match normalize_file_names(&sec.file_names) {
        Ok(v) => v,
        Err(e) => {
            return Err(e);
        },
    };
    Ok((an, sn))
}

/// Checks the spec of a `thd_atmos_wav_v1` job and gives the trimmed names
/// of its mezzanine and of its WAV file, to probe.
pub fn check_thd_atmos_wav_inputs(spec: &JobSpec) -> (r: Result<(Vec<String>, Vec<String>), String>)
    ensures
        names_result(r) == thd_atmos_wav_inputs_outcome(spec@),
{
    check_mixed_inputs(spec, false)
}

/// Checks the spec of a `thd_atmos_wav_list_v1` job and gives the trimmed
/// names of its mezzanine and of its WAV stems, to probe.
pub fn check_thd_atmos_wav_list_inputs(spec: &JobSpec) -> (r: Result<(Vec<String>, Vec<String>), String>)
    ensures
        names_result(r) == thd_atmos_wav_list_inputs_outcome(spec@),
{
    check_mixed_inputs(spec, true)
}

pub open spec fn mismatch_error(list: bool, what: Seq<char>, a: nat, b: nat) -> Seq<char> {
    "template_id '"@ + mixed_id(list) + "' requires matching "@ + what + " between atmos_mezz and "@ + secondary(
        list,
    ) + "; got "@ + nat_digits(a) + " and "@ + nat_digits(b)
}

/// The resolved input context of a checked mixed job from the probed media
/// of its mezzanine and of its secondary group: the first media of each
/// must agree on sample rate and sample size.
pub open spec fn mixed_media_outcome(
    spec: JobSpecModel,
    list: bool,
    drive: char,
    atmos: Seq<InputMediaInfo>,
    sec: Seq<InputMediaInfo>,
) -> Result<ContextModel, Seq<char>> {
    let names = mixed_inputs_outcome(spec, list)->Ok_0;
    let inputs = spec.inputs->0;
    let a = inputs.atmos_mezz->0;
    let s = secondary_group(inputs, list)->0;
    if atmos.len() == 0 {
        Err("inputs.atmos_mezz probing returned no media info"@)
    } else if sec.len() == 0 {
        Err("inputs."@ + secondary(list) + " probing returned no media info"@)
    } else if atmos[0].sample_rate != sec[0].sample_rate {
        Err(mismatch_error(list, "sample_rate"@, atmos[0].sample_rate as nat, sec[0].sample_rate as nat))
    } else if atmos[0].bits_per_sample != sec[0].bits_per_sample {
        Err(mismatch_error(list, "bits_per_sample"@, atmos[0].bits_per_sample as nat, sec[0].bits_per_sample as nat))
    } else {
        let ai = IoModel { storage_path: windows_path(a.storage_path, drive), file_names: names.0 };
        let si = IoModel { storage_path: windows_path(s.storage_path, drive), file_names: names.1 };
        Ok(
            ContextModel {
                input: ai,
                groups: Some(
                    if list {
                        (Some(ai), None, Some(si))
                    } else {
                        (Some(ai), Some(si), None)
                    },
                ),
                media: atmos + sec,
                runtime_names: names.1,
            },
        )
    }
}

/// The context of `thd_atmos_wav_v1`.
pub open spec fn thd_atmos_wav_media_outcome(
    spec: JobSpecModel,
    drive: char,
    atmos: Seq<InputMediaInfo>,
    wav: Seq<InputMediaInfo>,
) -> Result<ContextModel, Seq<char>> {
    mixed_media_outcome(spec, false, drive, atmos, wav)
}

/// The context of `thd_atmos_wav_list_v1`.
pub open spec fn thd_atmos_wav_list_media_outcome(
    spec: JobSpecModel,
    drive: char,
    atmos: Seq<InputMediaInfo>,
    wav_list: Seq<InputMediaInfo>,
) -> Result<ContextModel, Seq<char>> {
    mixed_media_outcome(spec, true, drive, atmos, wav_list)
}

fn mismatch(list: bool, what: &str, a: u64, b: u64) -> (r: String)
    ensures
        r@ == mismatch_error(list, what@, a as nat, b as nat),
{
    let mut e = message(list, "' requires matching ");
    e.append(what);
    e.append(" between atmos_mezz and ");
    e.append(if list {
        "wav_list"
    } else {
        "wav"
    });
    e.append("; got ");
    e.append(u64_text(a).as_str());
    e.append(" and ");
    e.append(u64_text(b).as_str());
    e
}

fn copy_io(io: &ResolvedIo) -> (r: ResolvedIo)
    ensures
        r@ == io@,
{
    ResolvedIo { storage_path: io.storage_path.clone(), file_names: crate::text::clone_strings(&io.file_names) }
}

fn combine_mixed_inputs(
    spec: &JobSpec,
    list: bool,
    drive: char,
    atmos: Vec<InputMediaInfo>,
    sec: Vec<InputMediaInfo>,
) -> (r: Result<ResolvedInputContext, String>)
    requires
        mixed_inputs_outcome(spec@, list) is Ok,
    ensures
        context_result(r) == mixed_media_outcome(spec@, list, drive, atmos@, sec@),
{
    let ghost (a0, s0) = (atmos@, sec@);
    let (an, sn) = match check_mixed_inputs(spec, list) {
        Ok(x) => x,
        Err(_) => {
            assert(false);
            return Err(String::new());
        },
    };
    if atmos.len() == 0 {
        return Err(owned("inputs.atmos_mezz probing returned no media info"));
    }
    if sec.len() == 0 {
        let mut e = owned("inputs.");
        e.append(if list {
            "wav_list"
        } else {
            "wav"
        });
        e.append(" probing returned no media info");
        return Err(e);
    }
    if atmos[0].sample_rate != sec[0].sample_rate {
        return Err(mismatch(list, "sample_rate", atmos[0].sample_rate as u64, sec[0].sample_rate as u64));
    }
    if atmos[0].bits_per_sample != sec[0].bits_per_sample {
        return Err(
            mismatch(list, "bits_per_sample", atmos[0].bits_per_sample as u64, sec[0].bits_per_sample as u64),
        );
    }
    let inputs = spec.inputs.as_ref().unwrap();
    let a = inputs.atmos_mezz.as_ref().unwrap();
    let s = if list {
        inputs.wav_list.as_ref().unwrap()
    } else {
        inputs.wav.as_ref().unwrap()
    };
    let ai = ResolvedIo { storage_path: normalize_windows_path(a.storage_path.as_str(), drive), file_names: an };
    let si = ResolvedIo {
        storage_path: normalize_windows_path(s.storage_path.as_str(), drive),
        file_names: crate::text::clone_strings(&sn),
    };
    let groups = if list {
        ResolvedInputGroups { atmos_mezz: Some(copy_io(&ai)), wav: None, wav_list: Some(si) }
    } else {
        ResolvedInputGroups { atmos_mezz: Some(copy_io(&ai)), wav: Some(si), wav_list: None }
    };
    let mut media = atmos;
    let mut rest = sec;
    media.append(&mut rest);
    let r = ResolvedInputContext {
        input: ai,
        input_groups: Some(groups),
        input_media: media,
        runtime_input_file_names: sn,
    };
    assert(r@.media == a0 + s0);
    Ok(r)
}

/// Combines the probed media of a checked `thd_atmos_wav_v1` job (its
/// mezzanine's, then its WAV file's) into its input context.
pub fn combine_thd_atmos_wav_inputs(
    spec: &JobSpec,
    drive: char,
    atmos: Vec<InputMediaInfo>,
    wav: Vec<InputMediaInfo>,
) -> (r: Result<ResolvedInputContext, String>)
    requires
        thd_atmos_wav_inputs_outcome(spec@) is Ok,
    ensures
        context_result(r) == thd_atmos_wav_media_outcome(spec@, drive, atmos@, wav@),
{
    combine_mixed_inputs(spec, false, drive, atmos, wav)
}

/// Combines the probed media of a checked `thd_atmos_wav_list_v1` job (its
/// mezzanine's, then its stems') into its input context.
pub fn combine_thd_atmos_wav_list_inputs(
    spec: &JobSpec,
    drive: char,
    atmos: Vec<InputMediaInfo>,
    wav_list: Vec<InputMediaInfo>,
) -> (r: Result<ResolvedInputContext, String>)
    requires
        thd_atmos_wav_list_inputs_outcome(spec@) is Ok,
    ensures
        context_result(r) == thd_atmos_wav_list_media_outcome(spec@, drive, atmos@, wav_list@),
{
    combine_mixed_inputs(spec, true, drive, atmos, wav_list)
}


/// The first media of the mezzanine and of the secondary input of a mixed
/// job must agree on sample rate and sample size.
pub open spec fn alignment_outcome(id: Seq<char>, atmos: InputMediaInfo, sec: InputMediaInfo) -> Result<(), Seq<char>> {
    if atmos.sample_rate != sec.sample_rate {
        Err(mixed_mismatch_error(id, "sample_rate"@, atmos.sample_rate as nat, sec.sample_rate as nat))
    } else if atmos.bits_per_sample != sec.bits_per_sample {
        Err(mixed_mismatch_error(id, "bits_per_sample"@, atmos.bits_per_sample as nat, sec.bits_per_sample as nat))
    } else {
        Ok(())
    }
}

pub open spec fn mixed_mismatch_error(id: Seq<char>, what: Seq<char>, a: nat, b: nat) -> Seq<char> {
    "template_id '"@ + id + "' requires matching "@ + what + " between atmos_mezz and secondary input; got "@
        + nat_digits(a) + " and "@ + nat_digits(b)
}

fn mixed_mismatch(template_id: &str, what: &str, a: u64, b: u64) -> (r: String)
    ensures
        r@ == mixed_mismatch_error(template_id@, what@, a as nat, b as nat),
{
    let mut e = owned("template_id '");
    e.append(template_id);
    e.append("' requires matching ");
    e.append(what);
    e.append(" between atmos_mezz and secondary input; got ");
    e.append(u64_text(a).as_str());
    e.append(" and ");
    e.append(u64_text(b).as_str());
    e
}

/// Checks that the mezzanine and the secondary input of a mixed TrueHD job
/// have the same sample rate and sample size.
pub fn validate_truehd_mixed_media_alignment(
    template_id: &str,
    atmos_mezz: &InputMediaInfo,
    secondary: &InputMediaInfo,
) -> (r: Result<(), String>)
    ensures
        crate::schema::unit_model(r) == alignment_outcome(template_id@, *atmos_mezz, *secondary),
{
    if atmos_mezz.sample_rate != secondary.sample_rate {
        let e = mixed_mismatch(template_id, "sample_rate", atmos_mezz.sample_rate as u64, secondary.sample_rate as u64);
        return Err(e);
    }
    if atmos_mezz.bits_per_sample != secondary.bits_per_sample {
        let e = mixed_mismatch(
            template_id,
            "bits_per_sample",
            atmos_mezz.bits_per_sample as u64,
            secondary.bits_per_sample as u64,
        );
        return Err(e);
    }
    Ok(())
}

/// An offset or an FFOA on the secondary input needs an explicit start: the
/// first frame of action follows the mezzanine's boundary.
pub open spec fn offset_start_guard_outcome(
    id: Seq<char>,
    label: Seq<char>,
    offset: Seq<char>,
    ffoa: Seq<char>,
    start: Seq<char>,
) -> Result<(), Seq<char>> {
    if (offset != "auto"@ || ffoa != "auto"@) && start == "first_frame_of_action"@ {
        Err(
            "template_id '"@ + id + "' requires an explicit start value when offset or ffoa is set on the "@ + label
                + "; 'first_frame_of_action' follows the atmos_mezz boundary and can fail at runtime"@,
        )
    } else {
        Ok(())
    }
}

/// Refuses `start: first_frame_of_action` where the secondary input of a
/// mixed TrueHD job has an offset or an FFOA other than `auto`.
pub fn validate_truehd_mixed_offset_start_guard(
    template_id: &str,
    input_label: &str,
    offset: &str,
    ffoa: &str,
    start: &str,
) -> (r: Result<(), String>)
    ensures
        crate::schema::unit_model(r) == offset_start_guard_outcome(template_id@, input_label@, offset@, ffoa@, start@),
{
    if (!str_eq(offset, "auto") || !str_eq(ffoa, "auto")) && str_eq(start, "first_frame_of_action") {
        let mut e = owned("template_id '");
        e.append(template_id);
        e.append("' requires an explicit start value when offset or ffoa is set on the ");
        e.append(input_label);
        e.append("; 'first_frame_of_action' follows the atmos_mezz boundary and can fail at runtime");
        return Err(e);
    }
    Ok(())
}

/// The run-time checks of a `thd_atmos_wav_v1` job from its probed media
/// and the `offset`, `ffoa` and `start` of its filter: one mezzanine and
/// one WAV input, aligned, a WAV of 2, 6 or 8 channels, and the start guard.
pub open spec fn thd_atmos_wav_runtime_outcome(
    media: Seq<InputMediaInfo>,
    offset: Seq<char>,
    ffoa: Seq<char>,
    start: Seq<char>,
) -> Result<(), Seq<char>> {
    if media.len() != 2 {
        Err("template_id 'thd_atmos_wav_v1' requires one atmos_mezz input and one wav input"@)
    } else {
        match alignment_outcome("thd_atmos_wav_v1"@, media[0], media[1]) {
            Err(e) => Err(e),
            Ok(_) => if !(media[1].channels == 2 || media[1].channels == 6 || media[1].channels == 8) {
                Err(
                    "template_id 'thd_atmos_wav_v1' currently supports wav side inputs with 2, 6 or 8 channels; got "@
                        + nat_digits(media[1].channels as nat),
                )
            } else {
                offset_start_guard_outcome("thd_atmos_wav_v1"@, "wav input"@, offset, ffoa, start)
            },
        }
    }
}

/// Checks a `thd_atmos_wav_v1` job's probed media and start settings
/// before a run.
pub fn validate_thd_atmos_wav_runtime(
    input_media: &Vec<InputMediaInfo>,
    offset: &str,
    ffoa: &str,
    start: &str,
) -> (r: Result<(), String>)
    ensures
        crate::schema::unit_model(r) == thd_atmos_wav_runtime_outcome(input_media@, offset@, ffoa@, start@),
{
    if input_media.len() != 2 {
        return Err(owned("template_id 'thd_atmos_wav_v1' requires one atmos_mezz input and one wav input"));
    }
    let atmos_mezz = &input_media[0];
    let wav = &input_media[1];
    match validate_truehd_mixed_media_alignment("thd_atmos_wav_v1", atmos_mezz, wav) {
        Ok(()) => {},
        Err(e) => {
            return Err(e);
        },
    }
    if !(wav.channels == 2 || wav.channels == 6 || wav.channels == 8) {
        let mut e = owned("template_id 'thd_atmos_wav_v1' currently supports wav side inputs with 2, 6 or 8 channels; got ");
        e.append(u64_text(wav.channels as u64).as_str());
        return Err(e);
    }
    validate_truehd_mixed_offset_start_guard("thd_atmos_wav_v1", "wav input", offset, ffoa, start)
}


/// Whether the job's template is the mixed TrueHD one, whose inputs are
/// probed before it resolves.
pub open spec fn is_mixed_job(spec: JobSpecModel, options: ResolveOptionsModel) -> bool {
    chosen_template_id(spec, options) == crate::template::thd_atmos_wav_v1::thd_atmos_wav_id()
}

/// The mixed template is the one registered under its id.
pub proof fn lemma_mixed_id(id: Seq<char>)
    ensures
        (id == crate::template::thd_atmos_wav_v1::thd_atmos_wav_id()) == (template_of(id) == Some(
            TemplateKind::ThdAtmosWavV1,
        )),
{
    reveal_strlit("ac4_v1");
    reveal_strlit("atmos_ec3_v1");
    reveal_strlit("pcm_ddp_v1");
    reveal_strlit("thd_v1");
    reveal_strlit("thd_atmos_wav_v1");
    if id == crate::template::thd_atmos_wav_v1::thd_atmos_wav_id() {
        assert(id.len() == 16);
        assert(crate::template::ac4_v1::ac4v1_id().len() == 6);
        assert(crate::template::atmos_ec3_v1::atmos_id().len() == 12);
        assert(crate::template::pcm_ddp_v1::pcm_id().len() == 10);
        assert(crate::template::thd_v1::thd_id().len() == 6);
    }
}

/// A checked mixed job has one mezzanine file, one secondary file and one
/// output file.
proof fn lemma_mixed_single_files(spec: JobSpecModel)
    requires
        mixed_inputs_outcome(spec, false) is Ok,
    ensures
        mixed_inputs_outcome(spec, false)->Ok_0.0.len() == 1,
        mixed_inputs_outcome(spec, false)->Ok_0.1.len() == 1,
        spec.output.file_names.len() == 1,
{
}

/// The checks of a mixed job before its inputs are probed: the drive, the
/// profile, the encode mode, then the `inputs` block, which gives the names
/// to probe.
pub open spec fn mixed_checks_outcome(spec: JobSpecModel, options: ResolveOptionsModel) -> Result<
    (Seq<Seq<char>>, Seq<Seq<char>>),
    Seq<char>,
> {
    let k = TemplateKind::ThdAtmosWavV1;
    if !crate::text::is_alpha(options.windows_drive) {
        Err(drive_error(options.windows_drive))
    } else if !kind_profiles(k).contains(spec_profile_name(spec.profile)) {
        Err(profile_error(k, spec.profile))
    } else if !kind_modes(k).contains(spec_encode_mode_name(spec.encode_mode)) {
        Err(mode_error(k, spec.encode_mode))
    } else {
        thd_atmos_wav_inputs_outcome(spec)
    }
}

/// The names to probe before resolving a job: those of the mezzanine and of
/// the WAV input of a mixed job, none for another template.
pub open spec fn mixed_prepare_outcome(spec: JobSpecModel, options: ResolveOptionsModel) -> Result<
    (Seq<Seq<char>>, Seq<Seq<char>>),
    Seq<char>,
> {
    if is_mixed_job(spec, options) {
        mixed_checks_outcome(spec, options)
    } else {
        Ok((Seq::empty(), Seq::empty()))
    }
}

/// Outcome of resolving a mixed job from the probed media of its mezzanine
/// and of its WAV input: the checks, the input context, the output names,
/// and the filter from the defaults, the overrides, the constraints and the
/// run-time checks of the probed media.
pub open spec fn mixed_job_outcome(
    spec: JobSpecModel,
    options: ResolveOptionsModel,
    atmos: Seq<InputMediaInfo>,
    wav: Seq<InputMediaInfo>,
) -> Result<JobModel, Seq<char>> {
    match mixed_checks_outcome(spec, options) {
        Err(e) => Err(e),
        Ok(_) => {
            let d = crate::text::upper_char(options.windows_drive);
            match thd_atmos_wav_media_outcome(spec, d, atmos, wav) {
                Err(e) => Err(e),
                Ok(c) => match file_names_outcome(spec.output.file_names) {
                    Err(e) => Err(e),
                    Ok(output_names) => match filter_outcome(TemplateKind::ThdAtmosWavV1, spec, options, c.media) {
                        Err(e) => Err(e),
                        Ok(f) => Ok(
                            JobModel {
                                template_id: crate::template::thd_atmos_wav_v1::thd_atmos_wav_id(),
                                profile: spec.profile,
                                job_mode: spec.job_mode,
                                encode_mode: spec.encode_mode,
                                input_media: c.media,
                                input: c.input,
                                input_groups: c.groups,
                                output: OutputModel {
                                    storage_path: windows_path(spec.output.storage_path, d),
                                    file_names: output_names,
                                    container: spec.output.container,
                                    ac4_output_mode: spec.output.ac4_output_mode,
                                },
                                temp_dir: windows_path(spec.misc.temp_dir, d),
                                clean_temp: spec.misc.clean_temp,
                                filter: f,
                                run: spec.run,
                            },
                        ),
                    },
                },
            }
        },
    }
}

/// Outcome of resolving a job with the probed media of its inputs: a mixed
/// job resolves from them, another job as without them.
pub open spec fn mixed_finish_outcome(
    spec: JobSpecModel,
    options: ResolveOptionsModel,
    atmos: Seq<InputMediaInfo>,
    wav: Seq<InputMediaInfo>,
) -> Result<JobModel, Seq<char>> {
    if is_mixed_job(spec, options) {
        mixed_job_outcome(spec, options, atmos, wav)
    } else {
        resolve_outcome(spec, options)
    }
}

/// Whether the job's template is the mixed TrueHD one.
pub fn uses_mixed_inputs(spec: &JobSpec, options: &ResolveOptions) -> (r: bool)
    ensures
        r == is_mixed_job(spec@, options@),
{
    let id: &str = match &options.template_override {
        Some(t) => t.as_str(),
        None => match &spec.template_id {
            Some(t) => t.as_str(),
            None => DEFAULT_TEMPLATE_ID,
        },
    };
    str_eq(id, crate::template::thd_atmos_wav_v1::ID)
}

fn mixed_checks(spec: &JobSpec, options: &ResolveOptions) -> (r: Result<(Vec<String>, Vec<String>), String>)
    ensures
        names_result(r) == mixed_checks_outcome(spec@, options@),
{
    match normalize_drive(options.windows_drive) {
        Ok(_) => {},
        Err(e) => {
            return Err(e);
        },
    }
    let template = TemplateKind::ThdAtmosWavV1;
    let profiles = template.valid_profiles();
    if !crate::text::contains_str(&profiles, spec.profile.as_str()) {
        let mut e = owned("unsupported profile '");
        e.append(spec.profile.as_str());
        e.append("'; allowed: ");
        e.append(crate::text::join_strs(&profiles, ", ").as_str());
        return Err(e);
    }
    let modes = template.valid_encode_modes();
    if !crate::text::contains_str(&modes, spec.encode_mode.as_str()) {
        let mut e = owned("unsupported encode_mode '");
        e.append(spec.encode_mode.as_str());
        e.append("'; allowed: ");
        e.append(crate::text::join_strs(&modes, ", ").as_str());
        return Err(e);
    }
    check_thd_atmos_wav_inputs(spec)
}

/// The names to probe before resolving a job: for a mixed TrueHD job, the
/// trimmed names of its mezzanine and of its WAV file, after the checks of
/// its drive, profile, mode and `inputs` block; for another job, none.
pub fn resolve_mixed_prepare(spec: &JobSpec, options: &ResolveOptions) -> (r: Result<(Vec<String>, Vec<String>), String>)
    ensures
        names_result(r) == mixed_prepare_outcome(spec@, options@),
{
    if !uses_mixed_inputs(spec, options) {
        let a: Vec<String> = Vec::new();
        let b: Vec<String> = Vec::new();
        assert(names_model(a@) =~= Seq::<Seq<char>>::empty());
        return Ok((a, b));
    }
    mixed_checks(spec, options)
}

/// Resolves a mixed job from the probed media of its mezzanine and of its
/// WAV input.
#[verifier::rlimit(40)]
pub fn resolve_mixed_job(
    spec: JobSpec,
    options: &ResolveOptions,
    atmos: Vec<InputMediaInfo>,
    wav: Vec<InputMediaInfo>,
) -> (r: Result<ResolvedJob, String>)
    requires
        is_mixed_job(spec@, options@),
    ensures
        job_result(r) == mixed_job_outcome(spec@, options@, atmos@, wav@),
        r matches Ok(j) ==> crate::render::filter_fits(j) && crate::render::mode_fits(j),
{
    let ghost (a0, w0) = (atmos@, wav@);
    match mixed_checks(&spec, options) {
        Ok(_) => {},
        Err(e) => {
            return Err(e);
        },
    }
    let drive = match normalize_drive(options.windows_drive) {
        Ok(d) => d,
        Err(e) => {
            return Err(e);
        },
    };
    let ctx = match combine_thd_atmos_wav_inputs(&spec, drive, atmos, wav) {
        Ok(c) => c,
        Err(e) => {
            return Err(e);
        },
    };
    let output_names = match normalize_file_names(&spec.output.file_names) {
        Ok(v) => v,
        Err(e) => {
            return Err(e);
        },
    };
    let output = ResolvedOutput {
        storage_path: normalize_windows_path(spec.output.storage_path.as_str(), drive),
        file_names: output_names,
        container: spec.output.container,
        ac4_output_mode: spec.output.ac4_output_mode,
    };
    let misc = ResolvedMisc {
        temp_dir: normalize_windows_path(spec.misc.temp_dir.as_str(), drive),
        clean_temp: spec.misc.clean_temp,
    };
    let template = TemplateKind::ThdAtmosWavV1;
    proof {
        crate::spec::lemma_mode_names(spec.encode_mode);
    }
    let mut filter = template.defaults(spec.profile, spec.encode_mode);
    match template.apply_overrides(&mut filter, &spec.filter, spec.encode_mode) {
        Ok(()) => {},
        Err(e) => {
            return Err(e);
        },
    }
    let constraints = template.constraints();
    let values = template.constraint_values(&filter);
    let cctx = ConstraintContext {
        profile: spec.profile.as_str(),
        encode_mode: spec.encode_mode.as_str(),
        allow_fixed_override: options.allow_fixed_override,
    };
    match evaluate_constraints(&constraints, &cctx, &values) {
        Ok(()) => {},
        Err(e) => {
            return Err(e);
        },
    }
    match template.validate_runtime_compatibility(&filter, spec.encode_mode, &ctx.input_media) {
        Ok(()) => {},
        Err(e) => {
            return Err(e);
        },
    }
    proof {
        lemma_mixed_single_files(spec@);
    }
    let ResolvedInputContext { input, input_groups, input_media, runtime_input_file_names: _ } = ctx;
    let job = ResolvedJob {
            template_id: owned(crate::template::thd_atmos_wav_v1::ID),
            profile: spec.profile,
            job_mode: spec.job_mode,
            encode_mode: spec.encode_mode,
            input_media,
            input,
            input_groups,
            output,
            misc,
            filter,
            run: spec.run,
        };
    proof {
        lemma_mixed_id(crate::template::thd_atmos_wav_v1::thd_atmos_wav_id());
        assert(job.filter@ is ThdAtmosWavV1);
        assert(crate::template::thd_atmos_wav_v1::xml::has_mixed_inputs(job@));
    }
    Ok(job)
}

/// Resolves a job with the probed media of its inputs (those of the names
/// that `resolve_mixed_prepare` gives): a mixed TrueHD job resolves from
/// them; another job resolves as `resolve_job` does, without them.
pub fn resolve_mixed_finish(
    spec: JobSpec,
    options: &ResolveOptions,
    atmos: Vec<InputMediaInfo>,
    wav: Vec<InputMediaInfo>,
) -> (r: Result<ResolvedJob, String>)
    ensures
        job_result(r) == mixed_finish_outcome(spec@, options@, atmos@, wav@),
        r matches Ok(j) ==> crate::render::filter_fits(j) && crate::render::mode_fits(j),
{
    if uses_mixed_inputs(&spec, options) {
        resolve_mixed_job(spec, options, atmos, wav)
    } else {
        resolve_job(spec, options)
    }
}


/// A mixed job resolves only after the checks that give its names to probe,
/// and the resolved job reads exactly those files: its mezzanine and WAV
/// groups hold the prepared names, and its media are the mezzanine's then
/// the WAV file's.
pub proof fn law_finish_follows_prepare(
    spec: JobSpecModel,
    options: ResolveOptionsModel,
    atmos: Seq<InputMediaInfo>,
    wav: Seq<InputMediaInfo>,
)
    requires
        is_mixed_job(spec, options),
        mixed_finish_outcome(spec, options, atmos, wav) is Ok,
    ensures
        ({
            let j = mixed_finish_outcome(spec, options, atmos, wav)->Ok_0;
            let p = mixed_prepare_outcome(spec, options);
            let g = j.input_groups->0;
            &&& p is Ok
            &&& j.input_groups is Some
            &&& g.0 == Some(j.input)
            &&& j.input.file_names == p->Ok_0.0
            &&& g.1 is Some
            &&& (g.1)->0.file_names == p->Ok_0.1
            &&& g.2 is None
            &&& j.input_media == atmos + wav
        }),
{
}

/// A mixed job that resolves holds the job's overrides: the WAV input's
/// timing and each encoder parameter that the job sets are the resolved
/// filter's values (string values up to ASCII case, since an enum value
/// comes back in its canonical spelling).
pub proof fn law_mixed_job_keeps_overrides(
    spec: JobSpecModel,
    options: ResolveOptionsModel,
    atmos: Seq<InputMediaInfo>,
    wav: Seq<InputMediaInfo>,
)
    requires
        mixed_job_outcome(spec, options, atmos, wav) is Ok,
    ensures
        mixed_job_outcome(spec, options, atmos, wav)->Ok_0.filter matches FilterModel::ThdAtmosWavV1(m) && {
            &&& (spec.filter.input_timecode_frame_rate matches Some(v) ==> seq_lower(m.input_timecode_frame_rate) == seq_lower(v))
            &&& (spec.filter.offset matches Some(v) ==> seq_lower(m.offset) == seq_lower(v))
            &&& (spec.filter.ffoa matches Some(v) ==> seq_lower(m.ffoa) == seq_lower(v))
            &&& (spec.filter.metering_mode matches Some(v) ==> seq_lower(m.encode.metering_mode) == seq_lower(v))
            &&& (spec.filter.dialogue_intelligence matches Some(v) ==> m.encode.dialogue_intelligence == v)
            &&& (spec.filter.speech_threshold matches Some(v) ==> m.encode.speech_threshold as int == v)
            &&& (spec.filter.timecode_frame_rate matches Some(v) ==> seq_lower(m.encode.timecode_frame_rate) == seq_lower(v))
            &&& (spec.filter.starting_timecode matches Some(v) ==> seq_lower(m.encode.starting_timecode) == seq_lower(v))
            &&& (spec.filter.frame_rate matches Some(v) ==> seq_lower(m.encode.frame_rate) == seq_lower(v))
            &&& (spec.filter.start matches Some(v) ==> seq_lower(m.encode.start) == seq_lower(v))
            &&& (spec.filter.end matches Some(v) ==> seq_lower(m.encode.end) == seq_lower(v))
            &&& (spec.filter.time_base matches Some(v) ==> seq_lower(m.encode.time_base) == seq_lower(v))
            &&& (spec.filter.prepend_silence_duration matches Some(v) ==> seq_lower(m.encode.prepend_silence_duration) == seq_lower(v))
            &&& (spec.filter.append_silence_duration matches Some(v) ==> seq_lower(m.encode.append_silence_duration) == seq_lower(v))
            &&& (spec.filter.custom_dialnorm matches Some(v) ==> m.encode.custom_dialnorm as int == v)
            &&& (spec.filter.atmos_presentation_drc_profile matches Some(v) ==> seq_lower(m.encode.atmos_presentation_drc_profile) == seq_lower(v))
            &&& (spec.filter.spatial_clusters matches Some(v) ==> seq_lower(m.encode.spatial_clusters) == seq_lower(v))
            &&& (spec.filter.legacy_authoring_compatibility matches Some(v) ==> m.encode.legacy_authoring_compatibility == v)
            &&& (spec.filter.presentation_8ch_drc_profile matches Some(v) ==> seq_lower(m.encode.presentation_8ch_drc_profile) == seq_lower(v))
            &&& (spec.filter.presentation_6ch_drc_profile matches Some(v) ==> seq_lower(m.encode.presentation_6ch_drc_profile) == seq_lower(v))
            &&& (spec.filter.presentation_2ch_drc_profile matches Some(v) ==> seq_lower(m.encode.presentation_2ch_drc_profile) == seq_lower(v))
            &&& (spec.filter.optimize_data_rate matches Some(v) ==> m.encode.optimize_data_rate == v)
        },
{
    let k = TemplateKind::ThdAtmosWavV1;
    crate::template::thd_atmos_wav_v1::law_thd_atmos_wav_overrides_hold(
        crate::template::thd_atmos_wav_v1::thd_atmos_wav_defaults(),
        spec.filter,
        kind_env(k, spec.encode_mode),
    );
}

} // verus!
