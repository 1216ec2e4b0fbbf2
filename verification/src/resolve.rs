//! Resolution of a job spec against its template: validation, defaults,
//! overrides, constraints and path normalisation.
use vstd::prelude::*;

use crate::decode::JobSpecModel;
use crate::media::InputMediaInfo;
use crate::schema::{
    constraints_outcome, evaluate_constraints, law_constraints_override_monotone, unit_model,
    ConstraintContext,
};
use crate::spec::{
    drive_error, is_windows_path, law_windows_path_shape, normalize_drive, normalize_windows_path,
    spec_encode_mode_name,
    spec_profile_name, windows_path, Ac4OutputMode, EncodeMode, JobMode, JobSpec, OutputContainer,
    Profile, RunSpec, DEFAULT_TEMPLATE_ID,
};
use crate::template::atmos_ec3_v1::{AtmosEc3V1Filter, AtmosEc3V1Model};
use crate::template::pcm_ddp_v1::{PcmDdpV1Filter, PcmDdpV1Model};
use crate::template::thd_v1::{ThdV1Filter, ThdV1Model};
use crate::template::params::ParamEnv;
use crate::template::{
    kind_io, kind_accepts_mode, kind_apply, kind_constraints, kind_defaults, kind_hard_max,
    kind_id, kind_modes, kind_owns, kind_profiles, kind_rates, kind_runtime, kind_schemas,
    kind_values, template_of, unsupported_template_error, TemplateKind, TemplateRegistry,
};
use crate::text::{join, owned, seq_lower, seq_trim, trim};

verus! {

/// Options of resolution.
#[derive(Debug, Clone)]
pub struct ResolveOptions {
    pub template_override: Option<String>,
    pub allow_fixed_override: bool,
    pub windows_drive: char,
}

impl Default for ResolveOptions {
    fn default() -> (r: Self)
        ensures
            r.template_override is None,
            !r.allow_fixed_override,
            r.windows_drive == 'Y',
    {
        ResolveOptions { template_override: None, allow_fixed_override: false, windows_drive: 'Y' }
    }
}

/// Model of resolution options.
pub struct ResolveOptionsModel {
    pub template_override: Option<Seq<char>>,
    pub allow_fixed_override: bool,
    pub windows_drive: char,
}

impl View for ResolveOptions {
    type V = ResolveOptionsModel;

    open spec fn view(&self) -> ResolveOptionsModel {
        ResolveOptionsModel {
            template_override: match &self.template_override {
                Some(t) => Some(t@),
                None => None,
            },
            allow_fixed_override: self.allow_fixed_override,
            windows_drive: self.windows_drive,
        }
    }
}

/// A resolved storage location.
#[derive(Debug, Clone)]
pub struct ResolvedIo {
    pub storage_path: String,
    pub file_names: Vec<String>,
}

/// The resolved output location.
#[derive(Debug, Clone)]
pub struct ResolvedOutput {
    pub storage_path: String,
    pub file_names: Vec<String>,
    pub container: OutputContainer,
    pub ac4_output_mode: Ac4OutputMode,
}

/// Resolved input groups of the mixed TrueHD templates.
#[derive(Debug, Clone)]
pub struct ResolvedInputGroups {
    pub atmos_mezz: Option<ResolvedIo>,
    pub wav: Option<ResolvedIo>,
    pub wav_list: Option<ResolvedIo>,
}

/// Resolved temporary directory settings.
#[derive(Debug, Clone)]
pub struct ResolvedMisc {
    pub temp_dir: String,
    pub clean_temp: bool,
}

/// The resolved filter of the job's template.
#[derive(Debug, Clone)]
pub enum ResolvedFilter {
    Ac4V1(crate::template::ac4_v1::Ac4V1Filter),
    AtmosEc3V1(AtmosEc3V1Filter),
    PcmDdpV1(PcmDdpV1Filter),
    ThdV1(ThdV1Filter),
    ThdAtmosWavV1(crate::template::thd_atmos_wav_v1::ThdAtmosWavV1Filter),
}

/// Model of a resolved filter.
pub enum FilterModel {
    Ac4V1,
    AtmosEc3V1(AtmosEc3V1Model),
    PcmDdpV1(PcmDdpV1Model),
    ThdV1(ThdV1Model),
    ThdAtmosWavV1(crate::template::thd_atmos_wav_v1::ThdAtmosWavV1Model),
}

impl View for ResolvedFilter {
    type V = FilterModel;

    open spec fn view(&self) -> FilterModel {
        match self {
            ResolvedFilter::Ac4V1(_) => FilterModel::Ac4V1,
            ResolvedFilter::AtmosEc3V1(f) => FilterModel::AtmosEc3V1(f@),
            ResolvedFilter::PcmDdpV1(f) => FilterModel::PcmDdpV1(f@),
            ResolvedFilter::ThdV1(f) => FilterModel::ThdV1(f@),
            ResolvedFilter::ThdAtmosWavV1(f) => FilterModel::ThdAtmosWavV1(f@),
        }
    }
}

/// Whether the optional parameter `key` of the filter is set.
pub open spec fn filter_param_some(filter: FilterModel, key: Seq<char>) -> bool {
    match filter {
        FilterModel::AtmosEc3V1(m) => crate::template::atmos_ec3_v1::atmos_param_some(m, key),
        FilterModel::PcmDdpV1(m) => crate::template::pcm_ddp_v1::pcm_param_some(m, key),
        FilterModel::ThdV1(_) => false,
        FilterModel::ThdAtmosWavV1(_) => false,
        FilterModel::Ac4V1 => false,
    }
}

impl ResolvedFilter {
    /// Whether the optional parameter `key` is set.
    pub fn param_some(&self, key: &str) -> (r: bool)
        ensures
            r == filter_param_some(self@, key@),
    {
        match self {
            ResolvedFilter::AtmosEc3V1(f) => crate::template::atmos_ec3_v1::param_some(f, key),
            ResolvedFilter::PcmDdpV1(f) => crate::template::pcm_ddp_v1::param_some(f, key),
            ResolvedFilter::ThdV1(_) => false,
            ResolvedFilter::ThdAtmosWavV1(_) => false,
            ResolvedFilter::Ac4V1(_) => false,
        }
    }
}

/// A job ready for rendering.
#[derive(Debug, Clone)]
pub struct ResolvedJob {
    pub template_id: String,
    pub profile: Profile,
    pub job_mode: JobMode,
    pub encode_mode: EncodeMode,
    pub input_media: Vec<InputMediaInfo>,
    pub input: ResolvedIo,
    pub input_groups: Option<ResolvedInputGroups>,
    pub output: ResolvedOutput,
    pub misc: ResolvedMisc,
    pub filter: ResolvedFilter,
    pub run: RunSpec,
}

pub open spec fn names_model(v: Seq<String>) -> Seq<Seq<char>> {
    v.map_values(|s: String| s@)
}

/// Outcome of trimming file names: an empty name is an error.
pub open spec fn file_names_outcome(names: Seq<Seq<char>>) -> Result<Seq<Seq<char>>, Seq<char>> {
    if exists|i: int| 0 <= i < names.len() && #[trigger] seq_trim(names[i]).len() == 0 {
        Err("file_name entries must not be empty"@)
    } else {
        Ok(names.map_values(|n: Seq<char>| seq_trim(n)))
    }
}

/// Trims each file name; an empty name is an error.
pub fn normalize_file_names(names: &Vec<String>) -> (r: Result<Vec<String>, String>)
    ensures
        match r {
            Ok(v) => file_names_outcome(names_model(names@)) == Ok::<Seq<Seq<char>>, Seq<char>>(
                names_model(v@),
            ),
            Err(e) => file_names_outcome(names_model(names@)) == Err::<Seq<Seq<char>>, Seq<char>>(e@),
        },
{
    let ghost nm = names_model(names@);
    let mut out: Vec<String> = Vec::new();
    let mut i: usize = 0;
    while i < names.len()
        invariant
            i <= names.len(),
            nm == names_model(names@),
            out@.len() == i,
            forall|j: int| 0 <= j < i ==> (#[trigger] out@[j])@ == seq_trim(nm[j]),
            forall|j: int| 0 <= j < i ==> seq_trim(#[trigger] nm[j]).len() != 0,
        decreases names.len() - i,
    {
        let t = trim(names[i].as_str());
        if t.as_str().is_empty() {
            assert(seq_trim(nm[i as int]).len() == 0);
            return Err(owned("file_name entries must not be empty"));
        }
        out.push(t);
        i += 1;
    }
    assert(names_model(out@) =~= nm.map_values(|n: Seq<char>| seq_trim(n)));
    Ok(out)
}

/// Model of a resolved storage location.
pub struct IoModel {
    pub storage_path: Seq<char>,
    pub file_names: Seq<Seq<char>>,
}

impl View for ResolvedIo {
    type V = IoModel;

    open spec fn view(&self) -> IoModel {
        IoModel { storage_path: self.storage_path@, file_names: names_model(self.file_names@) }
    }
}

/// Model of the resolved output.
pub struct OutputModel {
    pub storage_path: Seq<char>,
    pub file_names: Seq<Seq<char>>,
    pub container: OutputContainer,
    pub ac4_output_mode: Ac4OutputMode,
}

/// Model of a run spec.
pub struct RunModel {
    pub runner_args: Seq<Seq<char>>,
    pub env: Seq<(Seq<char>, Seq<char>)>,
}

pub open spec fn run_model(r: RunSpec) -> RunModel {
    RunModel {
        runner_args: names_model(r.runner_args@),
        env: r.env@.map_values(|p: (String, String)| (p.0@, p.1@)),
    }
}

pub open spec fn opt_io(o: Option<ResolvedIo>) -> Option<IoModel> {
    match o {
        Some(x) => Some(x@),
        None => None,
    }
}

/// Model of the input groups of a job: the mezzanine, the WAV file and the
/// WAV stems, each where it is given.
pub open spec fn groups_model(g: Option<ResolvedInputGroups>) -> Option<
    (Option<IoModel>, Option<IoModel>, Option<IoModel>),
> {
    match g {
        Some(x) => Some((opt_io(x.atmos_mezz), opt_io(x.wav), opt_io(x.wav_list))),
        None => None,
    }
}

/// Model of a resolved job.
pub struct JobModel {
    pub template_id: Seq<char>,
    pub profile: Profile,
    pub job_mode: JobMode,
    pub encode_mode: EncodeMode,
    pub input_media: Seq<InputMediaInfo>,
    pub input: IoModel,
    pub input_groups: Option<(Option<IoModel>, Option<IoModel>, Option<IoModel>)>,
    pub output: OutputModel,
    pub temp_dir: Seq<char>,
    pub clean_temp: bool,
    pub filter: FilterModel,
    pub run: RunModel,
}

impl View for ResolvedJob {
    type V = JobModel;

    open spec fn view(&self) -> JobModel {
        JobModel {
            template_id: self.template_id@,
            profile: self.profile,
            job_mode: self.job_mode,
            encode_mode: self.encode_mode,
            input_media: self.input_media@,
            input: IoModel {
                storage_path: self.input.storage_path@,
                file_names: names_model(self.input.file_names@),
            },
            input_groups: groups_model(self.input_groups),
            output: OutputModel {
                storage_path: self.output.storage_path@,
                file_names: names_model(self.output.file_names@),
                container: self.output.container,
                ac4_output_mode: self.output.ac4_output_mode,
            },
            temp_dir: self.misc.temp_dir@,
            clean_temp: self.misc.clean_temp,
            filter: self.filter@,
            run: run_model(self.run),
        }
    }
}

/// The template id of a job: the override, else the job's, else the default.
pub open spec fn chosen_template_id(spec: JobSpecModel, options: ResolveOptionsModel) -> Seq<char> {
    match options.template_override {
        Some(t) => t,
        None => match spec.template_id {
            Some(t) => t,
            None => DEFAULT_TEMPLATE_ID@,
        },
    }
}

pub open spec fn atmos_mode_error(mode: EncodeMode) -> Seq<char> {
    "template_id 'atmos_ec3_v1' does not support encode_mode '"@ + spec_encode_mode_name(mode)
        + "'; use template_id 'pcm_ddp_v1'"@
}

pub open spec fn profile_error(k: TemplateKind, p: Profile) -> Seq<char> {
    "unsupported profile '"@ + spec_profile_name(p) + "'; allowed: "@ + join(kind_profiles(k), ", "@)
}

pub open spec fn mode_error(k: TemplateKind, m: EncodeMode) -> Seq<char> {
    "unsupported encode_mode '"@ + spec_encode_mode_name(m) + "'; allowed: "@ + join(
        kind_modes(k),
        ", "@,
    )
}

/// The validation environment of a template in a mode.
pub open spec fn kind_env(k: TemplateKind, m: EncodeMode) -> ParamEnv {
    ParamEnv {
        schemas: kind_schemas(k),
        mode: spec_encode_mode_name(m),
        sets: kind_rates(k),
        hard_max: kind_hard_max(k),
    }
}

/// The filter of a job: the template defaults with the job's overrides,
/// after the constraints and run-time checks.
pub open spec fn filter_outcome(
    k: TemplateKind,
    spec: JobSpecModel,
    options: ResolveOptionsModel,
    media: Seq<InputMediaInfo>,
) -> Result<
    FilterModel,
    Seq<char>,
> {
    match kind_apply(
        k,
        kind_defaults(k, spec.profile, spec.encode_mode),
        spec.filter,
        kind_env(k, spec.encode_mode),
    ) {
        Err(e) => Err(e),
        Ok(f) => match constraints_outcome(
            kind_constraints(k),
            spec_profile_name(spec.profile),
            spec_encode_mode_name(spec.encode_mode),
            options.allow_fixed_override,
            kind_values(f),
        ) {
            Err(e) => Err(e),
            Ok(_) => match kind_runtime(f, spec.encode_mode, media) {
                Err(e) => Err(e),
                Ok(_) => Ok(f),
            },
        },
    }
}

/// Outcome of resolving a job: the first failing check gives the error.
pub open spec fn resolve_outcome(spec: JobSpecModel, options: ResolveOptionsModel) -> Result<JobModel, Seq<char>> {
    let drive = options.windows_drive;
    let id = chosen_template_id(spec, options);
    if !crate::text::is_alpha(drive) {
        Err(drive_error(drive))
    } else {
        let d = crate::text::upper_char(drive);
        match template_of(id) {
            None => Err(unsupported_template_error(id)),
            Some(k) => if k == TemplateKind::ThdAtmosWavV1 {
                crate::mixed_inputs::mixed_job_outcome(spec, options, Seq::empty(), Seq::empty())
            } else if id == "atmos_ec3_v1"@ && (spec.encode_mode == EncodeMode::Dd
                || spec.encode_mode == EncodeMode::Ddp || spec.encode_mode == EncodeMode::Ddp71) {
                Err(atmos_mode_error(spec.encode_mode))
            } else if !kind_profiles(k).contains(spec_profile_name(spec.profile)) {
                Err(profile_error(k, spec.profile))
            } else if !kind_modes(k).contains(spec_encode_mode_name(spec.encode_mode)) {
                Err(mode_error(k, spec.encode_mode))
            } else {
                match kind_io(k, spec.job_mode, spec.input.file_names.len(), spec.output.file_names.len()) {
                    Err(e) => Err(e),
                    Ok(_) => match file_names_outcome(spec.input.file_names) {
                        Err(e) => Err(e),
                        Ok(input_names) => match file_names_outcome(spec.output.file_names) {
                            Err(e) => Err(e),
                            Ok(output_names) => match filter_outcome(k, spec, options, Seq::empty()) {
                                Err(e) => Err(e),
                                Ok(f) => Ok(JobModel {
                                    template_id: id,
                                    profile: spec.profile,
                                    job_mode: spec.job_mode,
                                    encode_mode: spec.encode_mode,
                                    input_media: Seq::empty(),
                                    input: IoModel {
                                        storage_path: windows_path(spec.input.storage_path, d),
                                        file_names: input_names,
                                    },
                                    input_groups: None,
                                    output: OutputModel {
                                        storage_path: windows_path(spec.output.storage_path, d),
                                        file_names: output_names,
                                        container: spec.output.container,
                                        ac4_output_mode: spec.output.ac4_output_mode,
                                    },
                                    temp_dir: windows_path(spec.misc.temp_dir, d),
                                    clean_temp: spec.misc.clean_temp,
                                    filter: f,
                                    run: spec.run,
                                }),
                            },
                        },
                    },
                }
            }
        }
    }
}

pub open spec fn job_result(r: Result<ResolvedJob, String>) -> Result<JobModel, Seq<char>> {
    match r {
        Ok(j) => Ok(j@),
        Err(e) => Err(e@),
    }
}

/// Resolves a job spec: picks its template, checks profile, mode and file
/// counts, normalises paths, and builds the filter from the template
/// defaults, the overrides, the constraints and the run-time checks.
#[verifier::rlimit(40)]
pub fn resolve_job(spec: JobSpec, options: &ResolveOptions) -> (r: Result<ResolvedJob, String>)
    ensures
        job_result(r) == resolve_outcome(spec@, options@),
        r matches Ok(j) ==> crate::render::filter_fits(j) && crate::render::mode_fits(j),
{
    let ghost spec0 = spec;
    let drive = match normalize_drive(options.windows_drive) {
        Ok(d) => d,
        Err(e) => {
            return Err(e);
        },
    };
    let template_id: String = match &options.template_override {
        Some(t) => t.clone(),
        None => match &spec.template_id {
            Some(t) => t.clone(),
            None => owned(DEFAULT_TEMPLATE_ID),
        },
    };
    let template = match TemplateRegistry::get(template_id.as_str()) {
        Ok(t) => t,
        Err(e) => {
            return Err(e);
        },
    };
    if template == TemplateKind::ThdAtmosWavV1 {
        proof {
            crate::mixed_inputs::lemma_mixed_id(template_id@);
        }
        return crate::mixed_inputs::resolve_mixed_job(spec, options, Vec::new(), Vec::new());
    }
    proof {
        crate::spec::lemma_mode_names(spec.encode_mode);
    }
    if crate::text::str_eq(template_id.as_str(), "atmos_ec3_v1") && (spec.encode_mode == EncodeMode::Dd
        || spec.encode_mode == EncodeMode::Ddp || spec.encode_mode == EncodeMode::Ddp71) {
        let mut e = owned("template_id 'atmos_ec3_v1' does not support encode_mode '");
        e.append(spec.encode_mode.as_str());
        e.append("'; use template_id 'pcm_ddp_v1'");
        return Err(e);
    }
    let profiles = template.valid_profiles();
    if !crate::text::contains_str(&profiles, spec.profile.as_str()) {
        let mut e = owned("unsupported profile '");
        e.append(spec.profile.as_str());
        e.append("'; allowed: ");
        e.append(crate::text::join_strs(&profiles, ", ").as_str());
        return Err(e);
    }
    let modes = template.valid_encode_modes();
    if !crate::text::contains_str(&modes, spec.encode_mode.as_str()) {
        let mut e = owned("unsupported encode_mode '");
        e.append(spec.encode_mode.as_str());
        e.append("'; allowed: ");
        e.append(crate::text::join_strs(&modes, ", ").as_str());
        return Err(e);
    }
    match template.validate_io(spec.job_mode, &spec.input.file_names, &spec.output.file_names) {
        Ok(()) => {},
        Err(e) => {
            return Err(e);
        },
    }
    let input_names = match normalize_file_names(&spec.input.file_names) {
        Ok(v) => v,
        Err(e) => {
            return Err(e);
        },
    };
    let input = ResolvedIo {
        storage_path: normalize_windows_path(spec.input.storage_path.as_str(), drive),
        file_names: input_names,
    };
    let output_names = match normalize_file_names(&spec.output.file_names) {
        Ok(v) => v,
        Err(e) => {
            return Err(e);
        },
    };
    let output = ResolvedOutput {
        storage_path: normalize_windows_path(spec.output.storage_path.as_str(), drive),
        file_names: output_names,
        container: spec.output.container,
        ac4_output_mode: spec.output.ac4_output_mode,
    };
    let misc = ResolvedMisc {
        temp_dir: normalize_windows_path(spec.misc.temp_dir.as_str(), drive),
        clean_temp: spec.misc.clean_temp,
    };
    let mut filter = template.defaults(spec.profile, spec.encode_mode);
    match template.apply_overrides(&mut filter, &spec.filter, spec.encode_mode) {
        Ok(()) => {},
        Err(e) => {
            return Err(e);
        },
    }
    let constraints = template.constraints();
    let values = template.constraint_values(&filter);
    let cctx = ConstraintContext {
        profile: spec.profile.as_str(),
        encode_mode: spec.encode_mode.as_str(),
        allow_fixed_override: options.allow_fixed_override,
    };
    match evaluate_constraints(&constraints, &cctx, &values) {
        Ok(()) => {},
        Err(e) => {
            return Err(e);
        },
    }
    let input_media: Vec<InputMediaInfo> = Vec::new();
    assert(input_media@ =~= Seq::<InputMediaInfo>::empty());
    match template.validate_runtime_compatibility(&filter, spec.encode_mode, &input_media) {
        Ok(()) => {},
        Err(e) => {
            return Err(e);
        },
    }
    Ok(
        ResolvedJob {
            template_id,
            profile: spec.profile,
            job_mode: spec.job_mode,
            encode_mode: spec.encode_mode,
            input_media,
            input,
            input_groups: None,
            output,
            misc,
            filter,
            run: spec.run,
        },
    )
}

/// The options with fixed overrides allowed.
pub open spec fn allowing_fixed(o: ResolveOptionsModel) -> ResolveOptionsModel {
    ResolveOptionsModel { allow_fixed_override: true, ..o }
}

/// `--allow-fixed-override` only lifts the fixed values of a locked
/// profile: a job that resolves without it resolves with it, to the same
/// result.
pub proof fn law_fixed_override_monotone(spec: JobSpecModel, options: ResolveOptionsModel)
    requires
        resolve_outcome(spec, options) is Ok,
    ensures
        resolve_outcome(spec, allowing_fixed(options)) == resolve_outcome(spec, options),
{
    let o2 = allowing_fixed(options);
    assert(chosen_template_id(spec, o2) == chosen_template_id(spec, options));
    let id = chosen_template_id(spec, options);
    if let Some(k) = template_of(id) {
        match kind_apply(k, kind_defaults(k, spec.profile, spec.encode_mode), spec.filter, kind_env(k, spec.encode_mode)) {
            Ok(f) => {
                let cs = kind_constraints(k);
                let p = spec_profile_name(spec.profile);
                let m = spec_encode_mode_name(spec.encode_mode);
                if constraints_outcome(cs, p, m, options.allow_fixed_override, kind_values(f)) is Ok {
                    if !options.allow_fixed_override {
                        law_constraints_override_monotone(cs, p, m, kind_values(f));
                    }
                }
                assert(filter_outcome(k, spec, o2, Seq::empty()) == filter_outcome(k, spec, options, Seq::empty()));
            },
            Err(_) => {},
        }
    }
}

/// A resolved job pairs its inputs with its outputs: both lists are
/// non-empty and equally long, and a single job has one of each.
pub proof fn law_resolved_files_pair(spec: JobSpecModel, options: ResolveOptionsModel)
    requires
        resolve_outcome(spec, options) is Ok,
    ensures
        ({
            let j = resolve_outcome(spec, options)->Ok_0;
            &&& j.input.file_names.len() == j.output.file_names.len()
            &&& j.input.file_names.len() >= 1
            &&& j.job_mode == JobMode::Single ==> j.input.file_names.len() == 1
        }),
{
}

/// Every path of a resolved job is a Windows path.
pub proof fn law_resolved_paths_are_windows_paths(spec: JobSpecModel, options: ResolveOptionsModel)
    requires
        resolve_outcome(spec, options) is Ok,
    ensures
        ({
            let j = resolve_outcome(spec, options)->Ok_0;
            &&& is_windows_path(j.input.storage_path)
            &&& is_windows_path(j.output.storage_path)
            &&& is_windows_path(j.temp_dir)
        }),
{
    let d = crate::text::upper_char(options.windows_drive);
    law_windows_path_shape(spec.input.storage_path, d);
    law_windows_path_shape(spec.output.storage_path, d);
    law_windows_path_shape(spec.misc.temp_dir, d);
}

/// An `atmos_ec3_v1` job that resolves holds the job's overrides: each
/// filter parameter that the job sets is the resolved filter's value
/// (string values up to ASCII case, since an enum value comes back in its
/// canonical spelling); the template's default gives way to it.
pub proof fn law_atmos_job_keeps_overrides(spec: JobSpecModel, options: ResolveOptionsModel)
    requires
        resolve_outcome(spec, options) is Ok,
        chosen_template_id(spec, options) == crate::template::atmos_ec3_v1::atmos_id(),
    ensures
        resolve_outcome(spec, options)->Ok_0.filter matches FilterModel::AtmosEc3V1(m) && {
            &&& (spec.filter.metering_mode matches Some(v) ==> seq_lower(m.metering_mode) == seq_lower(v))
            &&& (spec.filter.dialogue_intelligence matches Some(v) ==> m.dialogue_intelligence == v)
            &&& (spec.filter.speech_threshold matches Some(v) ==> m.speech_threshold as int == v)
            &&& (spec.filter.data_rate matches Some(v) ==> m.data_rate as int == v)
            &&& (spec.filter.timecode_frame_rate matches Some(v) ==> seq_lower(m.timecode_frame_rate) == seq_lower(v))
            &&& (spec.filter.start matches Some(v) ==> seq_lower(m.start) == seq_lower(v))
            &&& (spec.filter.end matches Some(v) ==> seq_lower(m.end) == seq_lower(v))
            &&& (spec.filter.time_base matches Some(v) ==> seq_lower(m.time_base) == seq_lower(v))
            &&& (spec.filter.prepend_silence_duration matches Some(v) ==> seq_lower(m.prepend_silence_duration) == seq_lower(v))
            &&& (spec.filter.append_silence_duration matches Some(v) ==> seq_lower(m.append_silence_duration) == seq_lower(v))
            &&& (spec.filter.line_mode_drc_profile matches Some(v) ==> seq_lower(m.line_mode_drc_profile) == seq_lower(v))
            &&& (spec.filter.rf_mode_drc_profile matches Some(v) ==> seq_lower(m.rf_mode_drc_profile) == seq_lower(v))
            &&& (spec.filter.loro_center_mix_level matches Some(v) ==> seq_lower(m.loro_center_mix_level) == seq_lower(v))
            &&& (spec.filter.loro_surround_mix_level matches Some(v) ==> seq_lower(m.loro_surround_mix_level) == seq_lower(v))
            &&& (spec.filter.ltrt_center_mix_level matches Some(v) ==> seq_lower(m.ltrt_center_mix_level) == seq_lower(v))
            &&& (spec.filter.ltrt_surround_mix_level matches Some(v) ==> seq_lower(m.ltrt_surround_mix_level) == seq_lower(v))
            &&& (spec.filter.preferred_downmix_mode matches Some(v) ==> seq_lower(m.preferred_downmix_mode) == seq_lower(v))
            &&& (spec.filter.surround_trim_5_1 matches Some(v) ==> seq_lower(m.surround_trim_5_1) == seq_lower(v))
            &&& (spec.filter.height_trim_5_1 matches Some(v) ==> seq_lower(m.height_trim_5_1) == seq_lower(v))
            &&& (spec.filter.custom_dialnorm matches Some(v) ==> m.custom_dialnorm as int == v)
            &&& (spec.filter.encoding_backend matches Some(v) ==> (m.encoding_backend matches Some(x) && seq_lower(x) == seq_lower(v)))
            &&& (spec.filter.encoder_mode matches Some(v) ==> (m.encoder_mode matches Some(x) && seq_lower(x) == seq_lower(v)))
        },
{
    let id = chosen_template_id(spec, options);
    reveal_strlit("ac4_v1");
    reveal_strlit("atmos_ec3_v1");
    assert(id.len() != crate::template::ac4_v1::ac4v1_id().len());
    assert(template_of(id) == Some(TemplateKind::AtmosEc3V1));
    crate::mixed_inputs::lemma_mixed_id(id);
    let k = TemplateKind::AtmosEc3V1;
    let d = crate::template::atmos_ec3_v1::atmos_defaults(spec.profile, spec.encode_mode);
    crate::template::atmos_ec3_v1::law_atmos_overrides_hold(d, spec.filter, kind_env(k, spec.encode_mode));
}

/// A `pcm_ddp_v1` job that resolves holds the job's overrides: each
/// filter parameter that the job sets is the resolved filter's value
/// (string values up to ASCII case, since an enum value comes back in its
/// canonical spelling); the template's default gives way to it.
pub proof fn law_pcm_job_keeps_overrides(spec: JobSpecModel, options: ResolveOptionsModel)
    requires
        resolve_outcome(spec, options) is Ok,
        chosen_template_id(spec, options) == crate::template::pcm_ddp_v1::pcm_id(),
    ensures
        resolve_outcome(spec, options)->Ok_0.filter matches FilterModel::PcmDdpV1(m) && {
            &&& (spec.filter.metering_mode matches Some(v) ==> seq_lower(m.metering_mode) == seq_lower(v))
            &&& (spec.filter.dialogue_intelligence matches Some(v) ==> m.dialogue_intelligence == v)
            &&& (spec.filter.speech_threshold matches Some(v) ==> m.speech_threshold as int == v)
            &&& (spec.filter.data_rate matches Some(v) ==> m.data_rate as int == v)
            &&& (spec.filter.timecode_frame_rate matches Some(v) ==> seq_lower(m.timecode_frame_rate) == seq_lower(v))
            &&& (spec.filter.start matches Some(v) ==> seq_lower(m.start) == seq_lower(v))
            &&& (spec.filter.end matches Some(v) ==> seq_lower(m.end) == seq_lower(v))
            &&& (spec.filter.time_base matches Some(v) ==> seq_lower(m.time_base) == seq_lower(v))
            &&& (spec.filter.prepend_silence_duration matches Some(v) ==> seq_lower(m.prepend_silence_duration) == seq_lower(v))
            &&& (spec.filter.append_silence_duration matches Some(v) ==> seq_lower(m.append_silence_duration) == seq_lower(v))
            &&& (spec.filter.line_mode_drc_profile matches Some(v) ==> seq_lower(m.line_mode_drc_profile) == seq_lower(v))
            &&& (spec.filter.rf_mode_drc_profile matches Some(v) ==> seq_lower(m.rf_mode_drc_profile) == seq_lower(v))
            &&& (spec.filter.loro_center_mix_level matches Some(v) ==> seq_lower(m.loro_center_mix_level) == seq_lower(v))
            &&& (spec.filter.loro_surround_mix_level matches Some(v) ==> seq_lower(m.loro_surround_mix_level) == seq_lower(v))
            &&& (spec.filter.ltrt_center_mix_level matches Some(v) ==> seq_lower(m.ltrt_center_mix_level) == seq_lower(v))
            &&& (spec.filter.ltrt_surround_mix_level matches Some(v) ==> seq_lower(m.ltrt_surround_mix_level) == seq_lower(v))
            &&& (spec.filter.preferred_downmix_mode matches Some(v) ==> seq_lower(m.preferred_downmix_mode) == seq_lower(v))
            &&& (spec.filter.custom_dialnorm matches Some(v) ==> m.custom_dialnorm as int == v)
            &&& (spec.filter.encoder_mode matches Some(v) ==> seq_lower(m.encoder_mode) == seq_lower(v))
        },
{
    let id = chosen_template_id(spec, options);
    reveal_strlit("ac4_v1");
    reveal_strlit("atmos_ec3_v1");
    reveal_strlit("pcm_ddp_v1");
    assert(id.len() != crate::template::ac4_v1::ac4v1_id().len());
    assert(id.len() != crate::template::atmos_ec3_v1::atmos_id().len());
    assert(template_of(id) == Some(TemplateKind::PcmDdpV1));
    crate::mixed_inputs::lemma_mixed_id(id);
    let k = TemplateKind::PcmDdpV1;
    let d = crate::template::pcm_ddp_v1::pcm_defaults(spec.profile, spec.encode_mode);
    crate::template::pcm_ddp_v1::law_pcm_overrides_hold(d, spec.filter, kind_env(k, spec.encode_mode));
}

/// A `thd_v1` job that resolves holds the job's overrides: each filter
/// parameter that the job sets is the resolved filter's value (string
/// values up to ASCII case, since an enum value comes back in its
/// canonical spelling); the template's default gives way to it.
pub proof fn law_thd_job_keeps_overrides(spec: JobSpecModel, options: ResolveOptionsModel)
    requires
        resolve_outcome(spec, options) is Ok,
        chosen_template_id(spec, options) == crate::template::thd_v1::thd_id(),
    ensures
        resolve_outcome(spec, options)->Ok_0.filter matches FilterModel::ThdV1(m) && {
            &&& (spec.filter.metering_mode matches Some(v) ==> seq_lower(m.metering_mode) == seq_lower(v))
            &&& (spec.filter.dialogue_intelligence matches Some(v) ==> m.dialogue_intelligence == v)
            &&& (spec.filter.speech_threshold matches Some(v) ==> m.speech_threshold as int == v)
            &&& (spec.filter.timecode_frame_rate matches Some(v) ==> seq_lower(m.timecode_frame_rate) == seq_lower(v))
            &&& (spec.filter.starting_timecode matches Some(v) ==> seq_lower(m.starting_timecode) == seq_lower(v))
            &&& (spec.filter.frame_rate matches Some(v) ==> seq_lower(m.frame_rate) == seq_lower(v))
            &&& (spec.filter.start matches Some(v) ==> seq_lower(m.start) == seq_lower(v))
            &&& (spec.filter.end matches Some(v) ==> seq_lower(m.end) == seq_lower(v))
            &&& (spec.filter.time_base matches Some(v) ==> seq_lower(m.time_base) == seq_lower(v))
            &&& (spec.filter.prepend_silence_duration matches Some(v) ==> seq_lower(m.prepend_silence_duration) == seq_lower(v))
            &&& (spec.filter.append_silence_duration matches Some(v) ==> seq_lower(m.append_silence_duration) == seq_lower(v))
            &&& (spec.filter.custom_dialnorm matches Some(v) ==> m.custom_dialnorm as int == v)
            &&& (spec.filter.atmos_presentation_drc_profile matches Some(v) ==> seq_lower(m.atmos_presentation_drc_profile) == seq_lower(v))
            &&& (spec.filter.spatial_clusters matches Some(v) ==> seq_lower(m.spatial_clusters) == seq_lower(v))
            &&& (spec.filter.legacy_authoring_compatibility matches Some(v) ==> m.legacy_authoring_compatibility == v)
            &&& (spec.filter.presentation_8ch_drc_profile matches Some(v) ==> seq_lower(m.presentation_8ch_drc_profile) == seq_lower(v))
            &&& (spec.filter.presentation_6ch_drc_profile matches Some(v) ==> seq_lower(m.presentation_6ch_drc_profile) == seq_lower(v))
            &&& (spec.filter.presentation_2ch_drc_profile matches Some(v) ==> seq_lower(m.presentation_2ch_drc_profile) == seq_lower(v))
            &&& (spec.filter.optimize_data_rate matches Some(v) ==> m.optimize_data_rate == v)
        },
{
    let id = chosen_template_id(spec, options);
    reveal_strlit("ac4_v1");
    reveal_strlit("atmos_ec3_v1");
    reveal_strlit("pcm_ddp_v1");
    reveal_strlit("thd_v1");
    assert(id[0] != crate::template::ac4_v1::ac4v1_id()[0]);
    assert(id.len() != crate::template::atmos_ec3_v1::atmos_id().len());
    assert(id.len() != crate::template::pcm_ddp_v1::pcm_id().len());
    assert(template_of(id) == Some(TemplateKind::ThdV1));
    crate::mixed_inputs::lemma_mixed_id(id);
    let k = TemplateKind::ThdV1;
    let d = crate::template::thd_v1::thd_defaults();
    crate::template::thd_v1::law_thd_overrides_hold(d, spec.filter, kind_env(k, spec.encode_mode));
}

} // verus!
