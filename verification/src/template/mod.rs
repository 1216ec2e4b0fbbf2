//! The DEE job templates and their registry.
use vstd::prelude::*;

pub mod ac4_ims_shared;
pub mod ac4_ims_pcm_v1;
pub mod ac4_v1;
pub mod atmos_ec3_v1;
pub mod common;
pub mod params;
pub mod pcm_ddp_v1;
pub mod thd_atmos_wav_v1;
pub mod thd_v1;
pub mod timecode;

use crate::decode::OverridesModel;
use crate::json::{JsonModel, JsonValue};
use crate::media::InputMediaInfo;
use crate::render::{XmlModel, XmlNode};
use crate::resolve::{FilterModel, JobModel, ResolvedFilter, ResolvedJob};
use crate::schema::{
    constraints_model, rates_model, schemas_model, strs_model, values_model, Constraint,
    ConstraintModel, ParamSchema, SchemaModel, Value, ValueModel,
};
use crate::spec::{spec_encode_mode_name, spec_job_mode_name, EncodeMode, FilterOverrides, JobMode, Profile};
use crate::template::params::{ParamCtx, ParamEnv};
use crate::text::{nat_digits, owned, str_eq, u64_text};

verus! {

/// The templates of the library.
#[derive(Debug, Clone, Copy, PartialEq, Eq, Structural)]
pub enum TemplateKind {
    Ac4V1,
    AtmosEc3V1,
    PcmDdpV1,
    ThdV1,
    ThdAtmosWavV1,
}

/// Lookup of templates by id.
pub struct TemplateRegistry;

/// Id of a template.
pub open spec fn kind_id(k: TemplateKind) -> Seq<char> {
    match k {
        TemplateKind::Ac4V1 => ac4_v1::ac4v1_id(),
        TemplateKind::AtmosEc3V1 => atmos_ec3_v1::atmos_id(),
        TemplateKind::PcmDdpV1 => pcm_ddp_v1::pcm_id(),
        TemplateKind::ThdV1 => thd_v1::thd_id(),
        TemplateKind::ThdAtmosWavV1 => thd_atmos_wav_v1::thd_atmos_wav_id(),
    }
}

/// The template with the id, if there is one.
pub open spec fn template_of(id: Seq<char>) -> Option<TemplateKind> {
    if id == ac4_v1::ac4v1_id() {
        Some(TemplateKind::Ac4V1)
    } else if id == atmos_ec3_v1::atmos_id() {
        Some(TemplateKind::AtmosEc3V1)
    } else if id == pcm_ddp_v1::pcm_id() {
        Some(TemplateKind::PcmDdpV1)
    } else if id == thd_v1::thd_id() {
        Some(TemplateKind::ThdV1)
    } else if id == thd_atmos_wav_v1::thd_atmos_wav_id() {
        Some(TemplateKind::ThdAtmosWavV1)
    } else {
        None
    }
}

pub open spec fn unsupported_template_error(id: Seq<char>) -> Seq<char> {
    "unsupported template_id '"@ + id + "'; supported templates: 'ac4_v1', 'atmos_ec3_v1', 'pcm_ddp_v1', 'thd_v1', 'thd_wav_v1', 'thd_wav_list_v1', 'thd_atmos_wav_v1', 'thd_atmos_wav_list_v1'"@
}

impl TemplateRegistry {
    /// The template with the id, or an error naming the supported ones.
    pub fn get(template_id: &str) -> (r: Result<TemplateKind, String>)
        ensures
            match r {
                Ok(k) => template_of(template_id@) == Some(k),
                Err(e) => template_of(template_id@) is None && e@ == unsupported_template_error(
                    template_id@,
                ),
            },
    {
        if str_eq(template_id, ac4_v1::ID) {
            Ok(TemplateKind::Ac4V1)
        } else if str_eq(template_id, atmos_ec3_v1::ID) {
            Ok(TemplateKind::AtmosEc3V1)
        } else if str_eq(template_id, pcm_ddp_v1::ID) {
            Ok(TemplateKind::PcmDdpV1)
        } else if str_eq(template_id, thd_v1::ID) {
            Ok(TemplateKind::ThdV1)
        } else if str_eq(template_id, thd_atmos_wav_v1::ID) {
            Ok(TemplateKind::ThdAtmosWavV1)
        } else {
            let mut e = owned("unsupported template_id '");
            e.append(template_id);
            e.append("'; supported templates: 'ac4_v1', 'atmos_ec3_v1', 'pcm_ddp_v1', 'thd_v1', 'thd_wav_v1', 'thd_wav_list_v1', 'thd_atmos_wav_v1', 'thd_atmos_wav_list_v1'");
            Err(e)
        }
    }
}

pub open spec fn kind_profiles(k: TemplateKind) -> Seq<Seq<char>> {
    match k {
        TemplateKind::Ac4V1 => ac4_v1::ac4v1_profiles(),
        TemplateKind::AtmosEc3V1 => atmos_ec3_v1::atmos_profiles(),
        TemplateKind::PcmDdpV1 => pcm_ddp_v1::pcm_profiles(),
        TemplateKind::ThdV1 => thd_v1::thd_profiles(),
        TemplateKind::ThdAtmosWavV1 => thd_v1::thd_profiles(),
    }
}

pub open spec fn kind_modes(k: TemplateKind) -> Seq<Seq<char>> {
    match k {
        TemplateKind::Ac4V1 => ac4_v1::ac4v1_modes(),
        TemplateKind::AtmosEc3V1 => atmos_ec3_v1::atmos_modes(),
        TemplateKind::PcmDdpV1 => pcm_ddp_v1::pcm_modes(),
        TemplateKind::ThdV1 => thd_v1::thd_modes(),
        TemplateKind::ThdAtmosWavV1 => thd_v1::thd_modes(),
    }
}

pub open spec fn kind_schemas(k: TemplateKind) -> Seq<SchemaModel> {
    match k {
        TemplateKind::Ac4V1 => ac4_v1::ac4v1_schemas(),
        TemplateKind::AtmosEc3V1 => atmos_ec3_v1::atmos_schemas(),
        TemplateKind::PcmDdpV1 => pcm_ddp_v1::pcm_schemas(),
        TemplateKind::ThdV1 => thd_v1::thd_schemas(),
        TemplateKind::ThdAtmosWavV1 => thd_atmos_wav_v1::thd_atmos_wav_schemas(),
    }
}

pub open spec fn kind_constraints(k: TemplateKind) -> Seq<ConstraintModel> {
    match k {
        TemplateKind::Ac4V1 => ac4_v1::ac4v1_constraints(),
        TemplateKind::AtmosEc3V1 => atmos_ec3_v1::atmos_constraints(),
        TemplateKind::PcmDdpV1 => pcm_ddp_v1::pcm_constraints(),
        TemplateKind::ThdV1 => thd_v1::thd_constraints(),
        TemplateKind::ThdAtmosWavV1 => thd_v1::thd_constraints(),
    }
}

pub open spec fn kind_rates(k: TemplateKind) -> Seq<(Seq<char>, Seq<u16>)> {
    match k {
        TemplateKind::Ac4V1 => ac4_v1::ac4v1_rates(),
        TemplateKind::AtmosEc3V1 => atmos_ec3_v1::atmos_rates(),
        TemplateKind::PcmDdpV1 => pcm_ddp_v1::pcm_rates(),
        TemplateKind::ThdV1 => thd_v1::thd_rates(),
        TemplateKind::ThdAtmosWavV1 => thd_v1::thd_rates(),
    }
}

pub open spec fn kind_hard_max(k: TemplateKind) -> u16 {
    match k {
        TemplateKind::Ac4V1 => ac4_v1::BITRATE_HARD_MAX,
        TemplateKind::AtmosEc3V1 => atmos_ec3_v1::BITRATE_HARD_MAX,
        TemplateKind::PcmDdpV1 => pcm_ddp_v1::BITRATE_HARD_MAX,
        TemplateKind::ThdV1 => thd_v1::BITRATE_HARD_MAX,
        TemplateKind::ThdAtmosWavV1 => thd_v1::BITRATE_HARD_MAX,
    }
}

/// Whether the template accepts the encode mode.
pub open spec fn kind_accepts_mode(k: TemplateKind, mode: EncodeMode) -> bool {
    kind_modes(k).contains(spec_encode_mode_name(mode))
}

/// The default filter of a template.
pub open spec fn kind_defaults(k: TemplateKind, profile: Profile, mode: EncodeMode) -> FilterModel {
    match k {
        TemplateKind::Ac4V1 => FilterModel::Ac4V1,
        TemplateKind::AtmosEc3V1 => FilterModel::AtmosEc3V1(
            atmos_ec3_v1::atmos_defaults(profile, mode),
        ),
        TemplateKind::PcmDdpV1 => FilterModel::PcmDdpV1(pcm_ddp_v1::pcm_defaults(profile, mode)),
        TemplateKind::ThdV1 => FilterModel::ThdV1(thd_v1::thd_defaults()),
        TemplateKind::ThdAtmosWavV1 => FilterModel::ThdAtmosWavV1(thd_atmos_wav_v1::thd_atmos_wav_defaults()),
    }
}

/// Whether the filter belongs to the template.
pub open spec fn kind_owns(k: TemplateKind, f: FilterModel) -> bool {
    match (k, f) {
        (TemplateKind::Ac4V1, FilterModel::Ac4V1) => true,
        (TemplateKind::AtmosEc3V1, FilterModel::AtmosEc3V1(_)) => true,
        (TemplateKind::PcmDdpV1, FilterModel::PcmDdpV1(_)) => true,
        (TemplateKind::ThdV1, FilterModel::ThdV1(_)) => true,
        (TemplateKind::ThdAtmosWavV1, FilterModel::ThdAtmosWavV1(_)) => true,
        _ => false,
    }
}

pub open spec fn wrong_variant_error(k: TemplateKind) -> Seq<char> {
    kind_id(k) + " received wrong ResolvedFilter variant"@
}

/// The filter after the overrides, or the first error.
pub open spec fn kind_apply(k: TemplateKind, f: FilterModel, o: OverridesModel, e: ParamEnv) -> Result<
    FilterModel,
    Seq<char>,
> {
    match (k, f) {
        (TemplateKind::Ac4V1, FilterModel::Ac4V1) => match ac4_v1::ac4v1_apply(o) {
            Ok(_) => Ok(FilterModel::Ac4V1),
            Err(x) => Err(x),
        },
        (TemplateKind::AtmosEc3V1, FilterModel::AtmosEc3V1(m)) => match atmos_ec3_v1::atmos_apply(
            m,
            o,
            e,
        ) {
            Ok(m2) => Ok(FilterModel::AtmosEc3V1(m2)),
            Err(x) => Err(x),
        },
        (TemplateKind::PcmDdpV1, FilterModel::PcmDdpV1(m)) => match pcm_ddp_v1::pcm_apply(m, o, e) {
            Ok(m2) => Ok(FilterModel::PcmDdpV1(m2)),
            Err(x) => Err(x),
        },
        (TemplateKind::ThdV1, FilterModel::ThdV1(m)) => match thd_v1::thd_apply(m, o, e) {
            Ok(m2) => Ok(FilterModel::ThdV1(m2)),
            Err(x) => Err(x),
        },
        (TemplateKind::ThdAtmosWavV1, FilterModel::ThdAtmosWavV1(m)) => match thd_atmos_wav_v1::thd_atmos_wav_apply(
            m,
            o,
            e,
        ) {
            Ok(m2) => Ok(FilterModel::ThdAtmosWavV1(m2)),
            Err(x) => Err(x),
        },
        _ => Err(wrong_variant_error(k)),
    }
}

/// The values that constraints read.
pub open spec fn kind_values(f: FilterModel) -> Seq<(Seq<char>, ValueModel)> {
    match f {
        FilterModel::Ac4V1 => Seq::empty(),
        FilterModel::AtmosEc3V1(m) => atmos_ec3_v1::atmos_values(m),
        FilterModel::PcmDdpV1(m) => pcm_ddp_v1::pcm_values(m),
        FilterModel::ThdV1(m) => thd_v1::thd_values(m),
        FilterModel::ThdAtmosWavV1(m) => thd_atmos_wav_v1::thd_atmos_wav_values(m),
    }
}

/// The checks of settings that DEE rejects at run time.
pub open spec fn kind_runtime(f: FilterModel, mode: EncodeMode, media: Seq<InputMediaInfo>) -> Result<(), Seq<char>> {
    match f {
        FilterModel::AtmosEc3V1(m) => atmos_ec3_v1::atmos_runtime_outcome(m, mode),
        FilterModel::ThdAtmosWavV1(m) => thd_atmos_wav_v1::thd_atmos_wav_runtime(m, media),
        _ => Ok(()),
    }
}

/// What the template's trees read of a job beyond its filter: the mixed
/// template reads its mezzanine and WAV groups.
pub open spec fn kind_job_fits(k: TemplateKind, j: JobModel) -> bool {
    match k {
        TemplateKind::ThdAtmosWavV1 => thd_atmos_wav_v1::xml::has_mixed_inputs(j),
        _ => true,
    }
}

/// The XML tree of a job whose filter belongs to the template.
pub open spec fn kind_xml(k: TemplateKind, j: JobModel) -> Option<XmlModel> {
    match (k, j.filter) {
        (TemplateKind::Ac4V1, FilterModel::Ac4V1) => Some(ac4_v1::xml::ac4v1_xml_model(j)),
        (TemplateKind::AtmosEc3V1, FilterModel::AtmosEc3V1(m)) => Some(
            atmos_ec3_v1::xml::atmos_xml_model(j, m),
        ),
        (TemplateKind::PcmDdpV1, FilterModel::PcmDdpV1(m)) => Some(pcm_ddp_v1::xml::pcm_xml_model(j, m)),
        (TemplateKind::ThdV1, FilterModel::ThdV1(m)) => Some(thd_v1::xml::thd_xml_model(j, m)),
        (TemplateKind::ThdAtmosWavV1, FilterModel::ThdAtmosWavV1(m)) => Some(
            thd_atmos_wav_v1::xml::thd_atmos_wav_xml_model(j, m),
        ),
        _ => None,
    }
}

/// Whether the template has a JSON form.
pub open spec fn kind_has_json(k: TemplateKind) -> bool {
    match k {
        TemplateKind::AtmosEc3V1 => true,
        TemplateKind::PcmDdpV1 => true,
        TemplateKind::ThdV1 => true,
        TemplateKind::ThdAtmosWavV1 => true,
        _ => false,
    }
}

/// Whether a job's encode mode is one its template renders: the PCM
/// template renders its own modes only.
pub open spec fn kind_mode_fits(k: TemplateKind, mode: EncodeMode) -> bool {
    match k {
        TemplateKind::PcmDdpV1 => pcm_ddp_v1::pcm_supports(mode),
        _ => true,
    }
}

/// The JSON tree of a job whose filter belongs to a template with a JSON form.
pub open spec fn kind_json(k: TemplateKind, j: JobModel) -> Option<JsonModel> {
    match (k, j.filter) {
        (TemplateKind::AtmosEc3V1, FilterModel::AtmosEc3V1(m)) => Some(
            atmos_ec3_v1::json::atmos_json_model(j, m),
        ),
        (TemplateKind::PcmDdpV1, FilterModel::PcmDdpV1(m)) => Some(pcm_ddp_v1::json::pcm_json_model(j, m)),
        (TemplateKind::ThdV1, FilterModel::ThdV1(m)) => Some(thd_v1::json::thd_json_model(j, m)),
        (TemplateKind::ThdAtmosWavV1, FilterModel::ThdAtmosWavV1(m)) => Some(
            thd_atmos_wav_v1::json::thd_atmos_wav_json_model(j, m),
        ),
        _ => None,
    }
}

pub open spec fn no_json_error(k: TemplateKind) -> Seq<char> {
    "template '"@ + kind_id(k) + "' does not support JSON output"@
}

/// Outcome of a template's check of input and output file counts.
pub open spec fn kind_io(k: TemplateKind, job_mode: JobMode, inputs: nat, outputs: nat) -> Result<(), Seq<char>> {
    match k {
        TemplateKind::Ac4V1 => ac4_v1::ac4v1_io_outcome(job_mode, inputs, outputs),
        _ => io_outcome(job_mode, inputs, outputs),
    }
}

/// Outcome of the common check of input and output file counts.
pub open spec fn io_outcome(job_mode: JobMode, inputs: nat, outputs: nat) -> Result<(), Seq<char>> {
    if inputs == 0 || outputs == 0 {
        Err("input.file_names and output.file_names must not be empty"@)
    } else {
        match job_mode {
            JobMode::Single => if inputs != 1 || outputs != 1 {
                Err("job_mode=single requires exactly one input and one output file name"@)
            } else {
                Ok(())
            },
            JobMode::Album => if inputs != outputs {
                Err("job_mode=album requires equal input/output counts; got "@ + nat_digits(inputs)
                    + " and "@ + nat_digits(outputs))
            } else {
                Ok(())
            },
        }
    }
}

impl TemplateKind {
    /// Id of the template.
    pub fn id(self) -> (r: &'static str)
        ensures
            r@ == kind_id(self),
    {
        match self {
            TemplateKind::Ac4V1 => ac4_v1::ID,
            TemplateKind::AtmosEc3V1 => atmos_ec3_v1::ID,
            TemplateKind::PcmDdpV1 => pcm_ddp_v1::ID,
            TemplateKind::ThdV1 => thd_v1::ID,
            TemplateKind::ThdAtmosWavV1 => thd_atmos_wav_v1::ID,
        }
    }

    /// Profiles the template accepts.
    pub fn valid_profiles(self) -> (r: Vec<&'static str>)
        ensures
            strs_model(r@) == kind_profiles(self),
    {
        match self {
            TemplateKind::Ac4V1 => ac4_v1::valid_profiles(),
            TemplateKind::AtmosEc3V1 => atmos_ec3_v1::valid_profiles(),
            TemplateKind::PcmDdpV1 => pcm_ddp_v1::valid_profiles(),
            TemplateKind::ThdV1 => thd_v1::valid_profiles(),
            TemplateKind::ThdAtmosWavV1 => thd_v1::valid_profiles(),
        }
    }

    /// Encode modes the template accepts.
    pub fn valid_encode_modes(self) -> (r: Vec<&'static str>)
        ensures
            strs_model(r@) == kind_modes(self),
    {
        match self {
            TemplateKind::Ac4V1 => ac4_v1::valid_encode_modes(),
            TemplateKind::AtmosEc3V1 => atmos_ec3_v1::valid_encode_modes(),
            TemplateKind::PcmDdpV1 => pcm_ddp_v1::valid_encode_modes(),
            TemplateKind::ThdV1 => thd_v1::valid_encode_modes(),
            TemplateKind::ThdAtmosWavV1 => thd_v1::valid_encode_modes(),
        }
    }

    /// The parameters of the template.
    pub fn param_schemas(self) -> (r: Vec<ParamSchema>)
        ensures
            schemas_model(r@) == kind_schemas(self),
    {
        match self {
            TemplateKind::Ac4V1 => ac4_v1::param_schemas(),
            TemplateKind::AtmosEc3V1 => atmos_ec3_v1::param_schemas(),
            TemplateKind::PcmDdpV1 => pcm_ddp_v1::param_schemas(),
            TemplateKind::ThdV1 => thd_v1::param_schemas(),
            TemplateKind::ThdAtmosWavV1 => thd_atmos_wav_v1::param_schemas(),
        }
    }

    /// The constraints of the template.
    pub fn constraints(self) -> (r: Vec<Constraint>)
        ensures
            constraints_model(r@) == kind_constraints(self),
    {
        match self {
            TemplateKind::Ac4V1 => ac4_v1::constraints(),
            TemplateKind::AtmosEc3V1 => atmos_ec3_v1::constraints(),
            TemplateKind::PcmDdpV1 => pcm_ddp_v1::constraints(),
            TemplateKind::ThdV1 => thd_v1::constraints(),
            TemplateKind::ThdAtmosWavV1 => thd_v1::constraints(),
        }
    }

    /// Allowed data rates by encode mode, one entry per mode (looked up by
    /// the mode's name).
    pub fn bitrate_sets(self) -> (r: Vec<(&'static str, Vec<u16>)>)
        ensures
            rates_model(r@) == kind_rates(self),
    {
        match self {
            TemplateKind::Ac4V1 => ac4_v1::bitrate_sets(),
            TemplateKind::AtmosEc3V1 => atmos_ec3_v1::bitrate_sets(),
            TemplateKind::PcmDdpV1 => pcm_ddp_v1::bitrate_sets(),
            TemplateKind::ThdV1 => thd_v1::bitrate_sets(),
            TemplateKind::ThdAtmosWavV1 => thd_v1::bitrate_sets(),
        }
    }

    /// Upper bound of any data rate.
    pub fn bitrate_hard_max(self) -> (r: u16)
        ensures
            r == kind_hard_max(self),
    {
        match self {
            TemplateKind::Ac4V1 => ac4_v1::BITRATE_HARD_MAX,
            TemplateKind::AtmosEc3V1 => atmos_ec3_v1::BITRATE_HARD_MAX,
            TemplateKind::PcmDdpV1 => pcm_ddp_v1::BITRATE_HARD_MAX,
            TemplateKind::ThdV1 => thd_v1::BITRATE_HARD_MAX,
            TemplateKind::ThdAtmosWavV1 => thd_v1::BITRATE_HARD_MAX,
        }
    }

    /// Whether resolving a job of this template reads the input media.
    pub fn requires_input_media(self) -> (r: bool)
        ensures
            !r,
    {
        false
    }

    /// Checks the input and output file counts for the job mode.
    pub fn validate_io(self, job_mode: JobMode, input_names: &Vec<String>, output_names: &Vec<String>) -> (r: Result<(), String>)
        ensures
            crate::schema::unit_model(r) == kind_io(self, job_mode, input_names@.len(), output_names@.len()),
    {
        if let TemplateKind::Ac4V1 = self {
            return ac4_v1::validate_io(job_mode, input_names, output_names);
        }
        if input_names.len() == 0 || output_names.len() == 0 {
            return Err(owned("input.file_names and output.file_names must not be empty"));
        }
        match job_mode {
            JobMode::Single => {
                if input_names.len() != 1 || output_names.len() != 1 {
                    return Err(owned("job_mode=single requires exactly one input and one output file name"));
                }
            },
            JobMode::Album => {
                if input_names.len() != output_names.len() {
                    let mut e = owned("job_mode=album requires equal input/output counts; got ");
                    e.append(u64_text(input_names.len() as u64).as_str());
                    e.append(" and ");
                    e.append(u64_text(output_names.len() as u64).as_str());
                    return Err(e);
                }
            },
        }
        Ok(())
    }

    /// The default filter of a profile in a mode the template accepts.
    pub fn defaults(self, profile: Profile, encode_mode: EncodeMode) -> (r: ResolvedFilter)
        requires
            kind_accepts_mode(self, encode_mode),
        ensures
            r@ == kind_defaults(self, profile, encode_mode),
    {
        proof {
            crate::spec::lemma_mode_names(encode_mode);
        }
        match self {
            TemplateKind::Ac4V1 => ResolvedFilter::Ac4V1(ac4_v1::Ac4V1Filter),
            TemplateKind::AtmosEc3V1 => ResolvedFilter::AtmosEc3V1(
                atmos_ec3_v1::defaults(profile, encode_mode),
            ),
            TemplateKind::PcmDdpV1 => ResolvedFilter::PcmDdpV1(pcm_ddp_v1::defaults(profile, encode_mode)),
            TemplateKind::ThdV1 => ResolvedFilter::ThdV1(thd_v1::defaults(profile, encode_mode)),
            TemplateKind::ThdAtmosWavV1 => ResolvedFilter::ThdAtmosWavV1(
                thd_atmos_wav_v1::defaults(profile, encode_mode),
            ),
        }
    }

    /// Applies the overrides to a filter of this template.
    pub fn apply_overrides(
        self,
        filter: &mut ResolvedFilter,
        overrides: &FilterOverrides,
        encode_mode: EncodeMode,
    ) -> (r: Result<(), String>)
        ensures
            ({
                let e = ParamEnv {
                    schemas: kind_schemas(self),
                    mode: spec_encode_mode_name(encode_mode),
                    sets: kind_rates(self),
                    hard_max: kind_hard_max(self),
                };
                match r {
                    Ok(_) => kind_owns(self, old(filter)@) && kind_apply(self, old(filter)@, overrides@, e)
                        == Ok::<FilterModel, Seq<char>>(final(filter)@),
                    Err(x) => if kind_owns(self, old(filter)@) {
                        kind_apply(self, old(filter)@, overrides@, e) == Err::<FilterModel, Seq<char>>(x@)
                    } else {
                        x@ == wrong_variant_error(self)
                    },
                }
            }),
    {
        let ctx = ParamCtx {
            schemas: self.param_schemas(),
            encode_mode: encode_mode.as_str(),
            bitrate_sets: self.bitrate_sets(),
            bitrate_hard_max: self.bitrate_hard_max(),
        };
        match (self, filter) {
            (TemplateKind::Ac4V1, ResolvedFilter::Ac4V1(_)) => ac4_v1::apply_overrides(overrides),
            (TemplateKind::AtmosEc3V1, ResolvedFilter::AtmosEc3V1(f)) => atmos_ec3_v1::apply_overrides(f, overrides, &ctx),
            (TemplateKind::PcmDdpV1, ResolvedFilter::PcmDdpV1(f)) => pcm_ddp_v1::apply_overrides(f, overrides, &ctx),
            (TemplateKind::ThdV1, ResolvedFilter::ThdV1(f)) => thd_v1::apply_overrides(f, overrides, &ctx),
            (TemplateKind::ThdAtmosWavV1, ResolvedFilter::ThdAtmosWavV1(f)) => thd_atmos_wav_v1::apply_overrides(
                f,
                overrides,
                &ctx,
            ),
            _ => {
                let mut e = owned(self.id());
                e.append(" received wrong ResolvedFilter variant");
                Err(e)
            },
        }
    }

    /// The values of a filter of this template that constraints read.
    pub fn constraint_values(self, filter: &ResolvedFilter) -> (r: Vec<(&'static str, Value)>)
        ensures
            values_model(r@) == kind_values(filter@),
    {
        match filter {
            ResolvedFilter::Ac4V1(_) => ac4_v1::constraint_values(),
            ResolvedFilter::AtmosEc3V1(f) => atmos_ec3_v1::constraint_values(f),
            ResolvedFilter::PcmDdpV1(f) => pcm_ddp_v1::constraint_values(f),
            ResolvedFilter::ThdV1(f) => thd_v1::constraint_values(f),
            ResolvedFilter::ThdAtmosWavV1(f) => thd_atmos_wav_v1::constraint_values(f),
        }
    }

    /// The value of one parameter of a filter, if it has one.
    pub fn constraint_value(self, filter: &ResolvedFilter, key: &str) -> (r: Option<Value>)
        ensures
            match r {
                Some(v) => crate::schema::read_value(kind_values(filter@), key@) == Some(v@),
                None => crate::schema::read_value(kind_values(filter@), key@) is None,
            },
    {
        let values = self.constraint_values(filter);
        match crate::schema::read_value_exec(&values, key) {
            Some(v) => Some(v.clone_value()),
            None => None,
        }
    }

    /// The XML tree of a job whose filter belongs to the template.
    pub fn xml_structure(self, job: &ResolvedJob) -> (r: XmlNode)
        requires
            kind_owns(self, job.filter@),
            kind_job_fits(self, job@),
        ensures
            kind_xml(self, job@) == Some(r@),
    {
        match &job.filter {
            ResolvedFilter::Ac4V1(_) => ac4_v1::xml::xml_structure(job),
            ResolvedFilter::AtmosEc3V1(f) => atmos_ec3_v1::xml::xml_structure(job, f),
            ResolvedFilter::PcmDdpV1(f) => pcm_ddp_v1::xml::xml_structure(job, f),
            ResolvedFilter::ThdV1(f) => thd_v1::xml::xml_structure(job, f),
            ResolvedFilter::ThdAtmosWavV1(f) => thd_atmos_wav_v1::xml::xml_structure(job, f),
        }
    }

    /// The JSON tree of a job whose filter belongs to the template, or the
    /// error of a template without a JSON form.
    pub fn json_structure(self, job: &ResolvedJob) -> (r: Result<JsonValue, String>)
        requires
            kind_owns(self, job.filter@),
            kind_job_fits(self, job@),
            kind_mode_fits(self, job.encode_mode),
        ensures
            match r {
                Ok(v) => kind_has_json(self) && kind_json(self, job@) == Some(v@),
                Err(e) => !kind_has_json(self) && e@ == no_json_error(self),
            },
    {
        match &job.filter {
            ResolvedFilter::AtmosEc3V1(f) => Ok(atmos_ec3_v1::json::json_structure(job, f)),
            ResolvedFilter::PcmDdpV1(f) => Ok(pcm_ddp_v1::json::json_structure(job, f)),
            ResolvedFilter::ThdV1(f) => Ok(thd_v1::json::json_structure(job, f)),
            ResolvedFilter::ThdAtmosWavV1(f) => Ok(thd_atmos_wav_v1::json::json_structure(job, f)),
            _ => {
                let mut e = owned("template '");
                e.append(self.id());
                e.append("' does not support JSON output");
                Err(e)
            },
        }
    }

    /// Checks the settings that DEE rejects at run time.
    pub fn validate_runtime_compatibility(
        self,
        filter: &ResolvedFilter,
        encode_mode: EncodeMode,
        input_media: &Vec<InputMediaInfo>,
    ) -> (r: Result<(), String>)
        ensures
            crate::schema::unit_model(r) == kind_runtime(filter@, encode_mode, input_media@),
    {
        match filter {
            ResolvedFilter::AtmosEc3V1(f) => atmos_ec3_v1::validate_runtime_compatibility(f, encode_mode),
            ResolvedFilter::ThdAtmosWavV1(f) => thd_atmos_wav_v1::validate_runtime_compatibility(f, input_media),
            _ => Ok(()),
        }
    }
}

} // verus!
