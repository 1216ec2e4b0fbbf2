//! `thd_v1`: Dolby Atmos mezzanine to Dolby TrueHD.
use vstd::prelude::*;

pub mod json;
pub mod xml;

use crate::schema::{
    constraints_model, optional_value, rates_model, schemas_model, strs_model, values_model,
    AvailModel, Constraint, ConstraintModel, ModeAvailability, ParamRule, ParamSchema, RuleModel,
    SchemaModel, SourceTag, Value, ValueModel,
};
use crate::decode::OverridesModel;
use crate::spec::{EncodeMode, FilterOverrides, Profile};
use crate::template::params::{
    bool_param, ranged_param, str_param, validate_bool_param, validate_ranged_param,
    validate_string_param, ParamCtx, ParamEnv,
};
use crate::template::timecode::{
    boundary_outcome, thd_silence_outcome, thd_starting_outcome, validate_boundary_timecode,
    validate_thd_silence_duration, validate_thd_starting_timecode,
};
use crate::text::{owned, seq_lower};

verus! {

/// Template id.
pub const ID: &'static str = "thd_v1";
/// Template id.
pub open spec fn thd_id() -> Seq<char> {
    "thd_v1"@
}

/// Profiles the template accepts.
pub open spec fn thd_profiles() -> Seq<Seq<char>> {
    seq!["standard"@, "music"@]
}

/// Profiles the template accepts.
pub fn valid_profiles() -> (r: Vec<&'static str>)
    ensures
        strs_model(r@) == thd_profiles(),
{
    let r = vec!["standard", "music"];
    assert(strs_model(r@) =~= thd_profiles());
    r
}

/// Encode modes the template accepts.
pub open spec fn thd_modes() -> Seq<Seq<char>> {
    seq!["mlp"@]
}

/// Encode modes the template accepts.
pub fn valid_encode_modes() -> (r: Vec<&'static str>)
    ensures
        strs_model(r@) == thd_modes(),
{
    let r = vec!["mlp"];
    assert(strs_model(r@) =~= thd_modes());
    r
}

/// Upper bound of any data rate.
pub const BITRATE_HARD_MAX: u16 = 0;

/// Allowed data rates by encode mode.
pub open spec fn thd_rates() -> Seq<(Seq<char>, Seq<u16>)> {
    seq![]
}

/// Allowed data rates by encode mode.
pub fn bitrate_sets() -> (r: Vec<(&'static str, Vec<u16>)>)
    ensures
        rates_model(r@) == thd_rates(),
{
    let r: Vec<(&'static str, Vec<u16>)> = vec![];
    assert(rates_model(r@) =~= thd_rates());
    r
}

/// The parameters of the template.
pub open spec fn thd_schemas() -> Seq<SchemaModel> {
    seq![
        SchemaModel {
            key: "metering_mode"@,
            rule: RuleModel::Enum(seq!["1770-1"@, "1770-2"@, "1770-3"@, "1770-4"@, "LeqA"@]),
            avail: AvailModel::All,
            sources: seq![SourceTag::DolbyOfficial],
        },
        SchemaModel {
            key: "dialogue_intelligence"@,
            rule: RuleModel::Bool,
            avail: AvailModel::All,
            sources: seq![SourceTag::DolbyOfficial],
        },
        SchemaModel {
            key: "speech_threshold"@,
            rule: RuleModel::IntRange { min: 0, max: 100 },
            avail: AvailModel::All,
            sources: seq![SourceTag::DolbyOfficial],
        },
        SchemaModel {
            key: "timecode_frame_rate"@,
            rule: RuleModel::Enum(seq!["not_indicated"@, "23.976"@, "24"@, "25"@, "29.97"@, "30"@, "48"@, "50"@, "59.94"@, "60"@]),
            avail: AvailModel::All,
            sources: seq![SourceTag::DolbyOfficial],
        },
        SchemaModel {
            key: "starting_timecode"@,
            rule: RuleModel::FreeString,
            avail: AvailModel::All,
            sources: seq![SourceTag::DolbyOfficial],
        },
        SchemaModel {
            key: "frame_rate"@,
            rule: RuleModel::Enum(seq!["auto"@, "23.976"@, "24"@, "25"@, "29.97"@, "30"@]),
            avail: AvailModel::All,
            sources: seq![SourceTag::DolbyOfficial],
        },
        SchemaModel {
            key: "start"@,
            rule: RuleModel::FreeString,
            avail: AvailModel::All,
            sources: seq![SourceTag::DolbyOfficial],
        },
        SchemaModel {
            key: "end"@,
            rule: RuleModel::FreeString,
            avail: AvailModel::All,
            sources: seq![SourceTag::DolbyOfficial],
        },
        SchemaModel {
            key: "time_base"@,
            rule: RuleModel::Enum(seq!["file_position"@, "embedded_timecode"@]),
            avail: AvailModel::All,
            sources: seq![SourceTag::DolbyOfficial],
        },
        SchemaModel {
            key: "prepend_silence_duration"@,
            rule: RuleModel::FreeString,
            avail: AvailModel::All,
            sources: seq![SourceTag::DolbyOfficial],
        },
        SchemaModel {
            key: "append_silence_duration"@,
            rule: RuleModel::FreeString,
            avail: AvailModel::All,
            sources: seq![SourceTag::DolbyOfficial],
        },
        SchemaModel {
            key: "custom_dialnorm"@,
            rule: RuleModel::IntRange { min: -31, max: 0 },
            avail: AvailModel::All,
            sources: seq![SourceTag::DolbyOfficial],
        },
        SchemaModel {
            key: "atmos_presentation_drc_profile"@,
            rule: RuleModel::Enum(seq!["film_standard"@, "film_light"@, "music_standard"@, "music_light"@, "speech"@]),
            avail: AvailModel::All,
            sources: seq![SourceTag::DolbyOfficial],
        },
        SchemaModel {
            key: "spatial_clusters"@,
            rule: RuleModel::Enum(seq!["12"@, "14"@, "16"@]),
            avail: AvailModel::All,
            sources: seq![SourceTag::DolbyOfficial],
        },
        SchemaModel {
            key: "legacy_authoring_compatibility"@,
            rule: RuleModel::Bool,
            avail: AvailModel::All,
            sources: seq![SourceTag::DolbyOfficial],
        },
        SchemaModel {
            key: "presentation_8ch_drc_profile"@,
            rule: RuleModel::Enum(seq!["film_standard"@, "film_light"@, "music_standard"@, "music_light"@, "speech"@]),
            avail: AvailModel::All,
            sources: seq![SourceTag::DolbyOfficial],
        },
        SchemaModel {
            key: "presentation_6ch_drc_profile"@,
            rule: RuleModel::Enum(seq!["film_standard"@, "film_light"@, "music_standard"@, "music_light"@, "speech"@]),
            avail: AvailModel::All,
            sources: seq![SourceTag::DolbyOfficial],
        },
        SchemaModel {
            key: "presentation_2ch_drc_profile"@,
            rule: RuleModel::Enum(seq!["film_standard"@, "film_light"@, "music_standard"@, "music_light"@, "speech"@]),
            avail: AvailModel::All,
            sources: seq![SourceTag::DolbyOfficial],
        },
        SchemaModel {
            key: "optimize_data_rate"@,
            rule: RuleModel::Bool,
            avail: AvailModel::All,
            sources: seq![SourceTag::DolbyOfficial],
        },
    ]
}

/// The parameters of the template.
pub fn param_schemas() -> (r: Vec<ParamSchema>)
    ensures
        schemas_model(r@) == thd_schemas(),
{
    let r = vec![
        ParamSchema {
            key: "metering_mode",
            rule: ParamRule::Enum(vec!["1770-1", "1770-2", "1770-3", "1770-4", "LeqA"]),
            mode_availability: ModeAvailability::All,
            sources: vec![SourceTag::DolbyOfficial],
        },
        ParamSchema {
            key: "dialogue_intelligence",
            rule: ParamRule::Bool,
            mode_availability: ModeAvailability::All,
            sources: vec![SourceTag::DolbyOfficial],
        },
        ParamSchema {
            key: "speech_threshold",
            rule: ParamRule::IntRange { min: 0, max: 100 },
            mode_availability: ModeAvailability::All,
            sources: vec![SourceTag::DolbyOfficial],
        },
        ParamSchema {
            key: "timecode_frame_rate",
            rule: ParamRule::Enum(vec!["not_indicated", "23.976", "24", "25", "29.97", "30", "48", "50", "59.94", "60"]),
            mode_availability: ModeAvailability::All,
            sources: vec![SourceTag::DolbyOfficial],
        },
        ParamSchema {
            key: "starting_timecode",
            rule: ParamRule::FreeString,
            mode_availability: ModeAvailability::All,
            sources: vec![SourceTag::DolbyOfficial],
        },
        ParamSchema {
            key: "frame_rate",
            rule: ParamRule::Enum(vec!["auto", "23.976", "24", "25", "29.97", "30"]),
            mode_availability: ModeAvailability::All,
            sources: vec![SourceTag::DolbyOfficial],
        },
        ParamSchema {
            key: "start",
            rule: ParamRule::FreeString,
            mode_availability: ModeAvailability::All,
            sources: vec![SourceTag::DolbyOfficial],
        },
        ParamSchema {
            key: "end",
            rule: ParamRule::FreeString,
            mode_availability: ModeAvailability::All,
            sources: vec![SourceTag::DolbyOfficial],
        },
        ParamSchema {
            key: "time_base",
            rule: ParamRule::Enum(vec!["file_position", "embedded_timecode"]),
            mode_availability: ModeAvailability::All,
            sources: vec![SourceTag::DolbyOfficial],
        },
        ParamSchema {
            key: "prepend_silence_duration",
            rule: ParamRule::FreeString,
            mode_availability: ModeAvailability::All,
            sources: vec![SourceTag::DolbyOfficial],
        },
        ParamSchema {
            key: "append_silence_duration",
            rule: ParamRule::FreeString,
            mode_availability: ModeAvailability::All,
            sources: vec![SourceTag::DolbyOfficial],
        },
        ParamSchema {
            key: "custom_dialnorm",
            rule: ParamRule::IntRange { min: -31, max: 0 },
            mode_availability: ModeAvailability::All,
            sources: vec![SourceTag::DolbyOfficial],
        },
        ParamSchema {
            key: "atmos_presentation_drc_profile",
            rule: ParamRule::Enum(vec!["film_standard", "film_light", "music_standard", "music_light", "speech"]),
            mode_availability: ModeAvailability::All,
            sources: vec![SourceTag::DolbyOfficial],
        },
        ParamSchema {
            key: "spatial_clusters",
            rule: ParamRule::Enum(vec!["12", "14", "16"]),
            mode_availability: ModeAvailability::All,
            sources: vec![SourceTag::DolbyOfficial],
        },
        ParamSchema {
            key: "legacy_authoring_compatibility",
            rule: ParamRule::Bool,
            mode_availability: ModeAvailability::All,
            sources: vec![SourceTag::DolbyOfficial],
        },
        ParamSchema {
            key: "presentation_8ch_drc_profile",
            rule: ParamRule::Enum(vec!["film_standard", "film_light", "music_standard", "music_light", "speech"]),
            mode_availability: ModeAvailability::All,
            sources: vec![SourceTag::DolbyOfficial],
        },
        ParamSchema {
            key: "presentation_6ch_drc_profile",
            rule: ParamRule::Enum(vec!["film_standard", "film_light", "music_standard", "music_light", "speech"]),
            mode_availability: ModeAvailability::All,
            sources: vec![SourceTag::DolbyOfficial],
        },
        ParamSchema {
            key: "presentation_2ch_drc_profile",
            rule: ParamRule::Enum(vec!["film_standard", "film_light", "music_standard", "music_light", "speech"]),
            mode_availability: ModeAvailability::All,
            sources: vec![SourceTag::DolbyOfficial],
        },
        ParamSchema {
            key: "optimize_data_rate",
            rule: ParamRule::Bool,
            mode_availability: ModeAvailability::All,
            sources: vec![SourceTag::DolbyOfficial],
        },
    ];
    assert(schemas_model(r@) =~~= thd_schemas());
    r
}

/// The constraints of the template.
pub open spec fn thd_constraints() -> Seq<ConstraintModel> {
    seq![
    ]
}

/// The constraints of the template.
pub fn constraints() -> (r: Vec<Constraint>)
    ensures
        constraints_model(r@) == thd_constraints(),
{
    let r: Vec<Constraint> = vec![
    ];
    assert(constraints_model(r@) =~~= thd_constraints());
    r
}

/// Resolved filter parameters of the template.
#[derive(Debug, Clone)]
pub struct ThdV1Filter {
    pub metering_mode: String,
    pub dialogue_intelligence: bool,
    pub speech_threshold: u8,
    pub timecode_frame_rate: String,
    pub starting_timecode: String,
    pub frame_rate: String,
    pub start: String,
    pub end: String,
    pub time_base: String,
    pub prepend_silence_duration: String,
    pub append_silence_duration: String,
    pub custom_dialnorm: i8,
    pub atmos_presentation_drc_profile: String,
    pub spatial_clusters: String,
    pub legacy_authoring_compatibility: bool,
    pub presentation_8ch_drc_profile: String,
    pub presentation_6ch_drc_profile: String,
    pub presentation_2ch_drc_profile: String,
    pub optimize_data_rate: bool,
}

/// Model of the resolved filter parameters.
pub struct ThdV1Model {
    pub metering_mode: Seq<char>,
    pub dialogue_intelligence: bool,
    pub speech_threshold: u8,
    pub timecode_frame_rate: Seq<char>,
    pub starting_timecode: Seq<char>,
    pub frame_rate: Seq<char>,
    pub start: Seq<char>,
    pub end: Seq<char>,
    pub time_base: Seq<char>,
    pub prepend_silence_duration: Seq<char>,
    pub append_silence_duration: Seq<char>,
    pub custom_dialnorm: i8,
    pub atmos_presentation_drc_profile: Seq<char>,
    pub spatial_clusters: Seq<char>,
    pub legacy_authoring_compatibility: bool,
    pub presentation_8ch_drc_profile: Seq<char>,
    pub presentation_6ch_drc_profile: Seq<char>,
    pub presentation_2ch_drc_profile: Seq<char>,
    pub optimize_data_rate: bool,
}

impl View for ThdV1Filter {
    type V = ThdV1Model;

    open spec fn view(&self) -> ThdV1Model {
        ThdV1Model {
            metering_mode: self.metering_mode@,
            dialogue_intelligence: self.dialogue_intelligence,
            speech_threshold: self.speech_threshold,
            timecode_frame_rate: self.timecode_frame_rate@,
            starting_timecode: self.starting_timecode@,
            frame_rate: self.frame_rate@,
            start: self.start@,
            end: self.end@,
            time_base: self.time_base@,
            prepend_silence_duration: self.prepend_silence_duration@,
            append_silence_duration: self.append_silence_duration@,
            custom_dialnorm: self.custom_dialnorm,
            atmos_presentation_drc_profile: self.atmos_presentation_drc_profile@,
            spatial_clusters: self.spatial_clusters@,
            legacy_authoring_compatibility: self.legacy_authoring_compatibility,
            presentation_8ch_drc_profile: self.presentation_8ch_drc_profile@,
            presentation_6ch_drc_profile: self.presentation_6ch_drc_profile@,
            presentation_2ch_drc_profile: self.presentation_2ch_drc_profile@,
            optimize_data_rate: self.optimize_data_rate,
        }
    }
}

pub open spec fn thd_step_1(r: Result<ThdV1Model, Seq<char>>, o: OverridesModel, e: ParamEnv) -> Result<ThdV1Model, Seq<char>> {
    match r {
        Err(x) => Err(x),
        Ok(m) => match thd_unsupported(o) {
            Some(f) => Err("parameter '"@ + f + "' is not supported by template_id '"@ + thd_id() + "'"@),
            None => Ok(m),
        },
    }
}

pub open spec fn thd_step_2(r: Result<ThdV1Model, Seq<char>>, o: OverridesModel, e: ParamEnv) -> Result<ThdV1Model, Seq<char>> {
    match r {
        Err(x) => Err(x),
        Ok(m) => match o.metering_mode {
            None => Ok(m),
            Some(v) => match str_param(e, "metering_mode"@, v) {
                Ok(x) => Ok(ThdV1Model { metering_mode: x, ..m }),
                Err(x) => Err(x),
            },
        },
    }
}

pub open spec fn thd_step_3(r: Result<ThdV1Model, Seq<char>>, o: OverridesModel, e: ParamEnv) -> Result<ThdV1Model, Seq<char>> {
    match r {
        Err(x) => Err(x),
        Ok(m) => match o.dialogue_intelligence {
            None => Ok(m),
            Some(v) => match bool_param(e, "dialogue_intelligence"@, v) {
                Ok(x) => Ok(ThdV1Model { dialogue_intelligence: x, ..m }),
                Err(x) => Err(x),
            },
        },
    }
}

pub open spec fn thd_step_4(r: Result<ThdV1Model, Seq<char>>, o: OverridesModel, e: ParamEnv) -> Result<ThdV1Model, Seq<char>> {
    match r {
        Err(x) => Err(x),
        Ok(m) => match o.speech_threshold {
            None => Ok(m),
            Some(v) => match ranged_param(e, "speech_threshold"@, v, 0, 255) {
                Ok(x) => Ok(ThdV1Model { speech_threshold: x as u8, ..m }),
                Err(x) => Err(x),
            },
        },
    }
}

pub open spec fn thd_step_5(r: Result<ThdV1Model, Seq<char>>, o: OverridesModel, e: ParamEnv) -> Result<ThdV1Model, Seq<char>> {
    match r {
        Err(x) => Err(x),
        Ok(m) => match o.timecode_frame_rate {
            None => Ok(m),
            Some(v) => match str_param(e, "timecode_frame_rate"@, v) {
                Ok(x) => Ok(ThdV1Model { timecode_frame_rate: x, ..m }),
                Err(x) => Err(x),
            },
        },
    }
}

pub open spec fn thd_step_6(r: Result<ThdV1Model, Seq<char>>, o: OverridesModel, e: ParamEnv) -> Result<ThdV1Model, Seq<char>> {
    match r {
        Err(x) => Err(x),
        Ok(m) => match o.starting_timecode {
            None => Ok(m),
            Some(v) => match str_param(e, "starting_timecode"@, v) {
                Err(x) => Err(x),
                Ok(s) => match thd_starting_outcome(s) {
                    Ok(x) => Ok(ThdV1Model { starting_timecode: x, ..m }),
                    Err(x) => Err(x),
                },
            },
        },
    }
}

pub open spec fn thd_step_7(r: Result<ThdV1Model, Seq<char>>, o: OverridesModel, e: ParamEnv) -> Result<ThdV1Model, Seq<char>> {
    match r {
        Err(x) => Err(x),
        Ok(m) => match o.frame_rate {
            None => Ok(m),
            Some(v) => match str_param(e, "frame_rate"@, v) {
                Ok(x) => Ok(ThdV1Model { frame_rate: x, ..m }),
                Err(x) => Err(x),
            },
        },
    }
}

pub open spec fn thd_step_8(r: Result<ThdV1Model, Seq<char>>, o: OverridesModel, e: ParamEnv) -> Result<ThdV1Model, Seq<char>> {
    match r {
        Err(x) => Err(x),
        Ok(m) => match o.start {
            None => Ok(m),
            Some(v) => match str_param(e, "start"@, v) {
                Err(x) => Err(x),
                Ok(s) => match boundary_outcome("start"@, s) {
                    Ok(x) => Ok(ThdV1Model { start: x, ..m }),
                    Err(x) => Err(x),
                },
            },
        },
    }
}

pub open spec fn thd_step_9(r: Result<ThdV1Model, Seq<char>>, o: OverridesModel, e: ParamEnv) -> Result<ThdV1Model, Seq<char>> {
    match r {
        Err(x) => Err(x),
        Ok(m) => match o.end {
            None => Ok(m),
            Some(v) => match str_param(e, "end"@, v) {
                Err(x) => Err(x),
                Ok(s) => match boundary_outcome("end"@, s) {
                    Ok(x) => Ok(ThdV1Model { end: x, ..m }),
                    Err(x) => Err(x),
                },
            },
        },
    }
}

pub open spec fn thd_step_10(r: Result<ThdV1Model, Seq<char>>, o: OverridesModel, e: ParamEnv) -> Result<ThdV1Model, Seq<char>> {
    match r {
        Err(x) => Err(x),
        Ok(m) => match o.time_base {
            None => Ok(m),
            Some(v) => match str_param(e, "time_base"@, v) {
                Ok(x) => Ok(ThdV1Model { time_base: x, ..m }),
                Err(x) => Err(x),
            },
        },
    }
}

pub open spec fn thd_step_11(r: Result<ThdV1Model, Seq<char>>, o: OverridesModel, e: ParamEnv) -> Result<ThdV1Model, Seq<char>> {
    match r {
        Err(x) => Err(x),
        Ok(m) => match o.prepend_silence_duration {
            None => Ok(m),
            Some(v) => match str_param(e, "prepend_silence_duration"@, v) {
                Err(x) => Err(x),
                Ok(s) => match thd_silence_outcome("prepend_silence_duration"@, s) {
                    Ok(x) => Ok(ThdV1Model { prepend_silence_duration: x, ..m }),
                    Err(x) => Err(x),
                },
            },
        },
    }
}

pub open spec fn thd_step_12(r: Result<ThdV1Model, Seq<char>>, o: OverridesModel, e: ParamEnv) -> Result<ThdV1Model, Seq<char>> {
    match r {
        Err(x) => Err(x),
        Ok(m) => match o.append_silence_duration {
            None => Ok(m),
            Some(v) => match str_param(e, "append_silence_duration"@, v) {
                Err(x) => Err(x),
                Ok(s) => match thd_silence_outcome("append_silence_duration"@, s) {
                    Ok(x) => Ok(ThdV1Model { append_silence_duration: x, ..m }),
                    Err(x) => Err(x),
                },
            },
        },
    }
}

pub open spec fn thd_step_13(r: Result<ThdV1Model, Seq<char>>, o: OverridesModel, e: ParamEnv) -> Result<ThdV1Model, Seq<char>> {
    match r {
        Err(x) => Err(x),
        Ok(m) => match o.custom_dialnorm {
            None => Ok(m),
            Some(v) => match ranged_param(e, "custom_dialnorm"@, v, -128, 127) {
                Ok(x) => Ok(ThdV1Model { custom_dialnorm: x as i8, ..m }),
                Err(x) => Err(x),
            },
        },
    }
}

pub open spec fn thd_step_14(r: Result<ThdV1Model, Seq<char>>, o: OverridesModel, e: ParamEnv) -> Result<ThdV1Model, Seq<char>> {
    match r {
        Err(x) => Err(x),
        Ok(m) => match o.atmos_presentation_drc_profile {
            None => Ok(m),
            Some(v) => match str_param(e, "atmos_presentation_drc_profile"@, v) {
                Ok(x) => Ok(ThdV1Model { atmos_presentation_drc_profile: x, ..m }),
                Err(x) => Err(x),
            },
        },
    }
}

pub open spec fn thd_step_15(r: Result<ThdV1Model, Seq<char>>, o: OverridesModel, e: ParamEnv) -> Result<ThdV1Model, Seq<char>> {
    match r {
        Err(x) => Err(x),
        Ok(m) => match o.spatial_clusters {
            None => Ok(m),
            Some(v) => match str_param(e, "spatial_clusters"@, v) {
                Ok(x) => Ok(ThdV1Model { spatial_clusters: x, ..m }),
                Err(x) => Err(x),
            },
        },
    }
}

pub open spec fn thd_step_16(r: Result<ThdV1Model, Seq<char>>, o: OverridesModel, e: ParamEnv) -> Result<ThdV1Model, Seq<char>> {
    match r {
        Err(x) => Err(x),
        Ok(m) => match o.legacy_authoring_compatibility {
            None => Ok(m),
            Some(v) => match bool_param(e, "legacy_authoring_compatibility"@, v) {
                Ok(x) => Ok(ThdV1Model { legacy_authoring_compatibility: x, ..m }),
                Err(x) => Err(x),
            },
        },
    }
}

pub open spec fn thd_step_17(r: Result<ThdV1Model, Seq<char>>, o: OverridesModel, e: ParamEnv) -> Result<ThdV1Model, Seq<char>> {
    match r {
        Err(x) => Err(x),
        Ok(m) => match o.presentation_8ch_drc_profile {
            None => Ok(m),
            Some(v) => match str_param(e, "presentation_8ch_drc_profile"@, v) {
                Ok(x) => Ok(ThdV1Model { presentation_8ch_drc_profile: x, ..m }),
                Err(x) => Err(x),
            },
        },
    }
}

pub open spec fn thd_step_18(r: Result<ThdV1Model, Seq<char>>, o: OverridesModel, e: ParamEnv) -> Result<ThdV1Model, Seq<char>> {
    match r {
        Err(x) => Err(x),
        Ok(m) => match o.presentation_6ch_drc_profile {
            None => Ok(m),
            Some(v) => match str_param(e, "presentation_6ch_drc_profile"@, v) {
                Ok(x) => Ok(ThdV1Model { presentation_6ch_drc_profile: x, ..m }),
                Err(x) => Err(x),
            },
        },
    }
}

pub open spec fn thd_step_19(r: Result<ThdV1Model, Seq<char>>, o: OverridesModel, e: ParamEnv) -> Result<ThdV1Model, Seq<char>> {
    match r {
        Err(x) => Err(x),
        Ok(m) => match o.presentation_2ch_drc_profile {
            None => Ok(m),
            Some(v) => match str_param(e, "presentation_2ch_drc_profile"@, v) {
                Ok(x) => Ok(ThdV1Model { presentation_2ch_drc_profile: x, ..m }),
                Err(x) => Err(x),
            },
        },
    }
}

pub open spec fn thd_step_20(r: Result<ThdV1Model, Seq<char>>, o: OverridesModel, e: ParamEnv) -> Result<ThdV1Model, Seq<char>> {
    match r {
        Err(x) => Err(x),
        Ok(m) => match o.optimize_data_rate {
            None => Ok(m),
            Some(v) => match bool_param(e, "optimize_data_rate"@, v) {
                Ok(x) => Ok(ThdV1Model { optimize_data_rate: x, ..m }),
                Err(x) => Err(x),
            },
        },
    }
}

/// The filter after the overrides, or the error of the first override
/// that fails validation: steps 1 to 20 in order.
pub open spec fn thd_apply(f: ThdV1Model, o: OverridesModel, e: ParamEnv) -> Result<ThdV1Model, Seq<char>> {
    thd_rest(Ok(f), 0, o, e)
}

/// The first override that the template does not support.
pub open spec fn thd_unsupported(o: OverridesModel) -> Option<Seq<char>> {
    if o.data_rate is Some {
        Some("data_rate"@)
    } else if o.bitstream_mode is Some {
        Some("bitstream_mode"@)
    } else if o.downmix_config is Some {
        Some("downmix_config"@)
    } else if o.lfe_on is Some {
        Some("lfe_on"@)
    } else if o.dolby_surround_mode is Some {
        Some("dolby_surround_mode"@)
    } else if o.dolby_surround_ex_mode is Some {
        Some("dolby_surround_ex_mode"@)
    } else if o.user_data is Some {
        Some("user_data"@)
    } else if o.line_mode_drc_profile is Some {
        Some("line_mode_drc_profile"@)
    } else if o.rf_mode_drc_profile is Some {
        Some("rf_mode_drc_profile"@)
    } else if o.lfe_lowpass_filter is Some {
        Some("lfe_lowpass_filter"@)
    } else if o.surround_90_degree_phase_shift is Some {
        Some("surround_90_degree_phase_shift"@)
    } else if o.surround_3db_attenuation is Some {
        Some("surround_3db_attenuation"@)
    } else if o.loro_center_mix_level is Some {
        Some("loro_center_mix_level"@)
    } else if o.loro_surround_mix_level is Some {
        Some("loro_surround_mix_level"@)
    } else if o.ltrt_center_mix_level is Some {
        Some("ltrt_center_mix_level"@)
    } else if o.ltrt_surround_mix_level is Some {
        Some("ltrt_surround_mix_level"@)
    } else if o.preferred_downmix_mode is Some {
        Some("preferred_downmix_mode"@)
    } else if o.allow_hybrid_downmix is Some {
        Some("allow_hybrid_downmix"@)
    } else if o.surround_trim_5_1 is Some {
        Some("surround_trim_5_1"@)
    } else if o.height_trim_5_1 is Some {
        Some("height_trim_5_1"@)
    } else if o.encoding_backend is Some {
        Some("encoding_backend"@)
    } else if o.encoder_mode is Some {
        Some("encoder_mode"@)
    } else {
        None
    }
}

pub(crate) fn first_unsupported(overrides: &FilterOverrides) -> (r: Option<&'static str>)
    ensures
        match r {
            Some(k) => thd_unsupported(overrides@) == Some(k@),
            None => thd_unsupported(overrides@) is None,
        },
{
    if overrides.data_rate.is_some() {
        return Some("data_rate");
    }
    if overrides.bitstream_mode.is_some() {
        return Some("bitstream_mode");
    }
    if overrides.downmix_config.is_some() {
        return Some("downmix_config");
    }
    if overrides.lfe_on.is_some() {
        return Some("lfe_on");
    }
    if overrides.dolby_surround_mode.is_some() {
        return Some("dolby_surround_mode");
    }
    if overrides.dolby_surround_ex_mode.is_some() {
        return Some("dolby_surround_ex_mode");
    }
    if overrides.user_data.is_some() {
        return Some("user_data");
    }
    if overrides.line_mode_drc_profile.is_some() {
        return Some("line_mode_drc_profile");
    }
    if overrides.rf_mode_drc_profile.is_some() {
        return Some("rf_mode_drc_profile");
    }
    if overrides.lfe_lowpass_filter.is_some() {
        return Some("lfe_lowpass_filter");
    }
    if overrides.surround_90_degree_phase_shift.is_some() {
        return Some("surround_90_degree_phase_shift");
    }
    if overrides.surround_3db_attenuation.is_some() {
        return Some("surround_3db_attenuation");
    }
    if overrides.loro_center_mix_level.is_some() {
        return Some("loro_center_mix_level");
    }
    if overrides.loro_surround_mix_level.is_some() {
        return Some("loro_surround_mix_level");
    }
    if overrides.ltrt_center_mix_level.is_some() {
        return Some("ltrt_center_mix_level");
    }
    if overrides.ltrt_surround_mix_level.is_some() {
        return Some("ltrt_surround_mix_level");
    }
    if overrides.preferred_downmix_mode.is_some() {
        return Some("preferred_downmix_mode");
    }
    if overrides.allow_hybrid_downmix.is_some() {
        return Some("allow_hybrid_downmix");
    }
    if overrides.surround_trim_5_1.is_some() {
        return Some("surround_trim_5_1");
    }
    if overrides.height_trim_5_1.is_some() {
        return Some("height_trim_5_1");
    }
    if overrides.encoding_backend.is_some() {
        return Some("encoding_backend");
    }
    if overrides.encoder_mode.is_some() {
        return Some("encoder_mode");
    }
    None
}

fn apply_step_1(filter: &mut ThdV1Filter, overrides: &FilterOverrides, ctx: &ParamCtx) -> (r: Result<(), String>)
    ensures
        match r {
            Ok(_) => thd_step_1(Ok(old(filter)@), overrides@, ctx.env()) == Ok::<ThdV1Model, Seq<char>>(final(filter)@),
            Err(e) => thd_step_1(Ok(old(filter)@), overrides@, ctx.env()) == Err::<ThdV1Model, Seq<char>>(e@),
        },
        final(filter)@ == old(filter)@,
{
    match first_unsupported(overrides) {
        Some(field) => {
            let mut msg = owned("parameter '");
            msg.append(field);
            msg.append("' is not supported by template_id '");
            msg.append(ID);
            msg.append("'");
            Err(msg)
        },
        None => Ok(()),
    }
}

fn apply_step_2(filter: &mut ThdV1Filter, overrides: &FilterOverrides, ctx: &ParamCtx) -> (r: Result<(), String>)
    ensures
        match r {
            Ok(_) => thd_step_2(Ok(old(filter)@), overrides@, ctx.env()) == Ok::<ThdV1Model, Seq<char>>(final(filter)@),
            Err(e) => thd_step_2(Ok(old(filter)@), overrides@, ctx.env()) == Err::<ThdV1Model, Seq<char>>(e@),
        },
{
    if let Some(v) = &overrides.metering_mode {
        match validate_string_param(ctx, "metering_mode", v.as_str()) {
            Ok(x) => {
                filter.metering_mode = x;
                Ok(())
            },
            Err(err) => Err(err),
        }
    } else {
        Ok(())
    }
}

fn apply_step_3(filter: &mut ThdV1Filter, overrides: &FilterOverrides, ctx: &ParamCtx) -> (r: Result<(), String>)
    ensures
        match r {
            Ok(_) => thd_step_3(Ok(old(filter)@), overrides@, ctx.env()) == Ok::<ThdV1Model, Seq<char>>(final(filter)@),
            Err(e) => thd_step_3(Ok(old(filter)@), overrides@, ctx.env()) == Err::<ThdV1Model, Seq<char>>(e@),
        },
{
    if let Some(v) = overrides.dialogue_intelligence {
        match validate_bool_param(ctx, "dialogue_intelligence", v) {
            Ok(x) => {
                filter.dialogue_intelligence = x;
                Ok(())
            },
            Err(err) => Err(err),
        }
    } else {
        Ok(())
    }
}

fn apply_step_4(filter: &mut ThdV1Filter, overrides: &FilterOverrides, ctx: &ParamCtx) -> (r: Result<(), String>)
    ensures
        match r {
            Ok(_) => thd_step_4(Ok(old(filter)@), overrides@, ctx.env()) == Ok::<ThdV1Model, Seq<char>>(final(filter)@),
            Err(e) => thd_step_4(Ok(old(filter)@), overrides@, ctx.env()) == Err::<ThdV1Model, Seq<char>>(e@),
        },
{
    if let Some(v) = overrides.speech_threshold {
        match validate_ranged_param(ctx, "speech_threshold", v as i64, 0, 255) {
            Ok(x) => {
                filter.speech_threshold = x as u8;
                Ok(())
            },
            Err(err) => Err(err),
        }
    } else {
        Ok(())
    }
}

fn apply_step_5(filter: &mut ThdV1Filter, overrides: &FilterOverrides, ctx: &ParamCtx) -> (r: Result<(), String>)
    ensures
        match r {
            Ok(_) => thd_step_5(Ok(old(filter)@), overrides@, ctx.env()) == Ok::<ThdV1Model, Seq<char>>(final(filter)@),
            Err(e) => thd_step_5(Ok(old(filter)@), overrides@, ctx.env()) == Err::<ThdV1Model, Seq<char>>(e@),
        },
{
    if let Some(v) = &overrides.timecode_frame_rate {
        match validate_string_param(ctx, "timecode_frame_rate", v.as_str()) {
            Ok(x) => {
                filter.timecode_frame_rate = x;
                Ok(())
            },
            Err(err) => Err(err),
        }
    } else {
        Ok(())
    }
}

fn apply_step_6(filter: &mut ThdV1Filter, overrides: &FilterOverrides, ctx: &ParamCtx) -> (r: Result<(), String>)
    ensures
        match r {
            Ok(_) => thd_step_6(Ok(old(filter)@), overrides@, ctx.env()) == Ok::<ThdV1Model, Seq<char>>(final(filter)@),
            Err(e) => thd_step_6(Ok(old(filter)@), overrides@, ctx.env()) == Err::<ThdV1Model, Seq<char>>(e@),
        },
{
    if let Some(v) = &overrides.starting_timecode {
        match validate_string_param(ctx, "starting_timecode", v.as_str()) {
            Ok(s) => match validate_thd_starting_timecode(s.as_str()) {
                Ok(x) => {
                    filter.starting_timecode = x;
                    Ok(())
                },
                Err(err) => Err(err),
            },
            Err(err) => Err(err),
        }
    } else {
        Ok(())
    }
}

fn apply_step_7(filter: &mut ThdV1Filter, overrides: &FilterOverrides, ctx: &ParamCtx) -> (r: Result<(), String>)
    ensures
        match r {
            Ok(_) => thd_step_7(Ok(old(filter)@), overrides@, ctx.env()) == Ok::<ThdV1Model, Seq<char>>(final(filter)@),
            Err(e) => thd_step_7(Ok(old(filter)@), overrides@, ctx.env()) == Err::<ThdV1Model, Seq<char>>(e@),
        },
{
    if let Some(v) = &overrides.frame_rate {
        match validate_string_param(ctx, "frame_rate", v.as_str()) {
            Ok(x) => {
                filter.frame_rate = x;
                Ok(())
            },
            Err(err) => Err(err),
        }
    } else {
        Ok(())
    }
}

fn apply_step_8(filter: &mut ThdV1Filter, overrides: &FilterOverrides, ctx: &ParamCtx) -> (r: Result<(), String>)
    ensures
        match r {
            Ok(_) => thd_step_8(Ok(old(filter)@), overrides@, ctx.env()) == Ok::<ThdV1Model, Seq<char>>(final(filter)@),
            Err(e) => thd_step_8(Ok(old(filter)@), overrides@, ctx.env()) == Err::<ThdV1Model, Seq<char>>(e@),
        },
{
    if let Some(v) = &overrides.start {
        match validate_string_param(ctx, "start", v.as_str()) {
            Ok(s) => match validate_boundary_timecode("start", s.as_str()) {
                Ok(x) => {
                    filter.start = x;
                    Ok(())
                },
                Err(err) => Err(err),
            },
            Err(err) => Err(err),
        }
    } else {
        Ok(())
    }
}

fn apply_step_9(filter: &mut ThdV1Filter, overrides: &FilterOverrides, ctx: &ParamCtx) -> (r: Result<(), String>)
    ensures
        match r {
            Ok(_) => thd_step_9(Ok(old(filter)@), overrides@, ctx.env()) == Ok::<ThdV1Model, Seq<char>>(final(filter)@),
            Err(e) => thd_step_9(Ok(old(filter)@), overrides@, ctx.env()) == Err::<ThdV1Model, Seq<char>>(e@),
        },
{
    if let Some(v) = &overrides.end {
        match validate_string_param(ctx, "end", v.as_str()) {
            Ok(s) => match validate_boundary_timecode("end", s.as_str()) {
                Ok(x) => {
                    filter.end = x;
                    Ok(())
                },
                Err(err) => Err(err),
            },
            Err(err) => Err(err),
        }
    } else {
        Ok(())
    }
}

fn apply_step_10(filter: &mut ThdV1Filter, overrides: &FilterOverrides, ctx: &ParamCtx) -> (r: Result<(), String>)
    ensures
        match r {
            Ok(_) => thd_step_10(Ok(old(filter)@), overrides@, ctx.env()) == Ok::<ThdV1Model, Seq<char>>(final(filter)@),
            Err(e) => thd_step_10(Ok(old(filter)@), overrides@, ctx.env()) == Err::<ThdV1Model, Seq<char>>(e@),
        },
{
    if let Some(v) = &overrides.time_base {
        match validate_string_param(ctx, "time_base", v.as_str()) {
            Ok(x) => {
                filter.time_base = x;
                Ok(())
            },
            Err(err) => Err(err),
        }
    } else {
        Ok(())
    }
}

fn apply_step_11(filter: &mut ThdV1Filter, overrides: &FilterOverrides, ctx: &ParamCtx) -> (r: Result<(), String>)
    ensures
        match r {
            Ok(_) => thd_step_11(Ok(old(filter)@), overrides@, ctx.env()) == Ok::<ThdV1Model, Seq<char>>(final(filter)@),
            Err(e) => thd_step_11(Ok(old(filter)@), overrides@, ctx.env()) == Err::<ThdV1Model, Seq<char>>(e@),
        },
{
    if let Some(v) = &overrides.prepend_silence_duration {
        match validate_string_param(ctx, "prepend_silence_duration", v.as_str()) {
            Ok(s) => match validate_thd_silence_duration("prepend_silence_duration", s.as_str()) {
                Ok(x) => {
                    filter.prepend_silence_duration = x;
                    Ok(())
                },
                Err(err) => Err(err),
            },
            Err(err) => Err(err),
        }
    } else {
        Ok(())
    }
}

fn apply_step_12(filter: &mut ThdV1Filter, overrides: &FilterOverrides, ctx: &ParamCtx) -> (r: Result<(), String>)
    ensures
        match r {
            Ok(_) => thd_step_12(Ok(old(filter)@), overrides@, ctx.env()) == Ok::<ThdV1Model, Seq<char>>(final(filter)@),
            Err(e) => thd_step_12(Ok(old(filter)@), overrides@, ctx.env()) == Err::<ThdV1Model, Seq<char>>(e@),
        },
{
    if let Some(v) = &overrides.append_silence_duration {
        match validate_string_param(ctx, "append_silence_duration", v.as_str()) {
            Ok(s) => match validate_thd_silence_duration("append_silence_duration", s.as_str()) {
                Ok(x) => {
                    filter.append_silence_duration = x;
                    Ok(())
                },
                Err(err) => Err(err),
            },
            Err(err) => Err(err),
        }
    } else {
        Ok(())
    }
}

fn apply_step_13(filter: &mut ThdV1Filter, overrides: &FilterOverrides, ctx: &ParamCtx) -> (r: Result<(), String>)
    ensures
        match r {
            Ok(_) => thd_step_13(Ok(old(filter)@), overrides@, ctx.env()) == Ok::<ThdV1Model, Seq<char>>(final(filter)@),
            Err(e) => thd_step_13(Ok(old(filter)@), overrides@, ctx.env()) == Err::<ThdV1Model, Seq<char>>(e@),
        },
{
    if let Some(v) = overrides.custom_dialnorm {
        match validate_ranged_param(ctx, "custom_dialnorm", v as i64, -128, 127) {
            Ok(x) => {
                filter.custom_dialnorm = x as i8;
                Ok(())
            },
            Err(err) => Err(err),
        }
    } else {
        Ok(())
    }
}

fn apply_step_14(filter: &mut ThdV1Filter, overrides: &FilterOverrides, ctx: &ParamCtx) -> (r: Result<(), String>)
    ensures
        match r {
            Ok(_) => thd_step_14(Ok(old(filter)@), overrides@, ctx.env()) == Ok::<ThdV1Model, Seq<char>>(final(filter)@),
            Err(e) => thd_step_14(Ok(old(filter)@), overrides@, ctx.env()) == Err::<ThdV1Model, Seq<char>>(e@),
        },
{
    if let Some(v) = &overrides.atmos_presentation_drc_profile {
        match validate_string_param(ctx, "atmos_presentation_drc_profile", v.as_str()) {
            Ok(x) => {
                filter.atmos_presentation_drc_profile = x;
                Ok(())
            },
            Err(err) => Err(err),
        }
    } else {
        Ok(())
    }
}

fn apply_step_15(filter: &mut ThdV1Filter, overrides: &FilterOverrides, ctx: &ParamCtx) -> (r: Result<(), String>)
    ensures
        match r {
            Ok(_) => thd_step_15(Ok(old(filter)@), overrides@, ctx.env()) == Ok::<ThdV1Model, Seq<char>>(final(filter)@),
            Err(e) => thd_step_15(Ok(old(filter)@), overrides@, ctx.env()) == Err::<ThdV1Model, Seq<char>>(e@),
        },
{
    if let Some(v) = &overrides.spatial_clusters {
        match validate_string_param(ctx, "spatial_clusters", v.as_str()) {
            Ok(x) => {
                filter.spatial_clusters = x;
                Ok(())
            },
            Err(err) => Err(err),
        }
    } else {
        Ok(())
    }
}

fn apply_step_16(filter: &mut ThdV1Filter, overrides: &FilterOverrides, ctx: &ParamCtx) -> (r: Result<(), String>)
    ensures
        match r {
            Ok(_) => thd_step_16(Ok(old(filter)@), overrides@, ctx.env()) == Ok::<ThdV1Model, Seq<char>>(final(filter)@),
            Err(e) => thd_step_16(Ok(old(filter)@), overrides@, ctx.env()) == Err::<ThdV1Model, Seq<char>>(e@),
        },
{
    if let Some(v) = overrides.legacy_authoring_compatibility {
        match validate_bool_param(ctx, "legacy_authoring_compatibility", v) {
            Ok(x) => {
                filter.legacy_authoring_compatibility = x;
                Ok(())
            },
            Err(err) => Err(err),
        }
    } else {
        Ok(())
    }
}

fn apply_step_17(filter: &mut ThdV1Filter, overrides: &FilterOverrides, ctx: &ParamCtx) -> (r: Result<(), String>)
    ensures
        match r {
            Ok(_) => thd_step_17(Ok(old(filter)@), overrides@, ctx.env()) == Ok::<ThdV1Model, Seq<char>>(final(filter)@),
            Err(e) => thd_step_17(Ok(old(filter)@), overrides@, ctx.env()) == Err::<ThdV1Model, Seq<char>>(e@),
        },
{
    if let Some(v) = &overrides.presentation_8ch_drc_profile {
        match validate_string_param(ctx, "presentation_8ch_drc_profile", v.as_str()) {
            Ok(x) => {
                filter.presentation_8ch_drc_profile = x;
                Ok(())
            },
            Err(err) => Err(err),
        }
    } else {
        Ok(())
    }
}

fn apply_step_18(filter: &mut ThdV1Filter, overrides: &FilterOverrides, ctx: &ParamCtx) -> (r: Result<(), String>)
    ensures
        match r {
            Ok(_) => thd_step_18(Ok(old(filter)@), overrides@, ctx.env()) == Ok::<ThdV1Model, Seq<char>>(final(filter)@),
            Err(e) => thd_step_18(Ok(old(filter)@), overrides@, ctx.env()) == Err::<ThdV1Model, Seq<char>>(e@),
        },
{
    if let Some(v) = &overrides.presentation_6ch_drc_profile {
        match validate_string_param(ctx, "presentation_6ch_drc_profile", v.as_str()) {
            Ok(x) => {
                filter.presentation_6ch_drc_profile = x;
                Ok(())
            },
            Err(err) => Err(err),
        }
    } else {
        Ok(())
    }
}

fn apply_step_19(filter: &mut ThdV1Filter, overrides: &FilterOverrides, ctx: &ParamCtx) -> (r: Result<(), String>)
    ensures
        match r {
            Ok(_) => thd_step_19(Ok(old(filter)@), overrides@, ctx.env()) == Ok::<ThdV1Model, Seq<char>>(final(filter)@),
            Err(e) => thd_step_19(Ok(old(filter)@), overrides@, ctx.env()) == Err::<ThdV1Model, Seq<char>>(e@),
        },
{
    if let Some(v) = &overrides.presentation_2ch_drc_profile {
        match validate_string_param(ctx, "presentation_2ch_drc_profile", v.as_str()) {
            Ok(x) => {
                filter.presentation_2ch_drc_profile = x;
                Ok(())
            },
            Err(err) => Err(err),
        }
    } else {
        Ok(())
    }
}

fn apply_step_20(filter: &mut ThdV1Filter, overrides: &FilterOverrides, ctx: &ParamCtx) -> (r: Result<(), String>)
    ensures
        match r {
            Ok(_) => thd_step_20(Ok(old(filter)@), overrides@, ctx.env()) == Ok::<ThdV1Model, Seq<char>>(final(filter)@),
            Err(e) => thd_step_20(Ok(old(filter)@), overrides@, ctx.env()) == Err::<ThdV1Model, Seq<char>>(e@),
        },
{
    if let Some(v) = overrides.optimize_data_rate {
        match validate_bool_param(ctx, "optimize_data_rate", v) {
            Ok(x) => {
                filter.optimize_data_rate = x;
                Ok(())
            },
            Err(err) => Err(err),
        }
    } else {
        Ok(())
    }
}

/// The steps after step `k` keep an error.
pub open spec fn thd_rest(r: Result<ThdV1Model, Seq<char>>, k: int, o: OverridesModel, e: ParamEnv) -> Result<ThdV1Model, Seq<char>>
    decreases 20 - k,
{
    if k >= 20 {
        r
    } else {
        thd_rest(thd_step_at(r, k + 1, o, e), k + 1, o, e)
    }
}

/// Step `k` of the overrides.
pub open spec fn thd_step_at(r: Result<ThdV1Model, Seq<char>>, k: int, o: OverridesModel, e: ParamEnv) -> Result<ThdV1Model, Seq<char>> {
    if k == 1 {
        thd_step_1(r, o, e)
    } else if k == 2 {
        thd_step_2(r, o, e)
    } else if k == 3 {
        thd_step_3(r, o, e)
    } else if k == 4 {
        thd_step_4(r, o, e)
    } else if k == 5 {
        thd_step_5(r, o, e)
    } else if k == 6 {
        thd_step_6(r, o, e)
    } else if k == 7 {
        thd_step_7(r, o, e)
    } else if k == 8 {
        thd_step_8(r, o, e)
    } else if k == 9 {
        thd_step_9(r, o, e)
    } else if k == 10 {
        thd_step_10(r, o, e)
    } else if k == 11 {
        thd_step_11(r, o, e)
    } else if k == 12 {
        thd_step_12(r, o, e)
    } else if k == 13 {
        thd_step_13(r, o, e)
    } else if k == 14 {
        thd_step_14(r, o, e)
    } else if k == 15 {
        thd_step_15(r, o, e)
    } else if k == 16 {
        thd_step_16(r, o, e)
    } else if k == 17 {
        thd_step_17(r, o, e)
    } else if k == 18 {
        thd_step_18(r, o, e)
    } else if k == 19 {
        thd_step_19(r, o, e)
    } else if k == 20 {
        thd_step_20(r, o, e)
    } else {
        r
    }
}

proof fn lemma_thd_rest_err(x: Seq<char>, k: int, o: OverridesModel, e: ParamEnv)
    ensures
        thd_rest(Err(x), k, o, e) == Err::<ThdV1Model, Seq<char>>(x),
    decreases 20 - k,
{
    if k < 20 {
        lemma_thd_rest_err(x, k + 1, o, e);
    }
}

proof fn lemma_thd_err_propagates(g: Result<ThdV1Model, Seq<char>>, k: int, o: OverridesModel, e: ParamEnv)
    requires
        1 <= k <= 20,
        g is Err,
    ensures
        thd_rest(g, k, o, e) == g,
{
    lemma_thd_rest_err(g->Err_0, k, o, e);
}

/// Applies the job's overrides to the filter, validating each against the
/// schema of the template, in the order of the template's parameters.
pub fn apply_overrides(filter: &mut ThdV1Filter, overrides: &FilterOverrides, ctx: &ParamCtx) -> (r: Result<(), String>)
    ensures
        match r {
            Ok(_) => thd_apply(old(filter)@, overrides@, ctx.env()) == Ok::<ThdV1Model, Seq<char>>(final(filter)@),
            Err(e) => thd_apply(old(filter)@, overrides@, ctx.env()) == Err::<ThdV1Model, Seq<char>>(e@),
        },
        thd_unsupported(overrides@) is Some ==> final(filter)@ == old(filter)@,
{
    let ghost o = overrides@;
    let ghost e = ctx.env();
    let ghost f0 = filter@;
    match apply_step_1(filter, overrides, ctx) {
        Ok(()) => {},
        Err(err) => {
            proof {
                lemma_thd_err_propagates(thd_step_1(Ok(f0), o, e), 1, o, e);
            }
            return Err(err);
        },
    }
    assert(thd_step_1(Ok(f0), o, e) == Ok::<ThdV1Model, Seq<char>>(f0));
    apply_settings(filter, overrides, ctx)
}

/// The settings after the support check (steps 2 to 20): each override is
/// validated against the schemas of the context, in the order of the
/// parameters.
pub fn apply_settings(filter: &mut ThdV1Filter, overrides: &FilterOverrides, ctx: &ParamCtx) -> (r: Result<(), String>)
    ensures
        match r {
            Ok(_) => thd_rest(Ok(old(filter)@), 1, overrides@, ctx.env()) == Ok::<ThdV1Model, Seq<char>>(final(filter)@),
            Err(e) => thd_rest(Ok(old(filter)@), 1, overrides@, ctx.env()) == Err::<ThdV1Model, Seq<char>>(e@),
        },
{
    let ghost o = overrides@;
    let ghost e = ctx.env();
    let ghost f0 = filter@;
    let ghost mut g: Result<ThdV1Model, Seq<char>> = Ok(filter@);
    proof {
        g = thd_step_2(g, o, e);
    }
    match apply_step_2(filter, overrides, ctx) {
        Ok(()) => {},
        Err(err) => {
            proof {
                lemma_thd_err_propagates(g, 2, o, e);
            }
            return Err(err);
        },
    }
    assert(g == Ok::<ThdV1Model, Seq<char>>(filter@));
    assert(thd_rest(Ok(f0), 1, o, e) == thd_rest(g, 2, o, e));
    proof {
        g = thd_step_3(g, o, e);
    }
    match apply_step_3(filter, overrides, ctx) {
        Ok(()) => {},
        Err(err) => {
            proof {
                lemma_thd_err_propagates(g, 3, o, e);
            }
            return Err(err);
        },
    }
    assert(g == Ok::<ThdV1Model, Seq<char>>(filter@));
    assert(thd_rest(Ok(f0), 1, o, e) == thd_rest(g, 3, o, e));
    proof {
        g = thd_step_4(g, o, e);
    }
    match apply_step_4(filter, overrides, ctx) {
        Ok(()) => {},
        Err(err) => {
            proof {
                lemma_thd_err_propagates(g, 4, o, e);
            }
            return Err(err);
        },
    }
    assert(g == Ok::<ThdV1Model, Seq<char>>(filter@));
    assert(thd_rest(Ok(f0), 1, o, e) == thd_rest(g, 4, o, e));
    proof {
        g = thd_step_5(g, o, e);
    }
    match apply_step_5(filter, overrides, ctx) {
        Ok(()) => {},
        Err(err) => {
            proof {
                lemma_thd_err_propagates(g, 5, o, e);
            }
            return Err(err);
        },
    }
    assert(g == Ok::<ThdV1Model, Seq<char>>(filter@));
    assert(thd_rest(Ok(f0), 1, o, e) == thd_rest(g, 5, o, e));
    proof {
        g = thd_step_6(g, o, e);
    }
    match apply_step_6(filter, overrides, ctx) {
        Ok(()) => {},
        Err(err) => {
            proof {
                lemma_thd_err_propagates(g, 6, o, e);
            }
            return Err(err);
        },
    }
    assert(g == Ok::<ThdV1Model, Seq<char>>(filter@));
    assert(thd_rest(Ok(f0), 1, o, e) == thd_rest(g, 6, o, e));
    proof {
        g = thd_step_7(g, o, e);
    }
    match apply_step_7(filter, overrides, ctx) {
        Ok(()) => {},
        Err(err) => {
            proof {
                lemma_thd_err_propagates(g, 7, o, e);
            }
            return Err(err);
        },
    }
    assert(g == Ok::<ThdV1Model, Seq<char>>(filter@));
    assert(thd_rest(Ok(f0), 1, o, e) == thd_rest(g, 7, o, e));
    proof {
        g = thd_step_8(g, o, e);
    }
    match apply_step_8(filter, overrides, ctx) {
        Ok(()) => {},
        Err(err) => {
            proof {
                lemma_thd_err_propagates(g, 8, o, e);
            }
            return Err(err);
        },
    }
    assert(g == Ok::<ThdV1Model, Seq<char>>(filter@));
    assert(thd_rest(Ok(f0), 1, o, e) == thd_rest(g, 8, o, e));
    proof {
        g = thd_step_9(g, o, e);
    }
    match apply_step_9(filter, overrides, ctx) {
        Ok(()) => {},
        Err(err) => {
            proof {
                lemma_thd_err_propagates(g, 9, o, e);
            }
            return Err(err);
        },
    }
    assert(g == Ok::<ThdV1Model, Seq<char>>(filter@));
    assert(thd_rest(Ok(f0), 1, o, e) == thd_rest(g, 9, o, e));
    proof {
        g = thd_step_10(g, o, e);
    }
    match apply_step_10(filter, overrides, ctx) {
        Ok(()) => {},
        Err(err) => {
            proof {
                lemma_thd_err_propagates(g, 10, o, e);
            }
            return Err(err);
        },
    }
    assert(g == Ok::<ThdV1Model, Seq<char>>(filter@));
    assert(thd_rest(Ok(f0), 1, o, e) == thd_rest(g, 10, o, e));
    proof {
        g = thd_step_11(g, o, e);
    }
    match apply_step_11(filter, overrides, ctx) {
        Ok(()) => {},
        Err(err) => {
            proof {
                lemma_thd_err_propagates(g, 11, o, e);
            }
            return Err(err);
        },
    }
    assert(g == Ok::<ThdV1Model, Seq<char>>(filter@));
    assert(thd_rest(Ok(f0), 1, o, e) == thd_rest(g, 11, o, e));
    proof {
        g = thd_step_12(g, o, e);
    }
    match apply_step_12(filter, overrides, ctx) {
        Ok(()) => {},
        Err(err) => {
            proof {
                lemma_thd_err_propagates(g, 12, o, e);
            }
            return Err(err);
        },
    }
    assert(g == Ok::<ThdV1Model, Seq<char>>(filter@));
    assert(thd_rest(Ok(f0), 1, o, e) == thd_rest(g, 12, o, e));
    proof {
        g = thd_step_13(g, o, e);
    }
    match apply_step_13(filter, overrides, ctx) {
        Ok(()) => {},
        Err(err) => {
            proof {
                lemma_thd_err_propagates(g, 13, o, e);
            }
            return Err(err);
        },
    }
    assert(g == Ok::<ThdV1Model, Seq<char>>(filter@));
    assert(thd_rest(Ok(f0), 1, o, e) == thd_rest(g, 13, o, e));
    proof {
        g = thd_step_14(g, o, e);
    }
    match apply_step_14(filter, overrides, ctx) {
        Ok(()) => {},
        Err(err) => {
            proof {
                lemma_thd_err_propagates(g, 14, o, e);
            }
            return Err(err);
        },
    }
    assert(g == Ok::<ThdV1Model, Seq<char>>(filter@));
    assert(thd_rest(Ok(f0), 1, o, e) == thd_rest(g, 14, o, e));
    proof {
        g = thd_step_15(g, o, e);
    }
    match apply_step_15(filter, overrides, ctx) {
        Ok(()) => {},
        Err(err) => {
            proof {
                lemma_thd_err_propagates(g, 15, o, e);
            }
            return Err(err);
        },
    }
    assert(g == Ok::<ThdV1Model, Seq<char>>(filter@));
    assert(thd_rest(Ok(f0), 1, o, e) == thd_rest(g, 15, o, e));
    proof {
        g = thd_step_16(g, o, e);
    }
    match apply_step_16(filter, overrides, ctx) {
        Ok(()) => {},
        Err(err) => {
            proof {
                lemma_thd_err_propagates(g, 16, o, e);
            }
            return Err(err);
        },
    }
    assert(g == Ok::<ThdV1Model, Seq<char>>(filter@));
    assert(thd_rest(Ok(f0), 1, o, e) == thd_rest(g, 16, o, e));
    proof {
        g = thd_step_17(g, o, e);
    }
    match apply_step_17(filter, overrides, ctx) {
        Ok(()) => {},
        Err(err) => {
            proof {
                lemma_thd_err_propagates(g, 17, o, e);
            }
            return Err(err);
        },
    }
    assert(g == Ok::<ThdV1Model, Seq<char>>(filter@));
    assert(thd_rest(Ok(f0), 1, o, e) == thd_rest(g, 17, o, e));
    proof {
        g = thd_step_18(g, o, e);
    }
    match apply_step_18(filter, overrides, ctx) {
        Ok(()) => {},
        Err(err) => {
            proof {
                lemma_thd_err_propagates(g, 18, o, e);
            }
            return Err(err);
        },
    }
    assert(g == Ok::<ThdV1Model, Seq<char>>(filter@));
    assert(thd_rest(Ok(f0), 1, o, e) == thd_rest(g, 18, o, e));
    proof {
        g = thd_step_19(g, o, e);
    }
    match apply_step_19(filter, overrides, ctx) {
        Ok(()) => {},
        Err(err) => {
            proof {
                lemma_thd_err_propagates(g, 19, o, e);
            }
            return Err(err);
        },
    }
    assert(g == Ok::<ThdV1Model, Seq<char>>(filter@));
    assert(thd_rest(Ok(f0), 1, o, e) == thd_rest(g, 19, o, e));
    proof {
        g = thd_step_20(g, o, e);
    }
    match apply_step_20(filter, overrides, ctx) {
        Ok(()) => {},
        Err(err) => {
            proof {
                lemma_thd_err_propagates(g, 20, o, e);
            }
            return Err(err);
        },
    }
    assert(g == Ok::<ThdV1Model, Seq<char>>(filter@));
    assert(thd_rest(Ok(f0), 1, o, e) == thd_rest(g, 20, o, e));
    Ok(())
}

/// The parameter values that constraints read, by key; an unset optional
/// parameter has no entry.
pub open spec fn thd_values(m: ThdV1Model) -> Seq<(Seq<char>, ValueModel)> {
    seq![("metering_mode"@, ValueModel::Str(m.metering_mode)), ("dialogue_intelligence"@, ValueModel::Bool(m.dialogue_intelligence)), ("speech_threshold"@, ValueModel::Int(m.speech_threshold as int)), ("timecode_frame_rate"@, ValueModel::Str(m.timecode_frame_rate)), ("starting_timecode"@, ValueModel::Str(m.starting_timecode)), ("frame_rate"@, ValueModel::Str(m.frame_rate)), ("start"@, ValueModel::Str(m.start)), ("end"@, ValueModel::Str(m.end)), ("time_base"@, ValueModel::Str(m.time_base)), ("prepend_silence_duration"@, ValueModel::Str(m.prepend_silence_duration)), ("append_silence_duration"@, ValueModel::Str(m.append_silence_duration)), ("custom_dialnorm"@, ValueModel::Int(m.custom_dialnorm as int)), ("atmos_presentation_drc_profile"@, ValueModel::Str(m.atmos_presentation_drc_profile)), ("spatial_clusters"@, ValueModel::Str(m.spatial_clusters)), ("legacy_authoring_compatibility"@, ValueModel::Bool(m.legacy_authoring_compatibility)), ("presentation_8ch_drc_profile"@, ValueModel::Str(m.presentation_8ch_drc_profile)), ("presentation_6ch_drc_profile"@, ValueModel::Str(m.presentation_6ch_drc_profile)), ("presentation_2ch_drc_profile"@, ValueModel::Str(m.presentation_2ch_drc_profile)), ("optimize_data_rate"@, ValueModel::Bool(m.optimize_data_rate))]
}

/// The parameter values that constraints read, by key.
pub fn constraint_values(f: &ThdV1Filter) -> (r: Vec<(&'static str, Value)>)
    ensures
        values_model(r@) == thd_values(f@),
{
    let mut r: Vec<(&'static str, Value)> = vec![("metering_mode", Value::Str(f.metering_mode.clone())), ("dialogue_intelligence", Value::Bool(f.dialogue_intelligence)), ("speech_threshold", Value::Int(f.speech_threshold as i64)), ("timecode_frame_rate", Value::Str(f.timecode_frame_rate.clone())), ("starting_timecode", Value::Str(f.starting_timecode.clone())), ("frame_rate", Value::Str(f.frame_rate.clone())), ("start", Value::Str(f.start.clone())), ("end", Value::Str(f.end.clone())), ("time_base", Value::Str(f.time_base.clone())), ("prepend_silence_duration", Value::Str(f.prepend_silence_duration.clone())), ("append_silence_duration", Value::Str(f.append_silence_duration.clone())), ("custom_dialnorm", Value::Int(f.custom_dialnorm as i64)), ("atmos_presentation_drc_profile", Value::Str(f.atmos_presentation_drc_profile.clone())), ("spatial_clusters", Value::Str(f.spatial_clusters.clone())), ("legacy_authoring_compatibility", Value::Bool(f.legacy_authoring_compatibility)), ("presentation_8ch_drc_profile", Value::Str(f.presentation_8ch_drc_profile.clone())), ("presentation_6ch_drc_profile", Value::Str(f.presentation_6ch_drc_profile.clone())), ("presentation_2ch_drc_profile", Value::Str(f.presentation_2ch_drc_profile.clone())), ("optimize_data_rate", Value::Bool(f.optimize_data_rate))];
    assert(values_model(r@) =~= seq![("metering_mode"@, ValueModel::Str(f@.metering_mode)), ("dialogue_intelligence"@, ValueModel::Bool(f@.dialogue_intelligence)), ("speech_threshold"@, ValueModel::Int(f@.speech_threshold as int)), ("timecode_frame_rate"@, ValueModel::Str(f@.timecode_frame_rate)), ("starting_timecode"@, ValueModel::Str(f@.starting_timecode)), ("frame_rate"@, ValueModel::Str(f@.frame_rate)), ("start"@, ValueModel::Str(f@.start)), ("end"@, ValueModel::Str(f@.end)), ("time_base"@, ValueModel::Str(f@.time_base)), ("prepend_silence_duration"@, ValueModel::Str(f@.prepend_silence_duration)), ("append_silence_duration"@, ValueModel::Str(f@.append_silence_duration)), ("custom_dialnorm"@, ValueModel::Int(f@.custom_dialnorm as int)), ("atmos_presentation_drc_profile"@, ValueModel::Str(f@.atmos_presentation_drc_profile)), ("spatial_clusters"@, ValueModel::Str(f@.spatial_clusters)), ("legacy_authoring_compatibility"@, ValueModel::Bool(f@.legacy_authoring_compatibility)), ("presentation_8ch_drc_profile"@, ValueModel::Str(f@.presentation_8ch_drc_profile)), ("presentation_6ch_drc_profile"@, ValueModel::Str(f@.presentation_6ch_drc_profile)), ("presentation_2ch_drc_profile"@, ValueModel::Str(f@.presentation_2ch_drc_profile)), ("optimize_data_rate"@, ValueModel::Bool(f@.optimize_data_rate))]);
    assert(values_model(r@) =~= thd_values(f@));
    r
}

/// Whether the template can produce defaults for the mode.
pub open spec fn thd_supports(mode: EncodeMode) -> bool {
    mode == EncodeMode::Mlp
}

/// Default filter (the same for every profile).
pub open spec fn thd_defaults() -> ThdV1Model {
    ThdV1Model {
        metering_mode: "1770-4"@,
        dialogue_intelligence: true,
        speech_threshold: 15,
        timecode_frame_rate: "not_indicated"@,
        starting_timecode: "off"@,
        frame_rate: "auto"@,
        start: "first_frame_of_action"@,
        end: "end_of_file"@,
        time_base: "file_position"@,
        prepend_silence_duration: "0"@,
        append_silence_duration: "0"@,
        custom_dialnorm: 0,
        atmos_presentation_drc_profile: "film_light"@,
        spatial_clusters: "12"@,
        legacy_authoring_compatibility: true,
        presentation_8ch_drc_profile: "film_light"@,
        presentation_6ch_drc_profile: "film_light"@,
        presentation_2ch_drc_profile: "film_light"@,
        optimize_data_rate: false,
    }
}

/// The default filter, in the mode the template supports.
pub fn defaults(profile: Profile, encode_mode: EncodeMode) -> (r: ThdV1Filter)
    requires
        thd_supports(encode_mode),
    ensures
        r@ == thd_defaults(),
{
    ThdV1Filter {
        metering_mode: owned("1770-4"),
        dialogue_intelligence: true,
        speech_threshold: 15,
        timecode_frame_rate: owned("not_indicated"),
        starting_timecode: owned("off"),
        frame_rate: owned("auto"),
        start: owned("first_frame_of_action"),
        end: owned("end_of_file"),
        time_base: owned("file_position"),
        prepend_silence_duration: owned("0"),
        append_silence_duration: owned("0"),
        custom_dialnorm: 0,
        atmos_presentation_drc_profile: owned("film_light"),
        spatial_clusters: owned("12"),
        legacy_authoring_compatibility: true,
        presentation_8ch_drc_profile: owned("film_light"),
        presentation_6ch_drc_profile: owned("film_light"),
        presentation_2ch_drc_profile: owned("film_light"),
        optimize_data_rate: false,
    }
}


/// The template's defaults meet its own constraints, for every profile and
/// encode mode name, with or without the fixed-field override.
pub proof fn law_thd_defaults_meet_constraints(profile: Seq<char>, mode: Seq<char>, allow_fixed_override: bool)
    ensures
        crate::schema::constraints_outcome(thd_constraints(), profile, mode, allow_fixed_override, thd_values(thd_defaults())) is Ok,
{
}

/// The overrides of steps 1 to `k` that the filter holds: each such
/// override that is set is the filter's value (string values up to ASCII
/// case, as enum values come back canonical).
pub open spec fn thd_overrides_held(m: ThdV1Model, o: OverridesModel, k: int) -> bool {
    (k >= 2 ==> (o.metering_mode matches Some(v) ==> seq_lower(m.metering_mode) == seq_lower(v)))
        && (k >= 3 ==> (o.dialogue_intelligence matches Some(v) ==> m.dialogue_intelligence == v))
        && (k >= 4 ==> (o.speech_threshold matches Some(v) ==> m.speech_threshold as int == v))
        && (k >= 5 ==> (o.timecode_frame_rate matches Some(v) ==> seq_lower(m.timecode_frame_rate) == seq_lower(v)))
        && (k >= 6 ==> (o.starting_timecode matches Some(v) ==> seq_lower(m.starting_timecode) == seq_lower(v)))
        && (k >= 7 ==> (o.frame_rate matches Some(v) ==> seq_lower(m.frame_rate) == seq_lower(v)))
        && (k >= 8 ==> (o.start matches Some(v) ==> seq_lower(m.start) == seq_lower(v)))
        && (k >= 9 ==> (o.end matches Some(v) ==> seq_lower(m.end) == seq_lower(v)))
        && (k >= 10 ==> (o.time_base matches Some(v) ==> seq_lower(m.time_base) == seq_lower(v)))
        && (k >= 11 ==> (o.prepend_silence_duration matches Some(v) ==> seq_lower(m.prepend_silence_duration) == seq_lower(v)))
        && (k >= 12 ==> (o.append_silence_duration matches Some(v) ==> seq_lower(m.append_silence_duration) == seq_lower(v)))
        && (k >= 13 ==> (o.custom_dialnorm matches Some(v) ==> m.custom_dialnorm as int == v))
        && (k >= 14 ==> (o.atmos_presentation_drc_profile matches Some(v) ==> seq_lower(m.atmos_presentation_drc_profile) == seq_lower(v)))
        && (k >= 15 ==> (o.spatial_clusters matches Some(v) ==> seq_lower(m.spatial_clusters) == seq_lower(v)))
        && (k >= 16 ==> (o.legacy_authoring_compatibility matches Some(v) ==> m.legacy_authoring_compatibility == v))
        && (k >= 17 ==> (o.presentation_8ch_drc_profile matches Some(v) ==> seq_lower(m.presentation_8ch_drc_profile) == seq_lower(v)))
        && (k >= 18 ==> (o.presentation_6ch_drc_profile matches Some(v) ==> seq_lower(m.presentation_6ch_drc_profile) == seq_lower(v)))
        && (k >= 19 ==> (o.presentation_2ch_drc_profile matches Some(v) ==> seq_lower(m.presentation_2ch_drc_profile) == seq_lower(v)))
        && (k >= 20 ==> (o.optimize_data_rate matches Some(v) ==> m.optimize_data_rate == v))
}

proof fn lemma_thd_step_keeps(m: ThdV1Model, k: int, o: OverridesModel, e: ParamEnv)
    requires
        1 <= k <= 20,
        thd_overrides_held(m, o, k - 1),
    ensures
        thd_step_at(Ok(m), k, o, e) matches Ok(m2) ==> thd_overrides_held(m2, o, k),
{
    if k == 2 {
        if let Some(v) = o.metering_mode {
            crate::template::params::lemma_str_param_value(e, "metering_mode"@, v);
        }
    } else if k == 3 {
        if let Some(v) = o.dialogue_intelligence {
            crate::template::params::lemma_bool_param_value(e, "dialogue_intelligence"@, v);
        }
    } else if k == 4 {
        if let Some(v) = o.speech_threshold {
            crate::template::params::lemma_ranged_param_value(e, "speech_threshold"@, v, 0, 255);
        }
    } else if k == 5 {
        if let Some(v) = o.timecode_frame_rate {
            crate::template::params::lemma_str_param_value(e, "timecode_frame_rate"@, v);
        }
    } else if k == 6 {
        if let Some(v) = o.starting_timecode {
            crate::template::params::lemma_str_param_value(e, "starting_timecode"@, v);
        }
    } else if k == 7 {
        if let Some(v) = o.frame_rate {
            crate::template::params::lemma_str_param_value(e, "frame_rate"@, v);
        }
    } else if k == 8 {
        if let Some(v) = o.start {
            crate::template::params::lemma_str_param_value(e, "start"@, v);
        }
    } else if k == 9 {
        if let Some(v) = o.end {
            crate::template::params::lemma_str_param_value(e, "end"@, v);
        }
    } else if k == 10 {
        if let Some(v) = o.time_base {
            crate::template::params::lemma_str_param_value(e, "time_base"@, v);
        }
    } else if k == 11 {
        if let Some(v) = o.prepend_silence_duration {
            crate::template::params::lemma_str_param_value(e, "prepend_silence_duration"@, v);
        }
    } else if k == 12 {
        if let Some(v) = o.append_silence_duration {
            crate::template::params::lemma_str_param_value(e, "append_silence_duration"@, v);
        }
    } else if k == 13 {
        if let Some(v) = o.custom_dialnorm {
            crate::template::params::lemma_ranged_param_value(e, "custom_dialnorm"@, v, -128, 127);
        }
    } else if k == 14 {
        if let Some(v) = o.atmos_presentation_drc_profile {
            crate::template::params::lemma_str_param_value(e, "atmos_presentation_drc_profile"@, v);
        }
    } else if k == 15 {
        if let Some(v) = o.spatial_clusters {
            crate::template::params::lemma_str_param_value(e, "spatial_clusters"@, v);
        }
    } else if k == 16 {
        if let Some(v) = o.legacy_authoring_compatibility {
            crate::template::params::lemma_bool_param_value(e, "legacy_authoring_compatibility"@, v);
        }
    } else if k == 17 {
        if let Some(v) = o.presentation_8ch_drc_profile {
            crate::template::params::lemma_str_param_value(e, "presentation_8ch_drc_profile"@, v);
        }
    } else if k == 18 {
        if let Some(v) = o.presentation_6ch_drc_profile {
            crate::template::params::lemma_str_param_value(e, "presentation_6ch_drc_profile"@, v);
        }
    } else if k == 19 {
        if let Some(v) = o.presentation_2ch_drc_profile {
            crate::template::params::lemma_str_param_value(e, "presentation_2ch_drc_profile"@, v);
        }
    } else if k == 20 {
        if let Some(v) = o.optimize_data_rate {
            crate::template::params::lemma_bool_param_value(e, "optimize_data_rate"@, v);
        }
    }
}

pub(crate) proof fn lemma_thd_rest_keeps(r: Result<ThdV1Model, Seq<char>>, k: int, o: OverridesModel, e: ParamEnv)
    requires
        0 <= k <= 20,
        r matches Ok(m) ==> thd_overrides_held(m, o, k),
    ensures
        thd_rest(r, k, o, e) matches Ok(m2) ==> thd_overrides_held(m2, o, 20),
    decreases 20 - k,
{
    if k < 20 {
        let r2 = thd_step_at(r, k + 1, o, e);
        match r {
            Ok(m) => lemma_thd_step_keeps(m, k + 1, o, e),
            Err(x) => assert(r2 == r),
        }
        lemma_thd_rest_keeps(r2, k + 1, o, e);
    }
}

/// An override that validates is what the filter holds afterwards: where
/// the overrides apply, each parameter that the job sets has the job's
/// value (string values up to ASCII case, since an enum value comes back
/// in its canonical spelling).
pub proof fn law_thd_overrides_hold(f: ThdV1Model, o: OverridesModel, e: ParamEnv)
    ensures
        thd_apply(f, o, e) matches Ok(m) ==> {
            (o.metering_mode matches Some(v) ==> seq_lower(m.metering_mode) == seq_lower(v))
            && (o.dialogue_intelligence matches Some(v) ==> m.dialogue_intelligence == v)
            && (o.speech_threshold matches Some(v) ==> m.speech_threshold as int == v)
            && (o.timecode_frame_rate matches Some(v) ==> seq_lower(m.timecode_frame_rate) == seq_lower(v))
            && (o.starting_timecode matches Some(v) ==> seq_lower(m.starting_timecode) == seq_lower(v))
            && (o.frame_rate matches Some(v) ==> seq_lower(m.frame_rate) == seq_lower(v))
            && (o.start matches Some(v) ==> seq_lower(m.start) == seq_lower(v))
            && (o.end matches Some(v) ==> seq_lower(m.end) == seq_lower(v))
            && (o.time_base matches Some(v) ==> seq_lower(m.time_base) == seq_lower(v))
            && (o.prepend_silence_duration matches Some(v) ==> seq_lower(m.prepend_silence_duration) == seq_lower(v))
            && (o.append_silence_duration matches Some(v) ==> seq_lower(m.append_silence_duration) == seq_lower(v))
            && (o.custom_dialnorm matches Some(v) ==> m.custom_dialnorm as int == v)
            && (o.atmos_presentation_drc_profile matches Some(v) ==> seq_lower(m.atmos_presentation_drc_profile) == seq_lower(v))
            && (o.spatial_clusters matches Some(v) ==> seq_lower(m.spatial_clusters) == seq_lower(v))
            && (o.legacy_authoring_compatibility matches Some(v) ==> m.legacy_authoring_compatibility == v)
            && (o.presentation_8ch_drc_profile matches Some(v) ==> seq_lower(m.presentation_8ch_drc_profile) == seq_lower(v))
            && (o.presentation_6ch_drc_profile matches Some(v) ==> seq_lower(m.presentation_6ch_drc_profile) == seq_lower(v))
            && (o.presentation_2ch_drc_profile matches Some(v) ==> seq_lower(m.presentation_2ch_drc_profile) == seq_lower(v))
            && (o.optimize_data_rate matches Some(v) ==> m.optimize_data_rate == v)
        },
{
    lemma_thd_rest_keeps(Ok(f), 0, o, e);
}

} // verus!
