//! The AC-4 IMS encoding settings shared by the AC-4 IMS templates: their
//! parameters, defaults, overrides and XML tree.
use vstd::prelude::*;

pub mod json;
pub mod xml;

use crate::decode::OverridesModel;
use crate::schema::{
    constraints_model, optional_value, rates_model, schemas_model, strs_model, values_model,
    AvailModel, Constraint, ConstraintModel, ModeAvailability, ParamRule, ParamSchema, RuleModel,
    SchemaModel, SourceTag, Value, ValueModel,
};
use crate::spec::{spec_encode_mode_name, EncodeMode, FilterOverrides, Profile};
use crate::template::params::{
    bool_param, ranged_param, str_param, validate_bool_param, validate_ranged_param,
    validate_string_param, ParamCtx, ParamEnv,
};
use crate::template::timecode::{
    boundary_outcome, input_tc_outcome, language_outcome, thd_silence_outcome,
    validate_boundary_timecode, validate_input_timecode, validate_language_tag,
    validate_thd_silence_duration,
};
use crate::text::owned;

verus! {

/// Profiles the template accepts.
pub open spec fn ac4ims_profiles() -> Seq<Seq<char>> {
    seq!["standard"@, "music"@]
}

/// Profiles the template accepts.
pub fn valid_profiles() -> (r: Vec<&'static str>)
    ensures
        strs_model(r@) == ac4ims_profiles(),
{
    let r = vec!["standard", "music"];
    assert(strs_model(r@) =~= ac4ims_profiles());
    r
}

/// Encode modes the template accepts.
pub open spec fn ac4ims_modes() -> Seq<Seq<char>> {
    seq!["ac4"@]
}

/// Encode modes the template accepts.
pub fn valid_encode_modes() -> (r: Vec<&'static str>)
    ensures
        strs_model(r@) == ac4ims_modes(),
{
    let r = vec!["ac4"];
    assert(strs_model(r@) =~= ac4ims_modes());
    r
}

/// Upper bound of any data rate.
pub const BITRATE_HARD_MAX: u16 = 320;

/// Allowed data rates by encode mode.
pub open spec fn ac4ims_rates() -> Seq<(Seq<char>, Seq<u16>)> {
    seq![("ac4"@, seq![64, 72, 112, 144, 256, 320])]
}

/// Allowed data rates by encode mode.
pub fn bitrate_sets() -> (r: Vec<(&'static str, Vec<u16>)>)
    ensures
        rates_model(r@) == ac4ims_rates(),
{
    let r: Vec<(&'static str, Vec<u16>)> = vec![("ac4", vec![64, 72, 112, 144, 256, 320])];
    assert(rates_model(r@) =~= ac4ims_rates());
    r
}

/// The parameters of the template.
pub open spec fn ac4ims_schemas() -> Seq<SchemaModel> {
    seq![
        SchemaModel {
            key: "input_timecode_frame_rate"@,
            rule: RuleModel::Enum(seq!["not_indicated"@, "23.976"@, "24"@, "25"@, "29.97"@, "30"@, "48"@, "50"@, "59.94"@, "60"@]),
            avail: AvailModel::All,
            sources: seq![SourceTag::DolbyOfficial],
        },
        SchemaModel {
            key: "offset"@,
            rule: RuleModel::FreeString,
            avail: AvailModel::All,
            sources: seq![SourceTag::DolbyOfficial],
        },
        SchemaModel {
            key: "ffoa"@,
            rule: RuleModel::FreeString,
            avail: AvailModel::All,
            sources: seq![SourceTag::DolbyOfficial],
        },
        SchemaModel {
            key: "metering_mode"@,
            rule: RuleModel::Enum(seq!["1770-1"@, "1770-2"@, "1770-3"@, "1770-4"@, "LeqA"@]),
            avail: AvailModel::All,
            sources: seq![SourceTag::DolbyOfficial],
        },
        SchemaModel {
            key: "dialogue_intelligence"@,
            rule: RuleModel::Bool,
            avail: AvailModel::All,
            sources: seq![SourceTag::DolbyOfficial],
        },
        SchemaModel {
            key: "speech_threshold"@,
            rule: RuleModel::IntRange { min: 0, max: 100 },
            avail: AvailModel::All,
            sources: seq![SourceTag::DolbyOfficial],
        },
        SchemaModel {
            key: "data_rate"@,
            rule: RuleModel::DataRate,
            avail: AvailModel::All,
            sources: seq![SourceTag::DolbyOfficial],
        },
        SchemaModel {
            key: "timecode_frame_rate"@,
            rule: RuleModel::Enum(seq!["not_indicated"@, "23.976"@, "24"@, "25"@, "29.97"@, "30"@, "48"@, "50"@, "59.94"@, "60"@]),
            avail: AvailModel::All,
            sources: seq![SourceTag::DolbyOfficial],
        },
        SchemaModel {
            key: "start"@,
            rule: RuleModel::FreeString,
            avail: AvailModel::All,
            sources: seq![SourceTag::DolbyOfficial],
        },
        SchemaModel {
            key: "end"@,
            rule: RuleModel::FreeString,
            avail: AvailModel::All,
            sources: seq![SourceTag::DolbyOfficial],
        },
        SchemaModel {
            key: "time_base"@,
            rule: RuleModel::Enum(seq!["file_position"@, "embedded_timecode"@]),
            avail: AvailModel::All,
            sources: seq![SourceTag::DolbyOfficial],
        },
        SchemaModel {
            key: "prepend_silence_duration"@,
            rule: RuleModel::FreeString,
            avail: AvailModel::All,
            sources: seq![SourceTag::DolbyOfficial],
        },
        SchemaModel {
            key: "append_silence_duration"@,
            rule: RuleModel::FreeString,
            avail: AvailModel::All,
            sources: seq![SourceTag::DolbyOfficial],
        },
        SchemaModel {
            key: "ac4_frame_rate"@,
            rule: RuleModel::Enum(seq!["native"@, "23.976"@, "24"@, "25"@, "29.97"@]),
            avail: AvailModel::All,
            sources: seq![SourceTag::DolbyOfficial],
        },
        SchemaModel {
            key: "ims_legacy_presentation"@,
            rule: RuleModel::Bool,
            avail: AvailModel::All,
            sources: seq![SourceTag::DolbyOfficial],
        },
        SchemaModel {
            key: "iframe_interval"@,
            rule: RuleModel::IntRange { min: 0, max: 1000 },
            avail: AvailModel::All,
            sources: seq![SourceTag::DolbyOfficial],
        },
        SchemaModel {
            key: "language"@,
            rule: RuleModel::FreeString,
            avail: AvailModel::All,
            sources: seq![SourceTag::DolbyOfficial],
        },
        SchemaModel {
            key: "encoding_profile"@,
            rule: RuleModel::Enum(seq!["ims"@, "ims_music"@]),
            avail: AvailModel::All,
            sources: seq![SourceTag::DolbyOfficial],
        },
        SchemaModel {
            key: "ddp_drc_profile"@,
            rule: RuleModel::Enum(seq!["film_standard"@, "film_light"@, "music_standard"@, "music_light"@, "speech"@, "none"@]),
            avail: AvailModel::All,
            sources: seq![SourceTag::DolbyOfficial],
        },
        SchemaModel {
            key: "flat_panel_drc_profile"@,
            rule: RuleModel::Enum(seq!["film_standard"@, "film_light"@, "music_standard"@, "music_light"@, "speech"@, "none"@]),
            avail: AvailModel::All,
            sources: seq![SourceTag::DolbyOfficial],
        },
        SchemaModel {
            key: "home_theatre_drc_profile"@,
            rule: RuleModel::Enum(seq!["film_standard"@, "film_light"@, "music_standard"@, "music_light"@, "speech"@, "none"@]),
            avail: AvailModel::All,
            sources: seq![SourceTag::DolbyOfficial],
        },
        SchemaModel {
            key: "portable_hp_drc_profile"@,
            rule: RuleModel::Enum(seq!["film_standard"@, "film_light"@, "music_standard"@, "music_light"@, "speech"@, "none"@]),
            avail: AvailModel::All,
            sources: seq![SourceTag::DolbyOfficial],
        },
        SchemaModel {
            key: "portable_spkr_drc_profile"@,
            rule: RuleModel::Enum(seq!["film_standard"@, "film_light"@, "music_standard"@, "music_light"@, "speech"@, "none"@]),
            avail: AvailModel::All,
            sources: seq![SourceTag::DolbyOfficial],
        },
    ]
}

/// The parameters of the template.
pub fn param_schemas() -> (r: Vec<ParamSchema>)
    ensures
        schemas_model(r@) == ac4ims_schemas(),
{
    let r = vec![
        ParamSchema {
            key: "input_timecode_frame_rate",
            rule: ParamRule::Enum(vec!["not_indicated", "23.976", "24", "25", "29.97", "30", "48", "50", "59.94", "60"]),
            mode_availability: ModeAvailability::All,
            sources: vec![SourceTag::DolbyOfficial],
        },
        ParamSchema {
            key: "offset",
            rule: ParamRule::FreeString,
            mode_availability: ModeAvailability::All,
            sources: vec![SourceTag::DolbyOfficial],
        },
        ParamSchema {
            key: "ffoa",
            rule: ParamRule::FreeString,
            mode_availability: ModeAvailability::All,
            sources: vec![SourceTag::DolbyOfficial],
        },
        ParamSchema {
            key: "metering_mode",
            rule: ParamRule::Enum(vec!["1770-1", "1770-2", "1770-3", "1770-4", "LeqA"]),
            mode_availability: ModeAvailability::All,
            sources: vec![SourceTag::DolbyOfficial],
        },
        ParamSchema {
            key: "dialogue_intelligence",
            rule: ParamRule::Bool,
            mode_availability: ModeAvailability::All,
            sources: vec![SourceTag::DolbyOfficial],
        },
        ParamSchema {
            key: "speech_threshold",
            rule: ParamRule::IntRange { min: 0, max: 100 },
            mode_availability: ModeAvailability::All,
            sources: vec![SourceTag::DolbyOfficial],
        },
        ParamSchema {
            key: "data_rate",
            rule: ParamRule::DataRate,
            mode_availability: ModeAvailability::All,
            sources: vec![SourceTag::DolbyOfficial],
        },
        ParamSchema {
            key: "timecode_frame_rate",
            rule: ParamRule::Enum(vec!["not_indicated", "23.976", "24", "25", "29.97", "30", "48", "50", "59.94", "60"]),
            mode_availability: ModeAvailability::All,
            sources: vec![SourceTag::DolbyOfficial],
        },
        ParamSchema {
            key: "start",
            rule: ParamRule::FreeString,
            mode_availability: ModeAvailability::All,
            sources: vec![SourceTag::DolbyOfficial],
        },
        ParamSchema {
            key: "end",
            rule: ParamRule::FreeString,
            mode_availability: ModeAvailability::All,
            sources: vec![SourceTag::DolbyOfficial],
        },
        ParamSchema {
            key: "time_base",
            rule: ParamRule::Enum(vec!["file_position", "embedded_timecode"]),
            mode_availability: ModeAvailability::All,
            sources: vec![SourceTag::DolbyOfficial],
        },
        ParamSchema {
            key: "prepend_silence_duration",
            rule: ParamRule::FreeString,
            mode_availability: ModeAvailability::All,
            sources: vec![SourceTag::DolbyOfficial],
        },
        ParamSchema {
            key: "append_silence_duration",
            rule: ParamRule::FreeString,
            mode_availability: ModeAvailability::All,
            sources: vec![SourceTag::DolbyOfficial],
        },
        ParamSchema {
            key: "ac4_frame_rate",
            rule: ParamRule::Enum(vec!["native", "23.976", "24", "25", "29.97"]),
            mode_availability: ModeAvailability::All,
            sources: vec![SourceTag::DolbyOfficial],
        },
        ParamSchema {
            key: "ims_legacy_presentation",
            rule: ParamRule::Bool,
            mode_availability: ModeAvailability::All,
            sources: vec![SourceTag::DolbyOfficial],
        },
        ParamSchema {
            key: "iframe_interval",
            rule: ParamRule::IntRange { min: 0, max: 1000 },
            mode_availability: ModeAvailability::All,
            sources: vec![SourceTag::DolbyOfficial],
        },
        ParamSchema {
            key: "language",
            rule: ParamRule::FreeString,
            mode_availability: ModeAvailability::All,
            sources: vec![SourceTag::DolbyOfficial],
        },
        ParamSchema {
            key: "encoding_profile",
            rule: ParamRule::Enum(vec!["ims", "ims_music"]),
            mode_availability: ModeAvailability::All,
            sources: vec![SourceTag::DolbyOfficial],
        },
        ParamSchema {
            key: "ddp_drc_profile",
            rule: ParamRule::Enum(vec!["film_standard", "film_light", "music_standard", "music_light", "speech", "none"]),
            mode_availability: ModeAvailability::All,
            sources: vec![SourceTag::DolbyOfficial],
        },
        ParamSchema {
            key: "flat_panel_drc_profile",
            rule: ParamRule::Enum(vec!["film_standard", "film_light", "music_standard", "music_light", "speech", "none"]),
            mode_availability: ModeAvailability::All,
            sources: vec![SourceTag::DolbyOfficial],
        },
        ParamSchema {
            key: "home_theatre_drc_profile",
            rule: ParamRule::Enum(vec!["film_standard", "film_light", "music_standard", "music_light", "speech", "none"]),
            mode_availability: ModeAvailability::All,
            sources: vec![SourceTag::DolbyOfficial],
        },
        ParamSchema {
            key: "portable_hp_drc_profile",
            rule: ParamRule::Enum(vec!["film_standard", "film_light", "music_standard", "music_light", "speech", "none"]),
            mode_availability: ModeAvailability::All,
            sources: vec![SourceTag::DolbyOfficial],
        },
        ParamSchema {
            key: "portable_spkr_drc_profile",
            rule: ParamRule::Enum(vec!["film_standard", "film_light", "music_standard", "music_light", "speech", "none"]),
            mode_availability: ModeAvailability::All,
            sources: vec![SourceTag::DolbyOfficial],
        },
    ];
    assert(schemas_model(r@) =~~= ac4ims_schemas());
    r
}

/// The constraints of the template.
pub open spec fn ac4ims_constraints() -> Seq<ConstraintModel> {
    seq![
    ]
}

/// The constraints of the template.
pub fn constraints() -> (r: Vec<Constraint>)
    ensures
        constraints_model(r@) == ac4ims_constraints(),
{
    let r: Vec<Constraint> = vec![
    ];
    assert(constraints_model(r@) =~~= ac4ims_constraints());
    r
}

/// Resolved filter parameters of the template.
#[derive(Debug, Clone)]
pub struct Ac4ImsFilter {
    pub input_timecode_frame_rate: String,
    pub offset: String,
    pub ffoa: String,
    pub metering_mode: String,
    pub dialogue_intelligence: bool,
    pub speech_threshold: u8,
    pub data_rate: u16,
    pub timecode_frame_rate: String,
    pub start: String,
    pub end: String,
    pub time_base: String,
    pub prepend_silence_duration: String,
    pub append_silence_duration: String,
    pub ac4_frame_rate: String,
    pub ims_legacy_presentation: bool,
    pub iframe_interval: u16,
    pub language: String,
    pub encoding_profile: String,
    pub ddp_drc_profile: String,
    pub flat_panel_drc_profile: String,
    pub home_theatre_drc_profile: String,
    pub portable_hp_drc_profile: String,
    pub portable_spkr_drc_profile: String,
}

/// Model of the resolved filter parameters.
pub struct Ac4ImsModel {
    pub input_timecode_frame_rate: Seq<char>,
    pub offset: Seq<char>,
    pub ffoa: Seq<char>,
    pub metering_mode: Seq<char>,
    pub dialogue_intelligence: bool,
    pub speech_threshold: u8,
    pub data_rate: u16,
    pub timecode_frame_rate: Seq<char>,
    pub start: Seq<char>,
    pub end: Seq<char>,
    pub time_base: Seq<char>,
    pub prepend_silence_duration: Seq<char>,
    pub append_silence_duration: Seq<char>,
    pub ac4_frame_rate: Seq<char>,
    pub ims_legacy_presentation: bool,
    pub iframe_interval: u16,
    pub language: Seq<char>,
    pub encoding_profile: Seq<char>,
    pub ddp_drc_profile: Seq<char>,
    pub flat_panel_drc_profile: Seq<char>,
    pub home_theatre_drc_profile: Seq<char>,
    pub portable_hp_drc_profile: Seq<char>,
    pub portable_spkr_drc_profile: Seq<char>,
}

impl View for Ac4ImsFilter {
    type V = Ac4ImsModel;

    open spec fn view(&self) -> Ac4ImsModel {
        Ac4ImsModel {
            input_timecode_frame_rate: self.input_timecode_frame_rate@,
            offset: self.offset@,
            ffoa: self.ffoa@,
            metering_mode: self.metering_mode@,
            dialogue_intelligence: self.dialogue_intelligence,
            speech_threshold: self.speech_threshold,
            data_rate: self.data_rate,
            timecode_frame_rate: self.timecode_frame_rate@,
            start: self.start@,
            end: self.end@,
            time_base: self.time_base@,
            prepend_silence_duration: self.prepend_silence_duration@,
            append_silence_duration: self.append_silence_duration@,
            ac4_frame_rate: self.ac4_frame_rate@,
            ims_legacy_presentation: self.ims_legacy_presentation,
            iframe_interval: self.iframe_interval,
            language: self.language@,
            encoding_profile: self.encoding_profile@,
            ddp_drc_profile: self.ddp_drc_profile@,
            flat_panel_drc_profile: self.flat_panel_drc_profile@,
            home_theatre_drc_profile: self.home_theatre_drc_profile@,
            portable_hp_drc_profile: self.portable_hp_drc_profile@,
            portable_spkr_drc_profile: self.portable_spkr_drc_profile@,
        }
    }
}

pub open spec fn ac4ims_step_1(r: Result<Ac4ImsModel, Seq<char>>, o: OverridesModel, e: ParamEnv) -> Result<Ac4ImsModel, Seq<char>> {
    match r {
        Err(x) => Err(x),
        Ok(m) => match ac4ims_unsupported(o) {
            Some(f) => Err("parameter '"@ + f + "' is not supported by AC-4 IMS templates"@),
            None => Ok(m),
        },
    }
}

pub open spec fn ac4ims_step_2(r: Result<Ac4ImsModel, Seq<char>>, o: OverridesModel, e: ParamEnv) -> Result<Ac4ImsModel, Seq<char>> {
    match r {
        Err(x) => Err(x),
        Ok(m) => match o.input_timecode_frame_rate {
            None => Ok(m),
            Some(v) => match str_param(e, "input_timecode_frame_rate"@, v) {
                Ok(x) => Ok(Ac4ImsModel { input_timecode_frame_rate: x, ..m }),
                Err(x) => Err(x),
            },
        },
    }
}

pub open spec fn ac4ims_step_3(r: Result<Ac4ImsModel, Seq<char>>, o: OverridesModel, e: ParamEnv) -> Result<Ac4ImsModel, Seq<char>> {
    match r {
        Err(x) => Err(x),
        Ok(m) => match o.offset {
            None => Ok(m),
            Some(v) => match input_tc_outcome("offset"@, v) {
                Ok(x) => Ok(Ac4ImsModel { offset: x, ..m }),
                Err(x) => Err(x),
            },
        },
    }
}

pub open spec fn ac4ims_step_4(r: Result<Ac4ImsModel, Seq<char>>, o: OverridesModel, e: ParamEnv) -> Result<Ac4ImsModel, Seq<char>> {
    match r {
        Err(x) => Err(x),
        Ok(m) => match o.ffoa {
            None => Ok(m),
            Some(v) => match input_tc_outcome("ffoa"@, v) {
                Ok(x) => Ok(Ac4ImsModel { ffoa: x, ..m }),
                Err(x) => Err(x),
            },
        },
    }
}

pub open spec fn ac4ims_step_5(r: Result<Ac4ImsModel, Seq<char>>, o: OverridesModel, e: ParamEnv) -> Result<Ac4ImsModel, Seq<char>> {
    match r {
        Err(x) => Err(x),
        Ok(m) => match o.metering_mode {
            None => Ok(m),
            Some(v) => match str_param(e, "metering_mode"@, v) {
                Ok(x) => Ok(Ac4ImsModel { metering_mode: x, ..m }),
                Err(x) => Err(x),
            },
        },
    }
}

pub open spec fn ac4ims_step_6(r: Result<Ac4ImsModel, Seq<char>>, o: OverridesModel, e: ParamEnv) -> Result<Ac4ImsModel, Seq<char>> {
    match r {
        Err(x) => Err(x),
        Ok(m) => match o.dialogue_intelligence {
            None => Ok(m),
            Some(v) => match bool_param(e, "dialogue_intelligence"@, v) {
                Ok(x) => Ok(Ac4ImsModel { dialogue_intelligence: x, ..m }),
                Err(x) => Err(x),
            },
        },
    }
}

pub open spec fn ac4ims_step_7(r: Result<Ac4ImsModel, Seq<char>>, o: OverridesModel, e: ParamEnv) -> Result<Ac4ImsModel, Seq<char>> {
    match r {
        Err(x) => Err(x),
        Ok(m) => match o.speech_threshold {
            None => Ok(m),
            Some(v) => match ranged_param(e, "speech_threshold"@, v, 0, 255) {
                Ok(x) => Ok(Ac4ImsModel { speech_threshold: x as u8, ..m }),
                Err(x) => Err(x),
            },
        },
    }
}

pub open spec fn ac4ims_step_8(r: Result<Ac4ImsModel, Seq<char>>, o: OverridesModel, e: ParamEnv) -> Result<Ac4ImsModel, Seq<char>> {
    match r {
        Err(x) => Err(x),
        Ok(m) => match o.data_rate {
            None => Ok(m),
            Some(v) => match ranged_param(e, "data_rate"@, v, 0, 65535) {
                Ok(x) => Ok(Ac4ImsModel { data_rate: x as u16, ..m }),
                Err(x) => Err(x),
            },
        },
    }
}

pub open spec fn ac4ims_step_9(r: Result<Ac4ImsModel, Seq<char>>, o: OverridesModel, e: ParamEnv) -> Result<Ac4ImsModel, Seq<char>> {
    match r {
        Err(x) => Err(x),
        Ok(m) => match o.timecode_frame_rate {
            None => Ok(m),
            Some(v) => match str_param(e, "timecode_frame_rate"@, v) {
                Ok(x) => Ok(Ac4ImsModel { timecode_frame_rate: x, ..m }),
                Err(x) => Err(x),
            },
        },
    }
}

pub open spec fn ac4ims_step_10(r: Result<Ac4ImsModel, Seq<char>>, o: OverridesModel, e: ParamEnv) -> Result<Ac4ImsModel, Seq<char>> {
    match r {
        Err(x) => Err(x),
        Ok(m) => match o.start {
            None => Ok(m),
            Some(v) => match str_param(e, "start"@, v) {
                Err(x) => Err(x),
                Ok(s) => match boundary_outcome("start"@, s) {
                    Ok(x) => Ok(Ac4ImsModel { start: x, ..m }),
                    Err(x) => Err(x),
                },
            },
        },
    }
}

pub open spec fn ac4ims_step_11(r: Result<Ac4ImsModel, Seq<char>>, o: OverridesModel, e: ParamEnv) -> Result<Ac4ImsModel, Seq<char>> {
    match r {
        Err(x) => Err(x),
        Ok(m) => match o.end {
            None => Ok(m),
            Some(v) => match str_param(e, "end"@, v) {
                Err(x) => Err(x),
                Ok(s) => match boundary_outcome("end"@, s) {
                    Ok(x) => Ok(Ac4ImsModel { end: x, ..m }),
                    Err(x) => Err(x),
                },
            },
        },
    }
}

pub open spec fn ac4ims_step_12(r: Result<Ac4ImsModel, Seq<char>>, o: OverridesModel, e: ParamEnv) -> Result<Ac4ImsModel, Seq<char>> {
    match r {
        Err(x) => Err(x),
        Ok(m) => match o.time_base {
            None => Ok(m),
            Some(v) => match str_param(e, "time_base"@, v) {
                Ok(x) => Ok(Ac4ImsModel { time_base: x, ..m }),
                Err(x) => Err(x),
            },
        },
    }
}

pub open spec fn ac4ims_step_13(r: Result<Ac4ImsModel, Seq<char>>, o: OverridesModel, e: ParamEnv) -> Result<Ac4ImsModel, Seq<char>> {
    match r {
        Err(x) => Err(x),
        Ok(m) => match o.prepend_silence_duration {
            None => Ok(m),
            Some(v) => match str_param(e, "prepend_silence_duration"@, v) {
                Err(x) => Err(x),
                Ok(s) => match thd_silence_outcome("prepend_silence_duration"@, s) {
                    Ok(x) => Ok(Ac4ImsModel { prepend_silence_duration: x, ..m }),
                    Err(x) => Err(x),
                },
            },
        },
    }
}

pub open spec fn ac4ims_step_14(r: Result<Ac4ImsModel, Seq<char>>, o: OverridesModel, e: ParamEnv) -> Result<Ac4ImsModel, Seq<char>> {
    match r {
        Err(x) => Err(x),
        Ok(m) => match o.append_silence_duration {
            None => Ok(m),
            Some(v) => match str_param(e, "append_silence_duration"@, v) {
                Err(x) => Err(x),
                Ok(s) => match thd_silence_outcome("append_silence_duration"@, s) {
                    Ok(x) => Ok(Ac4ImsModel { append_silence_duration: x, ..m }),
                    Err(x) => Err(x),
                },
            },
        },
    }
}

pub open spec fn ac4ims_step_15(r: Result<Ac4ImsModel, Seq<char>>, o: OverridesModel, e: ParamEnv) -> Result<Ac4ImsModel, Seq<char>> {
    match r {
        Err(x) => Err(x),
        Ok(m) => match o.ac4_frame_rate {
            None => Ok(m),
            Some(v) => match str_param(e, "ac4_frame_rate"@, v) {
                Ok(x) => Ok(Ac4ImsModel { ac4_frame_rate: x, ..m }),
                Err(x) => Err(x),
            },
        },
    }
}

pub open spec fn ac4ims_step_16(r: Result<Ac4ImsModel, Seq<char>>, o: OverridesModel, e: ParamEnv) -> Result<Ac4ImsModel, Seq<char>> {
    match r {
        Err(x) => Err(x),
        Ok(m) => match o.ims_legacy_presentation {
            None => Ok(m),
            Some(v) => match bool_param(e, "ims_legacy_presentation"@, v) {
                Ok(x) => Ok(Ac4ImsModel { ims_legacy_presentation: x, ..m }),
                Err(x) => Err(x),
            },
        },
    }
}

pub open spec fn ac4ims_step_17(r: Result<Ac4ImsModel, Seq<char>>, o: OverridesModel, e: ParamEnv) -> Result<Ac4ImsModel, Seq<char>> {
    match r {
        Err(x) => Err(x),
        Ok(m) => match o.iframe_interval {
            None => Ok(m),
            Some(v) => match ranged_param(e, "iframe_interval"@, v, 0, 65535) {
                Ok(x) => Ok(Ac4ImsModel { iframe_interval: x as u16, ..m }),
                Err(x) => Err(x),
            },
        },
    }
}

pub open spec fn ac4ims_step_18(r: Result<Ac4ImsModel, Seq<char>>, o: OverridesModel, e: ParamEnv) -> Result<Ac4ImsModel, Seq<char>> {
    match r {
        Err(x) => Err(x),
        Ok(m) => match o.language {
            None => Ok(m),
            Some(v) => match str_param(e, "language"@, v) {
                Err(x) => Err(x),
                Ok(s) => match language_outcome(s) {
                    Ok(x) => Ok(Ac4ImsModel { language: x, ..m }),
                    Err(x) => Err(x),
                },
            },
        },
    }
}

pub open spec fn ac4ims_step_19(r: Result<Ac4ImsModel, Seq<char>>, o: OverridesModel, e: ParamEnv) -> Result<Ac4ImsModel, Seq<char>> {
    match r {
        Err(x) => Err(x),
        Ok(m) => match o.encoding_profile {
            None => Ok(m),
            Some(v) => match str_param(e, "encoding_profile"@, v) {
                Ok(x) => Ok(Ac4ImsModel { encoding_profile: x, ..m }),
                Err(x) => Err(x),
            },
        },
    }
}

pub open spec fn ac4ims_step_20(r: Result<Ac4ImsModel, Seq<char>>, o: OverridesModel, e: ParamEnv) -> Result<Ac4ImsModel, Seq<char>> {
    match r {
        Err(x) => Err(x),
        Ok(m) => match o.ddp_drc_profile {
            None => Ok(m),
            Some(v) => match str_param(e, "ddp_drc_profile"@, v) {
                Ok(x) => Ok(Ac4ImsModel { ddp_drc_profile: x, ..m }),
                Err(x) => Err(x),
            },
        },
    }
}

pub open spec fn ac4ims_step_21(r: Result<Ac4ImsModel, Seq<char>>, o: OverridesModel, e: ParamEnv) -> Result<Ac4ImsModel, Seq<char>> {
    match r {
        Err(x) => Err(x),
        Ok(m) => match o.flat_panel_drc_profile {
            None => Ok(m),
            Some(v) => match str_param(e, "flat_panel_drc_profile"@, v) {
                Ok(x) => Ok(Ac4ImsModel { flat_panel_drc_profile: x, ..m }),
                Err(x) => Err(x),
            },
        },
    }
}

pub open spec fn ac4ims_step_22(r: Result<Ac4ImsModel, Seq<char>>, o: OverridesModel, e: ParamEnv) -> Result<Ac4ImsModel, Seq<char>> {
    match r {
        Err(x) => Err(x),
        Ok(m) => match o.home_theatre_drc_profile {
            None => Ok(m),
            Some(v) => match str_param(e, "home_theatre_drc_profile"@, v) {
                Ok(x) => Ok(Ac4ImsModel { home_theatre_drc_profile: x, ..m }),
                Err(x) => Err(x),
            },
        },
    }
}

pub open spec fn ac4ims_step_23(r: Result<Ac4ImsModel, Seq<char>>, o: OverridesModel, e: ParamEnv) -> Result<Ac4ImsModel, Seq<char>> {
    match r {
        Err(x) => Err(x),
        Ok(m) => match o.portable_hp_drc_profile {
            None => Ok(m),
            Some(v) => match str_param(e, "portable_hp_drc_profile"@, v) {
                Ok(x) => Ok(Ac4ImsModel { portable_hp_drc_profile: x, ..m }),
                Err(x) => Err(x),
            },
        },
    }
}

pub open spec fn ac4ims_step_24(r: Result<Ac4ImsModel, Seq<char>>, o: OverridesModel, e: ParamEnv) -> Result<Ac4ImsModel, Seq<char>> {
    match r {
        Err(x) => Err(x),
        Ok(m) => match o.portable_spkr_drc_profile {
            None => Ok(m),
            Some(v) => match str_param(e, "portable_spkr_drc_profile"@, v) {
                Ok(x) => Ok(Ac4ImsModel { portable_spkr_drc_profile: x, ..m }),
                Err(x) => Err(x),
            },
        },
    }
}

/// The filter after the overrides, or the error of the first override
/// that fails validation: steps 1 to 24 in order.
pub open spec fn ac4ims_apply(f: Ac4ImsModel, o: OverridesModel, e: ParamEnv) -> Result<Ac4ImsModel, Seq<char>> {
    ac4ims_rest(Ok(f), 0, o, e)
}

/// The first override that the template does not support.
pub open spec fn ac4ims_unsupported(o: OverridesModel) -> Option<Seq<char>> {
    if o.channel_configuration is Some {
        Some("channel_configuration"@)
    } else if o.bitstream_mode is Some {
        Some("bitstream_mode"@)
    } else if o.downmix_config is Some {
        Some("downmix_config"@)
    } else if o.line_mode_drc_profile is Some {
        Some("line_mode_drc_profile"@)
    } else if o.rf_mode_drc_profile is Some {
        Some("rf_mode_drc_profile"@)
    } else if o.lfe_on is Some {
        Some("lfe_on"@)
    } else if o.dolby_surround_mode is Some {
        Some("dolby_surround_mode"@)
    } else if o.dolby_surround_ex_mode is Some {
        Some("dolby_surround_ex_mode"@)
    } else if o.user_data is Some {
        Some("user_data"@)
    } else if o.lfe_lowpass_filter is Some {
        Some("lfe_lowpass_filter"@)
    } else if o.surround_90_degree_phase_shift is Some {
        Some("surround_90_degree_phase_shift"@)
    } else if o.surround_3db_attenuation is Some {
        Some("surround_3db_attenuation"@)
    } else if o.loro_center_mix_level is Some {
        Some("loro_center_mix_level"@)
    } else if o.loro_surround_mix_level is Some {
        Some("loro_surround_mix_level"@)
    } else if o.ltrt_center_mix_level is Some {
        Some("ltrt_center_mix_level"@)
    } else if o.ltrt_surround_mix_level is Some {
        Some("ltrt_surround_mix_level"@)
    } else if o.preferred_downmix_mode is Some {
        Some("preferred_downmix_mode"@)
    } else if o.allow_hybrid_downmix is Some {
        Some("allow_hybrid_downmix"@)
    } else if o.starting_timecode is Some {
        Some("starting_timecode"@)
    } else if o.frame_rate is Some {
        Some("frame_rate"@)
    } else if o.surround_trim_5_1 is Some {
        Some("surround_trim_5_1"@)
    } else if o.height_trim_5_1 is Some {
        Some("height_trim_5_1"@)
    } else if o.custom_dialnorm is Some {
        Some("custom_dialnorm"@)
    } else if o.encoding_backend is Some {
        Some("encoding_backend"@)
    } else if o.encoder_mode is Some {
        Some("encoder_mode"@)
    } else if o.atmos_presentation_drc_profile is Some {
        Some("atmos_presentation_drc_profile"@)
    } else if o.spatial_clusters is Some {
        Some("spatial_clusters"@)
    } else if o.legacy_authoring_compatibility is Some {
        Some("legacy_authoring_compatibility"@)
    } else if o.presentation_8ch_drc_profile is Some {
        Some("presentation_8ch_drc_profile"@)
    } else if o.presentation_6ch_drc_profile is Some {
        Some("presentation_6ch_drc_profile"@)
    } else if o.presentation_2ch_drc_profile is Some {
        Some("presentation_2ch_drc_profile"@)
    } else if o.optimize_data_rate is Some {
        Some("optimize_data_rate"@)
    } else {
        None
    }
}

fn first_unsupported(overrides: &FilterOverrides) -> (r: Option<&'static str>)
    ensures
        match r {
            Some(k) => ac4ims_unsupported(overrides@) == Some(k@),
            None => ac4ims_unsupported(overrides@) is None,
        },
{
    if overrides.channel_configuration.is_some() {
        return Some("channel_configuration");
    }
    if overrides.bitstream_mode.is_some() {
        return Some("bitstream_mode");
    }
    if overrides.downmix_config.is_some() {
        return Some("downmix_config");
    }
    if overrides.line_mode_drc_profile.is_some() {
        return Some("line_mode_drc_profile");
    }
    if overrides.rf_mode_drc_profile.is_some() {
        return Some("rf_mode_drc_profile");
    }
    if overrides.lfe_on.is_some() {
        return Some("lfe_on");
    }
    if overrides.dolby_surround_mode.is_some() {
        return Some("dolby_surround_mode");
    }
    if overrides.dolby_surround_ex_mode.is_some() {
        return Some("dolby_surround_ex_mode");
    }
    if overrides.user_data.is_some() {
        return Some("user_data");
    }
    if overrides.lfe_lowpass_filter.is_some() {
        return Some("lfe_lowpass_filter");
    }
    if overrides.surround_90_degree_phase_shift.is_some() {
        return Some("surround_90_degree_phase_shift");
    }
    if overrides.surround_3db_attenuation.is_some() {
        return Some("surround_3db_attenuation");
    }
    if overrides.loro_center_mix_level.is_some() {
        return Some("loro_center_mix_level");
    }
    if overrides.loro_surround_mix_level.is_some() {
        return Some("loro_surround_mix_level");
    }
    if overrides.ltrt_center_mix_level.is_some() {
        return Some("ltrt_center_mix_level");
    }
    if overrides.ltrt_surround_mix_level.is_some() {
        return Some("ltrt_surround_mix_level");
    }
    if overrides.preferred_downmix_mode.is_some() {
        return Some("preferred_downmix_mode");
    }
    if overrides.allow_hybrid_downmix.is_some() {
        return Some("allow_hybrid_downmix");
    }
    if overrides.starting_timecode.is_some() {
        return Some("starting_timecode");
    }
    if overrides.frame_rate.is_some() {
        return Some("frame_rate");
    }
    if overrides.surround_trim_5_1.is_some() {
        return Some("surround_trim_5_1");
    }
    if overrides.height_trim_5_1.is_some() {
        return Some("height_trim_5_1");
    }
    if overrides.custom_dialnorm.is_some() {
        return Some("custom_dialnorm");
    }
    if overrides.encoding_backend.is_some() {
        return Some("encoding_backend");
    }
    if overrides.encoder_mode.is_some() {
        return Some("encoder_mode");
    }
    if overrides.atmos_presentation_drc_profile.is_some() {
        return Some("atmos_presentation_drc_profile");
    }
    if overrides.spatial_clusters.is_some() {
        return Some("spatial_clusters");
    }
    if overrides.legacy_authoring_compatibility.is_some() {
        return Some("legacy_authoring_compatibility");
    }
    if overrides.presentation_8ch_drc_profile.is_some() {
        return Some("presentation_8ch_drc_profile");
    }
    if overrides.presentation_6ch_drc_profile.is_some() {
        return Some("presentation_6ch_drc_profile");
    }
    if overrides.presentation_2ch_drc_profile.is_some() {
        return Some("presentation_2ch_drc_profile");
    }
    if overrides.optimize_data_rate.is_some() {
        return Some("optimize_data_rate");
    }
    None
}

fn apply_step_1(filter: &mut Ac4ImsFilter, overrides: &FilterOverrides, ctx: &ParamCtx) -> (r: Result<(), String>)
    ensures
        match r {
            Ok(_) => ac4ims_step_1(Ok(old(filter)@), overrides@, ctx.env()) == Ok::<Ac4ImsModel, Seq<char>>(final(filter)@),
            Err(e) => ac4ims_step_1(Ok(old(filter)@), overrides@, ctx.env()) == Err::<Ac4ImsModel, Seq<char>>(e@),
        },
        final(filter)@ == old(filter)@,
{
    match first_unsupported(overrides) {
        Some(field) => {
            let mut msg = owned("parameter '");
            msg.append(field);
            msg.append("' is not supported by AC-4 IMS templates");
            Err(msg)
        },
        None => Ok(()),
    }
}

fn apply_step_2(filter: &mut Ac4ImsFilter, overrides: &FilterOverrides, ctx: &ParamCtx) -> (r: Result<(), String>)
    ensures
        match r {
            Ok(_) => ac4ims_step_2(Ok(old(filter)@), overrides@, ctx.env()) == Ok::<Ac4ImsModel, Seq<char>>(final(filter)@),
            Err(e) => ac4ims_step_2(Ok(old(filter)@), overrides@, ctx.env()) == Err::<Ac4ImsModel, Seq<char>>(e@),
        },
{
    if let Some(v) = &overrides.input_timecode_frame_rate {
        match validate_string_param(ctx, "input_timecode_frame_rate", v.as_str()) {
            Ok(x) => {
                filter.input_timecode_frame_rate = x;
                Ok(())
            },
            Err(err) => Err(err),
        }
    } else {
        Ok(())
    }
}

fn apply_step_3(filter: &mut Ac4ImsFilter, overrides: &FilterOverrides, ctx: &ParamCtx) -> (r: Result<(), String>)
    ensures
        match r {
            Ok(_) => ac4ims_step_3(Ok(old(filter)@), overrides@, ctx.env()) == Ok::<Ac4ImsModel, Seq<char>>(final(filter)@),
            Err(e) => ac4ims_step_3(Ok(old(filter)@), overrides@, ctx.env()) == Err::<Ac4ImsModel, Seq<char>>(e@),
        },
{
    if let Some(v) = &overrides.offset {
        match validate_input_timecode("offset", v.as_str()) {
            Ok(x) => {
                filter.offset = x;
                Ok(())
            },
            Err(err) => Err(err),
        }
    } else {
        Ok(())
    }
}

fn apply_step_4(filter: &mut Ac4ImsFilter, overrides: &FilterOverrides, ctx: &ParamCtx) -> (r: Result<(), String>)
    ensures
        match r {
            Ok(_) => ac4ims_step_4(Ok(old(filter)@), overrides@, ctx.env()) == Ok::<Ac4ImsModel, Seq<char>>(final(filter)@),
            Err(e) => ac4ims_step_4(Ok(old(filter)@), overrides@, ctx.env()) == Err::<Ac4ImsModel, Seq<char>>(e@),
        },
{
    if let Some(v) = &overrides.ffoa {
        match validate_input_timecode("ffoa", v.as_str()) {
            Ok(x) => {
                filter.ffoa = x;
                Ok(())
            },
            Err(err) => Err(err),
        }
    } else {
        Ok(())
    }
}

fn apply_step_5(filter: &mut Ac4ImsFilter, overrides: &FilterOverrides, ctx: &ParamCtx) -> (r: Result<(), String>)
    ensures
        match r {
            Ok(_) => ac4ims_step_5(Ok(old(filter)@), overrides@, ctx.env()) == Ok::<Ac4ImsModel, Seq<char>>(final(filter)@),
            Err(e) => ac4ims_step_5(Ok(old(filter)@), overrides@, ctx.env()) == Err::<Ac4ImsModel, Seq<char>>(e@),
        },
{
    if let Some(v) = &overrides.metering_mode {
        match validate_string_param(ctx, "metering_mode", v.as_str()) {
            Ok(x) => {
                filter.metering_mode = x;
                Ok(())
            },
            Err(err) => Err(err),
        }
    } else {
        Ok(())
    }
}

fn apply_step_6(filter: &mut Ac4ImsFilter, overrides: &FilterOverrides, ctx: &ParamCtx) -> (r: Result<(), String>)
    ensures
        match r {
            Ok(_) => ac4ims_step_6(Ok(old(filter)@), overrides@, ctx.env()) == Ok::<Ac4ImsModel, Seq<char>>(final(filter)@),
            Err(e) => ac4ims_step_6(Ok(old(filter)@), overrides@, ctx.env()) == Err::<Ac4ImsModel, Seq<char>>(e@),
        },
{
    if let Some(v) = overrides.dialogue_intelligence {
        match validate_bool_param(ctx, "dialogue_intelligence", v) {
            Ok(x) => {
                filter.dialogue_intelligence = x;
                Ok(())
            },
            Err(err) => Err(err),
        }
    } else {
        Ok(())
    }
}

fn apply_step_7(filter: &mut Ac4ImsFilter, overrides: &FilterOverrides, ctx: &ParamCtx) -> (r: Result<(), String>)
    ensures
        match r {
            Ok(_) => ac4ims_step_7(Ok(old(filter)@), overrides@, ctx.env()) == Ok::<Ac4ImsModel, Seq<char>>(final(filter)@),
            Err(e) => ac4ims_step_7(Ok(old(filter)@), overrides@, ctx.env()) == Err::<Ac4ImsModel, Seq<char>>(e@),
        },
{
    if let Some(v) = overrides.speech_threshold {
        match validate_ranged_param(ctx, "speech_threshold", v as i64, 0, 255) {
            Ok(x) => {
                filter.speech_threshold = x as u8;
                Ok(())
            },
            Err(err) => Err(err),
        }
    } else {
        Ok(())
    }
}

fn apply_step_8(filter: &mut Ac4ImsFilter, overrides: &FilterOverrides, ctx: &ParamCtx) -> (r: Result<(), String>)
    ensures
        match r {
            Ok(_) => ac4ims_step_8(Ok(old(filter)@), overrides@, ctx.env()) == Ok::<Ac4ImsModel, Seq<char>>(final(filter)@),
            Err(e) => ac4ims_step_8(Ok(old(filter)@), overrides@, ctx.env()) == Err::<Ac4ImsModel, Seq<char>>(e@),
        },
{
    if let Some(v) = overrides.data_rate {
        match validate_ranged_param(ctx, "data_rate", v as i64, 0, 65535) {
            Ok(x) => {
                filter.data_rate = x as u16;
                Ok(())
            },
            Err(err) => Err(err),
        }
    } else {
        Ok(())
    }
}

fn apply_step_9(filter: &mut Ac4ImsFilter, overrides: &FilterOverrides, ctx: &ParamCtx) -> (r: Result<(), String>)
    ensures
        match r {
            Ok(_) => ac4ims_step_9(Ok(old(filter)@), overrides@, ctx.env()) == Ok::<Ac4ImsModel, Seq<char>>(final(filter)@),
            Err(e) => ac4ims_step_9(Ok(old(filter)@), overrides@, ctx.env()) == Err::<Ac4ImsModel, Seq<char>>(e@),
        },
{
    if let Some(v) = &overrides.timecode_frame_rate {
        match validate_string_param(ctx, "timecode_frame_rate", v.as_str()) {
            Ok(x) => {
                filter.timecode_frame_rate = x;
                Ok(())
            },
            Err(err) => Err(err),
        }
    } else {
        Ok(())
    }
}

fn apply_step_10(filter: &mut Ac4ImsFilter, overrides: &FilterOverrides, ctx: &ParamCtx) -> (r: Result<(), String>)
    ensures
        match r {
            Ok(_) => ac4ims_step_10(Ok(old(filter)@), overrides@, ctx.env()) == Ok::<Ac4ImsModel, Seq<char>>(final(filter)@),
            Err(e) => ac4ims_step_10(Ok(old(filter)@), overrides@, ctx.env()) == Err::<Ac4ImsModel, Seq<char>>(e@),
        },
{
    if let Some(v) = &overrides.start {
        match validate_string_param(ctx, "start", v.as_str()) {
            Ok(s) => match validate_boundary_timecode("start", s.as_str()) {
                Ok(x) => {
                    filter.start = x;
                    Ok(())
                },
                Err(err) => Err(err),
            },
            Err(err) => Err(err),
        }
    } else {
        Ok(())
    }
}

fn apply_step_11(filter: &mut Ac4ImsFilter, overrides: &FilterOverrides, ctx: &ParamCtx) -> (r: Result<(), String>)
    ensures
        match r {
            Ok(_) => ac4ims_step_11(Ok(old(filter)@), overrides@, ctx.env()) == Ok::<Ac4ImsModel, Seq<char>>(final(filter)@),
            Err(e) => ac4ims_step_11(Ok(old(filter)@), overrides@, ctx.env()) == Err::<Ac4ImsModel, Seq<char>>(e@),
        },
{
    if let Some(v) = &overrides.end {
        match validate_string_param(ctx, "end", v.as_str()) {
            Ok(s) => match validate_boundary_timecode("end", s.as_str()) {
                Ok(x) => {
                    filter.end = x;
                    Ok(())
                },
                Err(err) => Err(err),
            },
            Err(err) => Err(err),
        }
    } else {
        Ok(())
    }
}

fn apply_step_12(filter: &mut Ac4ImsFilter, overrides: &FilterOverrides, ctx: &ParamCtx) -> (r: Result<(), String>)
    ensures
        match r {
            Ok(_) => ac4ims_step_12(Ok(old(filter)@), overrides@, ctx.env()) == Ok::<Ac4ImsModel, Seq<char>>(final(filter)@),
            Err(e) => ac4ims_step_12(Ok(old(filter)@), overrides@, ctx.env()) == Err::<Ac4ImsModel, Seq<char>>(e@),
        },
{
    if let Some(v) = &overrides.time_base {
        match validate_string_param(ctx, "time_base", v.as_str()) {
            Ok(x) => {
                filter.time_base = x;
                Ok(())
            },
            Err(err) => Err(err),
        }
    } else {
        Ok(())
    }
}

fn apply_step_13(filter: &mut Ac4ImsFilter, overrides: &FilterOverrides, ctx: &ParamCtx) -> (r: Result<(), String>)
    ensures
        match r {
            Ok(_) => ac4ims_step_13(Ok(old(filter)@), overrides@, ctx.env()) == Ok::<Ac4ImsModel, Seq<char>>(final(filter)@),
            Err(e) => ac4ims_step_13(Ok(old(filter)@), overrides@, ctx.env()) == Err::<Ac4ImsModel, Seq<char>>(e@),
        },
{
    if let Some(v) = &overrides.prepend_silence_duration {
        match validate_string_param(ctx, "prepend_silence_duration", v.as_str()) {
            Ok(s) => match validate_thd_silence_duration("prepend_silence_duration", s.as_str()) {
                Ok(x) => {
                    filter.prepend_silence_duration = x;
                    Ok(())
                },
                Err(err) => Err(err),
            },
            Err(err) => Err(err),
        }
    } else {
        Ok(())
    }
}

fn apply_step_14(filter: &mut Ac4ImsFilter, overrides: &FilterOverrides, ctx: &ParamCtx) -> (r: Result<(), String>)
    ensures
        match r {
            Ok(_) => ac4ims_step_14(Ok(old(filter)@), overrides@, ctx.env()) == Ok::<Ac4ImsModel, Seq<char>>(final(filter)@),
            Err(e) => ac4ims_step_14(Ok(old(filter)@), overrides@, ctx.env()) == Err::<Ac4ImsModel, Seq<char>>(e@),
        },
{
    if let Some(v) = &overrides.append_silence_duration {
        match validate_string_param(ctx, "append_silence_duration", v.as_str()) {
            Ok(s) => match validate_thd_silence_duration("append_silence_duration", s.as_str()) {
                Ok(x) => {
                    filter.append_silence_duration = x;
                    Ok(())
                },
                Err(err) => Err(err),
            },
            Err(err) => Err(err),
        }
    } else {
        Ok(())
    }
}

fn apply_step_15(filter: &mut Ac4ImsFilter, overrides: &FilterOverrides, ctx: &ParamCtx) -> (r: Result<(), String>)
    ensures
        match r {
            Ok(_) => ac4ims_step_15(Ok(old(filter)@), overrides@, ctx.env()) == Ok::<Ac4ImsModel, Seq<char>>(final(filter)@),
            Err(e) => ac4ims_step_15(Ok(old(filter)@), overrides@, ctx.env()) == Err::<Ac4ImsModel, Seq<char>>(e@),
        },
{
    if let Some(v) = &overrides.ac4_frame_rate {
        match validate_string_param(ctx, "ac4_frame_rate", v.as_str()) {
            Ok(x) => {
                filter.ac4_frame_rate = x;
                Ok(())
            },
            Err(err) => Err(err),
        }
    } else {
        Ok(())
    }
}

fn apply_step_16(filter: &mut Ac4ImsFilter, overrides: &FilterOverrides, ctx: &ParamCtx) -> (r: Result<(), String>)
    ensures
        match r {
            Ok(_) => ac4ims_step_16(Ok(old(filter)@), overrides@, ctx.env()) == Ok::<Ac4ImsModel, Seq<char>>(final(filter)@),
            Err(e) => ac4ims_step_16(Ok(old(filter)@), overrides@, ctx.env()) == Err::<Ac4ImsModel, Seq<char>>(e@),
        },
{
    if let Some(v) = overrides.ims_legacy_presentation {
        match validate_bool_param(ctx, "ims_legacy_presentation", v) {
            Ok(x) => {
                filter.ims_legacy_presentation = x;
                Ok(())
            },
            Err(err) => Err(err),
        }
    } else {
        Ok(())
    }
}

fn apply_step_17(filter: &mut Ac4ImsFilter, overrides: &FilterOverrides, ctx: &ParamCtx) -> (r: Result<(), String>)
    ensures
        match r {
            Ok(_) => ac4ims_step_17(Ok(old(filter)@), overrides@, ctx.env()) == Ok::<Ac4ImsModel, Seq<char>>(final(filter)@),
            Err(e) => ac4ims_step_17(Ok(old(filter)@), overrides@, ctx.env()) == Err::<Ac4ImsModel, Seq<char>>(e@),
        },
{
    if let Some(v) = overrides.iframe_interval {
        match validate_ranged_param(ctx, "iframe_interval", v as i64, 0, 65535) {
            Ok(x) => {
                filter.iframe_interval = x as u16;
                Ok(())
            },
            Err(err) => Err(err),
        }
    } else {
        Ok(())
    }
}

fn apply_step_18(filter: &mut Ac4ImsFilter, overrides: &FilterOverrides, ctx: &ParamCtx) -> (r: Result<(), String>)
    ensures
        match r {
            Ok(_) => ac4ims_step_18(Ok(old(filter)@), overrides@, ctx.env()) == Ok::<Ac4ImsModel, Seq<char>>(final(filter)@),
            Err(e) => ac4ims_step_18(Ok(old(filter)@), overrides@, ctx.env()) == Err::<Ac4ImsModel, Seq<char>>(e@),
        },
{
    if let Some(v) = &overrides.language {
        match validate_string_param(ctx, "language", v.as_str()) {
            Ok(s) => match validate_language_tag(s.as_str()) {
                Ok(x) => {
                    filter.language = x;
                    Ok(())
                },
                Err(err) => Err(err),
            },
            Err(err) => Err(err),
        }
    } else {
        Ok(())
    }
}

fn apply_step_19(filter: &mut Ac4ImsFilter, overrides: &FilterOverrides, ctx: &ParamCtx) -> (r: Result<(), String>)
    ensures
        match r {
            Ok(_) => ac4ims_step_19(Ok(old(filter)@), overrides@, ctx.env()) == Ok::<Ac4ImsModel, Seq<char>>(final(filter)@),
            Err(e) => ac4ims_step_19(Ok(old(filter)@), overrides@, ctx.env()) == Err::<Ac4ImsModel, Seq<char>>(e@),
        },
{
    if let Some(v) = &overrides.encoding_profile {
        match validate_string_param(ctx, "encoding_profile", v.as_str()) {
            Ok(x) => {
                filter.encoding_profile = x;
                Ok(())
            },
            Err(err) => Err(err),
        }
    } else {
        Ok(())
    }
}

fn apply_step_20(filter: &mut Ac4ImsFilter, overrides: &FilterOverrides, ctx: &ParamCtx) -> (r: Result<(), String>)
    ensures
        match r {
            Ok(_) => ac4ims_step_20(Ok(old(filter)@), overrides@, ctx.env()) == Ok::<Ac4ImsModel, Seq<char>>(final(filter)@),
            Err(e) => ac4ims_step_20(Ok(old(filter)@), overrides@, ctx.env()) == Err::<Ac4ImsModel, Seq<char>>(e@),
        },
{
    if let Some(v) = &overrides.ddp_drc_profile {
        match validate_string_param(ctx, "ddp_drc_profile", v.as_str()) {
            Ok(x) => {
                filter.ddp_drc_profile = x;
                Ok(())
            },
            Err(err) => Err(err),
        }
    } else {
        Ok(())
    }
}

fn apply_step_21(filter: &mut Ac4ImsFilter, overrides: &FilterOverrides, ctx: &ParamCtx) -> (r: Result<(), String>)
    ensures
        match r {
            Ok(_) => ac4ims_step_21(Ok(old(filter)@), overrides@, ctx.env()) == Ok::<Ac4ImsModel, Seq<char>>(final(filter)@),
            Err(e) => ac4ims_step_21(Ok(old(filter)@), overrides@, ctx.env()) == Err::<Ac4ImsModel, Seq<char>>(e@),
        },
{
    if let Some(v) = &overrides.flat_panel_drc_profile {
        match validate_string_param(ctx, "flat_panel_drc_profile", v.as_str()) {
            Ok(x) => {
                filter.flat_panel_drc_profile = x;
                Ok(())
            },
            Err(err) => Err(err),
        }
    } else {
        Ok(())
    }
}

fn apply_step_22(filter: &mut Ac4ImsFilter, overrides: &FilterOverrides, ctx: &ParamCtx) -> (r: Result<(), String>)
    ensures
        match r {
            Ok(_) => ac4ims_step_22(Ok(old(filter)@), overrides@, ctx.env()) == Ok::<Ac4ImsModel, Seq<char>>(final(filter)@),
            Err(e) => ac4ims_step_22(Ok(old(filter)@), overrides@, ctx.env()) == Err::<Ac4ImsModel, Seq<char>>(e@),
        },
{
    if let Some(v) = &overrides.home_theatre_drc_profile {
        match validate_string_param(ctx, "home_theatre_drc_profile", v.as_str()) {
            Ok(x) => {
                filter.home_theatre_drc_profile = x;
                Ok(())
            },
            Err(err) => Err(err),
        }
    } else {
        Ok(())
    }
}

fn apply_step_23(filter: &mut Ac4ImsFilter, overrides: &FilterOverrides, ctx: &ParamCtx) -> (r: Result<(), String>)
    ensures
        match r {
            Ok(_) => ac4ims_step_23(Ok(old(filter)@), overrides@, ctx.env()) == Ok::<Ac4ImsModel, Seq<char>>(final(filter)@),
            Err(e) => ac4ims_step_23(Ok(old(filter)@), overrides@, ctx.env()) == Err::<Ac4ImsModel, Seq<char>>(e@),
        },
{
    if let Some(v) = &overrides.portable_hp_drc_profile {
        match validate_string_param(ctx, "portable_hp_drc_profile", v.as_str()) {
            Ok(x) => {
                filter.portable_hp_drc_profile = x;
                Ok(())
            },
            Err(err) => Err(err),
        }
    } else {
        Ok(())
    }
}

fn apply_step_24(filter: &mut Ac4ImsFilter, overrides: &FilterOverrides, ctx: &ParamCtx) -> (r: Result<(), String>)
    ensures
        match r {
            Ok(_) => ac4ims_step_24(Ok(old(filter)@), overrides@, ctx.env()) == Ok::<Ac4ImsModel, Seq<char>>(final(filter)@),
            Err(e) => ac4ims_step_24(Ok(old(filter)@), overrides@, ctx.env()) == Err::<Ac4ImsModel, Seq<char>>(e@),
        },
{
    if let Some(v) = &overrides.portable_spkr_drc_profile {
        match validate_string_param(ctx, "portable_spkr_drc_profile", v.as_str()) {
            Ok(x) => {
                filter.portable_spkr_drc_profile = x;
                Ok(())
            },
            Err(err) => Err(err),
        }
    } else {
        Ok(())
    }
}

/// The steps after step `k` keep an error.
pub open spec fn ac4ims_rest(r: Result<Ac4ImsModel, Seq<char>>, k: int, o: OverridesModel, e: ParamEnv) -> Result<Ac4ImsModel, Seq<char>>
    decreases 24 - k,
{
    if k >= 24 {
        r
    } else {
        ac4ims_rest(ac4ims_step_at(r, k + 1, o, e), k + 1, o, e)
    }
}

/// Step `k` of the overrides.
pub open spec fn ac4ims_step_at(r: Result<Ac4ImsModel, Seq<char>>, k: int, o: OverridesModel, e: ParamEnv) -> Result<Ac4ImsModel, Seq<char>> {
    if k == 1 {
        ac4ims_step_1(r, o, e)
    } else if k == 2 {
        ac4ims_step_2(r, o, e)
    } else if k == 3 {
        ac4ims_step_3(r, o, e)
    } else if k == 4 {
        ac4ims_step_4(r, o, e)
    } else if k == 5 {
        ac4ims_step_5(r, o, e)
    } else if k == 6 {
        ac4ims_step_6(r, o, e)
    } else if k == 7 {
        ac4ims_step_7(r, o, e)
    } else if k == 8 {
        ac4ims_step_8(r, o, e)
    } else if k == 9 {
        ac4ims_step_9(r, o, e)
    } else if k == 10 {
        ac4ims_step_10(r, o, e)
    } else if k == 11 {
        ac4ims_step_11(r, o, e)
    } else if k == 12 {
        ac4ims_step_12(r, o, e)
    } else if k == 13 {
        ac4ims_step_13(r, o, e)
    } else if k == 14 {
        ac4ims_step_14(r, o, e)
    } else if k == 15 {
        ac4ims_step_15(r, o, e)
    } else if k == 16 {
        ac4ims_step_16(r, o, e)
    } else if k == 17 {
        ac4ims_step_17(r, o, e)
    } else if k == 18 {
        ac4ims_step_18(r, o, e)
    } else if k == 19 {
        ac4ims_step_19(r, o, e)
    } else if k == 20 {
        ac4ims_step_20(r, o, e)
    } else if k == 21 {
        ac4ims_step_21(r, o, e)
    } else if k == 22 {
        ac4ims_step_22(r, o, e)
    } else if k == 23 {
        ac4ims_step_23(r, o, e)
    } else if k == 24 {
        ac4ims_step_24(r, o, e)
    } else {
        r
    }
}

proof fn lemma_ac4ims_rest_err(x: Seq<char>, k: int, o: OverridesModel, e: ParamEnv)
    ensures
        ac4ims_rest(Err(x), k, o, e) == Err::<Ac4ImsModel, Seq<char>>(x),
    decreases 24 - k,
{
    if k < 24 {
        lemma_ac4ims_rest_err(x, k + 1, o, e);
    }
}

proof fn lemma_ac4ims_err_propagates(g: Result<Ac4ImsModel, Seq<char>>, k: int, o: OverridesModel, e: ParamEnv)
    requires
        1 <= k <= 24,
        g is Err,
    ensures
        ac4ims_rest(g, k, o, e) == g,
{
    lemma_ac4ims_rest_err(g->Err_0, k, o, e);
}

/// Applies the job's overrides to the filter, validating each against the
/// schema of the template, in the order of the template's parameters.
pub fn apply_overrides_with(filter: &mut Ac4ImsFilter, overrides: &FilterOverrides, ctx: &ParamCtx) -> (r: Result<(), String>)
    ensures
        match r {
            Ok(_) => ac4ims_apply(old(filter)@, overrides@, ctx.env()) == Ok::<Ac4ImsModel, Seq<char>>(final(filter)@),
            Err(e) => ac4ims_apply(old(filter)@, overrides@, ctx.env()) == Err::<Ac4ImsModel, Seq<char>>(e@),
        },
        ac4ims_unsupported(overrides@) is Some ==> final(filter)@ == old(filter)@,
{
    let ghost o = overrides@;
    let ghost e = ctx.env();
    let ghost f0 = filter@;
    let ghost mut g: Result<Ac4ImsModel, Seq<char>> = Ok(filter@);
    proof {
        g = ac4ims_step_1(g, o, e);
    }
    match apply_step_1(filter, overrides, ctx) {
        Ok(()) => {},
        Err(err) => {
            proof {
                lemma_ac4ims_err_propagates(g, 1, o, e);
            }
            return Err(err);
        },
    }
    assert(g == Ok::<Ac4ImsModel, Seq<char>>(filter@));
    assert(ac4ims_apply(f0, o, e) == ac4ims_rest(g, 1, o, e));
    proof {
        g = ac4ims_step_2(g, o, e);
    }
    match apply_step_2(filter, overrides, ctx) {
        Ok(()) => {},
        Err(err) => {
            proof {
                lemma_ac4ims_err_propagates(g, 2, o, e);
            }
            return Err(err);
        },
    }
    assert(g == Ok::<Ac4ImsModel, Seq<char>>(filter@));
    assert(ac4ims_apply(f0, o, e) == ac4ims_rest(g, 2, o, e));
    proof {
        g = ac4ims_step_3(g, o, e);
    }
    match apply_step_3(filter, overrides, ctx) {
        Ok(()) => {},
        Err(err) => {
            proof {
                lemma_ac4ims_err_propagates(g, 3, o, e);
            }
            return Err(err);
        },
    }
    assert(g == Ok::<Ac4ImsModel, Seq<char>>(filter@));
    assert(ac4ims_apply(f0, o, e) == ac4ims_rest(g, 3, o, e));
    proof {
        g = ac4ims_step_4(g, o, e);
    }
    match apply_step_4(filter, overrides, ctx) {
        Ok(()) => {},
        Err(err) => {
            proof {
                lemma_ac4ims_err_propagates(g, 4, o, e);
            }
            return Err(err);
        },
    }
    assert(g == Ok::<Ac4ImsModel, Seq<char>>(filter@));
    assert(ac4ims_apply(f0, o, e) == ac4ims_rest(g, 4, o, e));
    proof {
        g = ac4ims_step_5(g, o, e);
    }
    match apply_step_5(filter, overrides, ctx) {
        Ok(()) => {},
        Err(err) => {
            proof {
                lemma_ac4ims_err_propagates(g, 5, o, e);
            }
            return Err(err);
        },
    }
    assert(g == Ok::<Ac4ImsModel, Seq<char>>(filter@));
    assert(ac4ims_apply(f0, o, e) == ac4ims_rest(g, 5, o, e));
    proof {
        g = ac4ims_step_6(g, o, e);
    }
    match apply_step_6(filter, overrides, ctx) {
        Ok(()) => {},
        Err(err) => {
            proof {
                lemma_ac4ims_err_propagates(g, 6, o, e);
            }
            return Err(err);
        },
    }
    assert(g == Ok::<Ac4ImsModel, Seq<char>>(filter@));
    assert(ac4ims_apply(f0, o, e) == ac4ims_rest(g, 6, o, e));
    proof {
        g = ac4ims_step_7(g, o, e);
    }
    match apply_step_7(filter, overrides, ctx) {
        Ok(()) => {},
        Err(err) => {
            proof {
                lemma_ac4ims_err_propagates(g, 7, o, e);
            }
            return Err(err);
        },
    }
    assert(g == Ok::<Ac4ImsModel, Seq<char>>(filter@));
    assert(ac4ims_apply(f0, o, e) == ac4ims_rest(g, 7, o, e));
    proof {
        g = ac4ims_step_8(g, o, e);
    }
    match apply_step_8(filter, overrides, ctx) {
        Ok(()) => {},
        Err(err) => {
            proof {
                lemma_ac4ims_err_propagates(g, 8, o, e);
            }
            return Err(err);
        },
    }
    assert(g == Ok::<Ac4ImsModel, Seq<char>>(filter@));
    assert(ac4ims_apply(f0, o, e) == ac4ims_rest(g, 8, o, e));
    proof {
        g = ac4ims_step_9(g, o, e);
    }
    match apply_step_9(filter, overrides, ctx) {
        Ok(()) => {},
        Err(err) => {
            proof {
                lemma_ac4ims_err_propagates(g, 9, o, e);
            }
            return Err(err);
        },
    }
    assert(g == Ok::<Ac4ImsModel, Seq<char>>(filter@));
    assert(ac4ims_apply(f0, o, e) == ac4ims_rest(g, 9, o, e));
    proof {
        g = ac4ims_step_10(g, o, e);
    }
    match apply_step_10(filter, overrides, ctx) {
        Ok(()) => {},
        Err(err) => {
            proof {
                lemma_ac4ims_err_propagates(g, 10, o, e);
            }
            return Err(err);
        },
    }
    assert(g == Ok::<Ac4ImsModel, Seq<char>>(filter@));
    assert(ac4ims_apply(f0, o, e) == ac4ims_rest(g, 10, o, e));
    proof {
        g = ac4ims_step_11(g, o, e);
    }
    match apply_step_11(filter, overrides, ctx) {
        Ok(()) => {},
        Err(err) => {
            proof {
                lemma_ac4ims_err_propagates(g, 11, o, e);
            }
            return Err(err);
        },
    }
    assert(g == Ok::<Ac4ImsModel, Seq<char>>(filter@));
    assert(ac4ims_apply(f0, o, e) == ac4ims_rest(g, 11, o, e));
    proof {
        g = ac4ims_step_12(g, o, e);
    }
    match apply_step_12(filter, overrides, ctx) {
        Ok(()) => {},
        Err(err) => {
            proof {
                lemma_ac4ims_err_propagates(g, 12, o, e);
            }
            return Err(err);
        },
    }
    assert(g == Ok::<Ac4ImsModel, Seq<char>>(filter@));
    assert(ac4ims_apply(f0, o, e) == ac4ims_rest(g, 12, o, e));
    proof {
        g = ac4ims_step_13(g, o, e);
    }
    match apply_step_13(filter, overrides, ctx) {
        Ok(()) => {},
        Err(err) => {
            proof {
                lemma_ac4ims_err_propagates(g, 13, o, e);
            }
            return Err(err);
        },
    }
    assert(g == Ok::<Ac4ImsModel, Seq<char>>(filter@));
    assert(ac4ims_apply(f0, o, e) == ac4ims_rest(g, 13, o, e));
    proof {
        g = ac4ims_step_14(g, o, e);
    }
    match apply_step_14(filter, overrides, ctx) {
        Ok(()) => {},
        Err(err) => {
            proof {
                lemma_ac4ims_err_propagates(g, 14, o, e);
            }
            return Err(err);
        },
    }
    assert(g == Ok::<Ac4ImsModel, Seq<char>>(filter@));
    assert(ac4ims_apply(f0, o, e) == ac4ims_rest(g, 14, o, e));
    proof {
        g = ac4ims_step_15(g, o, e);
    }
    match apply_step_15(filter, overrides, ctx) {
        Ok(()) => {},
        Err(err) => {
            proof {
                lemma_ac4ims_err_propagates(g, 15, o, e);
            }
            return Err(err);
        },
    }
    assert(g == Ok::<Ac4ImsModel, Seq<char>>(filter@));
    assert(ac4ims_apply(f0, o, e) == ac4ims_rest(g, 15, o, e));
    proof {
        g = ac4ims_step_16(g, o, e);
    }
    match apply_step_16(filter, overrides, ctx) {
        Ok(()) => {},
        Err(err) => {
            proof {
                lemma_ac4ims_err_propagates(g, 16, o, e);
            }
            return Err(err);
        },
    }
    assert(g == Ok::<Ac4ImsModel, Seq<char>>(filter@));
    assert(ac4ims_apply(f0, o, e) == ac4ims_rest(g, 16, o, e));
    proof {
        g = ac4ims_step_17(g, o, e);
    }
    match apply_step_17(filter, overrides, ctx) {
        Ok(()) => {},
        Err(err) => {
            proof {
                lemma_ac4ims_err_propagates(g, 17, o, e);
            }
            return Err(err);
        },
    }
    assert(g == Ok::<Ac4ImsModel, Seq<char>>(filter@));
    assert(ac4ims_apply(f0, o, e) == ac4ims_rest(g, 17, o, e));
    proof {
        g = ac4ims_step_18(g, o, e);
    }
    match apply_step_18(filter, overrides, ctx) {
        Ok(()) => {},
        Err(err) => {
            proof {
                lemma_ac4ims_err_propagates(g, 18, o, e);
            }
            return Err(err);
        },
    }
    assert(g == Ok::<Ac4ImsModel, Seq<char>>(filter@));
    assert(ac4ims_apply(f0, o, e) == ac4ims_rest(g, 18, o, e));
    proof {
        g = ac4ims_step_19(g, o, e);
    }
    match apply_step_19(filter, overrides, ctx) {
        Ok(()) => {},
        Err(err) => {
            proof {
                lemma_ac4ims_err_propagates(g, 19, o, e);
            }
            return Err(err);
        },
    }
    assert(g == Ok::<Ac4ImsModel, Seq<char>>(filter@));
    assert(ac4ims_apply(f0, o, e) == ac4ims_rest(g, 19, o, e));
    proof {
        g = ac4ims_step_20(g, o, e);
    }
    match apply_step_20(filter, overrides, ctx) {
        Ok(()) => {},
        Err(err) => {
            proof {
                lemma_ac4ims_err_propagates(g, 20, o, e);
            }
            return Err(err);
        },
    }
    assert(g == Ok::<Ac4ImsModel, Seq<char>>(filter@));
    assert(ac4ims_apply(f0, o, e) == ac4ims_rest(g, 20, o, e));
    proof {
        g = ac4ims_step_21(g, o, e);
    }
    match apply_step_21(filter, overrides, ctx) {
        Ok(()) => {},
        Err(err) => {
            proof {
                lemma_ac4ims_err_propagates(g, 21, o, e);
            }
            return Err(err);
        },
    }
    assert(g == Ok::<Ac4ImsModel, Seq<char>>(filter@));
    assert(ac4ims_apply(f0, o, e) == ac4ims_rest(g, 21, o, e));
    proof {
        g = ac4ims_step_22(g, o, e);
    }
    match apply_step_22(filter, overrides, ctx) {
        Ok(()) => {},
        Err(err) => {
            proof {
                lemma_ac4ims_err_propagates(g, 22, o, e);
            }
            return Err(err);
        },
    }
    assert(g == Ok::<Ac4ImsModel, Seq<char>>(filter@));
    assert(ac4ims_apply(f0, o, e) == ac4ims_rest(g, 22, o, e));
    proof {
        g = ac4ims_step_23(g, o, e);
    }
    match apply_step_23(filter, overrides, ctx) {
        Ok(()) => {},
        Err(err) => {
            proof {
                lemma_ac4ims_err_propagates(g, 23, o, e);
            }
            return Err(err);
        },
    }
    assert(g == Ok::<Ac4ImsModel, Seq<char>>(filter@));
    assert(ac4ims_apply(f0, o, e) == ac4ims_rest(g, 23, o, e));
    proof {
        g = ac4ims_step_24(g, o, e);
    }
    match apply_step_24(filter, overrides, ctx) {
        Ok(()) => {},
        Err(err) => {
            proof {
                lemma_ac4ims_err_propagates(g, 24, o, e);
            }
            return Err(err);
        },
    }
    assert(g == Ok::<Ac4ImsModel, Seq<char>>(filter@));
    assert(ac4ims_apply(f0, o, e) == ac4ims_rest(g, 24, o, e));
    Ok(())
}

/// The parameter values that constraints read, by key; an unset optional
/// parameter has no entry.
pub open spec fn ac4ims_values(m: Ac4ImsModel) -> Seq<(Seq<char>, ValueModel)> {
    seq![("input_timecode_frame_rate"@, ValueModel::Str(m.input_timecode_frame_rate)), ("offset"@, ValueModel::Str(m.offset)), ("ffoa"@, ValueModel::Str(m.ffoa)), ("metering_mode"@, ValueModel::Str(m.metering_mode)), ("dialogue_intelligence"@, ValueModel::Bool(m.dialogue_intelligence)), ("speech_threshold"@, ValueModel::Int(m.speech_threshold as int)), ("data_rate"@, ValueModel::Int(m.data_rate as int)), ("timecode_frame_rate"@, ValueModel::Str(m.timecode_frame_rate)), ("start"@, ValueModel::Str(m.start)), ("end"@, ValueModel::Str(m.end)), ("time_base"@, ValueModel::Str(m.time_base)), ("prepend_silence_duration"@, ValueModel::Str(m.prepend_silence_duration)), ("append_silence_duration"@, ValueModel::Str(m.append_silence_duration)), ("ac4_frame_rate"@, ValueModel::Str(m.ac4_frame_rate)), ("ims_legacy_presentation"@, ValueModel::Bool(m.ims_legacy_presentation)), ("iframe_interval"@, ValueModel::Int(m.iframe_interval as int)), ("language"@, ValueModel::Str(m.language)), ("encoding_profile"@, ValueModel::Str(m.encoding_profile)), ("ddp_drc_profile"@, ValueModel::Str(m.ddp_drc_profile)), ("flat_panel_drc_profile"@, ValueModel::Str(m.flat_panel_drc_profile)), ("home_theatre_drc_profile"@, ValueModel::Str(m.home_theatre_drc_profile)), ("portable_hp_drc_profile"@, ValueModel::Str(m.portable_hp_drc_profile)), ("portable_spkr_drc_profile"@, ValueModel::Str(m.portable_spkr_drc_profile))]
}

/// The parameter values that constraints read, by key.
pub fn constraint_values(f: &Ac4ImsFilter) -> (r: Vec<(&'static str, Value)>)
    ensures
        values_model(r@) == ac4ims_values(f@),
{
    let mut r: Vec<(&'static str, Value)> = vec![("input_timecode_frame_rate", Value::Str(f.input_timecode_frame_rate.clone())), ("offset", Value::Str(f.offset.clone())), ("ffoa", Value::Str(f.ffoa.clone())), ("metering_mode", Value::Str(f.metering_mode.clone())), ("dialogue_intelligence", Value::Bool(f.dialogue_intelligence)), ("speech_threshold", Value::Int(f.speech_threshold as i64)), ("data_rate", Value::Int(f.data_rate as i64)), ("timecode_frame_rate", Value::Str(f.timecode_frame_rate.clone())), ("start", Value::Str(f.start.clone())), ("end", Value::Str(f.end.clone())), ("time_base", Value::Str(f.time_base.clone())), ("prepend_silence_duration", Value::Str(f.prepend_silence_duration.clone())), ("append_silence_duration", Value::Str(f.append_silence_duration.clone())), ("ac4_frame_rate", Value::Str(f.ac4_frame_rate.clone())), ("ims_legacy_presentation", Value::Bool(f.ims_legacy_presentation)), ("iframe_interval", Value::Int(f.iframe_interval as i64)), ("language", Value::Str(f.language.clone())), ("encoding_profile", Value::Str(f.encoding_profile.clone())), ("ddp_drc_profile", Value::Str(f.ddp_drc_profile.clone())), ("flat_panel_drc_profile", Value::Str(f.flat_panel_drc_profile.clone())), ("home_theatre_drc_profile", Value::Str(f.home_theatre_drc_profile.clone())), ("portable_hp_drc_profile", Value::Str(f.portable_hp_drc_profile.clone())), ("portable_spkr_drc_profile", Value::Str(f.portable_spkr_drc_profile.clone()))];
    assert(values_model(r@) =~= seq![("input_timecode_frame_rate"@, ValueModel::Str(f@.input_timecode_frame_rate)), ("offset"@, ValueModel::Str(f@.offset)), ("ffoa"@, ValueModel::Str(f@.ffoa)), ("metering_mode"@, ValueModel::Str(f@.metering_mode)), ("dialogue_intelligence"@, ValueModel::Bool(f@.dialogue_intelligence)), ("speech_threshold"@, ValueModel::Int(f@.speech_threshold as int)), ("data_rate"@, ValueModel::Int(f@.data_rate as int)), ("timecode_frame_rate"@, ValueModel::Str(f@.timecode_frame_rate)), ("start"@, ValueModel::Str(f@.start)), ("end"@, ValueModel::Str(f@.end)), ("time_base"@, ValueModel::Str(f@.time_base)), ("prepend_silence_duration"@, ValueModel::Str(f@.prepend_silence_duration)), ("append_silence_duration"@, ValueModel::Str(f@.append_silence_duration)), ("ac4_frame_rate"@, ValueModel::Str(f@.ac4_frame_rate)), ("ims_legacy_presentation"@, ValueModel::Bool(f@.ims_legacy_presentation)), ("iframe_interval"@, ValueModel::Int(f@.iframe_interval as int)), ("language"@, ValueModel::Str(f@.language)), ("encoding_profile"@, ValueModel::Str(f@.encoding_profile)), ("ddp_drc_profile"@, ValueModel::Str(f@.ddp_drc_profile)), ("flat_panel_drc_profile"@, ValueModel::Str(f@.flat_panel_drc_profile)), ("home_theatre_drc_profile"@, ValueModel::Str(f@.home_theatre_drc_profile)), ("portable_hp_drc_profile"@, ValueModel::Str(f@.portable_hp_drc_profile)), ("portable_spkr_drc_profile"@, ValueModel::Str(f@.portable_spkr_drc_profile))]);
    assert(values_model(r@) =~= ac4ims_values(f@));
    r
}

/// The validation environment of the settings in a mode.
pub open spec fn ac4ims_env(mode: EncodeMode) -> ParamEnv {
    ParamEnv { schemas: ac4ims_schemas(), mode: spec_encode_mode_name(mode), sets: ac4ims_rates(), hard_max: BITRATE_HARD_MAX }
}

/// Applies the job's overrides to the settings, in the encode mode.
pub fn apply_overrides(filter: &mut Ac4ImsFilter, overrides: &FilterOverrides, encode_mode: EncodeMode) -> (r: Result<(), String>)
    ensures
        match r {
            Ok(_) => ac4ims_apply(old(filter)@, overrides@, ac4ims_env(encode_mode)) == Ok::<Ac4ImsModel, Seq<char>>(final(filter)@),
            Err(e) => ac4ims_apply(old(filter)@, overrides@, ac4ims_env(encode_mode)) == Err::<Ac4ImsModel, Seq<char>>(e@),
        },
        ac4ims_unsupported(overrides@) is Some ==> final(filter)@ == old(filter)@,
{
    let ctx = ParamCtx {
        schemas: param_schemas(),
        encode_mode: encode_mode.as_str(),
        bitrate_sets: bitrate_sets(),
        bitrate_hard_max: BITRATE_HARD_MAX,
    };
    apply_overrides_with(filter, overrides, &ctx)
}

/// Default settings of a profile (AC-4 is the only mode).
pub open spec fn ac4ims_defaults(profile: Profile) -> Ac4ImsModel {
    Ac4ImsModel {
        input_timecode_frame_rate: "not_indicated"@,
        offset: "auto"@,
        ffoa: "auto"@,
        metering_mode: "1770-4"@,
        dialogue_intelligence: true,
        speech_threshold: 15,
        data_rate: 256,
        timecode_frame_rate: "not_indicated"@,
        start: "first_frame_of_action"@,
        end: "end_of_file"@,
        time_base: "file_position"@,
        prepend_silence_duration: "0"@,
        append_silence_duration: "0"@,
        ac4_frame_rate: "native"@,
        ims_legacy_presentation: false,
        iframe_interval: 0,
        language: Seq::empty(),
        encoding_profile: if profile == Profile::Music { "ims_music"@ } else { "ims"@ },
        ddp_drc_profile: "film_light"@,
        flat_panel_drc_profile: "film_light"@,
        home_theatre_drc_profile: "film_light"@,
        portable_hp_drc_profile: "film_light"@,
        portable_spkr_drc_profile: "film_light"@,
    }
}

/// The default settings of a profile, in AC-4 mode.
pub fn defaults(profile: Profile, encode_mode: EncodeMode) -> (r: Ac4ImsFilter)
    requires
        encode_mode == EncodeMode::Ac4,
    ensures
        r@ == ac4ims_defaults(profile),
{
    Ac4ImsFilter {
        input_timecode_frame_rate: owned("not_indicated"),
        offset: owned("auto"),
        ffoa: owned("auto"),
        metering_mode: owned("1770-4"),
        dialogue_intelligence: true,
        speech_threshold: 15,
        data_rate: 256,
        timecode_frame_rate: owned("not_indicated"),
        start: owned("first_frame_of_action"),
        end: owned("end_of_file"),
        time_base: owned("file_position"),
        prepend_silence_duration: owned("0"),
        append_silence_duration: owned("0"),
        ac4_frame_rate: owned("native"),
        ims_legacy_presentation: false,
        iframe_interval: 0,
        language: String::new(),
        encoding_profile: match profile {
            Profile::Standard => owned("ims"),
            Profile::Music => owned("ims_music"),
        },
        ddp_drc_profile: owned("film_light"),
        flat_panel_drc_profile: owned("film_light"),
        home_theatre_drc_profile: owned("film_light"),
        portable_hp_drc_profile: owned("film_light"),
        portable_spkr_drc_profile: owned("film_light"),
    }
}

/// The value of one setting, if the key names one.
pub fn constraint_value(filter: &Ac4ImsFilter, key: &str) -> (r: Option<Value>)
    ensures
        match r {
            Some(v) => crate::schema::read_value(ac4ims_values(filter@), key@) == Some(v@),
            None => crate::schema::read_value(ac4ims_values(filter@), key@) is None,
        },
{
    let values = constraint_values(filter);
    match crate::schema::read_value_exec(&values, key) {
        Some(v) => Some(v.clone_value()),
        None => None,
    }
}

/// The schema of a setting.
pub fn find_schema(key: &str) -> (r: Option<ParamSchema>)
    ensures
        match r {
            Some(s) => crate::template::params::find_schema_spec(ac4ims_schemas(), key@) == Some(s@),
            None => crate::template::params::find_schema_spec(ac4ims_schemas(), key@) is None,
        },
{
    let schemas = param_schemas();
    match crate::template::params::find_schema(&schemas, key) {
        Some(s) => Some(s.clone_schema()),
        None => None,
    }
}

} // verus!
