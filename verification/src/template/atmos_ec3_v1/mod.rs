//! `atmos_ec3_v1`: Dolby Atmos mezzanine to Dolby Digital Plus (EC-3).
use vstd::prelude::*;

pub mod json;
pub mod xml;

use crate::schema::{
    constraints_model, optional_value, rates_model, schemas_model, strs_model, values_model,
    AvailModel, Constraint, ConstraintModel, FixedValue, ModeAvailability, OverridePolicy,
    ParamRule, ParamSchema, RuleModel, SchemaModel, SourceTag, Value, ValueModel,
};
use crate::decode::OverridesModel;
use crate::spec::{EncodeMode, FilterOverrides, Profile};
use crate::template::params::{
    bool_param, ranged_param, str_param, validate_bool_param, validate_ranged_param,
    validate_string_param, ParamCtx, ParamEnv,
};
use crate::template::timecode::{
    atmos_silence_outcome, boundary_outcome, validate_atmos_silence_duration,
    validate_boundary_timecode,
};
use crate::text::{owned, seq_lower};

verus! {

/// Template id.
pub const ID: &'static str = "atmos_ec3_v1";
/// Template id.
pub open spec fn atmos_id() -> Seq<char> {
    "atmos_ec3_v1"@
}

/// Profiles the template accepts.
pub open spec fn atmos_profiles() -> Seq<Seq<char>> {
    seq!["standard"@, "music"@]
}

/// Profiles the template accepts.
pub fn valid_profiles() -> (r: Vec<&'static str>)
    ensures
        strs_model(r@) == atmos_profiles(),
{
    let r = vec!["standard", "music"];
    assert(strs_model(r@) =~= atmos_profiles());
    r
}

/// Encode modes the template accepts.
pub open spec fn atmos_modes() -> Seq<Seq<char>> {
    seq!["streaming"@, "bluray"@]
}

/// Encode modes the template accepts.
pub fn valid_encode_modes() -> (r: Vec<&'static str>)
    ensures
        strs_model(r@) == atmos_modes(),
{
    let r = vec!["streaming", "bluray"];
    assert(strs_model(r@) =~= atmos_modes());
    r
}

/// Upper bound of any data rate.
pub const BITRATE_HARD_MAX: u16 = 1664;

/// Allowed data rates by encode mode.
pub open spec fn atmos_rates() -> Seq<(Seq<char>, Seq<u16>)> {
    seq![("streaming"@, seq![384, 448, 576, 640, 768, 1024]), ("bluray"@, seq![1152, 1280, 1408, 1512, 1536, 1664])]
}

/// Allowed data rates by encode mode.
pub fn bitrate_sets() -> (r: Vec<(&'static str, Vec<u16>)>)
    ensures
        rates_model(r@) == atmos_rates(),
{
    let r: Vec<(&'static str, Vec<u16>)> = vec![("streaming", vec![384, 448, 576, 640, 768, 1024]), ("bluray", vec![1152, 1280, 1408, 1512, 1536, 1664])];
    assert(rates_model(r@) =~= atmos_rates());
    r
}

/// The parameters of the template.
pub open spec fn atmos_schemas() -> Seq<SchemaModel> {
    seq![
        SchemaModel {
            key: "metering_mode"@,
            rule: RuleModel::Enum(seq!["1770-1"@, "1770-2"@, "1770-3"@, "1770-4"@, "LeqA"@]),
            avail: AvailModel::All,
            sources: seq![SourceTag::DolbyOfficial, SourceTag::DeezyObserved],
        },
        SchemaModel {
            key: "dialogue_intelligence"@,
            rule: RuleModel::Bool,
            avail: AvailModel::All,
            sources: seq![SourceTag::DolbyOfficial, SourceTag::DeezyObserved],
        },
        SchemaModel {
            key: "speech_threshold"@,
            rule: RuleModel::IntRange { min: 0, max: 100 },
            avail: AvailModel::All,
            sources: seq![SourceTag::DolbyOfficial, SourceTag::DeezyObserved],
        },
        SchemaModel {
            key: "data_rate"@,
            rule: RuleModel::DataRate,
            avail: AvailModel::All,
            sources: seq![SourceTag::DolbyOfficial, SourceTag::DeewObserved, SourceTag::DeezyObserved],
        },
        SchemaModel {
            key: "timecode_frame_rate"@,
            rule: RuleModel::Enum(seq!["not_indicated"@, "23.976"@, "24"@, "25"@, "29.97"@, "30"@, "48"@, "50"@, "59.94"@, "60"@]),
            avail: AvailModel::All,
            sources: seq![SourceTag::DolbyOfficial],
        },
        SchemaModel {
            key: "start"@,
            rule: RuleModel::FreeString,
            avail: AvailModel::All,
            sources: seq![SourceTag::DolbyOfficial],
        },
        SchemaModel {
            key: "end"@,
            rule: RuleModel::FreeString,
            avail: AvailModel::All,
            sources: seq![SourceTag::DolbyOfficial],
        },
        SchemaModel {
            key: "time_base"@,
            rule: RuleModel::Enum(seq!["file_position"@, "embedded_timecode"@]),
            avail: AvailModel::All,
            sources: seq![SourceTag::DolbyOfficial],
        },
        SchemaModel {
            key: "prepend_silence_duration"@,
            rule: RuleModel::FreeString,
            avail: AvailModel::All,
            sources: seq![SourceTag::DolbyOfficial],
        },
        SchemaModel {
            key: "append_silence_duration"@,
            rule: RuleModel::FreeString,
            avail: AvailModel::All,
            sources: seq![SourceTag::DolbyOfficial],
        },
        SchemaModel {
            key: "line_mode_drc_profile"@,
            rule: RuleModel::Enum(seq!["film_standard"@, "film_light"@, "music_standard"@, "music_light"@, "speech"@, "none"@]),
            avail: AvailModel::All,
            sources: seq![SourceTag::DolbyOfficial, SourceTag::DeewObserved, SourceTag::DeezyObserved],
        },
        SchemaModel {
            key: "rf_mode_drc_profile"@,
            rule: RuleModel::Enum(seq!["film_standard"@, "film_light"@, "music_standard"@, "music_light"@, "speech"@, "none"@]),
            avail: AvailModel::All,
            sources: seq![SourceTag::DolbyOfficial, SourceTag::DeewObserved, SourceTag::DeezyObserved],
        },
        SchemaModel {
            key: "loro_center_mix_level"@,
            rule: RuleModel::Enum(seq!["+3"@, "+1.5"@, "0"@, "-1.5"@, "-3"@, "-4.5"@, "-6"@, "-inf"@]),
            avail: AvailModel::All,
            sources: seq![SourceTag::DolbyOfficial],
        },
        SchemaModel {
            key: "loro_surround_mix_level"@,
            rule: RuleModel::Enum(seq!["-1.5"@, "-3"@, "-4.5"@, "-6"@, "-inf"@]),
            avail: AvailModel::All,
            sources: seq![SourceTag::DolbyOfficial],
        },
        SchemaModel {
            key: "ltrt_center_mix_level"@,
            rule: RuleModel::Enum(seq!["+3"@, "+1.5"@, "0"@, "-1.5"@, "-3"@, "-4.5"@, "-6"@, "-inf"@]),
            avail: AvailModel::All,
            sources: seq![SourceTag::DolbyOfficial],
        },
        SchemaModel {
            key: "ltrt_surround_mix_level"@,
            rule: RuleModel::Enum(seq!["-1.5"@, "-3"@, "-4.5"@, "-6"@, "-inf"@]),
            avail: AvailModel::All,
            sources: seq![SourceTag::DolbyOfficial],
        },
        SchemaModel {
            key: "preferred_downmix_mode"@,
            rule: RuleModel::Enum(seq!["not_indicated"@, "loro"@, "ltrt"@, "ltrt-pl2"@]),
            avail: AvailModel::All,
            sources: seq![SourceTag::DolbyOfficial],
        },
        SchemaModel {
            key: "surround_trim_5_1"@,
            rule: RuleModel::Enum(seq!["0"@, "-3"@, "-6"@, "-9"@, "auto"@]),
            avail: AvailModel::All,
            sources: seq![SourceTag::DolbyOfficial],
        },
        SchemaModel {
            key: "height_trim_5_1"@,
            rule: RuleModel::Enum(seq!["-3"@, "-6"@, "-9"@, "-12"@, "auto"@]),
            avail: AvailModel::All,
            sources: seq![SourceTag::DolbyOfficial],
        },
        SchemaModel {
            key: "custom_dialnorm"@,
            rule: RuleModel::IntRange { min: -31, max: 0 },
            avail: AvailModel::All,
            sources: seq![SourceTag::DolbyOfficial, SourceTag::DeewObserved, SourceTag::DeezyObserved],
        },
        SchemaModel {
            key: "encoding_backend"@,
            rule: RuleModel::Enum(seq!["atmosprocessor"@]),
            avail: AvailModel::All,
            sources: seq![SourceTag::DeewObserved, SourceTag::DeezyObserved],
        },
        SchemaModel {
            key: "encoder_mode"@,
            rule: RuleModel::Enum(seq!["bluray"@]),
            avail: AvailModel::All,
            sources: seq![SourceTag::DeewObserved, SourceTag::DeezyObserved],
        },
    ]
}

/// The parameters of the template.
pub fn param_schemas() -> (r: Vec<ParamSchema>)
    ensures
        schemas_model(r@) == atmos_schemas(),
{
    let r = vec![
        ParamSchema {
            key: "metering_mode",
            rule: ParamRule::Enum(vec!["1770-1", "1770-2", "1770-3", "1770-4", "LeqA"]),
            mode_availability: ModeAvailability::All,
            sources: vec![SourceTag::DolbyOfficial, SourceTag::DeezyObserved],
        },
        ParamSchema {
            key: "dialogue_intelligence",
            rule: ParamRule::Bool,
            mode_availability: ModeAvailability::All,
            sources: vec![SourceTag::DolbyOfficial, SourceTag::DeezyObserved],
        },
        ParamSchema {
            key: "speech_threshold",
            rule: ParamRule::IntRange { min: 0, max: 100 },
            mode_availability: ModeAvailability::All,
            sources: vec![SourceTag::DolbyOfficial, SourceTag::DeezyObserved],
        },
        ParamSchema {
            key: "data_rate",
            rule: ParamRule::DataRate,
            mode_availability: ModeAvailability::All,
            sources: vec![SourceTag::DolbyOfficial, SourceTag::DeewObserved, SourceTag::DeezyObserved],
        },
        ParamSchema {
            key: "timecode_frame_rate",
            rule: ParamRule::Enum(vec!["not_indicated", "23.976", "24", "25", "29.97", "30", "48", "50", "59.94", "60"]),
            mode_availability: ModeAvailability::All,
            sources: vec![SourceTag::DolbyOfficial],
        },
        ParamSchema {
            key: "start",
            rule: ParamRule::FreeString,
            mode_availability: ModeAvailability::All,
            sources: vec![SourceTag::DolbyOfficial],
        },
        ParamSchema {
            key: "end",
            rule: ParamRule::FreeString,
            mode_availability: ModeAvailability::All,
            sources: vec![SourceTag::DolbyOfficial],
        },
        ParamSchema {
            key: "time_base",
            rule: ParamRule::Enum(vec!["file_position", "embedded_timecode"]),
            mode_availability: ModeAvailability::All,
            sources: vec![SourceTag::DolbyOfficial],
        },
        ParamSchema {
            key: "prepend_silence_duration",
            rule: ParamRule::FreeString,
            mode_availability: ModeAvailability::All,
            sources: vec![SourceTag::DolbyOfficial],
        },
        ParamSchema {
            key: "append_silence_duration",
            rule: ParamRule::FreeString,
            mode_availability: ModeAvailability::All,
            sources: vec![SourceTag::DolbyOfficial],
        },
        ParamSchema {
            key: "line_mode_drc_profile",
            rule: ParamRule::Enum(vec!["film_standard", "film_light", "music_standard", "music_light", "speech", "none"]),
            mode_availability: ModeAvailability::All,
            sources: vec![SourceTag::DolbyOfficial, SourceTag::DeewObserved, SourceTag::DeezyObserved],
        },
        ParamSchema {
            key: "rf_mode_drc_profile",
            rule: ParamRule::Enum(vec!["film_standard", "film_light", "music_standard", "music_light", "speech", "none"]),
            mode_availability: ModeAvailability::All,
            sources: vec![SourceTag::DolbyOfficial, SourceTag::DeewObserved, SourceTag::DeezyObserved],
        },
        ParamSchema {
            key: "loro_center_mix_level",
            rule: ParamRule::Enum(vec!["+3", "+1.5", "0", "-1.5", "-3", "-4.5", "-6", "-inf"]),
            mode_availability: ModeAvailability::All,
            sources: vec![SourceTag::DolbyOfficial],
        },
        ParamSchema {
            key: "loro_surround_mix_level",
            rule: ParamRule::Enum(vec!["-1.5", "-3", "-4.5", "-6", "-inf"]),
            mode_availability: ModeAvailability::All,
            sources: vec![SourceTag::DolbyOfficial],
        },
        ParamSchema {
            key: "ltrt_center_mix_level",
            rule: ParamRule::Enum(vec!["+3", "+1.5", "0", "-1.5", "-3", "-4.5", "-6", "-inf"]),
            mode_availability: ModeAvailability::All,
            sources: vec![SourceTag::DolbyOfficial],
        },
        ParamSchema {
            key: "ltrt_surround_mix_level",
            rule: ParamRule::Enum(vec!["-1.5", "-3", "-4.5", "-6", "-inf"]),
            mode_availability: ModeAvailability::All,
            sources: vec![SourceTag::DolbyOfficial],
        },
        ParamSchema {
            key: "preferred_downmix_mode",
            rule: ParamRule::Enum(vec!["not_indicated", "loro", "ltrt", "ltrt-pl2"]),
            mode_availability: ModeAvailability::All,
            sources: vec![SourceTag::DolbyOfficial],
        },
        ParamSchema {
            key: "surround_trim_5_1",
            rule: ParamRule::Enum(vec!["0", "-3", "-6", "-9", "auto"]),
            mode_availability: ModeAvailability::All,
            sources: vec![SourceTag::DolbyOfficial],
        },
        ParamSchema {
            key: "height_trim_5_1",
            rule: ParamRule::Enum(vec!["-3", "-6", "-9", "-12", "auto"]),
            mode_availability: ModeAvailability::All,
            sources: vec![SourceTag::DolbyOfficial],
        },
        ParamSchema {
            key: "custom_dialnorm",
            rule: ParamRule::IntRange { min: -31, max: 0 },
            mode_availability: ModeAvailability::All,
            sources: vec![SourceTag::DolbyOfficial, SourceTag::DeewObserved, SourceTag::DeezyObserved],
        },
        ParamSchema {
            key: "encoding_backend",
            rule: ParamRule::Enum(vec!["atmosprocessor"]),
            mode_availability: ModeAvailability::All,
            sources: vec![SourceTag::DeewObserved, SourceTag::DeezyObserved],
        },
        ParamSchema {
            key: "encoder_mode",
            rule: ParamRule::Enum(vec!["bluray"]),
            mode_availability: ModeAvailability::All,
            sources: vec![SourceTag::DeewObserved, SourceTag::DeezyObserved],
        },
    ];
    assert(schemas_model(r@) =~~= atmos_schemas());
    r
}

/// The constraints of the template.
pub open spec fn atmos_constraints() -> Seq<ConstraintModel> {
    seq![
        ConstraintModel::FixedValues {
            when_profile: "music"@,
            fields: seq![("dialogue_intelligence"@, ValueModel::Bool(false)), ("speech_threshold"@, ValueModel::Int(100)), ("line_mode_drc_profile"@, ValueModel::Str("music_light"@)), ("rf_mode_drc_profile"@, ValueModel::Str("music_light"@))],
            allow_override: true,
        },
        ConstraintModel::Forbidden {
            param: "encoding_backend"@,
            when_mode: seq!["streaming"@],
            message: "encoding_backend/encoder_mode are mode extensions and cannot be set for streaming mode"@,
        },
        ConstraintModel::Forbidden {
            param: "encoder_mode"@,
            when_mode: seq!["streaming"@],
            message: "encoding_backend/encoder_mode are mode extensions and cannot be set for streaming mode"@,
        },
        ConstraintModel::Forbidden {
            param: "encoding_backend"@,
            when_mode: seq!["ddp71"@],
            message: "encoding_backend is unsupported for ddp71 mode"@,
        },
        ConstraintModel::Required { param: "encoder_mode"@, when_mode: "bluray"@, value: ValueModel::Str("bluray"@) },
        ConstraintModel::Required { param: "encoder_mode"@, when_mode: "ddp71"@, value: ValueModel::Str("ddp71"@) },
    ]
}

/// The constraints of the template.
pub fn constraints() -> (r: Vec<Constraint>)
    ensures
        constraints_model(r@) == atmos_constraints(),
{
    let r: Vec<Constraint> = vec![
        Constraint::FixedValues {
            when_profile: "music",
            fields: vec![("dialogue_intelligence", FixedValue::Bool(false)), ("speech_threshold", FixedValue::Int(100)), ("line_mode_drc_profile", FixedValue::Str("music_light")), ("rf_mode_drc_profile", FixedValue::Str("music_light"))],
            override_policy: OverridePolicy::AllowFixedOverride,
        },
        Constraint::Forbidden {
            param: "encoding_backend",
            when_mode: vec!["streaming"],
            message: "encoding_backend/encoder_mode are mode extensions and cannot be set for streaming mode",
        },
        Constraint::Forbidden {
            param: "encoder_mode",
            when_mode: vec!["streaming"],
            message: "encoding_backend/encoder_mode are mode extensions and cannot be set for streaming mode",
        },
        Constraint::Forbidden {
            param: "encoding_backend",
            when_mode: vec!["ddp71"],
            message: "encoding_backend is unsupported for ddp71 mode",
        },
        Constraint::Required { param: "encoder_mode", when_mode: "bluray", value: FixedValue::Str("bluray") },
        Constraint::Required { param: "encoder_mode", when_mode: "ddp71", value: FixedValue::Str("ddp71") },
    ];
    assert(constraints_model(r@) =~~= atmos_constraints());
    r
}

/// Resolved filter parameters of the template.
#[derive(Debug, Clone)]
pub struct AtmosEc3V1Filter {
    pub metering_mode: String,
    pub dialogue_intelligence: bool,
    pub speech_threshold: u8,
    pub data_rate: u16,
    pub timecode_frame_rate: String,
    pub start: String,
    pub end: String,
    pub time_base: String,
    pub prepend_silence_duration: String,
    pub append_silence_duration: String,
    pub line_mode_drc_profile: String,
    pub rf_mode_drc_profile: String,
    pub loro_center_mix_level: String,
    pub loro_surround_mix_level: String,
    pub ltrt_center_mix_level: String,
    pub ltrt_surround_mix_level: String,
    pub preferred_downmix_mode: String,
    pub surround_trim_5_1: String,
    pub height_trim_5_1: String,
    pub custom_dialnorm: i8,
    pub encoding_backend: Option<String>,
    pub encoder_mode: Option<String>,
}

/// Model of the resolved filter parameters.
pub struct AtmosEc3V1Model {
    pub metering_mode: Seq<char>,
    pub dialogue_intelligence: bool,
    pub speech_threshold: u8,
    pub data_rate: u16,
    pub timecode_frame_rate: Seq<char>,
    pub start: Seq<char>,
    pub end: Seq<char>,
    pub time_base: Seq<char>,
    pub prepend_silence_duration: Seq<char>,
    pub append_silence_duration: Seq<char>,
    pub line_mode_drc_profile: Seq<char>,
    pub rf_mode_drc_profile: Seq<char>,
    pub loro_center_mix_level: Seq<char>,
    pub loro_surround_mix_level: Seq<char>,
    pub ltrt_center_mix_level: Seq<char>,
    pub ltrt_surround_mix_level: Seq<char>,
    pub preferred_downmix_mode: Seq<char>,
    pub surround_trim_5_1: Seq<char>,
    pub height_trim_5_1: Seq<char>,
    pub custom_dialnorm: i8,
    pub encoding_backend: Option<Seq<char>>,
    pub encoder_mode: Option<Seq<char>>,
}

impl View for AtmosEc3V1Filter {
    type V = AtmosEc3V1Model;

    open spec fn view(&self) -> AtmosEc3V1Model {
        AtmosEc3V1Model {
            metering_mode: self.metering_mode@,
            dialogue_intelligence: self.dialogue_intelligence,
            speech_threshold: self.speech_threshold,
            data_rate: self.data_rate,
            timecode_frame_rate: self.timecode_frame_rate@,
            start: self.start@,
            end: self.end@,
            time_base: self.time_base@,
            prepend_silence_duration: self.prepend_silence_duration@,
            append_silence_duration: self.append_silence_duration@,
            line_mode_drc_profile: self.line_mode_drc_profile@,
            rf_mode_drc_profile: self.rf_mode_drc_profile@,
            loro_center_mix_level: self.loro_center_mix_level@,
            loro_surround_mix_level: self.loro_surround_mix_level@,
            ltrt_center_mix_level: self.ltrt_center_mix_level@,
            ltrt_surround_mix_level: self.ltrt_surround_mix_level@,
            preferred_downmix_mode: self.preferred_downmix_mode@,
            surround_trim_5_1: self.surround_trim_5_1@,
            height_trim_5_1: self.height_trim_5_1@,
            custom_dialnorm: self.custom_dialnorm,
            encoding_backend: match &self.encoding_backend {
                Some(s) => Some(s@),
                None => None,
            },
            encoder_mode: match &self.encoder_mode {
                Some(s) => Some(s@),
                None => None,
            },
        }
    }
}

pub open spec fn atmos_step_1(r: Result<AtmosEc3V1Model, Seq<char>>, o: OverridesModel, e: ParamEnv) -> Result<AtmosEc3V1Model, Seq<char>> {
    match r {
        Err(x) => Err(x),
        Ok(m) => match o.metering_mode {
            None => Ok(m),
            Some(v) => match str_param(e, "metering_mode"@, v) {
                Ok(x) => Ok(AtmosEc3V1Model { metering_mode: x, ..m }),
                Err(x) => Err(x),
            },
        },
    }
}

pub open spec fn atmos_step_2(r: Result<AtmosEc3V1Model, Seq<char>>, o: OverridesModel, e: ParamEnv) -> Result<AtmosEc3V1Model, Seq<char>> {
    match r {
        Err(x) => Err(x),
        Ok(m) => match o.dialogue_intelligence {
            None => Ok(m),
            Some(v) => match bool_param(e, "dialogue_intelligence"@, v) {
                Ok(x) => Ok(AtmosEc3V1Model { dialogue_intelligence: x, ..m }),
                Err(x) => Err(x),
            },
        },
    }
}

pub open spec fn atmos_step_3(r: Result<AtmosEc3V1Model, Seq<char>>, o: OverridesModel, e: ParamEnv) -> Result<AtmosEc3V1Model, Seq<char>> {
    match r {
        Err(x) => Err(x),
        Ok(m) => match o.speech_threshold {
            None => Ok(m),
            Some(v) => match ranged_param(e, "speech_threshold"@, v, 0, 255) {
                Ok(x) => Ok(AtmosEc3V1Model { speech_threshold: x as u8, ..m }),
                Err(x) => Err(x),
            },
        },
    }
}

pub open spec fn atmos_step_4(r: Result<AtmosEc3V1Model, Seq<char>>, o: OverridesModel, e: ParamEnv) -> Result<AtmosEc3V1Model, Seq<char>> {
    match r {
        Err(x) => Err(x),
        Ok(m) => match o.data_rate {
            None => Ok(m),
            Some(v) => match ranged_param(e, "data_rate"@, v, 0, 65535) {
                Ok(x) => Ok(AtmosEc3V1Model { data_rate: x as u16, ..m }),
                Err(x) => Err(x),
            },
        },
    }
}

pub open spec fn atmos_step_5(r: Result<AtmosEc3V1Model, Seq<char>>, o: OverridesModel, e: ParamEnv) -> Result<AtmosEc3V1Model, Seq<char>> {
    match r {
        Err(x) => Err(x),
        Ok(m) => match o.timecode_frame_rate {
            None => Ok(m),
            Some(v) => match str_param(e, "timecode_frame_rate"@, v) {
                Ok(x) => Ok(AtmosEc3V1Model { timecode_frame_rate: x, ..m }),
                Err(x) => Err(x),
            },
        },
    }
}

pub open spec fn atmos_step_6(r: Result<AtmosEc3V1Model, Seq<char>>, o: OverridesModel, e: ParamEnv) -> Result<AtmosEc3V1Model, Seq<char>> {
    match r {
        Err(x) => Err(x),
        Ok(m) => match o.start {
            None => Ok(m),
            Some(v) => match str_param(e, "start"@, v) {
                Err(x) => Err(x),
                Ok(s) => match boundary_outcome("start"@, s) {
                    Ok(x) => Ok(AtmosEc3V1Model { start: x, ..m }),
                    Err(x) => Err(x),
                },
            },
        },
    }
}

pub open spec fn atmos_step_7(r: Result<AtmosEc3V1Model, Seq<char>>, o: OverridesModel, e: ParamEnv) -> Result<AtmosEc3V1Model, Seq<char>> {
    match r {
        Err(x) => Err(x),
        Ok(m) => match o.end {
            None => Ok(m),
            Some(v) => match str_param(e, "end"@, v) {
                Err(x) => Err(x),
                Ok(s) => match boundary_outcome("end"@, s) {
                    Ok(x) => Ok(AtmosEc3V1Model { end: x, ..m }),
                    Err(x) => Err(x),
                },
            },
        },
    }
}

pub open spec fn atmos_step_8(r: Result<AtmosEc3V1Model, Seq<char>>, o: OverridesModel, e: ParamEnv) -> Result<AtmosEc3V1Model, Seq<char>> {
    match r {
        Err(x) => Err(x),
        Ok(m) => match o.time_base {
            None => Ok(m),
            Some(v) => match str_param(e, "time_base"@, v) {
                Ok(x) => Ok(AtmosEc3V1Model { time_base: x, ..m }),
                Err(x) => Err(x),
            },
        },
    }
}

pub open spec fn atmos_step_9(r: Result<AtmosEc3V1Model, Seq<char>>, o: OverridesModel, e: ParamEnv) -> Result<AtmosEc3V1Model, Seq<char>> {
    match r {
        Err(x) => Err(x),
        Ok(m) => match o.prepend_silence_duration {
            None => Ok(m),
            Some(v) => match str_param(e, "prepend_silence_duration"@, v) {
                Err(x) => Err(x),
                Ok(s) => match atmos_silence_outcome("prepend_silence_duration"@, s, m.timecode_frame_rate, m.time_base) {
                    Ok(x) => Ok(AtmosEc3V1Model { prepend_silence_duration: x, ..m }),
                    Err(x) => Err(x),
                },
            },
        },
    }
}

pub open spec fn atmos_step_10(r: Result<AtmosEc3V1Model, Seq<char>>, o: OverridesModel, e: ParamEnv) -> Result<AtmosEc3V1Model, Seq<char>> {
    match r {
        Err(x) => Err(x),
        Ok(m) => match o.append_silence_duration {
            None => Ok(m),
            Some(v) => match str_param(e, "append_silence_duration"@, v) {
                Err(x) => Err(x),
                Ok(s) => match atmos_silence_outcome("append_silence_duration"@, s, m.timecode_frame_rate, m.time_base) {
                    Ok(x) => Ok(AtmosEc3V1Model { append_silence_duration: x, ..m }),
                    Err(x) => Err(x),
                },
            },
        },
    }
}

pub open spec fn atmos_step_11(r: Result<AtmosEc3V1Model, Seq<char>>, o: OverridesModel, e: ParamEnv) -> Result<AtmosEc3V1Model, Seq<char>> {
    match r {
        Err(x) => Err(x),
        Ok(m) => match o.line_mode_drc_profile {
            None => Ok(m),
            Some(v) => match str_param(e, "line_mode_drc_profile"@, v) {
                Ok(x) => Ok(AtmosEc3V1Model { line_mode_drc_profile: x, ..m }),
                Err(x) => Err(x),
            },
        },
    }
}

pub open spec fn atmos_step_12(r: Result<AtmosEc3V1Model, Seq<char>>, o: OverridesModel, e: ParamEnv) -> Result<AtmosEc3V1Model, Seq<char>> {
    match r {
        Err(x) => Err(x),
        Ok(m) => match o.rf_mode_drc_profile {
            None => Ok(m),
            Some(v) => match str_param(e, "rf_mode_drc_profile"@, v) {
                Ok(x) => Ok(AtmosEc3V1Model { rf_mode_drc_profile: x, ..m }),
                Err(x) => Err(x),
            },
        },
    }
}

pub open spec fn atmos_step_13(r: Result<AtmosEc3V1Model, Seq<char>>, o: OverridesModel, e: ParamEnv) -> Result<AtmosEc3V1Model, Seq<char>> {
    match r {
        Err(x) => Err(x),
        Ok(m) => match o.loro_center_mix_level {
            None => Ok(m),
            Some(v) => match str_param(e, "loro_center_mix_level"@, v) {
                Ok(x) => Ok(AtmosEc3V1Model { loro_center_mix_level: x, ..m }),
                Err(x) => Err(x),
            },
        },
    }
}

pub open spec fn atmos_step_14(r: Result<AtmosEc3V1Model, Seq<char>>, o: OverridesModel, e: ParamEnv) -> Result<AtmosEc3V1Model, Seq<char>> {
    match r {
        Err(x) => Err(x),
        Ok(m) => match o.loro_surround_mix_level {
            None => Ok(m),
            Some(v) => match str_param(e, "loro_surround_mix_level"@, v) {
                Ok(x) => Ok(AtmosEc3V1Model { loro_surround_mix_level: x, ..m }),
                Err(x) => Err(x),
            },
        },
    }
}

pub open spec fn atmos_step_15(r: Result<AtmosEc3V1Model, Seq<char>>, o: OverridesModel, e: ParamEnv) -> Result<AtmosEc3V1Model, Seq<char>> {
    match r {
        Err(x) => Err(x),
        Ok(m) => match o.ltrt_center_mix_level {
            None => Ok(m),
            Some(v) => match str_param(e, "ltrt_center_mix_level"@, v) {
                Ok(x) => Ok(AtmosEc3V1Model { ltrt_center_mix_level: x, ..m }),
                Err(x) => Err(x),
            },
        },
    }
}

pub open spec fn atmos_step_16(r: Result<AtmosEc3V1Model, Seq<char>>, o: OverridesModel, e: ParamEnv) -> Result<AtmosEc3V1Model, Seq<char>> {
    match r {
        Err(x) => Err(x),
        Ok(m) => match o.ltrt_surround_mix_level {
            None => Ok(m),
            Some(v) => match str_param(e, "ltrt_surround_mix_level"@, v) {
                Ok(x) => Ok(AtmosEc3V1Model { ltrt_surround_mix_level: x, ..m }),
                Err(x) => Err(x),
            },
        },
    }
}

pub open spec fn atmos_step_17(r: Result<AtmosEc3V1Model, Seq<char>>, o: OverridesModel, e: ParamEnv) -> Result<AtmosEc3V1Model, Seq<char>> {
    match r {
        Err(x) => Err(x),
        Ok(m) => match o.preferred_downmix_mode {
            None => Ok(m),
            Some(v) => match str_param(e, "preferred_downmix_mode"@, v) {
                Ok(x) => Ok(AtmosEc3V1Model { preferred_downmix_mode: x, ..m }),
                Err(x) => Err(x),
            },
        },
    }
}

pub open spec fn atmos_step_18(r: Result<AtmosEc3V1Model, Seq<char>>, o: OverridesModel, e: ParamEnv) -> Result<AtmosEc3V1Model, Seq<char>> {
    match r {
        Err(x) => Err(x),
        Ok(m) => match o.surround_trim_5_1 {
            None => Ok(m),
            Some(v) => match str_param(e, "surround_trim_5_1"@, v) {
                Ok(x) => Ok(AtmosEc3V1Model { surround_trim_5_1: x, ..m }),
                Err(x) => Err(x),
            },
        },
    }
}

pub open spec fn atmos_step_19(r: Result<AtmosEc3V1Model, Seq<char>>, o: OverridesModel, e: ParamEnv) -> Result<AtmosEc3V1Model, Seq<char>> {
    match r {
        Err(x) => Err(x),
        Ok(m) => match o.height_trim_5_1 {
            None => Ok(m),
            Some(v) => match str_param(e, "height_trim_5_1"@, v) {
                Ok(x) => Ok(AtmosEc3V1Model { height_trim_5_1: x, ..m }),
                Err(x) => Err(x),
            },
        },
    }
}

pub open spec fn atmos_step_20(r: Result<AtmosEc3V1Model, Seq<char>>, o: OverridesModel, e: ParamEnv) -> Result<AtmosEc3V1Model, Seq<char>> {
    match r {
        Err(x) => Err(x),
        Ok(m) => match o.custom_dialnorm {
            None => Ok(m),
            Some(v) => match ranged_param(e, "custom_dialnorm"@, v, -128, 127) {
                Ok(x) => Ok(AtmosEc3V1Model { custom_dialnorm: x as i8, ..m }),
                Err(x) => Err(x),
            },
        },
    }
}

pub open spec fn atmos_step_21(r: Result<AtmosEc3V1Model, Seq<char>>, o: OverridesModel, e: ParamEnv) -> Result<AtmosEc3V1Model, Seq<char>> {
    match r {
        Err(x) => Err(x),
        Ok(m) => match o.encoding_backend {
            None => Ok(m),
            Some(v) => match str_param(e, "encoding_backend"@, v) {
                Ok(x) => Ok(AtmosEc3V1Model { encoding_backend: Some(x), ..m }),
                Err(x) => Err(x),
            },
        },
    }
}

pub open spec fn atmos_step_22(r: Result<AtmosEc3V1Model, Seq<char>>, o: OverridesModel, e: ParamEnv) -> Result<AtmosEc3V1Model, Seq<char>> {
    match r {
        Err(x) => Err(x),
        Ok(m) => match o.encoder_mode {
            None => Ok(m),
            Some(v) => match str_param(e, "encoder_mode"@, v) {
                Ok(x) => Ok(AtmosEc3V1Model { encoder_mode: Some(x), ..m }),
                Err(x) => Err(x),
            },
        },
    }
}

pub open spec fn atmos_step_23(r: Result<AtmosEc3V1Model, Seq<char>>, o: OverridesModel, e: ParamEnv) -> Result<AtmosEc3V1Model, Seq<char>> {
    match r {
        Err(x) => Err(x),
        Ok(m) => match ranged_param(e, "data_rate"@, m.data_rate as int, 0, 65535) {
            Ok(x) => Ok(AtmosEc3V1Model { data_rate: x as u16, ..m }),
            Err(x) => Err(x),
        },
    }
}

/// The filter after the overrides, or the error of the first override
/// that fails validation: steps 1 to 23 in order.
pub open spec fn atmos_apply(f: AtmosEc3V1Model, o: OverridesModel, e: ParamEnv) -> Result<AtmosEc3V1Model, Seq<char>> {
    atmos_rest(Ok(f), 0, o, e)
}

fn apply_step_1(filter: &mut AtmosEc3V1Filter, overrides: &FilterOverrides, ctx: &ParamCtx) -> (r: Result<(), String>)
    ensures
        match r {
            Ok(_) => atmos_step_1(Ok(old(filter)@), overrides@, ctx.env()) == Ok::<AtmosEc3V1Model, Seq<char>>(final(filter)@),
            Err(e) => atmos_step_1(Ok(old(filter)@), overrides@, ctx.env()) == Err::<AtmosEc3V1Model, Seq<char>>(e@),
        },
{
    if let Some(v) = &overrides.metering_mode {
        match validate_string_param(ctx, "metering_mode", v.as_str()) {
            Ok(x) => {
                filter.metering_mode = x;
                Ok(())
            },
            Err(err) => Err(err),
        }
    } else {
        Ok(())
    }
}

fn apply_step_2(filter: &mut AtmosEc3V1Filter, overrides: &FilterOverrides, ctx: &ParamCtx) -> (r: Result<(), String>)
    ensures
        match r {
            Ok(_) => atmos_step_2(Ok(old(filter)@), overrides@, ctx.env()) == Ok::<AtmosEc3V1Model, Seq<char>>(final(filter)@),
            Err(e) => atmos_step_2(Ok(old(filter)@), overrides@, ctx.env()) == Err::<AtmosEc3V1Model, Seq<char>>(e@),
        },
{
    if let Some(v) = overrides.dialogue_intelligence {
        match validate_bool_param(ctx, "dialogue_intelligence", v) {
            Ok(x) => {
                filter.dialogue_intelligence = x;
                Ok(())
            },
            Err(err) => Err(err),
        }
    } else {
        Ok(())
    }
}

fn apply_step_3(filter: &mut AtmosEc3V1Filter, overrides: &FilterOverrides, ctx: &ParamCtx) -> (r: Result<(), String>)
    ensures
        match r {
            Ok(_) => atmos_step_3(Ok(old(filter)@), overrides@, ctx.env()) == Ok::<AtmosEc3V1Model, Seq<char>>(final(filter)@),
            Err(e) => atmos_step_3(Ok(old(filter)@), overrides@, ctx.env()) == Err::<AtmosEc3V1Model, Seq<char>>(e@),
        },
{
    if let Some(v) = overrides.speech_threshold {
        match validate_ranged_param(ctx, "speech_threshold", v as i64, 0, 255) {
            Ok(x) => {
                filter.speech_threshold = x as u8;
                Ok(())
            },
            Err(err) => Err(err),
        }
    } else {
        Ok(())
    }
}

fn apply_step_4(filter: &mut AtmosEc3V1Filter, overrides: &FilterOverrides, ctx: &ParamCtx) -> (r: Result<(), String>)
    ensures
        match r {
            Ok(_) => atmos_step_4(Ok(old(filter)@), overrides@, ctx.env()) == Ok::<AtmosEc3V1Model, Seq<char>>(final(filter)@),
            Err(e) => atmos_step_4(Ok(old(filter)@), overrides@, ctx.env()) == Err::<AtmosEc3V1Model, Seq<char>>(e@),
        },
{
    if let Some(v) = overrides.data_rate {
        match validate_ranged_param(ctx, "data_rate", v as i64, 0, 65535) {
            Ok(x) => {
                filter.data_rate = x as u16;
                Ok(())
            },
            Err(err) => Err(err),
        }
    } else {
        Ok(())
    }
}

fn apply_step_5(filter: &mut AtmosEc3V1Filter, overrides: &FilterOverrides, ctx: &ParamCtx) -> (r: Result<(), String>)
    ensures
        match r {
            Ok(_) => atmos_step_5(Ok(old(filter)@), overrides@, ctx.env()) == Ok::<AtmosEc3V1Model, Seq<char>>(final(filter)@),
            Err(e) => atmos_step_5(Ok(old(filter)@), overrides@, ctx.env()) == Err::<AtmosEc3V1Model, Seq<char>>(e@),
        },
{
    if let Some(v) = &overrides.timecode_frame_rate {
        match validate_string_param(ctx, "timecode_frame_rate", v.as_str()) {
            Ok(x) => {
                filter.timecode_frame_rate = x;
                Ok(())
            },
            Err(err) => Err(err),
        }
    } else {
        Ok(())
    }
}

fn apply_step_6(filter: &mut AtmosEc3V1Filter, overrides: &FilterOverrides, ctx: &ParamCtx) -> (r: Result<(), String>)
    ensures
        match r {
            Ok(_) => atmos_step_6(Ok(old(filter)@), overrides@, ctx.env()) == Ok::<AtmosEc3V1Model, Seq<char>>(final(filter)@),
            Err(e) => atmos_step_6(Ok(old(filter)@), overrides@, ctx.env()) == Err::<AtmosEc3V1Model, Seq<char>>(e@),
        },
{
    if let Some(v) = &overrides.start {
        match validate_string_param(ctx, "start", v.as_str()) {
            Ok(s) => match validate_boundary_timecode("start", s.as_str()) {
                Ok(x) => {
                    filter.start = x;
                    Ok(())
                },
                Err(err) => Err(err),
            },
            Err(err) => Err(err),
        }
    } else {
        Ok(())
    }
}

fn apply_step_7(filter: &mut AtmosEc3V1Filter, overrides: &FilterOverrides, ctx: &ParamCtx) -> (r: Result<(), String>)
    ensures
        match r {
            Ok(_) => atmos_step_7(Ok(old(filter)@), overrides@, ctx.env()) == Ok::<AtmosEc3V1Model, Seq<char>>(final(filter)@),
            Err(e) => atmos_step_7(Ok(old(filter)@), overrides@, ctx.env()) == Err::<AtmosEc3V1Model, Seq<char>>(e@),
        },
{
    if let Some(v) = &overrides.end {
        match validate_string_param(ctx, "end", v.as_str()) {
            Ok(s) => match validate_boundary_timecode("end", s.as_str()) {
                Ok(x) => {
                    filter.end = x;
                    Ok(())
                },
                Err(err) => Err(err),
            },
            Err(err) => Err(err),
        }
    } else {
        Ok(())
    }
}

fn apply_step_8(filter: &mut AtmosEc3V1Filter, overrides: &FilterOverrides, ctx: &ParamCtx) -> (r: Result<(), String>)
    ensures
        match r {
            Ok(_) => atmos_step_8(Ok(old(filter)@), overrides@, ctx.env()) == Ok::<AtmosEc3V1Model, Seq<char>>(final(filter)@),
            Err(e) => atmos_step_8(Ok(old(filter)@), overrides@, ctx.env()) == Err::<AtmosEc3V1Model, Seq<char>>(e@),
        },
{
    if let Some(v) = &overrides.time_base {
        match validate_string_param(ctx, "time_base", v.as_str()) {
            Ok(x) => {
                filter.time_base = x;
                Ok(())
            },
            Err(err) => Err(err),
        }
    } else {
        Ok(())
    }
}

fn apply_step_9(filter: &mut AtmosEc3V1Filter, overrides: &FilterOverrides, ctx: &ParamCtx) -> (r: Result<(), String>)
    ensures
        match r {
            Ok(_) => atmos_step_9(Ok(old(filter)@), overrides@, ctx.env()) == Ok::<AtmosEc3V1Model, Seq<char>>(final(filter)@),
            Err(e) => atmos_step_9(Ok(old(filter)@), overrides@, ctx.env()) == Err::<AtmosEc3V1Model, Seq<char>>(e@),
        },
{
    if let Some(v) = &overrides.prepend_silence_duration {
        match validate_string_param(ctx, "prepend_silence_duration", v.as_str()) {
            Ok(s) => match validate_atmos_silence_duration("prepend_silence_duration", s.as_str(), filter.timecode_frame_rate.as_str(), filter.time_base.as_str()) {
                Ok(x) => {
                    filter.prepend_silence_duration = x;
                    Ok(())
                },
                Err(err) => Err(err),
            },
            Err(err) => Err(err),
        }
    } else {
        Ok(())
    }
}

fn apply_step_10(filter: &mut AtmosEc3V1Filter, overrides: &FilterOverrides, ctx: &ParamCtx) -> (r: Result<(), String>)
    ensures
        match r {
            Ok(_) => atmos_step_10(Ok(old(filter)@), overrides@, ctx.env()) == Ok::<AtmosEc3V1Model, Seq<char>>(final(filter)@),
            Err(e) => atmos_step_10(Ok(old(filter)@), overrides@, ctx.env()) == Err::<AtmosEc3V1Model, Seq<char>>(e@),
        },
{
    if let Some(v) = &overrides.append_silence_duration {
        match validate_string_param(ctx, "append_silence_duration", v.as_str()) {
            Ok(s) => match validate_atmos_silence_duration("append_silence_duration", s.as_str(), filter.timecode_frame_rate.as_str(), filter.time_base.as_str()) {
                Ok(x) => {
                    filter.append_silence_duration = x;
                    Ok(())
                },
                Err(err) => Err(err),
            },
            Err(err) => Err(err),
        }
    } else {
        Ok(())
    }
}

fn apply_step_11(filter: &mut AtmosEc3V1Filter, overrides: &FilterOverrides, ctx: &ParamCtx) -> (r: Result<(), String>)
    ensures
        match r {
            Ok(_) => atmos_step_11(Ok(old(filter)@), overrides@, ctx.env()) == Ok::<AtmosEc3V1Model, Seq<char>>(final(filter)@),
            Err(e) => atmos_step_11(Ok(old(filter)@), overrides@, ctx.env()) == Err::<AtmosEc3V1Model, Seq<char>>(e@),
        },
{
    if let Some(v) = &overrides.line_mode_drc_profile {
        match validate_string_param(ctx, "line_mode_drc_profile", v.as_str()) {
            Ok(x) => {
                filter.line_mode_drc_profile = x;
                Ok(())
            },
            Err(err) => Err(err),
        }
    } else {
        Ok(())
    }
}

fn apply_step_12(filter: &mut AtmosEc3V1Filter, overrides: &FilterOverrides, ctx: &ParamCtx) -> (r: Result<(), String>)
    ensures
        match r {
            Ok(_) => atmos_step_12(Ok(old(filter)@), overrides@, ctx.env()) == Ok::<AtmosEc3V1Model, Seq<char>>(final(filter)@),
            Err(e) => atmos_step_12(Ok(old(filter)@), overrides@, ctx.env()) == Err::<AtmosEc3V1Model, Seq<char>>(e@),
        },
{
    if let Some(v) = &overrides.rf_mode_drc_profile {
        match validate_string_param(ctx, "rf_mode_drc_profile", v.as_str()) {
            Ok(x) => {
                filter.rf_mode_drc_profile = x;
                Ok(())
            },
            Err(err) => Err(err),
        }
    } else {
        Ok(())
    }
}

fn apply_step_13(filter: &mut AtmosEc3V1Filter, overrides: &FilterOverrides, ctx: &ParamCtx) -> (r: Result<(), String>)
    ensures
        match r {
            Ok(_) => atmos_step_13(Ok(old(filter)@), overrides@, ctx.env()) == Ok::<AtmosEc3V1Model, Seq<char>>(final(filter)@),
            Err(e) => atmos_step_13(Ok(old(filter)@), overrides@, ctx.env()) == Err::<AtmosEc3V1Model, Seq<char>>(e@),
        },
{
    if let Some(v) = &overrides.loro_center_mix_level {
        match validate_string_param(ctx, "loro_center_mix_level", v.as_str()) {
            Ok(x) => {
                filter.loro_center_mix_level = x;
                Ok(())
            },
            Err(err) => Err(err),
        }
    } else {
        Ok(())
    }
}

fn apply_step_14(filter: &mut AtmosEc3V1Filter, overrides: &FilterOverrides, ctx: &ParamCtx) -> (r: Result<(), String>)
    ensures
        match r {
            Ok(_) => atmos_step_14(Ok(old(filter)@), overrides@, ctx.env()) == Ok::<AtmosEc3V1Model, Seq<char>>(final(filter)@),
            Err(e) => atmos_step_14(Ok(old(filter)@), overrides@, ctx.env()) == Err::<AtmosEc3V1Model, Seq<char>>(e@),
        },
{
    if let Some(v) = &overrides.loro_surround_mix_level {
        match validate_string_param(ctx, "loro_surround_mix_level", v.as_str()) {
            Ok(x) => {
                filter.loro_surround_mix_level = x;
                Ok(())
            },
            Err(err) => Err(err),
        }
    } else {
        Ok(())
    }
}

fn apply_step_15(filter: &mut AtmosEc3V1Filter, overrides: &FilterOverrides, ctx: &ParamCtx) -> (r: Result<(), String>)
    ensures
        match r {
            Ok(_) => atmos_step_15(Ok(old(filter)@), overrides@, ctx.env()) == Ok::<AtmosEc3V1Model, Seq<char>>(final(filter)@),
            Err(e) => atmos_step_15(Ok(old(filter)@), overrides@, ctx.env()) == Err::<AtmosEc3V1Model, Seq<char>>(e@),
        },
{
    if let Some(v) = &overrides.ltrt_center_mix_level {
        match validate_string_param(ctx, "ltrt_center_mix_level", v.as_str()) {
            Ok(x) => {
                filter.ltrt_center_mix_level = x;
                Ok(())
            },
            Err(err) => Err(err),
        }
    } else {
        Ok(())
    }
}

fn apply_step_16(filter: &mut AtmosEc3V1Filter, overrides: &FilterOverrides, ctx: &ParamCtx) -> (r: Result<(), String>)
    ensures
        match r {
            Ok(_) => atmos_step_16(Ok(old(filter)@), overrides@, ctx.env()) == Ok::<AtmosEc3V1Model, Seq<char>>(final(filter)@),
            Err(e) => atmos_step_16(Ok(old(filter)@), overrides@, ctx.env()) == Err::<AtmosEc3V1Model, Seq<char>>(e@),
        },
{
    if let Some(v) = &overrides.ltrt_surround_mix_level {
        match validate_string_param(ctx, "ltrt_surround_mix_level", v.as_str()) {
            Ok(x) => {
                filter.ltrt_surround_mix_level = x;
                Ok(())
            },
            Err(err) => Err(err),
        }
    } else {
        Ok(())
    }
}

fn apply_step_17(filter: &mut AtmosEc3V1Filter, overrides: &FilterOverrides, ctx: &ParamCtx) -> (r: Result<(), String>)
    ensures
        match r {
            Ok(_) => atmos_step_17(Ok(old(filter)@), overrides@, ctx.env()) == Ok::<AtmosEc3V1Model, Seq<char>>(final(filter)@),
            Err(e) => atmos_step_17(Ok(old(filter)@), overrides@, ctx.env()) == Err::<AtmosEc3V1Model, Seq<char>>(e@),
        },
{
    if let Some(v) = &overrides.preferred_downmix_mode {
        match validate_string_param(ctx, "preferred_downmix_mode", v.as_str()) {
            Ok(x) => {
                filter.preferred_downmix_mode = x;
                Ok(())
            },
            Err(err) => Err(err),
        }
    } else {
        Ok(())
    }
}

fn apply_step_18(filter: &mut AtmosEc3V1Filter, overrides: &FilterOverrides, ctx: &ParamCtx) -> (r: Result<(), String>)
    ensures
        match r {
            Ok(_) => atmos_step_18(Ok(old(filter)@), overrides@, ctx.env()) == Ok::<AtmosEc3V1Model, Seq<char>>(final(filter)@),
            Err(e) => atmos_step_18(Ok(old(filter)@), overrides@, ctx.env()) == Err::<AtmosEc3V1Model, Seq<char>>(e@),
        },
{
    if let Some(v) = &overrides.surround_trim_5_1 {
        match validate_string_param(ctx, "surround_trim_5_1", v.as_str()) {
            Ok(x) => {
                filter.surround_trim_5_1 = x;
                Ok(())
            },
            Err(err) => Err(err),
        }
    } else {
        Ok(())
    }
}

fn apply_step_19(filter: &mut AtmosEc3V1Filter, overrides: &FilterOverrides, ctx: &ParamCtx) -> (r: Result<(), String>)
    ensures
        match r {
            Ok(_) => atmos_step_19(Ok(old(filter)@), overrides@, ctx.env()) == Ok::<AtmosEc3V1Model, Seq<char>>(final(filter)@),
            Err(e) => atmos_step_19(Ok(old(filter)@), overrides@, ctx.env()) == Err::<AtmosEc3V1Model, Seq<char>>(e@),
        },
{
    if let Some(v) = &overrides.height_trim_5_1 {
        match validate_string_param(ctx, "height_trim_5_1", v.as_str()) {
            Ok(x) => {
                filter.height_trim_5_1 = x;
                Ok(())
            },
            Err(err) => Err(err),
        }
    } else {
        Ok(())
    }
}

fn apply_step_20(filter: &mut AtmosEc3V1Filter, overrides: &FilterOverrides, ctx: &ParamCtx) -> (r: Result<(), String>)
    ensures
        match r {
            Ok(_) => atmos_step_20(Ok(old(filter)@), overrides@, ctx.env()) == Ok::<AtmosEc3V1Model, Seq<char>>(final(filter)@),
            Err(e) => atmos_step_20(Ok(old(filter)@), overrides@, ctx.env()) == Err::<AtmosEc3V1Model, Seq<char>>(e@),
        },
{
    if let Some(v) = overrides.custom_dialnorm {
        match validate_ranged_param(ctx, "custom_dialnorm", v as i64, -128, 127) {
            Ok(x) => {
                filter.custom_dialnorm = x as i8;
                Ok(())
            },
            Err(err) => Err(err),
        }
    } else {
        Ok(())
    }
}

fn apply_step_21(filter: &mut AtmosEc3V1Filter, overrides: &FilterOverrides, ctx: &ParamCtx) -> (r: Result<(), String>)
    ensures
        match r {
            Ok(_) => atmos_step_21(Ok(old(filter)@), overrides@, ctx.env()) == Ok::<AtmosEc3V1Model, Seq<char>>(final(filter)@),
            Err(e) => atmos_step_21(Ok(old(filter)@), overrides@, ctx.env()) == Err::<AtmosEc3V1Model, Seq<char>>(e@),
        },
{
    if let Some(v) = &overrides.encoding_backend {
        match validate_string_param(ctx, "encoding_backend", v.as_str()) {
            Ok(x) => {
                filter.encoding_backend = Some(x);
                Ok(())
            },
            Err(err) => Err(err),
        }
    } else {
        Ok(())
    }
}

fn apply_step_22(filter: &mut AtmosEc3V1Filter, overrides: &FilterOverrides, ctx: &ParamCtx) -> (r: Result<(), String>)
    ensures
        match r {
            Ok(_) => atmos_step_22(Ok(old(filter)@), overrides@, ctx.env()) == Ok::<AtmosEc3V1Model, Seq<char>>(final(filter)@),
            Err(e) => atmos_step_22(Ok(old(filter)@), overrides@, ctx.env()) == Err::<AtmosEc3V1Model, Seq<char>>(e@),
        },
{
    if let Some(v) = &overrides.encoder_mode {
        match validate_string_param(ctx, "encoder_mode", v.as_str()) {
            Ok(x) => {
                filter.encoder_mode = Some(x);
                Ok(())
            },
            Err(err) => Err(err),
        }
    } else {
        Ok(())
    }
}

fn apply_step_23(filter: &mut AtmosEc3V1Filter, overrides: &FilterOverrides, ctx: &ParamCtx) -> (r: Result<(), String>)
    ensures
        match r {
            Ok(_) => atmos_step_23(Ok(old(filter)@), overrides@, ctx.env()) == Ok::<AtmosEc3V1Model, Seq<char>>(final(filter)@),
            Err(e) => atmos_step_23(Ok(old(filter)@), overrides@, ctx.env()) == Err::<AtmosEc3V1Model, Seq<char>>(e@),
        },
{
    match validate_ranged_param(ctx, "data_rate", filter.data_rate as i64, 0, 65535) {
        Ok(x) => {
            filter.data_rate = x as u16;
            Ok(())
        },
        Err(err) => Err(err),
    }
}

/// The steps after step `k` keep an error.
pub open spec fn atmos_rest(r: Result<AtmosEc3V1Model, Seq<char>>, k: int, o: OverridesModel, e: ParamEnv) -> Result<AtmosEc3V1Model, Seq<char>>
    decreases 23 - k,
{
    if k >= 23 {
        r
    } else {
        atmos_rest(atmos_step_at(r, k + 1, o, e), k + 1, o, e)
    }
}

/// Step `k` of the overrides.
pub open spec fn atmos_step_at(r: Result<AtmosEc3V1Model, Seq<char>>, k: int, o: OverridesModel, e: ParamEnv) -> Result<AtmosEc3V1Model, Seq<char>> {
    if k == 1 {
        atmos_step_1(r, o, e)
    } else if k == 2 {
        atmos_step_2(r, o, e)
    } else if k == 3 {
        atmos_step_3(r, o, e)
    } else if k == 4 {
        atmos_step_4(r, o, e)
    } else if k == 5 {
        atmos_step_5(r, o, e)
    } else if k == 6 {
        atmos_step_6(r, o, e)
    } else if k == 7 {
        atmos_step_7(r, o, e)
    } else if k == 8 {
        atmos_step_8(r, o, e)
    } else if k == 9 {
        atmos_step_9(r, o, e)
    } else if k == 10 {
        atmos_step_10(r, o, e)
    } else if k == 11 {
        atmos_step_11(r, o, e)
    } else if k == 12 {
        atmos_step_12(r, o, e)
    } else if k == 13 {
        atmos_step_13(r, o, e)
    } else if k == 14 {
        atmos_step_14(r, o, e)
    } else if k == 15 {
        atmos_step_15(r, o, e)
    } else if k == 16 {
        atmos_step_16(r, o, e)
    } else if k == 17 {
        atmos_step_17(r, o, e)
    } else if k == 18 {
        atmos_step_18(r, o, e)
    } else if k == 19 {
        atmos_step_19(r, o, e)
    } else if k == 20 {
        atmos_step_20(r, o, e)
    } else if k == 21 {
        atmos_step_21(r, o, e)
    } else if k == 22 {
        atmos_step_22(r, o, e)
    } else if k == 23 {
        atmos_step_23(r, o, e)
    } else {
        r
    }
}

proof fn lemma_atmos_rest_err(x: Seq<char>, k: int, o: OverridesModel, e: ParamEnv)
    ensures
        atmos_rest(Err(x), k, o, e) == Err::<AtmosEc3V1Model, Seq<char>>(x),
    decreases 23 - k,
{
    if k < 23 {
        lemma_atmos_rest_err(x, k + 1, o, e);
    }
}

proof fn lemma_atmos_err_propagates(g: Result<AtmosEc3V1Model, Seq<char>>, k: int, o: OverridesModel, e: ParamEnv)
    requires
        1 <= k <= 23,
        g is Err,
    ensures
        atmos_rest(g, k, o, e) == g,
{
    lemma_atmos_rest_err(g->Err_0, k, o, e);
}

/// Applies the job's overrides to the filter, validating each against the
/// schema of the template, in the order of the template's parameters.
pub fn apply_overrides(filter: &mut AtmosEc3V1Filter, overrides: &FilterOverrides, ctx: &ParamCtx) -> (r: Result<(), String>)
    ensures
        match r {
            Ok(_) => atmos_apply(old(filter)@, overrides@, ctx.env()) == Ok::<AtmosEc3V1Model, Seq<char>>(final(filter)@),
            Err(e) => atmos_apply(old(filter)@, overrides@, ctx.env()) == Err::<AtmosEc3V1Model, Seq<char>>(e@),
        },
{
    let ghost o = overrides@;
    let ghost e = ctx.env();
    let ghost f0 = filter@;
    let ghost mut g: Result<AtmosEc3V1Model, Seq<char>> = Ok(filter@);
    proof {
        g = atmos_step_1(g, o, e);
    }
    match apply_step_1(filter, overrides, ctx) {
        Ok(()) => {},
        Err(err) => {
            proof {
                lemma_atmos_err_propagates(g, 1, o, e);
            }
            return Err(err);
        },
    }
    assert(g == Ok::<AtmosEc3V1Model, Seq<char>>(filter@));
    assert(atmos_apply(f0, o, e) == atmos_rest(g, 1, o, e));
    proof {
        g = atmos_step_2(g, o, e);
    }
    match apply_step_2(filter, overrides, ctx) {
        Ok(()) => {},
        Err(err) => {
            proof {
                lemma_atmos_err_propagates(g, 2, o, e);
            }
            return Err(err);
        },
    }
    assert(g == Ok::<AtmosEc3V1Model, Seq<char>>(filter@));
    assert(atmos_apply(f0, o, e) == atmos_rest(g, 2, o, e));
    proof {
        g = atmos_step_3(g, o, e);
    }
    match apply_step_3(filter, overrides, ctx) {
        Ok(()) => {},
        Err(err) => {
            proof {
                lemma_atmos_err_propagates(g, 3, o, e);
            }
            return Err(err);
        },
    }
    assert(g == Ok::<AtmosEc3V1Model, Seq<char>>(filter@));
    assert(atmos_apply(f0, o, e) == atmos_rest(g, 3, o, e));
    proof {
        g = atmos_step_4(g, o, e);
    }
    match apply_step_4(filter, overrides, ctx) {
        Ok(()) => {},
        Err(err) => {
            proof {
                lemma_atmos_err_propagates(g, 4, o, e);
            }
            return Err(err);
        },
    }
    assert(g == Ok::<AtmosEc3V1Model, Seq<char>>(filter@));
    assert(atmos_apply(f0, o, e) == atmos_rest(g, 4, o, e));
    proof {
        g = atmos_step_5(g, o, e);
    }
    match apply_step_5(filter, overrides, ctx) {
        Ok(()) => {},
        Err(err) => {
            proof {
                lemma_atmos_err_propagates(g, 5, o, e);
            }
            return Err(err);
        },
    }
    assert(g == Ok::<AtmosEc3V1Model, Seq<char>>(filter@));
    assert(atmos_apply(f0, o, e) == atmos_rest(g, 5, o, e));
    proof {
        g = atmos_step_6(g, o, e);
    }
    match apply_step_6(filter, overrides, ctx) {
        Ok(()) => {},
        Err(err) => {
            proof {
                lemma_atmos_err_propagates(g, 6, o, e);
            }
            return Err(err);
        },
    }
    assert(g == Ok::<AtmosEc3V1Model, Seq<char>>(filter@));
    assert(atmos_apply(f0, o, e) == atmos_rest(g, 6, o, e));
    proof {
        g = atmos_step_7(g, o, e);
    }
    match apply_step_7(filter, overrides, ctx) {
        Ok(()) => {},
        Err(err) => {
            proof {
                lemma_atmos_err_propagates(g, 7, o, e);
            }
            return Err(err);
        },
    }
    assert(g == Ok::<AtmosEc3V1Model, Seq<char>>(filter@));
    assert(atmos_apply(f0, o, e) == atmos_rest(g, 7, o, e));
    proof {
        g = atmos_step_8(g, o, e);
    }
    match apply_step_8(filter, overrides, ctx) {
        Ok(()) => {},
        Err(err) => {
            proof {
                lemma_atmos_err_propagates(g, 8, o, e);
            }
            return Err(err);
        },
    }
    assert(g == Ok::<AtmosEc3V1Model, Seq<char>>(filter@));
    assert(atmos_apply(f0, o, e) == atmos_rest(g, 8, o, e));
    proof {
        g = atmos_step_9(g, o, e);
    }
    match apply_step_9(filter, overrides, ctx) {
        Ok(()) => {},
        Err(err) => {
            proof {
                lemma_atmos_err_propagates(g, 9, o, e);
            }
            return Err(err);
        },
    }
    assert(g == Ok::<AtmosEc3V1Model, Seq<char>>(filter@));
    assert(atmos_apply(f0, o, e) == atmos_rest(g, 9, o, e));
    proof {
        g = atmos_step_10(g, o, e);
    }
    match apply_step_10(filter, overrides, ctx) {
        Ok(()) => {},
        Err(err) => {
            proof {
                lemma_atmos_err_propagates(g, 10, o, e);
            }
            return Err(err);
        },
    }
    assert(g == Ok::<AtmosEc3V1Model, Seq<char>>(filter@));
    assert(atmos_apply(f0, o, e) == atmos_rest(g, 10, o, e));
    proof {
        g = atmos_step_11(g, o, e);
    }
    match apply_step_11(filter, overrides, ctx) {
        Ok(()) => {},
        Err(err) => {
            proof {
                lemma_atmos_err_propagates(g, 11, o, e);
            }
            return Err(err);
        },
    }
    assert(g == Ok::<AtmosEc3V1Model, Seq<char>>(filter@));
    assert(atmos_apply(f0, o, e) == atmos_rest(g, 11, o, e));
    proof {
        g = atmos_step_12(g, o, e);
    }
    match apply_step_12(filter, overrides, ctx) {
        Ok(()) => {},
        Err(err) => {
            proof {
                lemma_atmos_err_propagates(g, 12, o, e);
            }
            return Err(err);
        },
    }
    assert(g == Ok::<AtmosEc3V1Model, Seq<char>>(filter@));
    assert(atmos_apply(f0, o, e) == atmos_rest(g, 12, o, e));
    proof {
        g = atmos_step_13(g, o, e);
    }
    match apply_step_13(filter, overrides, ctx) {
        Ok(()) => {},
        Err(err) => {
            proof {
                lemma_atmos_err_propagates(g, 13, o, e);
            }
            return Err(err);
        },
    }
    assert(g == Ok::<AtmosEc3V1Model, Seq<char>>(filter@));
    assert(atmos_apply(f0, o, e) == atmos_rest(g, 13, o, e));
    proof {
        g = atmos_step_14(g, o, e);
    }
    match apply_step_14(filter, overrides, ctx) {
        Ok(()) => {},
        Err(err) => {
            proof {
                lemma_atmos_err_propagates(g, 14, o, e);
            }
            return Err(err);
        },
    }
    assert(g == Ok::<AtmosEc3V1Model, Seq<char>>(filter@));
    assert(atmos_apply(f0, o, e) == atmos_rest(g, 14, o, e));
    proof {
        g = atmos_step_15(g, o, e);
    }
    match apply_step_15(filter, overrides, ctx) {
        Ok(()) => {},
        Err(err) => {
            proof {
                lemma_atmos_err_propagates(g, 15, o, e);
            }
            return Err(err);
        },
    }
    assert(g == Ok::<AtmosEc3V1Model, Seq<char>>(filter@));
    assert(atmos_apply(f0, o, e) == atmos_rest(g, 15, o, e));
    proof {
        g = atmos_step_16(g, o, e);
    }
    match apply_step_16(filter, overrides, ctx) {
        Ok(()) => {},
        Err(err) => {
            proof {
                lemma_atmos_err_propagates(g, 16, o, e);
            }
            return Err(err);
        },
    }
    assert(g == Ok::<AtmosEc3V1Model, Seq<char>>(filter@));
    assert(atmos_apply(f0, o, e) == atmos_rest(g, 16, o, e));
    proof {
        g = atmos_step_17(g, o, e);
    }
    match apply_step_17(filter, overrides, ctx) {
        Ok(()) => {},
        Err(err) => {
            proof {
                lemma_atmos_err_propagates(g, 17, o, e);
            }
            return Err(err);
        },
    }
    assert(g == Ok::<AtmosEc3V1Model, Seq<char>>(filter@));
    assert(atmos_apply(f0, o, e) == atmos_rest(g, 17, o, e));
    proof {
        g = atmos_step_18(g, o, e);
    }
    match apply_step_18(filter, overrides, ctx) {
        Ok(()) => {},
        Err(err) => {
            proof {
                lemma_atmos_err_propagates(g, 18, o, e);
            }
            return Err(err);
        },
    }
    assert(g == Ok::<AtmosEc3V1Model, Seq<char>>(filter@));
    assert(atmos_apply(f0, o, e) == atmos_rest(g, 18, o, e));
    proof {
        g = atmos_step_19(g, o, e);
    }
    match apply_step_19(filter, overrides, ctx) {
        Ok(()) => {},
        Err(err) => {
            proof {
                lemma_atmos_err_propagates(g, 19, o, e);
            }
            return Err(err);
        },
    }
    assert(g == Ok::<AtmosEc3V1Model, Seq<char>>(filter@));
    assert(atmos_apply(f0, o, e) == atmos_rest(g, 19, o, e));
    proof {
        g = atmos_step_20(g, o, e);
    }
    match apply_step_20(filter, overrides, ctx) {
        Ok(()) => {},
        Err(err) => {
            proof {
                lemma_atmos_err_propagates(g, 20, o, e);
            }
            return Err(err);
        },
    }
    assert(g == Ok::<AtmosEc3V1Model, Seq<char>>(filter@));
    assert(atmos_apply(f0, o, e) == atmos_rest(g, 20, o, e));
    proof {
        g = atmos_step_21(g, o, e);
    }
    match apply_step_21(filter, overrides, ctx) {
        Ok(()) => {},
        Err(err) => {
            proof {
                lemma_atmos_err_propagates(g, 21, o, e);
            }
            return Err(err);
        },
    }
    assert(g == Ok::<AtmosEc3V1Model, Seq<char>>(filter@));
    assert(atmos_apply(f0, o, e) == atmos_rest(g, 21, o, e));
    proof {
        g = atmos_step_22(g, o, e);
    }
    match apply_step_22(filter, overrides, ctx) {
        Ok(()) => {},
        Err(err) => {
            proof {
                lemma_atmos_err_propagates(g, 22, o, e);
            }
            return Err(err);
        },
    }
    assert(g == Ok::<AtmosEc3V1Model, Seq<char>>(filter@));
    assert(atmos_apply(f0, o, e) == atmos_rest(g, 22, o, e));
    proof {
        g = atmos_step_23(g, o, e);
    }
    match apply_step_23(filter, overrides, ctx) {
        Ok(()) => {},
        Err(err) => {
            proof {
                lemma_atmos_err_propagates(g, 23, o, e);
            }
            return Err(err);
        },
    }
    assert(g == Ok::<AtmosEc3V1Model, Seq<char>>(filter@));
    assert(atmos_apply(f0, o, e) == atmos_rest(g, 23, o, e));
    Ok(())
}

/// The parameter values that constraints read, by key; an unset optional
/// parameter has no entry.
pub open spec fn atmos_values(m: AtmosEc3V1Model) -> Seq<(Seq<char>, ValueModel)> {
    optional_value(optional_value(seq![("metering_mode"@, ValueModel::Str(m.metering_mode)), ("dialogue_intelligence"@, ValueModel::Bool(m.dialogue_intelligence)), ("speech_threshold"@, ValueModel::Int(m.speech_threshold as int)), ("data_rate"@, ValueModel::Int(m.data_rate as int)), ("timecode_frame_rate"@, ValueModel::Str(m.timecode_frame_rate)), ("start"@, ValueModel::Str(m.start)), ("end"@, ValueModel::Str(m.end)), ("time_base"@, ValueModel::Str(m.time_base)), ("prepend_silence_duration"@, ValueModel::Str(m.prepend_silence_duration)), ("append_silence_duration"@, ValueModel::Str(m.append_silence_duration)), ("line_mode_drc_profile"@, ValueModel::Str(m.line_mode_drc_profile)), ("rf_mode_drc_profile"@, ValueModel::Str(m.rf_mode_drc_profile)), ("loro_center_mix_level"@, ValueModel::Str(m.loro_center_mix_level)), ("loro_surround_mix_level"@, ValueModel::Str(m.loro_surround_mix_level)), ("ltrt_center_mix_level"@, ValueModel::Str(m.ltrt_center_mix_level)), ("ltrt_surround_mix_level"@, ValueModel::Str(m.ltrt_surround_mix_level)), ("preferred_downmix_mode"@, ValueModel::Str(m.preferred_downmix_mode)), ("surround_trim_5_1"@, ValueModel::Str(m.surround_trim_5_1)), ("height_trim_5_1"@, ValueModel::Str(m.height_trim_5_1)), ("custom_dialnorm"@, ValueModel::Int(m.custom_dialnorm as int))], "encoding_backend"@, m.encoding_backend), "encoder_mode"@, m.encoder_mode)
}

/// The parameter values that constraints read, by key.
pub fn constraint_values(f: &AtmosEc3V1Filter) -> (r: Vec<(&'static str, Value)>)
    ensures
        values_model(r@) == atmos_values(f@),
{
    let mut r: Vec<(&'static str, Value)> = vec![("metering_mode", Value::Str(f.metering_mode.clone())), ("dialogue_intelligence", Value::Bool(f.dialogue_intelligence)), ("speech_threshold", Value::Int(f.speech_threshold as i64)), ("data_rate", Value::Int(f.data_rate as i64)), ("timecode_frame_rate", Value::Str(f.timecode_frame_rate.clone())), ("start", Value::Str(f.start.clone())), ("end", Value::Str(f.end.clone())), ("time_base", Value::Str(f.time_base.clone())), ("prepend_silence_duration", Value::Str(f.prepend_silence_duration.clone())), ("append_silence_duration", Value::Str(f.append_silence_duration.clone())), ("line_mode_drc_profile", Value::Str(f.line_mode_drc_profile.clone())), ("rf_mode_drc_profile", Value::Str(f.rf_mode_drc_profile.clone())), ("loro_center_mix_level", Value::Str(f.loro_center_mix_level.clone())), ("loro_surround_mix_level", Value::Str(f.loro_surround_mix_level.clone())), ("ltrt_center_mix_level", Value::Str(f.ltrt_center_mix_level.clone())), ("ltrt_surround_mix_level", Value::Str(f.ltrt_surround_mix_level.clone())), ("preferred_downmix_mode", Value::Str(f.preferred_downmix_mode.clone())), ("surround_trim_5_1", Value::Str(f.surround_trim_5_1.clone())), ("height_trim_5_1", Value::Str(f.height_trim_5_1.clone())), ("custom_dialnorm", Value::Int(f.custom_dialnorm as i64))];
    assert(values_model(r@) =~= seq![("metering_mode"@, ValueModel::Str(f@.metering_mode)), ("dialogue_intelligence"@, ValueModel::Bool(f@.dialogue_intelligence)), ("speech_threshold"@, ValueModel::Int(f@.speech_threshold as int)), ("data_rate"@, ValueModel::Int(f@.data_rate as int)), ("timecode_frame_rate"@, ValueModel::Str(f@.timecode_frame_rate)), ("start"@, ValueModel::Str(f@.start)), ("end"@, ValueModel::Str(f@.end)), ("time_base"@, ValueModel::Str(f@.time_base)), ("prepend_silence_duration"@, ValueModel::Str(f@.prepend_silence_duration)), ("append_silence_duration"@, ValueModel::Str(f@.append_silence_duration)), ("line_mode_drc_profile"@, ValueModel::Str(f@.line_mode_drc_profile)), ("rf_mode_drc_profile"@, ValueModel::Str(f@.rf_mode_drc_profile)), ("loro_center_mix_level"@, ValueModel::Str(f@.loro_center_mix_level)), ("loro_surround_mix_level"@, ValueModel::Str(f@.loro_surround_mix_level)), ("ltrt_center_mix_level"@, ValueModel::Str(f@.ltrt_center_mix_level)), ("ltrt_surround_mix_level"@, ValueModel::Str(f@.ltrt_surround_mix_level)), ("preferred_downmix_mode"@, ValueModel::Str(f@.preferred_downmix_mode)), ("surround_trim_5_1"@, ValueModel::Str(f@.surround_trim_5_1)), ("height_trim_5_1"@, ValueModel::Str(f@.height_trim_5_1)), ("custom_dialnorm"@, ValueModel::Int(f@.custom_dialnorm as int))]);
    match &f.encoding_backend {
        Some(s) => {
            r.push(("encoding_backend", Value::Str(s.clone())));
        },
        None => {},
    }
    match &f.encoder_mode {
        Some(s) => {
            r.push(("encoder_mode", Value::Str(s.clone())));
        },
        None => {},
    }
    assert(values_model(r@) =~= atmos_values(f@));
    r
}

/// Whether the template can produce defaults for the mode.
pub open spec fn atmos_supports(mode: EncodeMode) -> bool {
    mode == EncodeMode::Streaming || mode == EncodeMode::Bluray
}

/// Default filter of a profile and mode.
pub open spec fn atmos_defaults(profile: Profile, mode: EncodeMode) -> AtmosEc3V1Model {
    let music = profile == Profile::Music;
    let bluray = mode == EncodeMode::Bluray;
    AtmosEc3V1Model {
        metering_mode: "1770-4"@,
        dialogue_intelligence: !music,
        speech_threshold: if music { 100 } else { 15 },
        data_rate: if bluray { 1280 } else { 448 },
        timecode_frame_rate: "not_indicated"@,
        start: "first_frame_of_action"@,
        end: "end_of_file"@,
        time_base: "file_position"@,
        prepend_silence_duration: "0.0"@,
        append_silence_duration: "0.0"@,
        line_mode_drc_profile: if music { "music_light"@ } else { "film_light"@ },
        rf_mode_drc_profile: if music { "music_light"@ } else { "film_light"@ },
        loro_center_mix_level: "-3"@,
        loro_surround_mix_level: "-3"@,
        ltrt_center_mix_level: "-3"@,
        ltrt_surround_mix_level: "-3"@,
        preferred_downmix_mode: "loro"@,
        surround_trim_5_1: "auto"@,
        height_trim_5_1: "auto"@,
        custom_dialnorm: 0,
        encoding_backend: if bluray { Some("atmosprocessor"@) } else { None },
        encoder_mode: if bluray { Some("bluray"@) } else { None },
    }
}

/// The default filter of a profile in a mode the template supports.
pub fn defaults(profile: Profile, encode_mode: EncodeMode) -> (r: AtmosEc3V1Filter)
    requires
        atmos_supports(encode_mode),
    ensures
        r@ == atmos_defaults(profile, encode_mode),
{
    let music = match profile {
        Profile::Music => true,
        Profile::Standard => false,
    };
    let bluray = match encode_mode {
        EncodeMode::Bluray => true,
        _ => false,
    };
    let drc = if music { "music_light" } else { "film_light" };
    AtmosEc3V1Filter {
        metering_mode: owned("1770-4"),
        dialogue_intelligence: !music,
        speech_threshold: if music { 100 } else { 15 },
        data_rate: if bluray { 1280 } else { 448 },
        timecode_frame_rate: owned("not_indicated"),
        start: owned("first_frame_of_action"),
        end: owned("end_of_file"),
        time_base: owned("file_position"),
        prepend_silence_duration: owned("0.0"),
        append_silence_duration: owned("0.0"),
        line_mode_drc_profile: owned(drc),
        rf_mode_drc_profile: owned(drc),
        loro_center_mix_level: owned("-3"),
        loro_surround_mix_level: owned("-3"),
        ltrt_center_mix_level: owned("-3"),
        ltrt_surround_mix_level: owned("-3"),
        preferred_downmix_mode: owned("loro"),
        surround_trim_5_1: owned("auto"),
        height_trim_5_1: owned("auto"),
        custom_dialnorm: 0,
        encoding_backend: if bluray { Some(owned("atmosprocessor")) } else { None },
        encoder_mode: if bluray { Some(owned("bluray")) } else { None },
    }
}

/// Whether an optional parameter is set.
pub open spec fn atmos_param_some(m: AtmosEc3V1Model, key: Seq<char>) -> bool {
    if key == "encoding_backend"@ {
        m.encoding_backend is Some
    } else if key == "encoder_mode"@ {
        m.encoder_mode is Some
    } else {
        false
    }
}

/// Whether an optional parameter is set.
pub fn param_some(f: &AtmosEc3V1Filter, key: &str) -> (r: bool)
    ensures
        r == atmos_param_some(f@, key@),
{
    if crate::text::str_eq(key, "encoding_backend") {
        f.encoding_backend.is_some()
    } else if crate::text::str_eq(key, "encoder_mode") {
        f.encoder_mode.is_some()
    } else {
        false
    }
}

/// Pro Logic II downmix is not available in Blu-ray mode.
pub open spec fn atmos_runtime_outcome(m: AtmosEc3V1Model, mode: EncodeMode) -> Result<(), Seq<char>> {
    if mode == EncodeMode::Bluray && m.preferred_downmix_mode == "ltrt-pl2"@ {
        Err("Preferred Downmix mode Pro Logic II is not supported in Blu-ray Mode"@)
    } else {
        Ok(())
    }
}

/// Checks the settings that DEE rejects at run time.
pub fn validate_runtime_compatibility(f: &AtmosEc3V1Filter, encode_mode: EncodeMode) -> (r: Result<(), String>)
    ensures
        crate::schema::unit_model(r) == atmos_runtime_outcome(f@, encode_mode),
{
    if encode_mode == EncodeMode::Bluray && crate::text::str_eq(f.preferred_downmix_mode.as_str(), "ltrt-pl2") {
        Err(owned("Preferred Downmix mode Pro Logic II is not supported in Blu-ray Mode"))
    } else {
        Ok(())
    }
}


proof fn lemma_atmos_value_keys(m: AtmosEc3V1Model)
    ensures
        atmos_values(m).len() >= 20,
        atmos_values(m)[1].0 == "dialogue_intelligence"@,
        atmos_values(m)[2].0 == "speech_threshold"@,
        atmos_values(m)[10].0 == "line_mode_drc_profile"@,
        atmos_values(m)[11].0 == "rf_mode_drc_profile"@,
        atmos_values(m)[1].1 == ValueModel::Bool(m.dialogue_intelligence),
        atmos_values(m)[2].1 == ValueModel::Int(m.speech_threshold as int),
        atmos_values(m)[10].1 == ValueModel::Str(m.line_mode_drc_profile),
        atmos_values(m)[11].1 == ValueModel::Str(m.rf_mode_drc_profile),
        forall|j: int| 0 <= j < 20 ==> atmos_values(m)[j].0 != "encoding_backend"@,
        forall|j: int| 0 <= j < 20 ==> atmos_values(m)[j].0 != "encoder_mode"@,
        forall|j: int| 0 <= j < 1 ==> atmos_values(m)[j].0 != "dialogue_intelligence"@,
        forall|j: int| 0 <= j < 2 ==> atmos_values(m)[j].0 != "speech_threshold"@,
        forall|j: int| 0 <= j < 10 ==> atmos_values(m)[j].0 != "line_mode_drc_profile"@,
        forall|j: int| 0 <= j < 11 ==> atmos_values(m)[j].0 != "rf_mode_drc_profile"@,
        m.encoding_backend is None ==> m.encoder_mode is None ==> atmos_values(m).len() == 20,
        m.encoding_backend is Some ==> atmos_values(m)[20].0 == "encoding_backend"@,
        (m.encoding_backend is Some && m.encoder_mode is Some) ==> atmos_values(m).len() == 22
            && atmos_values(m)[21] == ("encoder_mode"@, ValueModel::Str(m.encoder_mode->0)),
{
    let vs = atmos_values(m);
    reveal_strlit("metering_mode");
    reveal_strlit("dialogue_intelligence");
    reveal_strlit("speech_threshold");
    reveal_strlit("data_rate");
    reveal_strlit("timecode_frame_rate");
    reveal_strlit("start");
    reveal_strlit("end");
    reveal_strlit("time_base");
    reveal_strlit("prepend_silence_duration");
    reveal_strlit("append_silence_duration");
    reveal_strlit("line_mode_drc_profile");
    reveal_strlit("rf_mode_drc_profile");
    reveal_strlit("loro_center_mix_level");
    reveal_strlit("loro_surround_mix_level");
    reveal_strlit("ltrt_center_mix_level");
    reveal_strlit("ltrt_surround_mix_level");
    reveal_strlit("preferred_downmix_mode");
    reveal_strlit("surround_trim_5_1");
    reveal_strlit("height_trim_5_1");
    reveal_strlit("custom_dialnorm");
    reveal_strlit("encoding_backend");
    reveal_strlit("encoder_mode");
    assert forall|j: int| 0 <= j < 20 implies vs[j].0 != "encoding_backend"@ && vs[j].0 != "encoder_mode"@ by {
        if j == 0 {
            assert(vs[0].0 == "metering_mode"@);
            assert(vs[0].0[0] != "encoding_backend"@[0]);
            assert(vs[0].0[0] != "encoder_mode"@[0]);
            assert(vs[0].0 != "encoding_backend"@ && vs[0].0 != "encoder_mode"@);
        } else if j == 1 {
            assert(vs[1].0 == "dialogue_intelligence"@);
            assert(vs[1].0[0] != "encoding_backend"@[0]);
            assert(vs[1].0[0] != "encoder_mode"@[0]);
            assert(vs[1].0 != "encoding_backend"@ && vs[1].0 != "encoder_mode"@);
        } else if j == 2 {
            assert(vs[2].0 == "speech_threshold"@);
            assert(vs[2].0[0] != "encoding_backend"@[0]);
            assert(vs[2].0[0] != "encoder_mode"@[0]);
            assert(vs[2].0 != "encoding_backend"@ && vs[2].0 != "encoder_mode"@);
        } else if j == 3 {
            assert(vs[3].0 == "data_rate"@);
            assert(vs[3].0[0] != "encoding_backend"@[0]);
            assert(vs[3].0[0] != "encoder_mode"@[0]);
            assert(vs[3].0 != "encoding_backend"@ && vs[3].0 != "encoder_mode"@);
        } else if j == 4 {
            assert(vs[4].0 == "timecode_frame_rate"@);
            assert(vs[4].0[0] != "encoding_backend"@[0]);
            assert(vs[4].0[0] != "encoder_mode"@[0]);
            assert(vs[4].0 != "encoding_backend"@ && vs[4].0 != "encoder_mode"@);
        } else if j == 5 {
            assert(vs[5].0 == "start"@);
            assert(vs[5].0[0] != "encoding_backend"@[0]);
            assert(vs[5].0[0] != "encoder_mode"@[0]);
            assert(vs[5].0 != "encoding_backend"@ && vs[5].0 != "encoder_mode"@);
        } else if j == 6 {
            assert(vs[6].0 == "end"@);
            assert(vs[6].0[2] != "encoding_backend"@[2]);
            assert(vs[6].0[2] != "encoder_mode"@[2]);
            assert(vs[6].0 != "encoding_backend"@ && vs[6].0 != "encoder_mode"@);
        } else if j == 7 {
            assert(vs[7].0 == "time_base"@);
            assert(vs[7].0[0] != "encoding_backend"@[0]);
            assert(vs[7].0[0] != "encoder_mode"@[0]);
            assert(vs[7].0 != "encoding_backend"@ && vs[7].0 != "encoder_mode"@);
        } else if j == 8 {
            assert(vs[8].0 == "prepend_silence_duration"@);
            assert(vs[8].0[0] != "encoding_backend"@[0]);
            assert(vs[8].0[0] != "encoder_mode"@[0]);
            assert(vs[8].0 != "encoding_backend"@ && vs[8].0 != "encoder_mode"@);
        } else if j == 9 {
            assert(vs[9].0 == "append_silence_duration"@);
            assert(vs[9].0[0] != "encoding_backend"@[0]);
            assert(vs[9].0[0] != "encoder_mode"@[0]);
            assert(vs[9].0 != "encoding_backend"@ && vs[9].0 != "encoder_mode"@);
        } else if j == 10 {
            assert(vs[10].0 == "line_mode_drc_profile"@);
            assert(vs[10].0[0] != "encoding_backend"@[0]);
            assert(vs[10].0[0] != "encoder_mode"@[0]);
            assert(vs[10].0 != "encoding_backend"@ && vs[10].0 != "encoder_mode"@);
        } else if j == 11 {
            assert(vs[11].0 == "rf_mode_drc_profile"@);
            assert(vs[11].0[0] != "encoding_backend"@[0]);
            assert(vs[11].0[0] != "encoder_mode"@[0]);
            assert(vs[11].0 != "encoding_backend"@ && vs[11].0 != "encoder_mode"@);
        } else if j == 12 {
            assert(vs[12].0 == "loro_center_mix_level"@);
            assert(vs[12].0[0] != "encoding_backend"@[0]);
            assert(vs[12].0[0] != "encoder_mode"@[0]);
            assert(vs[12].0 != "encoding_backend"@ && vs[12].0 != "encoder_mode"@);
        } else if j == 13 {
            assert(vs[13].0 == "loro_surround_mix_level"@);
            assert(vs[13].0[0] != "encoding_backend"@[0]);
            assert(vs[13].0[0] != "encoder_mode"@[0]);
            assert(vs[13].0 != "encoding_backend"@ && vs[13].0 != "encoder_mode"@);
        } else if j == 14 {
            assert(vs[14].0 == "ltrt_center_mix_level"@);
            assert(vs[14].0[0] != "encoding_backend"@[0]);
            assert(vs[14].0[0] != "encoder_mode"@[0]);
            assert(vs[14].0 != "encoding_backend"@ && vs[14].0 != "encoder_mode"@);
        } else if j == 15 {
            assert(vs[15].0 == "ltrt_surround_mix_level"@);
            assert(vs[15].0[0] != "encoding_backend"@[0]);
            assert(vs[15].0[0] != "encoder_mode"@[0]);
            assert(vs[15].0 != "encoding_backend"@ && vs[15].0 != "encoder_mode"@);
        } else if j == 16 {
            assert(vs[16].0 == "preferred_downmix_mode"@);
            assert(vs[16].0[0] != "encoding_backend"@[0]);
            assert(vs[16].0[0] != "encoder_mode"@[0]);
            assert(vs[16].0 != "encoding_backend"@ && vs[16].0 != "encoder_mode"@);
        } else if j == 17 {
            assert(vs[17].0 == "surround_trim_5_1"@);
            assert(vs[17].0[0] != "encoding_backend"@[0]);
            assert(vs[17].0[0] != "encoder_mode"@[0]);
            assert(vs[17].0 != "encoding_backend"@ && vs[17].0 != "encoder_mode"@);
        } else if j == 18 {
            assert(vs[18].0 == "height_trim_5_1"@);
            assert(vs[18].0[0] != "encoding_backend"@[0]);
            assert(vs[18].0[0] != "encoder_mode"@[0]);
            assert(vs[18].0 != "encoding_backend"@ && vs[18].0 != "encoder_mode"@);
        } else if j == 19 {
            assert(vs[19].0 == "custom_dialnorm"@);
            assert(vs[19].0[0] != "encoding_backend"@[0]);
            assert(vs[19].0[0] != "encoder_mode"@[0]);
            assert(vs[19].0 != "encoding_backend"@ && vs[19].0 != "encoder_mode"@);
        }
    }
    assert forall|j: int| 0 <= j < 11 implies vs[j].0 != "rf_mode_drc_profile"@ && (j < 10 ==> vs[j].0 != "line_mode_drc_profile"@) && (j < 2 ==> vs[j].0 != "speech_threshold"@) && (j < 1 ==> vs[j].0 != "dialogue_intelligence"@) by {
        if j == 0 {
            assert(vs[0].0 == "metering_mode"@);
            assert(vs[0].0[0] != "rf_mode_drc_profile"@[0]);
            assert(vs[0].0[0] != "line_mode_drc_profile"@[0]);
            assert(vs[0].0[0] != "speech_threshold"@[0]);
            assert(vs[0].0[0] != "dialogue_intelligence"@[0]);
            assert(vs[0].0 != "rf_mode_drc_profile"@ && (0 < 10 ==> vs[0].0 != "line_mode_drc_profile"@) && (0 < 2 ==> vs[0].0 != "speech_threshold"@) && (0 < 1 ==> vs[0].0 != "dialogue_intelligence"@));
        } else if j == 1 {
            assert(vs[1].0 == "dialogue_intelligence"@);
            assert(vs[1].0[0] != "rf_mode_drc_profile"@[0]);
            assert(vs[1].0[0] != "line_mode_drc_profile"@[0]);
            assert(vs[1].0[0] != "speech_threshold"@[0]);
            assert(vs[1].0 != "rf_mode_drc_profile"@ && (1 < 10 ==> vs[1].0 != "line_mode_drc_profile"@) && (1 < 2 ==> vs[1].0 != "speech_threshold"@) && (1 < 1 ==> vs[1].0 != "dialogue_intelligence"@));
        } else if j == 2 {
            assert(vs[2].0 == "speech_threshold"@);
            assert(vs[2].0[0] != "rf_mode_drc_profile"@[0]);
            assert(vs[2].0[0] != "line_mode_drc_profile"@[0]);
            assert(vs[2].0 != "rf_mode_drc_profile"@ && (2 < 10 ==> vs[2].0 != "line_mode_drc_profile"@) && (2 < 2 ==> vs[2].0 != "speech_threshold"@) && (2 < 1 ==> vs[2].0 != "dialogue_intelligence"@));
        } else if j == 3 {
            assert(vs[3].0 == "data_rate"@);
            assert(vs[3].0[0] != "rf_mode_drc_profile"@[0]);
            assert(vs[3].0[0] != "line_mode_drc_profile"@[0]);
            assert(vs[3].0 != "rf_mode_drc_profile"@ && (3 < 10 ==> vs[3].0 != "line_mode_drc_profile"@) && (3 < 2 ==> vs[3].0 != "speech_threshold"@) && (3 < 1 ==> vs[3].0 != "dialogue_intelligence"@));
        } else if j == 4 {
            assert(vs[4].0 == "timecode_frame_rate"@);
            assert(vs[4].0[0] != "rf_mode_drc_profile"@[0]);
            assert(vs[4].0[0] != "line_mode_drc_profile"@[0]);
            assert(vs[4].0 != "rf_mode_drc_profile"@ && (4 < 10 ==> vs[4].0 != "line_mode_drc_profile"@) && (4 < 2 ==> vs[4].0 != "speech_threshold"@) && (4 < 1 ==> vs[4].0 != "dialogue_intelligence"@));
        } else if j == 5 {
            assert(vs[5].0 == "start"@);
            assert(vs[5].0[0] != "rf_mode_drc_profile"@[0]);
            assert(vs[5].0[0] != "line_mode_drc_profile"@[0]);
            assert(vs[5].0 != "rf_mode_drc_profile"@ && (5 < 10 ==> vs[5].0 != "line_mode_drc_profile"@) && (5 < 2 ==> vs[5].0 != "speech_threshold"@) && (5 < 1 ==> vs[5].0 != "dialogue_intelligence"@));
        } else if j == 6 {
            assert(vs[6].0 == "end"@);
            assert(vs[6].0[0] != "rf_mode_drc_profile"@[0]);
            assert(vs[6].0[0] != "line_mode_drc_profile"@[0]);
            assert(vs[6].0 != "rf_mode_drc_profile"@ && (6 < 10 ==> vs[6].0 != "line_mode_drc_profile"@) && (6 < 2 ==> vs[6].0 != "speech_threshold"@) && (6 < 1 ==> vs[6].0 != "dialogue_intelligence"@));
        } else if j == 7 {
            assert(vs[7].0 == "time_base"@);
            assert(vs[7].0[0] != "rf_mode_drc_profile"@[0]);
            assert(vs[7].0[0] != "line_mode_drc_profile"@[0]);
            assert(vs[7].0 != "rf_mode_drc_profile"@ && (7 < 10 ==> vs[7].0 != "line_mode_drc_profile"@) && (7 < 2 ==> vs[7].0 != "speech_threshold"@) && (7 < 1 ==> vs[7].0 != "dialogue_intelligence"@));
        } else if j == 8 {
            assert(vs[8].0 == "prepend_silence_duration"@);
            assert(vs[8].0[0] != "rf_mode_drc_profile"@[0]);
            assert(vs[8].0[0] != "line_mode_drc_profile"@[0]);
            assert(vs[8].0 != "rf_mode_drc_profile"@ && (8 < 10 ==> vs[8].0 != "line_mode_drc_profile"@) && (8 < 2 ==> vs[8].0 != "speech_threshold"@) && (8 < 1 ==> vs[8].0 != "dialogue_intelligence"@));
        } else if j == 9 {
            assert(vs[9].0 == "append_silence_duration"@);
            assert(vs[9].0[0] != "rf_mode_drc_profile"@[0]);
            assert(vs[9].0[0] != "line_mode_drc_profile"@[0]);
            assert(vs[9].0 != "rf_mode_drc_profile"@ && (9 < 10 ==> vs[9].0 != "line_mode_drc_profile"@) && (9 < 2 ==> vs[9].0 != "speech_threshold"@) && (9 < 1 ==> vs[9].0 != "dialogue_intelligence"@));
        } else if j == 10 {
            assert(vs[10].0 == "line_mode_drc_profile"@);
            assert(vs[10].0[0] != "rf_mode_drc_profile"@[0]);
            assert(vs[10].0 != "rf_mode_drc_profile"@ && (10 < 10 ==> vs[10].0 != "line_mode_drc_profile"@) && (10 < 2 ==> vs[10].0 != "speech_threshold"@) && (10 < 1 ==> vs[10].0 != "dialogue_intelligence"@));
        }
    }
}

/// The template's defaults meet its own constraints, for each profile and
/// each encode mode the template supports, without the fixed-field
/// override.
pub proof fn law_atmos_defaults_meet_constraints(profile: Profile, mode: EncodeMode)
    requires
        atmos_supports(mode),
    ensures
        crate::schema::constraints_outcome(
            atmos_constraints(),
            crate::spec::spec_profile_name(profile),
            crate::spec::spec_encode_mode_name(mode),
            false,
            atmos_values(atmos_defaults(profile, mode)),
        ) is Ok,
{
    reveal_strlit("standard");
    reveal_strlit("music");
    reveal_strlit("streaming");
    reveal_strlit("bluray");
    reveal_strlit("ddp71");
    let m = atmos_defaults(profile, mode);
    let vs = atmos_values(m);
    lemma_atmos_value_keys(m);
    crate::schema::lemma_read_value_at(vs, "dialogue_intelligence"@, 1);
    crate::schema::lemma_read_value_at(vs, "speech_threshold"@, 2);
    crate::schema::lemma_read_value_at(vs, "line_mode_drc_profile"@, 10);
    crate::schema::lemma_read_value_at(vs, "rf_mode_drc_profile"@, 11);
    if mode == EncodeMode::Streaming {
        crate::schema::lemma_read_value_absent(vs, "encoding_backend"@);
        crate::schema::lemma_read_value_absent(vs, "encoder_mode"@);
    } else {
        assert(vs[20].0 != "encoder_mode"@) by {
            reveal_strlit("encoding_backend");
            reveal_strlit("encoder_mode");
        }
        crate::schema::lemma_read_value_at(vs, "encoder_mode"@, 21);
    }
    reveal_with_fuel(crate::schema::conflicting_fields, 5);
    reveal_with_fuel(crate::schema::constraints_outcome, 7);
}

/// The overrides of steps 1 to `k` that the filter holds: each such
/// override that is set is the filter's value (string values up to ASCII
/// case, as enum values come back canonical).
pub open spec fn atmos_overrides_held(m: AtmosEc3V1Model, o: OverridesModel, k: int) -> bool {
    (k >= 1 ==> (o.metering_mode matches Some(v) ==> seq_lower(m.metering_mode) == seq_lower(v)))
        && (k >= 2 ==> (o.dialogue_intelligence matches Some(v) ==> m.dialogue_intelligence == v))
        && (k >= 3 ==> (o.speech_threshold matches Some(v) ==> m.speech_threshold as int == v))
        && (k >= 4 ==> (o.data_rate matches Some(v) ==> m.data_rate as int == v))
        && (k >= 5 ==> (o.timecode_frame_rate matches Some(v) ==> seq_lower(m.timecode_frame_rate) == seq_lower(v)))
        && (k >= 6 ==> (o.start matches Some(v) ==> seq_lower(m.start) == seq_lower(v)))
        && (k >= 7 ==> (o.end matches Some(v) ==> seq_lower(m.end) == seq_lower(v)))
        && (k >= 8 ==> (o.time_base matches Some(v) ==> seq_lower(m.time_base) == seq_lower(v)))
        && (k >= 9 ==> (o.prepend_silence_duration matches Some(v) ==> seq_lower(m.prepend_silence_duration) == seq_lower(v)))
        && (k >= 10 ==> (o.append_silence_duration matches Some(v) ==> seq_lower(m.append_silence_duration) == seq_lower(v)))
        && (k >= 11 ==> (o.line_mode_drc_profile matches Some(v) ==> seq_lower(m.line_mode_drc_profile) == seq_lower(v)))
        && (k >= 12 ==> (o.rf_mode_drc_profile matches Some(v) ==> seq_lower(m.rf_mode_drc_profile) == seq_lower(v)))
        && (k >= 13 ==> (o.loro_center_mix_level matches Some(v) ==> seq_lower(m.loro_center_mix_level) == seq_lower(v)))
        && (k >= 14 ==> (o.loro_surround_mix_level matches Some(v) ==> seq_lower(m.loro_surround_mix_level) == seq_lower(v)))
        && (k >= 15 ==> (o.ltrt_center_mix_level matches Some(v) ==> seq_lower(m.ltrt_center_mix_level) == seq_lower(v)))
        && (k >= 16 ==> (o.ltrt_surround_mix_level matches Some(v) ==> seq_lower(m.ltrt_surround_mix_level) == seq_lower(v)))
        && (k >= 17 ==> (o.preferred_downmix_mode matches Some(v) ==> seq_lower(m.preferred_downmix_mode) == seq_lower(v)))
        && (k >= 18 ==> (o.surround_trim_5_1 matches Some(v) ==> seq_lower(m.surround_trim_5_1) == seq_lower(v)))
        && (k >= 19 ==> (o.height_trim_5_1 matches Some(v) ==> seq_lower(m.height_trim_5_1) == seq_lower(v)))
        && (k >= 20 ==> (o.custom_dialnorm matches Some(v) ==> m.custom_dialnorm as int == v))
        && (k >= 21 ==> (o.encoding_backend matches Some(v) ==> (m.encoding_backend matches Some(x) && seq_lower(x) == seq_lower(v))))
        && (k >= 22 ==> (o.encoder_mode matches Some(v) ==> (m.encoder_mode matches Some(x) && seq_lower(x) == seq_lower(v))))
}

proof fn lemma_atmos_step_keeps(m: AtmosEc3V1Model, k: int, o: OverridesModel, e: ParamEnv)
    requires
        1 <= k <= 23,
        atmos_overrides_held(m, o, k - 1),
    ensures
        atmos_step_at(Ok(m), k, o, e) matches Ok(m2) ==> atmos_overrides_held(m2, o, k),
{
    if k == 1 {
        if let Some(v) = o.metering_mode {
            crate::template::params::lemma_str_param_value(e, "metering_mode"@, v);
        }
    } else if k == 2 {
        if let Some(v) = o.dialogue_intelligence {
            crate::template::params::lemma_bool_param_value(e, "dialogue_intelligence"@, v);
        }
    } else if k == 3 {
        if let Some(v) = o.speech_threshold {
            crate::template::params::lemma_ranged_param_value(e, "speech_threshold"@, v, 0, 255);
        }
    } else if k == 4 {
        if let Some(v) = o.data_rate {
            crate::template::params::lemma_ranged_param_value(e, "data_rate"@, v, 0, 65535);
        }
    } else if k == 5 {
        if let Some(v) = o.timecode_frame_rate {
            crate::template::params::lemma_str_param_value(e, "timecode_frame_rate"@, v);
        }
    } else if k == 6 {
        if let Some(v) = o.start {
            crate::template::params::lemma_str_param_value(e, "start"@, v);
        }
    } else if k == 7 {
        if let Some(v) = o.end {
            crate::template::params::lemma_str_param_value(e, "end"@, v);
        }
    } else if k == 8 {
        if let Some(v) = o.time_base {
            crate::template::params::lemma_str_param_value(e, "time_base"@, v);
        }
    } else if k == 9 {
        if let Some(v) = o.prepend_silence_duration {
            crate::template::params::lemma_str_param_value(e, "prepend_silence_duration"@, v);
        }
    } else if k == 10 {
        if let Some(v) = o.append_silence_duration {
            crate::template::params::lemma_str_param_value(e, "append_silence_duration"@, v);
        }
    } else if k == 11 {
        if let Some(v) = o.line_mode_drc_profile {
            crate::template::params::lemma_str_param_value(e, "line_mode_drc_profile"@, v);
        }
    } else if k == 12 {
        if let Some(v) = o.rf_mode_drc_profile {
            crate::template::params::lemma_str_param_value(e, "rf_mode_drc_profile"@, v);
        }
    } else if k == 13 {
        if let Some(v) = o.loro_center_mix_level {
            crate::template::params::lemma_str_param_value(e, "loro_center_mix_level"@, v);
        }
    } else if k == 14 {
        if let Some(v) = o.loro_surround_mix_level {
            crate::template::params::lemma_str_param_value(e, "loro_surround_mix_level"@, v);
        }
    } else if k == 15 {
        if let Some(v) = o.ltrt_center_mix_level {
            crate::template::params::lemma_str_param_value(e, "ltrt_center_mix_level"@, v);
        }
    } else if k == 16 {
        if let Some(v) = o.ltrt_surround_mix_level {
            crate::template::params::lemma_str_param_value(e, "ltrt_surround_mix_level"@, v);
        }
    } else if k == 17 {
        if let Some(v) = o.preferred_downmix_mode {
            crate::template::params::lemma_str_param_value(e, "preferred_downmix_mode"@, v);
        }
    } else if k == 18 {
        if let Some(v) = o.surround_trim_5_1 {
            crate::template::params::lemma_str_param_value(e, "surround_trim_5_1"@, v);
        }
    } else if k == 19 {
        if let Some(v) = o.height_trim_5_1 {
            crate::template::params::lemma_str_param_value(e, "height_trim_5_1"@, v);
        }
    } else if k == 20 {
        if let Some(v) = o.custom_dialnorm {
            crate::template::params::lemma_ranged_param_value(e, "custom_dialnorm"@, v, -128, 127);
        }
    } else if k == 21 {
        if let Some(v) = o.encoding_backend {
            crate::template::params::lemma_str_param_value(e, "encoding_backend"@, v);
        }
    } else if k == 22 {
        if let Some(v) = o.encoder_mode {
            crate::template::params::lemma_str_param_value(e, "encoder_mode"@, v);
        }
    } else if k == 23 {
        crate::template::params::lemma_ranged_param_value(e, "data_rate"@, m.data_rate as int, 0, 65535);
    }
}

proof fn lemma_atmos_rest_keeps(r: Result<AtmosEc3V1Model, Seq<char>>, k: int, o: OverridesModel, e: ParamEnv)
    requires
        0 <= k <= 23,
        r matches Ok(m) ==> atmos_overrides_held(m, o, k),
    ensures
        atmos_rest(r, k, o, e) matches Ok(m2) ==> atmos_overrides_held(m2, o, 23),
    decreases 23 - k,
{
    if k < 23 {
        let r2 = atmos_step_at(r, k + 1, o, e);
        match r {
            Ok(m) => lemma_atmos_step_keeps(m, k + 1, o, e),
            Err(x) => assert(r2 == r),
        }
        lemma_atmos_rest_keeps(r2, k + 1, o, e);
    }
}

/// An override that validates is what the filter holds afterwards: where
/// the overrides apply, each parameter that the job sets has the job's
/// value (string values up to ASCII case, since an enum value comes back
/// in its canonical spelling).
pub proof fn law_atmos_overrides_hold(f: AtmosEc3V1Model, o: OverridesModel, e: ParamEnv)
    ensures
        atmos_apply(f, o, e) matches Ok(m) ==> {
            (o.metering_mode matches Some(v) ==> seq_lower(m.metering_mode) == seq_lower(v))
            && (o.dialogue_intelligence matches Some(v) ==> m.dialogue_intelligence == v)
            && (o.speech_threshold matches Some(v) ==> m.speech_threshold as int == v)
            && (o.data_rate matches Some(v) ==> m.data_rate as int == v)
            && (o.timecode_frame_rate matches Some(v) ==> seq_lower(m.timecode_frame_rate) == seq_lower(v))
            && (o.start matches Some(v) ==> seq_lower(m.start) == seq_lower(v))
            && (o.end matches Some(v) ==> seq_lower(m.end) == seq_lower(v))
            && (o.time_base matches Some(v) ==> seq_lower(m.time_base) == seq_lower(v))
            && (o.prepend_silence_duration matches Some(v) ==> seq_lower(m.prepend_silence_duration) == seq_lower(v))
            && (o.append_silence_duration matches Some(v) ==> seq_lower(m.append_silence_duration) == seq_lower(v))
            && (o.line_mode_drc_profile matches Some(v) ==> seq_lower(m.line_mode_drc_profile) == seq_lower(v))
            && (o.rf_mode_drc_profile matches Some(v) ==> seq_lower(m.rf_mode_drc_profile) == seq_lower(v))
            && (o.loro_center_mix_level matches Some(v) ==> seq_lower(m.loro_center_mix_level) == seq_lower(v))
            && (o.loro_surround_mix_level matches Some(v) ==> seq_lower(m.loro_surround_mix_level) == seq_lower(v))
            && (o.ltrt_center_mix_level matches Some(v) ==> seq_lower(m.ltrt_center_mix_level) == seq_lower(v))
            && (o.ltrt_surround_mix_level matches Some(v) ==> seq_lower(m.ltrt_surround_mix_level) == seq_lower(v))
            && (o.preferred_downmix_mode matches Some(v) ==> seq_lower(m.preferred_downmix_mode) == seq_lower(v))
            && (o.surround_trim_5_1 matches Some(v) ==> seq_lower(m.surround_trim_5_1) == seq_lower(v))
            && (o.height_trim_5_1 matches Some(v) ==> seq_lower(m.height_trim_5_1) == seq_lower(v))
            && (o.custom_dialnorm matches Some(v) ==> m.custom_dialnorm as int == v)
            && (o.encoding_backend matches Some(v) ==> (m.encoding_backend matches Some(x) && seq_lower(x) == seq_lower(v)))
            && (o.encoder_mode matches Some(v) ==> (m.encoder_mode matches Some(x) && seq_lower(x) == seq_lower(v)))
        },
{
    lemma_atmos_rest_keeps(Ok(f), 0, o, e);
}

} // verus!
