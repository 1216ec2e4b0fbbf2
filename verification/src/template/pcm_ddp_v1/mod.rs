//! `pcm_ddp_v1`: PCM WAV to Dolby Digital or Dolby Digital Plus.
use vstd::prelude::*;

pub mod json;
pub mod xml;

use crate::schema::{
    constraints_model, optional_value, rates_model, schemas_model, strs_model, values_model,
    AvailModel, Constraint, ConstraintModel, FixedValue, ModeAvailability, OverridePolicy,
    ParamRule, ParamSchema, RuleModel, SchemaModel, SourceTag, Value, ValueModel,
};
use crate::decode::OverridesModel;
use crate::spec::{EncodeMode, FilterOverrides, Profile};
use crate::template::params::{
    bool_param, ranged_param, str_param, validate_bool_param, validate_ranged_param,
    validate_string_param, ParamCtx, ParamEnv,
};
use crate::text::{owned, seq_lower};

verus! {

/// Template id.
pub const ID: &'static str = "pcm_ddp_v1";
/// Template id.
pub open spec fn pcm_id() -> Seq<char> {
    "pcm_ddp_v1"@
}

/// Profiles the template accepts.
pub open spec fn pcm_profiles() -> Seq<Seq<char>> {
    seq!["standard"@, "music"@]
}

/// Profiles the template accepts.
pub fn valid_profiles() -> (r: Vec<&'static str>)
    ensures
        strs_model(r@) == pcm_profiles(),
{
    let r = vec!["standard", "music"];
    assert(strs_model(r@) =~= pcm_profiles());
    r
}

/// Encode modes the template accepts.
pub open spec fn pcm_modes() -> Seq<Seq<char>> {
    seq!["dd"@, "ddp"@, "bluray"@, "ddp71"@]
}

/// Encode modes the template accepts.
pub fn valid_encode_modes() -> (r: Vec<&'static str>)
    ensures
        strs_model(r@) == pcm_modes(),
{
    let r = vec!["dd", "ddp", "bluray", "ddp71"];
    assert(strs_model(r@) =~= pcm_modes());
    r
}

/// Upper bound of any data rate.
pub const BITRATE_HARD_MAX: u16 = 1664;

/// Allowed data rates by encode mode.
pub open spec fn pcm_rates() -> Seq<(Seq<char>, Seq<u16>)> {
    seq![("bluray"@, seq![768, 1024, 1280, 1536, 1664]), ("dd"@, seq![224, 256, 320, 384, 448, 512, 576, 640]), ("ddp"@, seq![192, 200, 208, 216, 224, 232, 240, 248, 256, 272, 288, 304, 320, 336, 352, 368, 384, 400, 448, 512, 576, 640, 704, 768, 832, 896, 960, 1008, 1024]), ("ddp71"@, seq![384, 448, 576, 640, 704, 768, 832, 896, 960, 1008, 1024])]
}

/// Allowed data rates by encode mode.
pub fn bitrate_sets() -> (r: Vec<(&'static str, Vec<u16>)>)
    ensures
        rates_model(r@) == pcm_rates(),
{
    let r: Vec<(&'static str, Vec<u16>)> = vec![("bluray", vec![768, 1024, 1280, 1536, 1664]), ("dd", vec![224, 256, 320, 384, 448, 512, 576, 640]), ("ddp", vec![192, 200, 208, 216, 224, 232, 240, 248, 256, 272, 288, 304, 320, 336, 352, 368, 384, 400, 448, 512, 576, 640, 704, 768, 832, 896, 960, 1008, 1024]), ("ddp71", vec![384, 448, 576, 640, 704, 768, 832, 896, 960, 1008, 1024])];
    assert(rates_model(r@) =~= pcm_rates());
    r
}

/// The parameters of the template.
pub open spec fn pcm_schemas() -> Seq<SchemaModel> {
    seq![
        SchemaModel {
            key: "metering_mode"@,
            rule: RuleModel::Enum(seq!["1770-1"@, "1770-2"@, "1770-3"@, "LeqA"@]),
            avail: AvailModel::All,
            sources: seq![SourceTag::DolbyOfficial, SourceTag::DeewObserved],
        },
        SchemaModel {
            key: "dialogue_intelligence"@,
            rule: RuleModel::Bool,
            avail: AvailModel::All,
            sources: seq![SourceTag::DolbyOfficial, SourceTag::DeewObserved],
        },
        SchemaModel {
            key: "speech_threshold"@,
            rule: RuleModel::IntRange { min: 0, max: 100 },
            avail: AvailModel::All,
            sources: seq![SourceTag::DolbyOfficial, SourceTag::DeewObserved],
        },
        SchemaModel {
            key: "data_rate"@,
            rule: RuleModel::DataRate,
            avail: AvailModel::All,
            sources: seq![SourceTag::DolbyOfficial, SourceTag::DeewObserved],
        },
        SchemaModel {
            key: "bitstream_mode"@,
            rule: RuleModel::Enum(seq!["complete_main"@, "music_and_effects"@, "visually_impaired"@, "hearing_impaired"@, "dialogue"@, "commentary"@, "emergency"@, "voice_over"@]),
            avail: AvailModel::All,
            sources: seq![SourceTag::DolbyOfficial, SourceTag::DeewObserved],
        },
        SchemaModel {
            key: "downmix_config"@,
            rule: RuleModel::Enum(seq!["off"@, "mono"@, "stereo"@, "5.1"@]),
            avail: AvailModel::All,
            sources: seq![SourceTag::DolbyOfficial, SourceTag::DeewObserved],
        },
        SchemaModel {
            key: "timecode_frame_rate"@,
            rule: RuleModel::Enum(seq!["not_indicated"@, "23.976"@, "24"@, "25"@, "29.97"@, "30"@, "48"@, "50"@, "59.94"@, "60"@]),
            avail: AvailModel::All,
            sources: seq![SourceTag::DolbyOfficial],
        },
        SchemaModel {
            key: "start"@,
            rule: RuleModel::FreeString,
            avail: AvailModel::All,
            sources: seq![SourceTag::DolbyOfficial],
        },
        SchemaModel {
            key: "end"@,
            rule: RuleModel::FreeString,
            avail: AvailModel::All,
            sources: seq![SourceTag::DolbyOfficial],
        },
        SchemaModel {
            key: "time_base"@,
            rule: RuleModel::Enum(seq!["file_position"@, "embedded_timecode"@]),
            avail: AvailModel::All,
            sources: seq![SourceTag::DolbyOfficial],
        },
        SchemaModel {
            key: "prepend_silence_duration"@,
            rule: RuleModel::FreeString,
            avail: AvailModel::All,
            sources: seq![SourceTag::DolbyOfficial],
        },
        SchemaModel {
            key: "append_silence_duration"@,
            rule: RuleModel::FreeString,
            avail: AvailModel::All,
            sources: seq![SourceTag::DolbyOfficial],
        },
        SchemaModel {
            key: "lfe_on"@,
            rule: RuleModel::Bool,
            avail: AvailModel::All,
            sources: seq![SourceTag::DolbyOfficial, SourceTag::DeewObserved],
        },
        SchemaModel {
            key: "dolby_surround_mode"@,
            rule: RuleModel::Enum(seq!["yes"@, "no"@, "not_indicated"@]),
            avail: AvailModel::All,
            sources: seq![SourceTag::DolbyOfficial, SourceTag::DeewObserved],
        },
        SchemaModel {
            key: "dolby_surround_ex_mode"@,
            rule: RuleModel::Enum(seq!["yes"@, "no"@, "not_indicated"@]),
            avail: AvailModel::All,
            sources: seq![SourceTag::DolbyOfficial, SourceTag::DeewObserved],
        },
        SchemaModel {
            key: "user_data"@,
            rule: RuleModel::IntRange { min: -1, max: 65535 },
            avail: AvailModel::All,
            sources: seq![SourceTag::DolbyOfficial, SourceTag::DeewObserved],
        },
        SchemaModel {
            key: "line_mode_drc_profile"@,
            rule: RuleModel::Enum(seq!["film_standard"@, "film_light"@, "music_standard"@, "music_light"@, "speech"@, "none"@]),
            avail: AvailModel::All,
            sources: seq![SourceTag::DolbyOfficial, SourceTag::DeewObserved, SourceTag::DeezyObserved],
        },
        SchemaModel {
            key: "rf_mode_drc_profile"@,
            rule: RuleModel::Enum(seq!["film_standard"@, "film_light"@, "music_standard"@, "music_light"@, "speech"@, "none"@]),
            avail: AvailModel::All,
            sources: seq![SourceTag::DolbyOfficial, SourceTag::DeewObserved, SourceTag::DeezyObserved],
        },
        SchemaModel {
            key: "lfe_lowpass_filter"@,
            rule: RuleModel::Bool,
            avail: AvailModel::All,
            sources: seq![SourceTag::DolbyOfficial, SourceTag::DeewObserved],
        },
        SchemaModel {
            key: "surround_90_degree_phase_shift"@,
            rule: RuleModel::Bool,
            avail: AvailModel::All,
            sources: seq![SourceTag::DeewObserved, SourceTag::DeezyObserved],
        },
        SchemaModel {
            key: "surround_3db_attenuation"@,
            rule: RuleModel::Bool,
            avail: AvailModel::All,
            sources: seq![SourceTag::DeewObserved, SourceTag::DeezyObserved],
        },
        SchemaModel {
            key: "loro_center_mix_level"@,
            rule: RuleModel::Enum(seq!["+3"@, "+1.5"@, "0"@, "-1.5"@, "-3"@, "-4.5"@, "-6"@, "-inf"@]),
            avail: AvailModel::All,
            sources: seq![SourceTag::DolbyOfficial],
        },
        SchemaModel {
            key: "loro_surround_mix_level"@,
            rule: RuleModel::Enum(seq!["-1.5"@, "-3"@, "-4.5"@, "-6"@, "-inf"@]),
            avail: AvailModel::All,
            sources: seq![SourceTag::DolbyOfficial],
        },
        SchemaModel {
            key: "ltrt_center_mix_level"@,
            rule: RuleModel::Enum(seq!["+3"@, "+1.5"@, "0"@, "-1.5"@, "-3"@, "-4.5"@, "-6"@, "-inf"@]),
            avail: AvailModel::All,
            sources: seq![SourceTag::DolbyOfficial],
        },
        SchemaModel {
            key: "ltrt_surround_mix_level"@,
            rule: RuleModel::Enum(seq!["-1.5"@, "-3"@, "-4.5"@, "-6"@, "-inf"@]),
            avail: AvailModel::All,
            sources: seq![SourceTag::DolbyOfficial],
        },
        SchemaModel {
            key: "preferred_downmix_mode"@,
            rule: RuleModel::Enum(seq!["not_indicated"@, "loro"@, "ltrt"@, "ltrt-pl2"@]),
            avail: AvailModel::All,
            sources: seq![SourceTag::DolbyOfficial],
        },
        SchemaModel {
            key: "allow_hybrid_downmix"@,
            rule: RuleModel::Bool,
            avail: AvailModel::All,
            sources: seq![SourceTag::DolbyOfficial, SourceTag::DeewObserved],
        },
        SchemaModel {
            key: "starting_timecode"@,
            rule: RuleModel::FreeString,
            avail: AvailModel::Only(seq!["dd"@, "bluray"@]),
            sources: seq![SourceTag::DolbyOfficial, SourceTag::DeewObserved],
        },
        SchemaModel {
            key: "frame_rate"@,
            rule: RuleModel::Enum(seq!["auto"@, "23.976"@, "24"@, "25"@, "29.97"@, "30"@, "50"@, "59.94"@, "60"@]),
            avail: AvailModel::All,
            sources: seq![SourceTag::DolbyOfficial, SourceTag::DeewObserved],
        },
        SchemaModel {
            key: "custom_dialnorm"@,
            rule: RuleModel::IntRange { min: -31, max: 0 },
            avail: AvailModel::All,
            sources: seq![SourceTag::DolbyOfficial, SourceTag::DeewObserved],
        },
        SchemaModel {
            key: "encoder_mode"@,
            rule: RuleModel::Enum(seq!["dd"@, "ddp"@, "bluray"@, "ddp71"@]),
            avail: AvailModel::All,
            sources: seq![SourceTag::DolbyOfficial, SourceTag::DeewObserved],
        },
    ]
}

/// The parameters of the template.
pub fn param_schemas() -> (r: Vec<ParamSchema>)
    ensures
        schemas_model(r@) == pcm_schemas(),
{
    let r = vec![
        ParamSchema {
            key: "metering_mode",
            rule: ParamRule::Enum(vec!["1770-1", "1770-2", "1770-3", "LeqA"]),
            mode_availability: ModeAvailability::All,
            sources: vec![SourceTag::DolbyOfficial, SourceTag::DeewObserved],
        },
        ParamSchema {
            key: "dialogue_intelligence",
            rule: ParamRule::Bool,
            mode_availability: ModeAvailability::All,
            sources: vec![SourceTag::DolbyOfficial, SourceTag::DeewObserved],
        },
        ParamSchema {
            key: "speech_threshold",
            rule: ParamRule::IntRange { min: 0, max: 100 },
            mode_availability: ModeAvailability::All,
            sources: vec![SourceTag::DolbyOfficial, SourceTag::DeewObserved],
        },
        ParamSchema {
            key: "data_rate",
            rule: ParamRule::DataRate,
            mode_availability: ModeAvailability::All,
            sources: vec![SourceTag::DolbyOfficial, SourceTag::DeewObserved],
        },
        ParamSchema {
            key: "bitstream_mode",
            rule: ParamRule::Enum(vec!["complete_main", "music_and_effects", "visually_impaired", "hearing_impaired", "dialogue", "commentary", "emergency", "voice_over"]),
            mode_availability: ModeAvailability::All,
            sources: vec![SourceTag::DolbyOfficial, SourceTag::DeewObserved],
        },
        ParamSchema {
            key: "downmix_config",
            rule: ParamRule::Enum(vec!["off", "mono", "stereo", "5.1"]),
            mode_availability: ModeAvailability::All,
            sources: vec![SourceTag::DolbyOfficial, SourceTag::DeewObserved],
        },
        ParamSchema {
            key: "timecode_frame_rate",
            rule: ParamRule::Enum(vec!["not_indicated", "23.976", "24", "25", "29.97", "30", "48", "50", "59.94", "60"]),
            mode_availability: ModeAvailability::All,
            sources: vec![SourceTag::DolbyOfficial],
        },
        ParamSchema {
            key: "start",
            rule: ParamRule::FreeString,
            mode_availability: ModeAvailability::All,
            sources: vec![SourceTag::DolbyOfficial],
        },
        ParamSchema {
            key: "end",
            rule: ParamRule::FreeString,
            mode_availability: ModeAvailability::All,
            sources: vec![SourceTag::DolbyOfficial],
        },
        ParamSchema {
            key: "time_base",
            rule: ParamRule::Enum(vec!["file_position", "embedded_timecode"]),
            mode_availability: ModeAvailability::All,
            sources: vec![SourceTag::DolbyOfficial],
        },
        ParamSchema {
            key: "prepend_silence_duration",
            rule: ParamRule::FreeString,
            mode_availability: ModeAvailability::All,
            sources: vec![SourceTag::DolbyOfficial],
        },
        ParamSchema {
            key: "append_silence_duration",
            rule: ParamRule::FreeString,
            mode_availability: ModeAvailability::All,
            sources: vec![SourceTag::DolbyOfficial],
        },
        ParamSchema {
            key: "lfe_on",
            rule: ParamRule::Bool,
            mode_availability: ModeAvailability::All,
            sources: vec![SourceTag::DolbyOfficial, SourceTag::DeewObserved],
        },
        ParamSchema {
            key: "dolby_surround_mode",
            rule: ParamRule::Enum(vec!["yes", "no", "not_indicated"]),
            mode_availability: ModeAvailability::All,
            sources: vec![SourceTag::DolbyOfficial, SourceTag::DeewObserved],
        },
        ParamSchema {
            key: "dolby_surround_ex_mode",
            rule: ParamRule::Enum(vec!["yes", "no", "not_indicated"]),
            mode_availability: ModeAvailability::All,
            sources: vec![SourceTag::DolbyOfficial, SourceTag::DeewObserved],
        },
        ParamSchema {
            key: "user_data",
            rule: ParamRule::IntRange { min: -1, max: 65535 },
            mode_availability: ModeAvailability::All,
            sources: vec![SourceTag::DolbyOfficial, SourceTag::DeewObserved],
        },
        ParamSchema {
            key: "line_mode_drc_profile",
            rule: ParamRule::Enum(vec!["film_standard", "film_light", "music_standard", "music_light", "speech", "none"]),
            mode_availability: ModeAvailability::All,
            sources: vec![SourceTag::DolbyOfficial, SourceTag::DeewObserved, SourceTag::DeezyObserved],
        },
        ParamSchema {
            key: "rf_mode_drc_profile",
            rule: ParamRule::Enum(vec!["film_standard", "film_light", "music_standard", "music_light", "speech", "none"]),
            mode_availability: ModeAvailability::All,
            sources: vec![SourceTag::DolbyOfficial, SourceTag::DeewObserved, SourceTag::DeezyObserved],
        },
        ParamSchema {
            key: "lfe_lowpass_filter",
            rule: ParamRule::Bool,
            mode_availability: ModeAvailability::All,
            sources: vec![SourceTag::DolbyOfficial, SourceTag::DeewObserved],
        },
        ParamSchema {
            key: "surround_90_degree_phase_shift",
            rule: ParamRule::Bool,
            mode_availability: ModeAvailability::All,
            sources: vec![SourceTag::DeewObserved, SourceTag::DeezyObserved],
        },
        ParamSchema {
            key: "surround_3db_attenuation",
            rule: ParamRule::Bool,
            mode_availability: ModeAvailability::All,
            sources: vec![SourceTag::DeewObserved, SourceTag::DeezyObserved],
        },
        ParamSchema {
            key: "loro_center_mix_level",
            rule: ParamRule::Enum(vec!["+3", "+1.5", "0", "-1.5", "-3", "-4.5", "-6", "-inf"]),
            mode_availability: ModeAvailability::All,
            sources: vec![SourceTag::DolbyOfficial],
        },
        ParamSchema {
            key: "loro_surround_mix_level",
            rule: ParamRule::Enum(vec!["-1.5", "-3", "-4.5", "-6", "-inf"]),
            mode_availability: ModeAvailability::All,
            sources: vec![SourceTag::DolbyOfficial],
        },
        ParamSchema {
            key: "ltrt_center_mix_level",
            rule: ParamRule::Enum(vec!["+3", "+1.5", "0", "-1.5", "-3", "-4.5", "-6", "-inf"]),
            mode_availability: ModeAvailability::All,
            sources: vec![SourceTag::DolbyOfficial],
        },
        ParamSchema {
            key: "ltrt_surround_mix_level",
            rule: ParamRule::Enum(vec!["-1.5", "-3", "-4.5", "-6", "-inf"]),
            mode_availability: ModeAvailability::All,
            sources: vec![SourceTag::DolbyOfficial],
        },
        ParamSchema {
            key: "preferred_downmix_mode",
            rule: ParamRule::Enum(vec!["not_indicated", "loro", "ltrt", "ltrt-pl2"]),
            mode_availability: ModeAvailability::All,
            sources: vec![SourceTag::DolbyOfficial],
        },
        ParamSchema {
            key: "allow_hybrid_downmix",
            rule: ParamRule::Bool,
            mode_availability: ModeAvailability::All,
            sources: vec![SourceTag::DolbyOfficial, SourceTag::DeewObserved],
        },
        ParamSchema {
            key: "starting_timecode",
            rule: ParamRule::FreeString,
            mode_availability: ModeAvailability::Only(vec!["dd", "bluray"]),
            sources: vec![SourceTag::DolbyOfficial, SourceTag::DeewObserved],
        },
        ParamSchema {
            key: "frame_rate",
            rule: ParamRule::Enum(vec!["auto", "23.976", "24", "25", "29.97", "30", "50", "59.94", "60"]),
            mode_availability: ModeAvailability::All,
            sources: vec![SourceTag::DolbyOfficial, SourceTag::DeewObserved],
        },
        ParamSchema {
            key: "custom_dialnorm",
            rule: ParamRule::IntRange { min: -31, max: 0 },
            mode_availability: ModeAvailability::All,
            sources: vec![SourceTag::DolbyOfficial, SourceTag::DeewObserved],
        },
        ParamSchema {
            key: "encoder_mode",
            rule: ParamRule::Enum(vec!["dd", "ddp", "bluray", "ddp71"]),
            mode_availability: ModeAvailability::All,
            sources: vec![SourceTag::DolbyOfficial, SourceTag::DeewObserved],
        },
    ];
    assert(schemas_model(r@) =~~= pcm_schemas());
    r
}

/// The constraints of the template.
pub open spec fn pcm_constraints() -> Seq<ConstraintModel> {
    seq![
        ConstraintModel::FixedValues {
            when_profile: "music"@,
            fields: seq![("dialogue_intelligence"@, ValueModel::Bool(false)), ("speech_threshold"@, ValueModel::Int(100)), ("line_mode_drc_profile"@, ValueModel::Str("music_light"@)), ("rf_mode_drc_profile"@, ValueModel::Str("music_light"@))],
            allow_override: true,
        },
        ConstraintModel::Required { param: "encoder_mode"@, when_mode: "dd"@, value: ValueModel::Str("dd"@) },
        ConstraintModel::Required { param: "downmix_config"@, when_mode: "dd"@, value: ValueModel::Str("5.1"@) },
        ConstraintModel::Required { param: "encoder_mode"@, when_mode: "ddp"@, value: ValueModel::Str("ddp"@) },
        ConstraintModel::Required { param: "downmix_config"@, when_mode: "ddp"@, value: ValueModel::Str("5.1"@) },
        ConstraintModel::Required { param: "encoder_mode"@, when_mode: "bluray"@, value: ValueModel::Str("bluray"@) },
        ConstraintModel::Required { param: "downmix_config"@, when_mode: "bluray"@, value: ValueModel::Str("off"@) },
        ConstraintModel::Required { param: "encoder_mode"@, when_mode: "ddp71"@, value: ValueModel::Str("ddp71"@) },
        ConstraintModel::Required { param: "downmix_config"@, when_mode: "ddp71"@, value: ValueModel::Str("off"@) },
    ]
}

/// The constraints of the template.
pub fn constraints() -> (r: Vec<Constraint>)
    ensures
        constraints_model(r@) == pcm_constraints(),
{
    let r: Vec<Constraint> = vec![
        Constraint::FixedValues {
            when_profile: "music",
            fields: vec![("dialogue_intelligence", FixedValue::Bool(false)), ("speech_threshold", FixedValue::Int(100)), ("line_mode_drc_profile", FixedValue::Str("music_light")), ("rf_mode_drc_profile", FixedValue::Str("music_light"))],
            override_policy: OverridePolicy::AllowFixedOverride,
        },
        Constraint::Required { param: "encoder_mode", when_mode: "dd", value: FixedValue::Str("dd") },
        Constraint::Required { param: "downmix_config", when_mode: "dd", value: FixedValue::Str("5.1") },
        Constraint::Required { param: "encoder_mode", when_mode: "ddp", value: FixedValue::Str("ddp") },
        Constraint::Required { param: "downmix_config", when_mode: "ddp", value: FixedValue::Str("5.1") },
        Constraint::Required { param: "encoder_mode", when_mode: "bluray", value: FixedValue::Str("bluray") },
        Constraint::Required { param: "downmix_config", when_mode: "bluray", value: FixedValue::Str("off") },
        Constraint::Required { param: "encoder_mode", when_mode: "ddp71", value: FixedValue::Str("ddp71") },
        Constraint::Required { param: "downmix_config", when_mode: "ddp71", value: FixedValue::Str("off") },
    ];
    assert(constraints_model(r@) =~~= pcm_constraints());
    r
}

/// Resolved filter parameters of the template.
#[derive(Debug, Clone)]
pub struct PcmDdpV1Filter {
    pub metering_mode: String,
    pub dialogue_intelligence: bool,
    pub speech_threshold: u8,
    pub data_rate: u16,
    pub timecode_frame_rate: String,
    pub start: String,
    pub end: String,
    pub time_base: String,
    pub prepend_silence_duration: String,
    pub append_silence_duration: String,
    pub line_mode_drc_profile: String,
    pub rf_mode_drc_profile: String,
    pub loro_center_mix_level: String,
    pub loro_surround_mix_level: String,
    pub ltrt_center_mix_level: String,
    pub ltrt_surround_mix_level: String,
    pub preferred_downmix_mode: String,
    pub custom_dialnorm: i8,
    pub encoder_mode: String,
    pub bitstream_mode: String,
    pub downmix_config: String,
    pub lfe_on: bool,
    pub dolby_surround_mode: String,
    pub dolby_surround_ex_mode: String,
    pub user_data: i32,
    pub lfe_lowpass_filter: bool,
    pub surround_90_degree_phase_shift: bool,
    pub surround_3db_attenuation: bool,
    pub allow_hybrid_downmix: bool,
    pub starting_timecode: String,
    pub frame_rate: String,
}

/// Model of the resolved filter parameters.
pub struct PcmDdpV1Model {
    pub metering_mode: Seq<char>,
    pub dialogue_intelligence: bool,
    pub speech_threshold: u8,
    pub data_rate: u16,
    pub timecode_frame_rate: Seq<char>,
    pub start: Seq<char>,
    pub end: Seq<char>,
    pub time_base: Seq<char>,
    pub prepend_silence_duration: Seq<char>,
    pub append_silence_duration: Seq<char>,
    pub line_mode_drc_profile: Seq<char>,
    pub rf_mode_drc_profile: Seq<char>,
    pub loro_center_mix_level: Seq<char>,
    pub loro_surround_mix_level: Seq<char>,
    pub ltrt_center_mix_level: Seq<char>,
    pub ltrt_surround_mix_level: Seq<char>,
    pub preferred_downmix_mode: Seq<char>,
    pub custom_dialnorm: i8,
    pub encoder_mode: Seq<char>,
    pub bitstream_mode: Seq<char>,
    pub downmix_config: Seq<char>,
    pub lfe_on: bool,
    pub dolby_surround_mode: Seq<char>,
    pub dolby_surround_ex_mode: Seq<char>,
    pub user_data: i32,
    pub lfe_lowpass_filter: bool,
    pub surround_90_degree_phase_shift: bool,
    pub surround_3db_attenuation: bool,
    pub allow_hybrid_downmix: bool,
    pub starting_timecode: Seq<char>,
    pub frame_rate: Seq<char>,
}

impl View for PcmDdpV1Filter {
    type V = PcmDdpV1Model;

    open spec fn view(&self) -> PcmDdpV1Model {
        PcmDdpV1Model {
            metering_mode: self.metering_mode@,
            dialogue_intelligence: self.dialogue_intelligence,
            speech_threshold: self.speech_threshold,
            data_rate: self.data_rate,
            timecode_frame_rate: self.timecode_frame_rate@,
            start: self.start@,
            end: self.end@,
            time_base: self.time_base@,
            prepend_silence_duration: self.prepend_silence_duration@,
            append_silence_duration: self.append_silence_duration@,
            line_mode_drc_profile: self.line_mode_drc_profile@,
            rf_mode_drc_profile: self.rf_mode_drc_profile@,
            loro_center_mix_level: self.loro_center_mix_level@,
            loro_surround_mix_level: self.loro_surround_mix_level@,
            ltrt_center_mix_level: self.ltrt_center_mix_level@,
            ltrt_surround_mix_level: self.ltrt_surround_mix_level@,
            preferred_downmix_mode: self.preferred_downmix_mode@,
            custom_dialnorm: self.custom_dialnorm,
            encoder_mode: self.encoder_mode@,
            bitstream_mode: self.bitstream_mode@,
            downmix_config: self.downmix_config@,
            lfe_on: self.lfe_on,
            dolby_surround_mode: self.dolby_surround_mode@,
            dolby_surround_ex_mode: self.dolby_surround_ex_mode@,
            user_data: self.user_data,
            lfe_lowpass_filter: self.lfe_lowpass_filter,
            surround_90_degree_phase_shift: self.surround_90_degree_phase_shift,
            surround_3db_attenuation: self.surround_3db_attenuation,
            allow_hybrid_downmix: self.allow_hybrid_downmix,
            starting_timecode: self.starting_timecode@,
            frame_rate: self.frame_rate@,
        }
    }
}

pub open spec fn pcm_step_1(r: Result<PcmDdpV1Model, Seq<char>>, o: OverridesModel, e: ParamEnv) -> Result<PcmDdpV1Model, Seq<char>> {
    match r {
        Err(x) => Err(x),
        Ok(m) => match pcm_unsupported(o) {
            Some(f) => Err("parameter '"@ + f + "' is not supported by template_id '"@ + pcm_id() + "'"@),
            None => Ok(m),
        },
    }
}

pub open spec fn pcm_step_2(r: Result<PcmDdpV1Model, Seq<char>>, o: OverridesModel, e: ParamEnv) -> Result<PcmDdpV1Model, Seq<char>> {
    match r {
        Err(x) => Err(x),
        Ok(m) => match o.metering_mode {
            None => Ok(m),
            Some(v) => match str_param(e, "metering_mode"@, v) {
                Ok(x) => Ok(PcmDdpV1Model { metering_mode: x, ..m }),
                Err(x) => Err(x),
            },
        },
    }
}

pub open spec fn pcm_step_3(r: Result<PcmDdpV1Model, Seq<char>>, o: OverridesModel, e: ParamEnv) -> Result<PcmDdpV1Model, Seq<char>> {
    match r {
        Err(x) => Err(x),
        Ok(m) => match o.dialogue_intelligence {
            None => Ok(m),
            Some(v) => match bool_param(e, "dialogue_intelligence"@, v) {
                Ok(x) => Ok(PcmDdpV1Model { dialogue_intelligence: x, ..m }),
                Err(x) => Err(x),
            },
        },
    }
}

pub open spec fn pcm_step_4(r: Result<PcmDdpV1Model, Seq<char>>, o: OverridesModel, e: ParamEnv) -> Result<PcmDdpV1Model, Seq<char>> {
    match r {
        Err(x) => Err(x),
        Ok(m) => match o.speech_threshold {
            None => Ok(m),
            Some(v) => match ranged_param(e, "speech_threshold"@, v, 0, 255) {
                Ok(x) => Ok(PcmDdpV1Model { speech_threshold: x as u8, ..m }),
                Err(x) => Err(x),
            },
        },
    }
}

pub open spec fn pcm_step_5(r: Result<PcmDdpV1Model, Seq<char>>, o: OverridesModel, e: ParamEnv) -> Result<PcmDdpV1Model, Seq<char>> {
    match r {
        Err(x) => Err(x),
        Ok(m) => match o.data_rate {
            None => Ok(m),
            Some(v) => match ranged_param(e, "data_rate"@, v, 0, 65535) {
                Ok(x) => Ok(PcmDdpV1Model { data_rate: x as u16, ..m }),
                Err(x) => Err(x),
            },
        },
    }
}

pub open spec fn pcm_step_6(r: Result<PcmDdpV1Model, Seq<char>>, o: OverridesModel, e: ParamEnv) -> Result<PcmDdpV1Model, Seq<char>> {
    match r {
        Err(x) => Err(x),
        Ok(m) => match o.timecode_frame_rate {
            None => Ok(m),
            Some(v) => match str_param(e, "timecode_frame_rate"@, v) {
                Ok(x) => Ok(PcmDdpV1Model { timecode_frame_rate: x, ..m }),
                Err(x) => Err(x),
            },
        },
    }
}

pub open spec fn pcm_step_7(r: Result<PcmDdpV1Model, Seq<char>>, o: OverridesModel, e: ParamEnv) -> Result<PcmDdpV1Model, Seq<char>> {
    match r {
        Err(x) => Err(x),
        Ok(m) => match o.start {
            None => Ok(m),
            Some(v) => match str_param(e, "start"@, v) {
                Ok(x) => Ok(PcmDdpV1Model { start: x, ..m }),
                Err(x) => Err(x),
            },
        },
    }
}

pub open spec fn pcm_step_8(r: Result<PcmDdpV1Model, Seq<char>>, o: OverridesModel, e: ParamEnv) -> Result<PcmDdpV1Model, Seq<char>> {
    match r {
        Err(x) => Err(x),
        Ok(m) => match o.end {
            None => Ok(m),
            Some(v) => match str_param(e, "end"@, v) {
                Ok(x) => Ok(PcmDdpV1Model { end: x, ..m }),
                Err(x) => Err(x),
            },
        },
    }
}

pub open spec fn pcm_step_9(r: Result<PcmDdpV1Model, Seq<char>>, o: OverridesModel, e: ParamEnv) -> Result<PcmDdpV1Model, Seq<char>> {
    match r {
        Err(x) => Err(x),
        Ok(m) => match o.time_base {
            None => Ok(m),
            Some(v) => match str_param(e, "time_base"@, v) {
                Ok(x) => Ok(PcmDdpV1Model { time_base: x, ..m }),
                Err(x) => Err(x),
            },
        },
    }
}

pub open spec fn pcm_step_10(r: Result<PcmDdpV1Model, Seq<char>>, o: OverridesModel, e: ParamEnv) -> Result<PcmDdpV1Model, Seq<char>> {
    match r {
        Err(x) => Err(x),
        Ok(m) => match o.prepend_silence_duration {
            None => Ok(m),
            Some(v) => match str_param(e, "prepend_silence_duration"@, v) {
                Ok(x) => Ok(PcmDdpV1Model { prepend_silence_duration: x, ..m }),
                Err(x) => Err(x),
            },
        },
    }
}

pub open spec fn pcm_step_11(r: Result<PcmDdpV1Model, Seq<char>>, o: OverridesModel, e: ParamEnv) -> Result<PcmDdpV1Model, Seq<char>> {
    match r {
        Err(x) => Err(x),
        Ok(m) => match o.append_silence_duration {
            None => Ok(m),
            Some(v) => match str_param(e, "append_silence_duration"@, v) {
                Ok(x) => Ok(PcmDdpV1Model { append_silence_duration: x, ..m }),
                Err(x) => Err(x),
            },
        },
    }
}

pub open spec fn pcm_step_12(r: Result<PcmDdpV1Model, Seq<char>>, o: OverridesModel, e: ParamEnv) -> Result<PcmDdpV1Model, Seq<char>> {
    match r {
        Err(x) => Err(x),
        Ok(m) => match o.line_mode_drc_profile {
            None => Ok(m),
            Some(v) => match str_param(e, "line_mode_drc_profile"@, v) {
                Ok(x) => Ok(PcmDdpV1Model { line_mode_drc_profile: x, ..m }),
                Err(x) => Err(x),
            },
        },
    }
}

pub open spec fn pcm_step_13(r: Result<PcmDdpV1Model, Seq<char>>, o: OverridesModel, e: ParamEnv) -> Result<PcmDdpV1Model, Seq<char>> {
    match r {
        Err(x) => Err(x),
        Ok(m) => match o.rf_mode_drc_profile {
            None => Ok(m),
            Some(v) => match str_param(e, "rf_mode_drc_profile"@, v) {
                Ok(x) => Ok(PcmDdpV1Model { rf_mode_drc_profile: x, ..m }),
                Err(x) => Err(x),
            },
        },
    }
}

pub open spec fn pcm_step_14(r: Result<PcmDdpV1Model, Seq<char>>, o: OverridesModel, e: ParamEnv) -> Result<PcmDdpV1Model, Seq<char>> {
    match r {
        Err(x) => Err(x),
        Ok(m) => match o.loro_center_mix_level {
            None => Ok(m),
            Some(v) => match str_param(e, "loro_center_mix_level"@, v) {
                Ok(x) => Ok(PcmDdpV1Model { loro_center_mix_level: x, ..m }),
                Err(x) => Err(x),
            },
        },
    }
}

pub open spec fn pcm_step_15(r: Result<PcmDdpV1Model, Seq<char>>, o: OverridesModel, e: ParamEnv) -> Result<PcmDdpV1Model, Seq<char>> {
    match r {
        Err(x) => Err(x),
        Ok(m) => match o.loro_surround_mix_level {
            None => Ok(m),
            Some(v) => match str_param(e, "loro_surround_mix_level"@, v) {
                Ok(x) => Ok(PcmDdpV1Model { loro_surround_mix_level: x, ..m }),
                Err(x) => Err(x),
            },
        },
    }
}

pub open spec fn pcm_step_16(r: Result<PcmDdpV1Model, Seq<char>>, o: OverridesModel, e: ParamEnv) -> Result<PcmDdpV1Model, Seq<char>> {
    match r {
        Err(x) => Err(x),
        Ok(m) => match o.ltrt_center_mix_level {
            None => Ok(m),
            Some(v) => match str_param(e, "ltrt_center_mix_level"@, v) {
                Ok(x) => Ok(PcmDdpV1Model { ltrt_center_mix_level: x, ..m }),
                Err(x) => Err(x),
            },
        },
    }
}

pub open spec fn pcm_step_17(r: Result<PcmDdpV1Model, Seq<char>>, o: OverridesModel, e: ParamEnv) -> Result<PcmDdpV1Model, Seq<char>> {
    match r {
        Err(x) => Err(x),
        Ok(m) => match o.ltrt_surround_mix_level {
            None => Ok(m),
            Some(v) => match str_param(e, "ltrt_surround_mix_level"@, v) {
                Ok(x) => Ok(PcmDdpV1Model { ltrt_surround_mix_level: x, ..m }),
                Err(x) => Err(x),
            },
        },
    }
}

pub open spec fn pcm_step_18(r: Result<PcmDdpV1Model, Seq<char>>, o: OverridesModel, e: ParamEnv) -> Result<PcmDdpV1Model, Seq<char>> {
    match r {
        Err(x) => Err(x),
        Ok(m) => match o.preferred_downmix_mode {
            None => Ok(m),
            Some(v) => match str_param(e, "preferred_downmix_mode"@, v) {
                Ok(x) => Ok(PcmDdpV1Model { preferred_downmix_mode: x, ..m }),
                Err(x) => Err(x),
            },
        },
    }
}

pub open spec fn pcm_step_19(r: Result<PcmDdpV1Model, Seq<char>>, o: OverridesModel, e: ParamEnv) -> Result<PcmDdpV1Model, Seq<char>> {
    match r {
        Err(x) => Err(x),
        Ok(m) => match o.custom_dialnorm {
            None => Ok(m),
            Some(v) => match ranged_param(e, "custom_dialnorm"@, v, -128, 127) {
                Ok(x) => Ok(PcmDdpV1Model { custom_dialnorm: x as i8, ..m }),
                Err(x) => Err(x),
            },
        },
    }
}

pub open spec fn pcm_step_20(r: Result<PcmDdpV1Model, Seq<char>>, o: OverridesModel, e: ParamEnv) -> Result<PcmDdpV1Model, Seq<char>> {
    match r {
        Err(x) => Err(x),
        Ok(m) => match o.encoder_mode {
            None => Ok(m),
            Some(v) => match str_param(e, "encoder_mode"@, v) {
                Ok(x) => Ok(PcmDdpV1Model { encoder_mode: x, ..m }),
                Err(x) => Err(x),
            },
        },
    }
}

pub open spec fn pcm_step_21(r: Result<PcmDdpV1Model, Seq<char>>, o: OverridesModel, e: ParamEnv) -> Result<PcmDdpV1Model, Seq<char>> {
    match r {
        Err(x) => Err(x),
        Ok(m) => match ranged_param(e, "data_rate"@, m.data_rate as int, 0, 65535) {
            Ok(x) => Ok(PcmDdpV1Model { data_rate: x as u16, ..m }),
            Err(x) => Err(x),
        },
    }
}

/// The filter after the overrides, or the error of the first override
/// that fails validation: steps 1 to 21 in order.
pub open spec fn pcm_apply(f: PcmDdpV1Model, o: OverridesModel, e: ParamEnv) -> Result<PcmDdpV1Model, Seq<char>> {
    pcm_rest(Ok(f), 0, o, e)
}

/// The first override that the template does not support.
pub open spec fn pcm_unsupported(o: OverridesModel) -> Option<Seq<char>> {
    if o.surround_trim_5_1 is Some {
        Some("surround_trim_5_1"@)
    } else if o.height_trim_5_1 is Some {
        Some("height_trim_5_1"@)
    } else if o.encoding_backend is Some {
        Some("encoding_backend"@)
    } else {
        None
    }
}

fn first_unsupported(overrides: &FilterOverrides) -> (r: Option<&'static str>)
    ensures
        match r {
            Some(k) => pcm_unsupported(overrides@) == Some(k@),
            None => pcm_unsupported(overrides@) is None,
        },
{
    if overrides.surround_trim_5_1.is_some() {
        return Some("surround_trim_5_1");
    }
    if overrides.height_trim_5_1.is_some() {
        return Some("height_trim_5_1");
    }
    if overrides.encoding_backend.is_some() {
        return Some("encoding_backend");
    }
    None
}

fn apply_step_1(filter: &mut PcmDdpV1Filter, overrides: &FilterOverrides, ctx: &ParamCtx) -> (r: Result<(), String>)
    ensures
        match r {
            Ok(_) => pcm_step_1(Ok(old(filter)@), overrides@, ctx.env()) == Ok::<PcmDdpV1Model, Seq<char>>(final(filter)@),
            Err(e) => pcm_step_1(Ok(old(filter)@), overrides@, ctx.env()) == Err::<PcmDdpV1Model, Seq<char>>(e@),
        },
        final(filter)@ == old(filter)@,
{
    match first_unsupported(overrides) {
        Some(field) => {
            let mut msg = owned("parameter '");
            msg.append(field);
            msg.append("' is not supported by template_id '");
            msg.append(ID);
            msg.append("'");
            Err(msg)
        },
        None => Ok(()),
    }
}

fn apply_step_2(filter: &mut PcmDdpV1Filter, overrides: &FilterOverrides, ctx: &ParamCtx) -> (r: Result<(), String>)
    ensures
        match r {
            Ok(_) => pcm_step_2(Ok(old(filter)@), overrides@, ctx.env()) == Ok::<PcmDdpV1Model, Seq<char>>(final(filter)@),
            Err(e) => pcm_step_2(Ok(old(filter)@), overrides@, ctx.env()) == Err::<PcmDdpV1Model, Seq<char>>(e@),
        },
{
    if let Some(v) = &overrides.metering_mode {
        match validate_string_param(ctx, "metering_mode", v.as_str()) {
            Ok(x) => {
                filter.metering_mode = x;
                Ok(())
            },
            Err(err) => Err(err),
        }
    } else {
        Ok(())
    }
}

fn apply_step_3(filter: &mut PcmDdpV1Filter, overrides: &FilterOverrides, ctx: &ParamCtx) -> (r: Result<(), String>)
    ensures
        match r {
            Ok(_) => pcm_step_3(Ok(old(filter)@), overrides@, ctx.env()) == Ok::<PcmDdpV1Model, Seq<char>>(final(filter)@),
            Err(e) => pcm_step_3(Ok(old(filter)@), overrides@, ctx.env()) == Err::<PcmDdpV1Model, Seq<char>>(e@),
        },
{
    if let Some(v) = overrides.dialogue_intelligence {
        match validate_bool_param(ctx, "dialogue_intelligence", v) {
            Ok(x) => {
                filter.dialogue_intelligence = x;
                Ok(())
            },
            Err(err) => Err(err),
        }
    } else {
        Ok(())
    }
}

fn apply_step_4(filter: &mut PcmDdpV1Filter, overrides: &FilterOverrides, ctx: &ParamCtx) -> (r: Result<(), String>)
    ensures
        match r {
            Ok(_) => pcm_step_4(Ok(old(filter)@), overrides@, ctx.env()) == Ok::<PcmDdpV1Model, Seq<char>>(final(filter)@),
            Err(e) => pcm_step_4(Ok(old(filter)@), overrides@, ctx.env()) == Err::<PcmDdpV1Model, Seq<char>>(e@),
        },
{
    if let Some(v) = overrides.speech_threshold {
        match validate_ranged_param(ctx, "speech_threshold", v as i64, 0, 255) {
            Ok(x) => {
                filter.speech_threshold = x as u8;
                Ok(())
            },
            Err(err) => Err(err),
        }
    } else {
        Ok(())
    }
}

fn apply_step_5(filter: &mut PcmDdpV1Filter, overrides: &FilterOverrides, ctx: &ParamCtx) -> (r: Result<(), String>)
    ensures
        match r {
            Ok(_) => pcm_step_5(Ok(old(filter)@), overrides@, ctx.env()) == Ok::<PcmDdpV1Model, Seq<char>>(final(filter)@),
            Err(e) => pcm_step_5(Ok(old(filter)@), overrides@, ctx.env()) == Err::<PcmDdpV1Model, Seq<char>>(e@),
        },
{
    if let Some(v) = overrides.data_rate {
        match validate_ranged_param(ctx, "data_rate", v as i64, 0, 65535) {
            Ok(x) => {
                filter.data_rate = x as u16;
                Ok(())
            },
            Err(err) => Err(err),
        }
    } else {
        Ok(())
    }
}

fn apply_step_6(filter: &mut PcmDdpV1Filter, overrides: &FilterOverrides, ctx: &ParamCtx) -> (r: Result<(), String>)
    ensures
        match r {
            Ok(_) => pcm_step_6(Ok(old(filter)@), overrides@, ctx.env()) == Ok::<PcmDdpV1Model, Seq<char>>(final(filter)@),
            Err(e) => pcm_step_6(Ok(old(filter)@), overrides@, ctx.env()) == Err::<PcmDdpV1Model, Seq<char>>(e@),
        },
{
    if let Some(v) = &overrides.timecode_frame_rate {
        match validate_string_param(ctx, "timecode_frame_rate", v.as_str()) {
            Ok(x) => {
                filter.timecode_frame_rate = x;
                Ok(())
            },
            Err(err) => Err(err),
        }
    } else {
        Ok(())
    }
}

fn apply_step_7(filter: &mut PcmDdpV1Filter, overrides: &FilterOverrides, ctx: &ParamCtx) -> (r: Result<(), String>)
    ensures
        match r {
            Ok(_) => pcm_step_7(Ok(old(filter)@), overrides@, ctx.env()) == Ok::<PcmDdpV1Model, Seq<char>>(final(filter)@),
            Err(e) => pcm_step_7(Ok(old(filter)@), overrides@, ctx.env()) == Err::<PcmDdpV1Model, Seq<char>>(e@),
        },
{
    if let Some(v) = &overrides.start {
        match validate_string_param(ctx, "start", v.as_str()) {
            Ok(x) => {
                filter.start = x;
                Ok(())
            },
            Err(err) => Err(err),
        }
    } else {
        Ok(())
    }
}

fn apply_step_8(filter: &mut PcmDdpV1Filter, overrides: &FilterOverrides, ctx: &ParamCtx) -> (r: Result<(), String>)
    ensures
        match r {
            Ok(_) => pcm_step_8(Ok(old(filter)@), overrides@, ctx.env()) == Ok::<PcmDdpV1Model, Seq<char>>(final(filter)@),
            Err(e) => pcm_step_8(Ok(old(filter)@), overrides@, ctx.env()) == Err::<PcmDdpV1Model, Seq<char>>(e@),
        },
{
    if let Some(v) = &overrides.end {
        match validate_string_param(ctx, "end", v.as_str()) {
            Ok(x) => {
                filter.end = x;
                Ok(())
            },
            Err(err) => Err(err),
        }
    } else {
        Ok(())
    }
}

fn apply_step_9(filter: &mut PcmDdpV1Filter, overrides: &FilterOverrides, ctx: &ParamCtx) -> (r: Result<(), String>)
    ensures
        match r {
            Ok(_) => pcm_step_9(Ok(old(filter)@), overrides@, ctx.env()) == Ok::<PcmDdpV1Model, Seq<char>>(final(filter)@),
            Err(e) => pcm_step_9(Ok(old(filter)@), overrides@, ctx.env()) == Err::<PcmDdpV1Model, Seq<char>>(e@),
        },
{
    if let Some(v) = &overrides.time_base {
        match validate_string_param(ctx, "time_base", v.as_str()) {
            Ok(x) => {
                filter.time_base = x;
                Ok(())
            },
            Err(err) => Err(err),
        }
    } else {
        Ok(())
    }
}

fn apply_step_10(filter: &mut PcmDdpV1Filter, overrides: &FilterOverrides, ctx: &ParamCtx) -> (r: Result<(), String>)
    ensures
        match r {
            Ok(_) => pcm_step_10(Ok(old(filter)@), overrides@, ctx.env()) == Ok::<PcmDdpV1Model, Seq<char>>(final(filter)@),
            Err(e) => pcm_step_10(Ok(old(filter)@), overrides@, ctx.env()) == Err::<PcmDdpV1Model, Seq<char>>(e@),
        },
{
    if let Some(v) = &overrides.prepend_silence_duration {
        match validate_string_param(ctx, "prepend_silence_duration", v.as_str()) {
            Ok(x) => {
                filter.prepend_silence_duration = x;
                Ok(())
            },
            Err(err) => Err(err),
        }
    } else {
        Ok(())
    }
}

fn apply_step_11(filter: &mut PcmDdpV1Filter, overrides: &FilterOverrides, ctx: &ParamCtx) -> (r: Result<(), String>)
    ensures
        match r {
            Ok(_) => pcm_step_11(Ok(old(filter)@), overrides@, ctx.env()) == Ok::<PcmDdpV1Model, Seq<char>>(final(filter)@),
            Err(e) => pcm_step_11(Ok(old(filter)@), overrides@, ctx.env()) == Err::<PcmDdpV1Model, Seq<char>>(e@),
        },
{
    if let Some(v) = &overrides.append_silence_duration {
        match validate_string_param(ctx, "append_silence_duration", v.as_str()) {
            Ok(x) => {
                filter.append_silence_duration = x;
                Ok(())
            },
            Err(err) => Err(err),
        }
    } else {
        Ok(())
    }
}

fn apply_step_12(filter: &mut PcmDdpV1Filter, overrides: &FilterOverrides, ctx: &ParamCtx) -> (r: Result<(), String>)
    ensures
        match r {
            Ok(_) => pcm_step_12(Ok(old(filter)@), overrides@, ctx.env()) == Ok::<PcmDdpV1Model, Seq<char>>(final(filter)@),
            Err(e) => pcm_step_12(Ok(old(filter)@), overrides@, ctx.env()) == Err::<PcmDdpV1Model, Seq<char>>(e@),
        },
{
    if let Some(v) = &overrides.line_mode_drc_profile {
        match validate_string_param(ctx, "line_mode_drc_profile", v.as_str()) {
            Ok(x) => {
                filter.line_mode_drc_profile = x;
                Ok(())
            },
            Err(err) => Err(err),
        }
    } else {
        Ok(())
    }
}

fn apply_step_13(filter: &mut PcmDdpV1Filter, overrides: &FilterOverrides, ctx: &ParamCtx) -> (r: Result<(), String>)
    ensures
        match r {
            Ok(_) => pcm_step_13(Ok(old(filter)@), overrides@, ctx.env()) == Ok::<PcmDdpV1Model, Seq<char>>(final(filter)@),
            Err(e) => pcm_step_13(Ok(old(filter)@), overrides@, ctx.env()) == Err::<PcmDdpV1Model, Seq<char>>(e@),
        },
{
    if let Some(v) = &overrides.rf_mode_drc_profile {
        match validate_string_param(ctx, "rf_mode_drc_profile", v.as_str()) {
            Ok(x) => {
                filter.rf_mode_drc_profile = x;
                Ok(())
            },
            Err(err) => Err(err),
        }
    } else {
        Ok(())
    }
}

fn apply_step_14(filter: &mut PcmDdpV1Filter, overrides: &FilterOverrides, ctx: &ParamCtx) -> (r: Result<(), String>)
    ensures
        match r {
            Ok(_) => pcm_step_14(Ok(old(filter)@), overrides@, ctx.env()) == Ok::<PcmDdpV1Model, Seq<char>>(final(filter)@),
            Err(e) => pcm_step_14(Ok(old(filter)@), overrides@, ctx.env()) == Err::<PcmDdpV1Model, Seq<char>>(e@),
        },
{
    if let Some(v) = &overrides.loro_center_mix_level {
        match validate_string_param(ctx, "loro_center_mix_level", v.as_str()) {
            Ok(x) => {
                filter.loro_center_mix_level = x;
                Ok(())
            },
            Err(err) => Err(err),
        }
    } else {
        Ok(())
    }
}

fn apply_step_15(filter: &mut PcmDdpV1Filter, overrides: &FilterOverrides, ctx: &ParamCtx) -> (r: Result<(), String>)
    ensures
        match r {
            Ok(_) => pcm_step_15(Ok(old(filter)@), overrides@, ctx.env()) == Ok::<PcmDdpV1Model, Seq<char>>(final(filter)@),
            Err(e) => pcm_step_15(Ok(old(filter)@), overrides@, ctx.env()) == Err::<PcmDdpV1Model, Seq<char>>(e@),
        },
{
    if let Some(v) = &overrides.loro_surround_mix_level {
        match validate_string_param(ctx, "loro_surround_mix_level", v.as_str()) {
            Ok(x) => {
                filter.loro_surround_mix_level = x;
                Ok(())
            },
            Err(err) => Err(err),
        }
    } else {
        Ok(())
    }
}

fn apply_step_16(filter: &mut PcmDdpV1Filter, overrides: &FilterOverrides, ctx: &ParamCtx) -> (r: Result<(), String>)
    ensures
        match r {
            Ok(_) => pcm_step_16(Ok(old(filter)@), overrides@, ctx.env()) == Ok::<PcmDdpV1Model, Seq<char>>(final(filter)@),
            Err(e) => pcm_step_16(Ok(old(filter)@), overrides@, ctx.env()) == Err::<PcmDdpV1Model, Seq<char>>(e@),
        },
{
    if let Some(v) = &overrides.ltrt_center_mix_level {
        match validate_string_param(ctx, "ltrt_center_mix_level", v.as_str()) {
            Ok(x) => {
                filter.ltrt_center_mix_level = x;
                Ok(())
            },
            Err(err) => Err(err),
        }
    } else {
        Ok(())
    }
}

fn apply_step_17(filter: &mut PcmDdpV1Filter, overrides: &FilterOverrides, ctx: &ParamCtx) -> (r: Result<(), String>)
    ensures
        match r {
            Ok(_) => pcm_step_17(Ok(old(filter)@), overrides@, ctx.env()) == Ok::<PcmDdpV1Model, Seq<char>>(final(filter)@),
            Err(e) => pcm_step_17(Ok(old(filter)@), overrides@, ctx.env()) == Err::<PcmDdpV1Model, Seq<char>>(e@),
        },
{
    if let Some(v) = &overrides.ltrt_surround_mix_level {
        match validate_string_param(ctx, "ltrt_surround_mix_level", v.as_str()) {
            Ok(x) => {
                filter.ltrt_surround_mix_level = x;
                Ok(())
            },
            Err(err) => Err(err),
        }
    } else {
        Ok(())
    }
}

fn apply_step_18(filter: &mut PcmDdpV1Filter, overrides: &FilterOverrides, ctx: &ParamCtx) -> (r: Result<(), String>)
    ensures
        match r {
            Ok(_) => pcm_step_18(Ok(old(filter)@), overrides@, ctx.env()) == Ok::<PcmDdpV1Model, Seq<char>>(final(filter)@),
            Err(e) => pcm_step_18(Ok(old(filter)@), overrides@, ctx.env()) == Err::<PcmDdpV1Model, Seq<char>>(e@),
        },
{
    if let Some(v) = &overrides.preferred_downmix_mode {
        match validate_string_param(ctx, "preferred_downmix_mode", v.as_str()) {
            Ok(x) => {
                filter.preferred_downmix_mode = x;
                Ok(())
            },
            Err(err) => Err(err),
        }
    } else {
        Ok(())
    }
}

fn apply_step_19(filter: &mut PcmDdpV1Filter, overrides: &FilterOverrides, ctx: &ParamCtx) -> (r: Result<(), String>)
    ensures
        match r {
            Ok(_) => pcm_step_19(Ok(old(filter)@), overrides@, ctx.env()) == Ok::<PcmDdpV1Model, Seq<char>>(final(filter)@),
            Err(e) => pcm_step_19(Ok(old(filter)@), overrides@, ctx.env()) == Err::<PcmDdpV1Model, Seq<char>>(e@),
        },
{
    if let Some(v) = overrides.custom_dialnorm {
        match validate_ranged_param(ctx, "custom_dialnorm", v as i64, -128, 127) {
            Ok(x) => {
                filter.custom_dialnorm = x as i8;
                Ok(())
            },
            Err(err) => Err(err),
        }
    } else {
        Ok(())
    }
}

fn apply_step_20(filter: &mut PcmDdpV1Filter, overrides: &FilterOverrides, ctx: &ParamCtx) -> (r: Result<(), String>)
    ensures
        match r {
            Ok(_) => pcm_step_20(Ok(old(filter)@), overrides@, ctx.env()) == Ok::<PcmDdpV1Model, Seq<char>>(final(filter)@),
            Err(e) => pcm_step_20(Ok(old(filter)@), overrides@, ctx.env()) == Err::<PcmDdpV1Model, Seq<char>>(e@),
        },
{
    if let Some(v) = &overrides.encoder_mode {
        match validate_string_param(ctx, "encoder_mode", v.as_str()) {
            Ok(x) => {
                filter.encoder_mode = x;
                Ok(())
            },
            Err(err) => Err(err),
        }
    } else {
        Ok(())
    }
}

fn apply_step_21(filter: &mut PcmDdpV1Filter, overrides: &FilterOverrides, ctx: &ParamCtx) -> (r: Result<(), String>)
    ensures
        match r {
            Ok(_) => pcm_step_21(Ok(old(filter)@), overrides@, ctx.env()) == Ok::<PcmDdpV1Model, Seq<char>>(final(filter)@),
            Err(e) => pcm_step_21(Ok(old(filter)@), overrides@, ctx.env()) == Err::<PcmDdpV1Model, Seq<char>>(e@),
        },
{
    match validate_ranged_param(ctx, "data_rate", filter.data_rate as i64, 0, 65535) {
        Ok(x) => {
            filter.data_rate = x as u16;
            Ok(())
        },
        Err(err) => Err(err),
    }
}

/// The steps after step `k` keep an error.
pub open spec fn pcm_rest(r: Result<PcmDdpV1Model, Seq<char>>, k: int, o: OverridesModel, e: ParamEnv) -> Result<PcmDdpV1Model, Seq<char>>
    decreases 21 - k,
{
    if k >= 21 {
        r
    } else {
        pcm_rest(pcm_step_at(r, k + 1, o, e), k + 1, o, e)
    }
}

/// Step `k` of the overrides.
pub open spec fn pcm_step_at(r: Result<PcmDdpV1Model, Seq<char>>, k: int, o: OverridesModel, e: ParamEnv) -> Result<PcmDdpV1Model, Seq<char>> {
    if k == 1 {
        pcm_step_1(r, o, e)
    } else if k == 2 {
        pcm_step_2(r, o, e)
    } else if k == 3 {
        pcm_step_3(r, o, e)
    } else if k == 4 {
        pcm_step_4(r, o, e)
    } else if k == 5 {
        pcm_step_5(r, o, e)
    } else if k == 6 {
        pcm_step_6(r, o, e)
    } else if k == 7 {
        pcm_step_7(r, o, e)
    } else if k == 8 {
        pcm_step_8(r, o, e)
    } else if k == 9 {
        pcm_step_9(r, o, e)
    } else if k == 10 {
        pcm_step_10(r, o, e)
    } else if k == 11 {
        pcm_step_11(r, o, e)
    } else if k == 12 {
        pcm_step_12(r, o, e)
    } else if k == 13 {
        pcm_step_13(r, o, e)
    } else if k == 14 {
        pcm_step_14(r, o, e)
    } else if k == 15 {
        pcm_step_15(r, o, e)
    } else if k == 16 {
        pcm_step_16(r, o, e)
    } else if k == 17 {
        pcm_step_17(r, o, e)
    } else if k == 18 {
        pcm_step_18(r, o, e)
    } else if k == 19 {
        pcm_step_19(r, o, e)
    } else if k == 20 {
        pcm_step_20(r, o, e)
    } else if k == 21 {
        pcm_step_21(r, o, e)
    } else {
        r
    }
}

proof fn lemma_pcm_rest_err(x: Seq<char>, k: int, o: OverridesModel, e: ParamEnv)
    ensures
        pcm_rest(Err(x), k, o, e) == Err::<PcmDdpV1Model, Seq<char>>(x),
    decreases 21 - k,
{
    if k < 21 {
        lemma_pcm_rest_err(x, k + 1, o, e);
    }
}

proof fn lemma_pcm_err_propagates(g: Result<PcmDdpV1Model, Seq<char>>, k: int, o: OverridesModel, e: ParamEnv)
    requires
        1 <= k <= 21,
        g is Err,
    ensures
        pcm_rest(g, k, o, e) == g,
{
    lemma_pcm_rest_err(g->Err_0, k, o, e);
}

/// Applies the job's overrides to the filter, validating each against the
/// schema of the template, in the order of the template's parameters.
pub fn apply_overrides(filter: &mut PcmDdpV1Filter, overrides: &FilterOverrides, ctx: &ParamCtx) -> (r: Result<(), String>)
    ensures
        match r {
            Ok(_) => pcm_apply(old(filter)@, overrides@, ctx.env()) == Ok::<PcmDdpV1Model, Seq<char>>(final(filter)@),
            Err(e) => pcm_apply(old(filter)@, overrides@, ctx.env()) == Err::<PcmDdpV1Model, Seq<char>>(e@),
        },
        pcm_unsupported(overrides@) is Some ==> final(filter)@ == old(filter)@,
{
    let ghost o = overrides@;
    let ghost e = ctx.env();
    let ghost f0 = filter@;
    let ghost mut g: Result<PcmDdpV1Model, Seq<char>> = Ok(filter@);
    proof {
        g = pcm_step_1(g, o, e);
    }
    match apply_step_1(filter, overrides, ctx) {
        Ok(()) => {},
        Err(err) => {
            proof {
                lemma_pcm_err_propagates(g, 1, o, e);
            }
            return Err(err);
        },
    }
    assert(g == Ok::<PcmDdpV1Model, Seq<char>>(filter@));
    assert(pcm_apply(f0, o, e) == pcm_rest(g, 1, o, e));
    proof {
        g = pcm_step_2(g, o, e);
    }
    match apply_step_2(filter, overrides, ctx) {
        Ok(()) => {},
        Err(err) => {
            proof {
                lemma_pcm_err_propagates(g, 2, o, e);
            }
            return Err(err);
        },
    }
    assert(g == Ok::<PcmDdpV1Model, Seq<char>>(filter@));
    assert(pcm_apply(f0, o, e) == pcm_rest(g, 2, o, e));
    proof {
        g = pcm_step_3(g, o, e);
    }
    match apply_step_3(filter, overrides, ctx) {
        Ok(()) => {},
        Err(err) => {
            proof {
                lemma_pcm_err_propagates(g, 3, o, e);
            }
            return Err(err);
        },
    }
    assert(g == Ok::<PcmDdpV1Model, Seq<char>>(filter@));
    assert(pcm_apply(f0, o, e) == pcm_rest(g, 3, o, e));
    proof {
        g = pcm_step_4(g, o, e);
    }
    match apply_step_4(filter, overrides, ctx) {
        Ok(()) => {},
        Err(err) => {
            proof {
                lemma_pcm_err_propagates(g, 4, o, e);
            }
            return Err(err);
        },
    }
    assert(g == Ok::<PcmDdpV1Model, Seq<char>>(filter@));
    assert(pcm_apply(f0, o, e) == pcm_rest(g, 4, o, e));
    proof {
        g = pcm_step_5(g, o, e);
    }
    match apply_step_5(filter, overrides, ctx) {
        Ok(()) => {},
        Err(err) => {
            proof {
                lemma_pcm_err_propagates(g, 5, o, e);
            }
            return Err(err);
        },
    }
    assert(g == Ok::<PcmDdpV1Model, Seq<char>>(filter@));
    assert(pcm_apply(f0, o, e) == pcm_rest(g, 5, o, e));
    proof {
        g = pcm_step_6(g, o, e);
    }
    match apply_step_6(filter, overrides, ctx) {
        Ok(()) => {},
        Err(err) => {
            proof {
                lemma_pcm_err_propagates(g, 6, o, e);
            }
            return Err(err);
        },
    }
    assert(g == Ok::<PcmDdpV1Model, Seq<char>>(filter@));
    assert(pcm_apply(f0, o, e) == pcm_rest(g, 6, o, e));
    proof {
        g = pcm_step_7(g, o, e);
    }
    match apply_step_7(filter, overrides, ctx) {
        Ok(()) => {},
        Err(err) => {
            proof {
                lemma_pcm_err_propagates(g, 7, o, e);
            }
            return Err(err);
        },
    }
    assert(g == Ok::<PcmDdpV1Model, Seq<char>>(filter@));
    assert(pcm_apply(f0, o, e) == pcm_rest(g, 7, o, e));
    proof {
        g = pcm_step_8(g, o, e);
    }
    match apply_step_8(filter, overrides, ctx) {
        Ok(()) => {},
        Err(err) => {
            proof {
                lemma_pcm_err_propagates(g, 8, o, e);
            }
            return Err(err);
        },
    }
    assert(g == Ok::<PcmDdpV1Model, Seq<char>>(filter@));
    assert(pcm_apply(f0, o, e) == pcm_rest(g, 8, o, e));
    proof {
        g = pcm_step_9(g, o, e);
    }
    match apply_step_9(filter, overrides, ctx) {
        Ok(()) => {},
        Err(err) => {
            proof {
                lemma_pcm_err_propagates(g, 9, o, e);
            }
            return Err(err);
        },
    }
    assert(g == Ok::<PcmDdpV1Model, Seq<char>>(filter@));
    assert(pcm_apply(f0, o, e) == pcm_rest(g, 9, o, e));
    proof {
        g = pcm_step_10(g, o, e);
    }
    match apply_step_10(filter, overrides, ctx) {
        Ok(()) => {},
        Err(err) => {
            proof {
                lemma_pcm_err_propagates(g, 10, o, e);
            }
            return Err(err);
        },
    }
    assert(g == Ok::<PcmDdpV1Model, Seq<char>>(filter@));
    assert(pcm_apply(f0, o, e) == pcm_rest(g, 10, o, e));
    proof {
        g = pcm_step_11(g, o, e);
    }
    match apply_step_11(filter, overrides, ctx) {
        Ok(()) => {},
        Err(err) => {
            proof {
                lemma_pcm_err_propagates(g, 11, o, e);
            }
            return Err(err);
        },
    }
    assert(g == Ok::<PcmDdpV1Model, Seq<char>>(filter@));
    assert(pcm_apply(f0, o, e) == pcm_rest(g, 11, o, e));
    proof {
        g = pcm_step_12(g, o, e);
    }
    match apply_step_12(filter, overrides, ctx) {
        Ok(()) => {},
        Err(err) => {
            proof {
                lemma_pcm_err_propagates(g, 12, o, e);
            }
            return Err(err);
        },
    }
    assert(g == Ok::<PcmDdpV1Model, Seq<char>>(filter@));
    assert(pcm_apply(f0, o, e) == pcm_rest(g, 12, o, e));
    proof {
        g = pcm_step_13(g, o, e);
    }
    match apply_step_13(filter, overrides, ctx) {
        Ok(()) => {},
        Err(err) => {
            proof {
                lemma_pcm_err_propagates(g, 13, o, e);
            }
            return Err(err);
        },
    }
    assert(g == Ok::<PcmDdpV1Model, Seq<char>>(filter@));
    assert(pcm_apply(f0, o, e) == pcm_rest(g, 13, o, e));
    proof {
        g = pcm_step_14(g, o, e);
    }
    match apply_step_14(filter, overrides, ctx) {
        Ok(()) => {},
        Err(err) => {
            proof {
                lemma_pcm_err_propagates(g, 14, o, e);
            }
            return Err(err);
        },
    }
    assert(g == Ok::<PcmDdpV1Model, Seq<char>>(filter@));
    assert(pcm_apply(f0, o, e) == pcm_rest(g, 14, o, e));
    proof {
        g = pcm_step_15(g, o, e);
    }
    match apply_step_15(filter, overrides, ctx) {
        Ok(()) => {},
        Err(err) => {
            proof {
                lemma_pcm_err_propagates(g, 15, o, e);
            }
            return Err(err);
        },
    }
    assert(g == Ok::<PcmDdpV1Model, Seq<char>>(filter@));
    assert(pcm_apply(f0, o, e) == pcm_rest(g, 15, o, e));
    proof {
        g = pcm_step_16(g, o, e);
    }
    match apply_step_16(filter, overrides, ctx) {
        Ok(()) => {},
        Err(err) => {
            proof {
                lemma_pcm_err_propagates(g, 16, o, e);
            }
            return Err(err);
        },
    }
    assert(g == Ok::<PcmDdpV1Model, Seq<char>>(filter@));
    assert(pcm_apply(f0, o, e) == pcm_rest(g, 16, o, e));
    proof {
        g = pcm_step_17(g, o, e);
    }
    match apply_step_17(filter, overrides, ctx) {
        Ok(()) => {},
        Err(err) => {
            proof {
                lemma_pcm_err_propagates(g, 17, o, e);
            }
            return Err(err);
        },
    }
    assert(g == Ok::<PcmDdpV1Model, Seq<char>>(filter@));
    assert(pcm_apply(f0, o, e) == pcm_rest(g, 17, o, e));
    proof {
        g = pcm_step_18(g, o, e);
    }
    match apply_step_18(filter, overrides, ctx) {
        Ok(()) => {},
        Err(err) => {
            proof {
                lemma_pcm_err_propagates(g, 18, o, e);
            }
            return Err(err);
        },
    }
    assert(g == Ok::<PcmDdpV1Model, Seq<char>>(filter@));
    assert(pcm_apply(f0, o, e) == pcm_rest(g, 18, o, e));
    proof {
        g = pcm_step_19(g, o, e);
    }
    match apply_step_19(filter, overrides, ctx) {
        Ok(()) => {},
        Err(err) => {
            proof {
                lemma_pcm_err_propagates(g, 19, o, e);
            }
            return Err(err);
        },
    }
    assert(g == Ok::<PcmDdpV1Model, Seq<char>>(filter@));
    assert(pcm_apply(f0, o, e) == pcm_rest(g, 19, o, e));
    proof {
        g = pcm_step_20(g, o, e);
    }
    match apply_step_20(filter, overrides, ctx) {
        Ok(()) => {},
        Err(err) => {
            proof {
                lemma_pcm_err_propagates(g, 20, o, e);
            }
            return Err(err);
        },
    }
    assert(g == Ok::<PcmDdpV1Model, Seq<char>>(filter@));
    assert(pcm_apply(f0, o, e) == pcm_rest(g, 20, o, e));
    proof {
        g = pcm_step_21(g, o, e);
    }
    match apply_step_21(filter, overrides, ctx) {
        Ok(()) => {},
        Err(err) => {
            proof {
                lemma_pcm_err_propagates(g, 21, o, e);
            }
            return Err(err);
        },
    }
    assert(g == Ok::<PcmDdpV1Model, Seq<char>>(filter@));
    assert(pcm_apply(f0, o, e) == pcm_rest(g, 21, o, e));
    Ok(())
}

/// The parameter values that constraints read, by key, the downmix
/// configuration that the mode constraints fix among them.
pub open spec fn pcm_values(m: PcmDdpV1Model) -> Seq<(Seq<char>, ValueModel)> {
    seq![("metering_mode"@, ValueModel::Str(m.metering_mode)), ("dialogue_intelligence"@, ValueModel::Bool(m.dialogue_intelligence)), ("speech_threshold"@, ValueModel::Int(m.speech_threshold as int)), ("data_rate"@, ValueModel::Int(m.data_rate as int)), ("timecode_frame_rate"@, ValueModel::Str(m.timecode_frame_rate)), ("start"@, ValueModel::Str(m.start)), ("end"@, ValueModel::Str(m.end)), ("time_base"@, ValueModel::Str(m.time_base)), ("prepend_silence_duration"@, ValueModel::Str(m.prepend_silence_duration)), ("append_silence_duration"@, ValueModel::Str(m.append_silence_duration)), ("line_mode_drc_profile"@, ValueModel::Str(m.line_mode_drc_profile)), ("rf_mode_drc_profile"@, ValueModel::Str(m.rf_mode_drc_profile)), ("loro_center_mix_level"@, ValueModel::Str(m.loro_center_mix_level)), ("loro_surround_mix_level"@, ValueModel::Str(m.loro_surround_mix_level)), ("ltrt_center_mix_level"@, ValueModel::Str(m.ltrt_center_mix_level)), ("ltrt_surround_mix_level"@, ValueModel::Str(m.ltrt_surround_mix_level)), ("preferred_downmix_mode"@, ValueModel::Str(m.preferred_downmix_mode)), ("custom_dialnorm"@, ValueModel::Int(m.custom_dialnorm as int)), ("encoder_mode"@, ValueModel::Str(m.encoder_mode)), ("downmix_config"@, ValueModel::Str(m.downmix_config))]
}

/// The parameter values that constraints read, by key.
pub fn constraint_values(f: &PcmDdpV1Filter) -> (r: Vec<(&'static str, Value)>)
    ensures
        values_model(r@) == pcm_values(f@),
{
    let mut r: Vec<(&'static str, Value)> = vec![("metering_mode", Value::Str(f.metering_mode.clone())), ("dialogue_intelligence", Value::Bool(f.dialogue_intelligence)), ("speech_threshold", Value::Int(f.speech_threshold as i64)), ("data_rate", Value::Int(f.data_rate as i64)), ("timecode_frame_rate", Value::Str(f.timecode_frame_rate.clone())), ("start", Value::Str(f.start.clone())), ("end", Value::Str(f.end.clone())), ("time_base", Value::Str(f.time_base.clone())), ("prepend_silence_duration", Value::Str(f.prepend_silence_duration.clone())), ("append_silence_duration", Value::Str(f.append_silence_duration.clone())), ("line_mode_drc_profile", Value::Str(f.line_mode_drc_profile.clone())), ("rf_mode_drc_profile", Value::Str(f.rf_mode_drc_profile.clone())), ("loro_center_mix_level", Value::Str(f.loro_center_mix_level.clone())), ("loro_surround_mix_level", Value::Str(f.loro_surround_mix_level.clone())), ("ltrt_center_mix_level", Value::Str(f.ltrt_center_mix_level.clone())), ("ltrt_surround_mix_level", Value::Str(f.ltrt_surround_mix_level.clone())), ("preferred_downmix_mode", Value::Str(f.preferred_downmix_mode.clone())), ("custom_dialnorm", Value::Int(f.custom_dialnorm as i64)), ("encoder_mode", Value::Str(f.encoder_mode.clone())), ("downmix_config", Value::Str(f.downmix_config.clone()))];
    assert(values_model(r@) =~= seq![("metering_mode"@, ValueModel::Str(f@.metering_mode)), ("dialogue_intelligence"@, ValueModel::Bool(f@.dialogue_intelligence)), ("speech_threshold"@, ValueModel::Int(f@.speech_threshold as int)), ("data_rate"@, ValueModel::Int(f@.data_rate as int)), ("timecode_frame_rate"@, ValueModel::Str(f@.timecode_frame_rate)), ("start"@, ValueModel::Str(f@.start)), ("end"@, ValueModel::Str(f@.end)), ("time_base"@, ValueModel::Str(f@.time_base)), ("prepend_silence_duration"@, ValueModel::Str(f@.prepend_silence_duration)), ("append_silence_duration"@, ValueModel::Str(f@.append_silence_duration)), ("line_mode_drc_profile"@, ValueModel::Str(f@.line_mode_drc_profile)), ("rf_mode_drc_profile"@, ValueModel::Str(f@.rf_mode_drc_profile)), ("loro_center_mix_level"@, ValueModel::Str(f@.loro_center_mix_level)), ("loro_surround_mix_level"@, ValueModel::Str(f@.loro_surround_mix_level)), ("ltrt_center_mix_level"@, ValueModel::Str(f@.ltrt_center_mix_level)), ("ltrt_surround_mix_level"@, ValueModel::Str(f@.ltrt_surround_mix_level)), ("preferred_downmix_mode"@, ValueModel::Str(f@.preferred_downmix_mode)), ("custom_dialnorm"@, ValueModel::Int(f@.custom_dialnorm as int)), ("encoder_mode"@, ValueModel::Str(f@.encoder_mode)), ("downmix_config"@, ValueModel::Str(f@.downmix_config))]);
    assert(values_model(r@) =~= pcm_values(f@));
    r
}

/// Whether the template can produce defaults for the mode.
pub open spec fn pcm_supports(mode: EncodeMode) -> bool {
    mode == EncodeMode::Dd || mode == EncodeMode::Ddp || mode == EncodeMode::Bluray
        || mode == EncodeMode::Ddp71
}

/// Default data rate and encoder mode of a mode.
pub open spec fn pcm_mode_defaults(mode: EncodeMode) -> (u16, Seq<char>) {
    match mode {
        EncodeMode::Dd => (384, "dd"@),
        EncodeMode::Ddp => (768, "ddp"@),
        EncodeMode::Bluray => (1536, "bluray"@),
        _ => (448, "ddp71"@),
    }
}

/// Default filter of a profile and mode.
pub open spec fn pcm_defaults(profile: Profile, mode: EncodeMode) -> PcmDdpV1Model {
    let music = profile == Profile::Music;
    PcmDdpV1Model {
        metering_mode: "1770-4"@,
        dialogue_intelligence: !music,
        speech_threshold: if music { 100 } else { 15 },
        data_rate: pcm_mode_defaults(mode).0,
        timecode_frame_rate: "not_indicated"@,
        start: "first_frame_of_action"@,
        end: "end_of_file"@,
        time_base: "file_position"@,
        prepend_silence_duration: "0.0"@,
        append_silence_duration: "0.0"@,
        line_mode_drc_profile: if music { "music_light"@ } else { "film_light"@ },
        rf_mode_drc_profile: if music { "music_light"@ } else { "film_light"@ },
        loro_center_mix_level: "-3"@,
        loro_surround_mix_level: "-3"@,
        ltrt_center_mix_level: "-3"@,
        ltrt_surround_mix_level: "-3"@,
        preferred_downmix_mode: "loro"@,
        custom_dialnorm: 0,
        encoder_mode: pcm_mode_defaults(mode).1,
        bitstream_mode: "complete_main"@,
        downmix_config: if mode == EncodeMode::Dd || mode == EncodeMode::Ddp { "5.1"@ } else { "off"@ },
        lfe_on: true,
        dolby_surround_mode: "not_indicated"@,
        dolby_surround_ex_mode: "no"@,
        user_data: -1i32,
        lfe_lowpass_filter: true,
        surround_90_degree_phase_shift: true,
        surround_3db_attenuation: true,
        allow_hybrid_downmix: false,
        starting_timecode: "off"@,
        frame_rate: "auto"@,
    }
}

/// The default filter of a profile in a mode the template supports.
pub fn defaults(profile: Profile, encode_mode: EncodeMode) -> (r: PcmDdpV1Filter)
    requires
        pcm_supports(encode_mode),
    ensures
        r@ == pcm_defaults(profile, encode_mode),
{
    let music = match profile {
        Profile::Music => true,
        Profile::Standard => false,
    };
    let (data_rate, mode, downmix): (u16, &str, &str) = match encode_mode {
        EncodeMode::Dd => (384, "dd", "5.1"),
        EncodeMode::Ddp => (768, "ddp", "5.1"),
        EncodeMode::Bluray => (1536, "bluray", "off"),
        _ => (448, "ddp71", "off"),
    };
    let drc = if music { "music_light" } else { "film_light" };
    PcmDdpV1Filter {
        metering_mode: owned("1770-4"),
        dialogue_intelligence: !music,
        speech_threshold: if music { 100 } else { 15 },
        data_rate,
        timecode_frame_rate: owned("not_indicated"),
        start: owned("first_frame_of_action"),
        end: owned("end_of_file"),
        time_base: owned("file_position"),
        prepend_silence_duration: owned("0.0"),
        append_silence_duration: owned("0.0"),
        line_mode_drc_profile: owned(drc),
        rf_mode_drc_profile: owned(drc),
        loro_center_mix_level: owned("-3"),
        loro_surround_mix_level: owned("-3"),
        ltrt_center_mix_level: owned("-3"),
        ltrt_surround_mix_level: owned("-3"),
        preferred_downmix_mode: owned("loro"),
        custom_dialnorm: 0,
        encoder_mode: owned(mode),
        bitstream_mode: owned("complete_main"),
        downmix_config: owned(downmix),
        lfe_on: true,
        dolby_surround_mode: owned("not_indicated"),
        dolby_surround_ex_mode: owned("no"),
        user_data: -1,
        lfe_lowpass_filter: true,
        surround_90_degree_phase_shift: true,
        surround_3db_attenuation: true,
        allow_hybrid_downmix: false,
        starting_timecode: owned("off"),
        frame_rate: owned("auto"),
    }
}

/// Whether an optional parameter is set: the encoder mode, where it is not
/// empty.
pub open spec fn pcm_param_some(m: PcmDdpV1Model, key: Seq<char>) -> bool {
    key == "encoder_mode"@ && m.encoder_mode.len() != 0
}

/// Whether an optional parameter is set.
pub fn param_some(f: &PcmDdpV1Filter, key: &str) -> (r: bool)
    ensures
        r == pcm_param_some(f@, key@),
{
    crate::text::str_eq(key, "encoder_mode") && f.encoder_mode.as_str().unicode_len() != 0
}


proof fn lemma_pcm_value_keys(m: PcmDdpV1Model)
    ensures
        pcm_values(m).len() == 20,
        forall|j: int|
            0 <= j < 19 ==> (j < 1 ==> pcm_values(m)[j].0 != "dialogue_intelligence"@) && (j < 2 ==> pcm_values(m)[j].0 != "speech_threshold"@) && (j < 10 ==> pcm_values(m)[j].0 != "line_mode_drc_profile"@) && (j < 11 ==> pcm_values(m)[j].0 != "rf_mode_drc_profile"@) && (j < 18 ==> pcm_values(m)[j].0 != "encoder_mode"@) && (j < 19 ==> pcm_values(m)[j].0 != "downmix_config"@),
{
    let vs = pcm_values(m);
    reveal_strlit("metering_mode");
    reveal_strlit("dialogue_intelligence");
    reveal_strlit("speech_threshold");
    reveal_strlit("data_rate");
    reveal_strlit("timecode_frame_rate");
    reveal_strlit("start");
    reveal_strlit("end");
    reveal_strlit("time_base");
    reveal_strlit("prepend_silence_duration");
    reveal_strlit("append_silence_duration");
    reveal_strlit("line_mode_drc_profile");
    reveal_strlit("rf_mode_drc_profile");
    reveal_strlit("loro_center_mix_level");
    reveal_strlit("loro_surround_mix_level");
    reveal_strlit("ltrt_center_mix_level");
    reveal_strlit("ltrt_surround_mix_level");
    reveal_strlit("preferred_downmix_mode");
    reveal_strlit("custom_dialnorm");
    reveal_strlit("encoder_mode");
    reveal_strlit("downmix_config");
    assert forall|j: int| 0 <= j < 19 implies (j < 1 ==> vs[j].0 != "dialogue_intelligence"@) && (j < 2 ==> vs[j].0 != "speech_threshold"@) && (j < 10 ==> vs[j].0 != "line_mode_drc_profile"@) && (j < 11 ==> vs[j].0 != "rf_mode_drc_profile"@) && (j < 18 ==> vs[j].0 != "encoder_mode"@) && (j < 19 ==> vs[j].0 != "downmix_config"@) by {
        if j == 0 {
            assert(vs[0].0 == "metering_mode"@);
            assert(vs[0].0[0] != "dialogue_intelligence"@[0]);
            assert(vs[0].0[0] != "speech_threshold"@[0]);
            assert(vs[0].0[0] != "line_mode_drc_profile"@[0]);
            assert(vs[0].0[0] != "rf_mode_drc_profile"@[0]);
            assert(vs[0].0[0] != "encoder_mode"@[0]);
            assert(vs[0].0[0] != "downmix_config"@[0]);
            assert(vs[0].0 != "dialogue_intelligence"@ && vs[0].0 != "speech_threshold"@ && vs[0].0 != "line_mode_drc_profile"@ && vs[0].0 != "rf_mode_drc_profile"@ && vs[0].0 != "encoder_mode"@ && vs[0].0 != "downmix_config"@);
        } else if j == 1 {
            assert(vs[1].0 == "dialogue_intelligence"@);
            assert(vs[1].0[0] != "speech_threshold"@[0]);
            assert(vs[1].0[0] != "line_mode_drc_profile"@[0]);
            assert(vs[1].0[0] != "rf_mode_drc_profile"@[0]);
            assert(vs[1].0[0] != "encoder_mode"@[0]);
            assert(vs[1].0[1] != "downmix_config"@[1]);
            assert(vs[1].0 != "speech_threshold"@ && vs[1].0 != "line_mode_drc_profile"@ && vs[1].0 != "rf_mode_drc_profile"@ && vs[1].0 != "encoder_mode"@ && vs[1].0 != "downmix_config"@);
        } else if j == 2 {
            assert(vs[2].0 == "speech_threshold"@);
            assert(vs[2].0[0] != "line_mode_drc_profile"@[0]);
            assert(vs[2].0[0] != "rf_mode_drc_profile"@[0]);
            assert(vs[2].0[0] != "encoder_mode"@[0]);
            assert(vs[2].0[0] != "downmix_config"@[0]);
            assert(vs[2].0 != "line_mode_drc_profile"@ && vs[2].0 != "rf_mode_drc_profile"@ && vs[2].0 != "encoder_mode"@ && vs[2].0 != "downmix_config"@);
        } else if j == 3 {
            assert(vs[3].0 == "data_rate"@);
            assert(vs[3].0[0] != "line_mode_drc_profile"@[0]);
            assert(vs[3].0[0] != "rf_mode_drc_profile"@[0]);
            assert(vs[3].0[0] != "encoder_mode"@[0]);
            assert(vs[3].0[1] != "downmix_config"@[1]);
            assert(vs[3].0 != "line_mode_drc_profile"@ && vs[3].0 != "rf_mode_drc_profile"@ && vs[3].0 != "encoder_mode"@ && vs[3].0 != "downmix_config"@);
        } else if j == 4 {
            assert(vs[4].0 == "timecode_frame_rate"@);
            assert(vs[4].0[0] != "line_mode_drc_profile"@[0]);
            assert(vs[4].0[0] != "rf_mode_drc_profile"@[0]);
            assert(vs[4].0[0] != "encoder_mode"@[0]);
            assert(vs[4].0[0] != "downmix_config"@[0]);
            assert(vs[4].0 != "line_mode_drc_profile"@ && vs[4].0 != "rf_mode_drc_profile"@ && vs[4].0 != "encoder_mode"@ && vs[4].0 != "downmix_config"@);
        } else if j == 5 {
            assert(vs[5].0 == "start"@);
            assert(vs[5].0[0] != "line_mode_drc_profile"@[0]);
            assert(vs[5].0[0] != "rf_mode_drc_profile"@[0]);
            assert(vs[5].0[0] != "encoder_mode"@[0]);
            assert(vs[5].0[0] != "downmix_config"@[0]);
            assert(vs[5].0 != "line_mode_drc_profile"@ && vs[5].0 != "rf_mode_drc_profile"@ && vs[5].0 != "encoder_mode"@ && vs[5].0 != "downmix_config"@);
        } else if j == 6 {
            assert(vs[6].0 == "end"@);
            assert(vs[6].0[0] != "line_mode_drc_profile"@[0]);
            assert(vs[6].0[0] != "rf_mode_drc_profile"@[0]);
            assert(vs[6].0[2] != "encoder_mode"@[2]);
            assert(vs[6].0[0] != "downmix_config"@[0]);
            assert(vs[6].0 != "line_mode_drc_profile"@ && vs[6].0 != "rf_mode_drc_profile"@ && vs[6].0 != "encoder_mode"@ && vs[6].0 != "downmix_config"@);
        } else if j == 7 {
            assert(vs[7].0 == "time_base"@);
            assert(vs[7].0[0] != "line_mode_drc_profile"@[0]);
            assert(vs[7].0[0] != "rf_mode_drc_profile"@[0]);
            assert(vs[7].0[0] != "encoder_mode"@[0]);
            assert(vs[7].0[0] != "downmix_config"@[0]);
            assert(vs[7].0 != "line_mode_drc_profile"@ && vs[7].0 != "rf_mode_drc_profile"@ && vs[7].0 != "encoder_mode"@ && vs[7].0 != "downmix_config"@);
        } else if j == 8 {
            assert(vs[8].0 == "prepend_silence_duration"@);
            assert(vs[8].0[0] != "line_mode_drc_profile"@[0]);
            assert(vs[8].0[0] != "rf_mode_drc_profile"@[0]);
            assert(vs[8].0[0] != "encoder_mode"@[0]);
            assert(vs[8].0[0] != "downmix_config"@[0]);
            assert(vs[8].0 != "line_mode_drc_profile"@ && vs[8].0 != "rf_mode_drc_profile"@ && vs[8].0 != "encoder_mode"@ && vs[8].0 != "downmix_config"@);
        } else if j == 9 {
            assert(vs[9].0 == "append_silence_duration"@);
            assert(vs[9].0[0] != "line_mode_drc_profile"@[0]);
            assert(vs[9].0[0] != "rf_mode_drc_profile"@[0]);
            assert(vs[9].0[0] != "encoder_mode"@[0]);
            assert(vs[9].0[0] != "downmix_config"@[0]);
            assert(vs[9].0 != "line_mode_drc_profile"@ && vs[9].0 != "rf_mode_drc_profile"@ && vs[9].0 != "encoder_mode"@ && vs[9].0 != "downmix_config"@);
        } else if j == 10 {
            assert(vs[10].0 == "line_mode_drc_profile"@);
            assert(vs[10].0[0] != "rf_mode_drc_profile"@[0]);
            assert(vs[10].0[0] != "encoder_mode"@[0]);
            assert(vs[10].0[0] != "downmix_config"@[0]);
            assert(vs[10].0 != "rf_mode_drc_profile"@ && vs[10].0 != "encoder_mode"@ && vs[10].0 != "downmix_config"@);
        } else if j == 11 {
            assert(vs[11].0 == "rf_mode_drc_profile"@);
            assert(vs[11].0[0] != "encoder_mode"@[0]);
            assert(vs[11].0[0] != "downmix_config"@[0]);
            assert(vs[11].0 != "encoder_mode"@ && vs[11].0 != "downmix_config"@);
        } else if j == 12 {
            assert(vs[12].0 == "loro_center_mix_level"@);
            assert(vs[12].0[0] != "encoder_mode"@[0]);
            assert(vs[12].0[0] != "downmix_config"@[0]);
            assert(vs[12].0 != "encoder_mode"@ && vs[12].0 != "downmix_config"@);
        } else if j == 13 {
            assert(vs[13].0 == "loro_surround_mix_level"@);
            assert(vs[13].0[0] != "encoder_mode"@[0]);
            assert(vs[13].0[0] != "downmix_config"@[0]);
            assert(vs[13].0 != "encoder_mode"@ && vs[13].0 != "downmix_config"@);
        } else if j == 14 {
            assert(vs[14].0 == "ltrt_center_mix_level"@);
            assert(vs[14].0[0] != "encoder_mode"@[0]);
            assert(vs[14].0[0] != "downmix_config"@[0]);
            assert(vs[14].0 != "encoder_mode"@ && vs[14].0 != "downmix_config"@);
        } else if j == 15 {
            assert(vs[15].0 == "ltrt_surround_mix_level"@);
            assert(vs[15].0[0] != "encoder_mode"@[0]);
            assert(vs[15].0[0] != "downmix_config"@[0]);
            assert(vs[15].0 != "encoder_mode"@ && vs[15].0 != "downmix_config"@);
        } else if j == 16 {
            assert(vs[16].0 == "preferred_downmix_mode"@);
            assert(vs[16].0[0] != "encoder_mode"@[0]);
            assert(vs[16].0[0] != "downmix_config"@[0]);
            assert(vs[16].0 != "encoder_mode"@ && vs[16].0 != "downmix_config"@);
        } else if j == 17 {
            assert(vs[17].0 == "custom_dialnorm"@);
            assert(vs[17].0[0] != "encoder_mode"@[0]);
            assert(vs[17].0[0] != "downmix_config"@[0]);
            assert(vs[17].0 != "encoder_mode"@ && vs[17].0 != "downmix_config"@);
        } else if j == 18 {
            assert(vs[18].0 == "encoder_mode"@);
            assert(vs[18].0[0] != "downmix_config"@[0]);
            assert(vs[18].0 != "downmix_config"@);
        }
    }
}

/// The template's defaults meet its own constraints, for each profile and
/// each encode mode the template supports, without the fixed-field
/// override.
pub proof fn law_pcm_defaults_meet_constraints(profile: Profile, mode: EncodeMode)
    requires
        pcm_supports(mode),
    ensures
        crate::schema::constraints_outcome(
            pcm_constraints(),
            crate::spec::spec_profile_name(profile),
            crate::spec::spec_encode_mode_name(mode),
            false,
            pcm_values(pcm_defaults(profile, mode)),
        ) is Ok,
{
    reveal_strlit("standard");
    reveal_strlit("music");
    reveal_strlit("dd");
    reveal_strlit("ddp");
    reveal_strlit("bluray");
    reveal_strlit("ddp71");
    let m = pcm_defaults(profile, mode);
    let vs = pcm_values(m);
    lemma_pcm_value_keys(m);
    crate::schema::lemma_read_value_at(vs, "dialogue_intelligence"@, 1);
    crate::schema::lemma_read_value_at(vs, "speech_threshold"@, 2);
    crate::schema::lemma_read_value_at(vs, "line_mode_drc_profile"@, 10);
    crate::schema::lemma_read_value_at(vs, "rf_mode_drc_profile"@, 11);
    crate::schema::lemma_read_value_at(vs, "encoder_mode"@, 18);
    assert(vs[18].0 != "downmix_config"@) by {
        reveal_strlit("encoder_mode");
        reveal_strlit("downmix_config");
        assert(vs[18].0[0] != "downmix_config"@[0]);
    }
    crate::schema::lemma_read_value_at(vs, "downmix_config"@, 19);
    reveal_with_fuel(crate::schema::conflicting_fields, 5);
    reveal_with_fuel(crate::schema::constraints_outcome, 10);
}

/// The overrides of steps 1 to `k` that the filter holds: each such
/// override that is set is the filter's value (string values up to ASCII
/// case, as enum values come back canonical).
pub open spec fn pcm_overrides_held(m: PcmDdpV1Model, o: OverridesModel, k: int) -> bool {
    (k >= 2 ==> (o.metering_mode matches Some(v) ==> seq_lower(m.metering_mode) == seq_lower(v)))
        && (k >= 3 ==> (o.dialogue_intelligence matches Some(v) ==> m.dialogue_intelligence == v))
        && (k >= 4 ==> (o.speech_threshold matches Some(v) ==> m.speech_threshold as int == v))
        && (k >= 5 ==> (o.data_rate matches Some(v) ==> m.data_rate as int == v))
        && (k >= 6 ==> (o.timecode_frame_rate matches Some(v) ==> seq_lower(m.timecode_frame_rate) == seq_lower(v)))
        && (k >= 7 ==> (o.start matches Some(v) ==> seq_lower(m.start) == seq_lower(v)))
        && (k >= 8 ==> (o.end matches Some(v) ==> seq_lower(m.end) == seq_lower(v)))
        && (k >= 9 ==> (o.time_base matches Some(v) ==> seq_lower(m.time_base) == seq_lower(v)))
        && (k >= 10 ==> (o.prepend_silence_duration matches Some(v) ==> seq_lower(m.prepend_silence_duration) == seq_lower(v)))
        && (k >= 11 ==> (o.append_silence_duration matches Some(v) ==> seq_lower(m.append_silence_duration) == seq_lower(v)))
        && (k >= 12 ==> (o.line_mode_drc_profile matches Some(v) ==> seq_lower(m.line_mode_drc_profile) == seq_lower(v)))
        && (k >= 13 ==> (o.rf_mode_drc_profile matches Some(v) ==> seq_lower(m.rf_mode_drc_profile) == seq_lower(v)))
        && (k >= 14 ==> (o.loro_center_mix_level matches Some(v) ==> seq_lower(m.loro_center_mix_level) == seq_lower(v)))
        && (k >= 15 ==> (o.loro_surround_mix_level matches Some(v) ==> seq_lower(m.loro_surround_mix_level) == seq_lower(v)))
        && (k >= 16 ==> (o.ltrt_center_mix_level matches Some(v) ==> seq_lower(m.ltrt_center_mix_level) == seq_lower(v)))
        && (k >= 17 ==> (o.ltrt_surround_mix_level matches Some(v) ==> seq_lower(m.ltrt_surround_mix_level) == seq_lower(v)))
        && (k >= 18 ==> (o.preferred_downmix_mode matches Some(v) ==> seq_lower(m.preferred_downmix_mode) == seq_lower(v)))
        && (k >= 19 ==> (o.custom_dialnorm matches Some(v) ==> m.custom_dialnorm as int == v))
        && (k >= 20 ==> (o.encoder_mode matches Some(v) ==> seq_lower(m.encoder_mode) == seq_lower(v)))
}

proof fn lemma_pcm_step_keeps(m: PcmDdpV1Model, k: int, o: OverridesModel, e: ParamEnv)
    requires
        1 <= k <= 21,
        pcm_overrides_held(m, o, k - 1),
    ensures
        pcm_step_at(Ok(m), k, o, e) matches Ok(m2) ==> pcm_overrides_held(m2, o, k),
{
    if k == 2 {
        if let Some(v) = o.metering_mode {
            crate::template::params::lemma_str_param_value(e, "metering_mode"@, v);
        }
    } else if k == 3 {
        if let Some(v) = o.dialogue_intelligence {
            crate::template::params::lemma_bool_param_value(e, "dialogue_intelligence"@, v);
        }
    } else if k == 4 {
        if let Some(v) = o.speech_threshold {
            crate::template::params::lemma_ranged_param_value(e, "speech_threshold"@, v, 0, 255);
        }
    } else if k == 5 {
        if let Some(v) = o.data_rate {
            crate::template::params::lemma_ranged_param_value(e, "data_rate"@, v, 0, 65535);
        }
    } else if k == 6 {
        if let Some(v) = o.timecode_frame_rate {
            crate::template::params::lemma_str_param_value(e, "timecode_frame_rate"@, v);
        }
    } else if k == 7 {
        if let Some(v) = o.start {
            crate::template::params::lemma_str_param_value(e, "start"@, v);
        }
    } else if k == 8 {
        if let Some(v) = o.end {
            crate::template::params::lemma_str_param_value(e, "end"@, v);
        }
    } else if k == 9 {
        if let Some(v) = o.time_base {
            crate::template::params::lemma_str_param_value(e, "time_base"@, v);
        }
    } else if k == 10 {
        if let Some(v) = o.prepend_silence_duration {
            crate::template::params::lemma_str_param_value(e, "prepend_silence_duration"@, v);
        }
    } else if k == 11 {
        if let Some(v) = o.append_silence_duration {
            crate::template::params::lemma_str_param_value(e, "append_silence_duration"@, v);
        }
    } else if k == 12 {
        if let Some(v) = o.line_mode_drc_profile {
            crate::template::params::lemma_str_param_value(e, "line_mode_drc_profile"@, v);
        }
    } else if k == 13 {
        if let Some(v) = o.rf_mode_drc_profile {
            crate::template::params::lemma_str_param_value(e, "rf_mode_drc_profile"@, v);
        }
    } else if k == 14 {
        if let Some(v) = o.loro_center_mix_level {
            crate::template::params::lemma_str_param_value(e, "loro_center_mix_level"@, v);
        }
    } else if k == 15 {
        if let Some(v) = o.loro_surround_mix_level {
            crate::template::params::lemma_str_param_value(e, "loro_surround_mix_level"@, v);
        }
    } else if k == 16 {
        if let Some(v) = o.ltrt_center_mix_level {
            crate::template::params::lemma_str_param_value(e, "ltrt_center_mix_level"@, v);
        }
    } else if k == 17 {
        if let Some(v) = o.ltrt_surround_mix_level {
            crate::template::params::lemma_str_param_value(e, "ltrt_surround_mix_level"@, v);
        }
    } else if k == 18 {
        if let Some(v) = o.preferred_downmix_mode {
            crate::template::params::lemma_str_param_value(e, "preferred_downmix_mode"@, v);
        }
    } else if k == 19 {
        if let Some(v) = o.custom_dialnorm {
            crate::template::params::lemma_ranged_param_value(e, "custom_dialnorm"@, v, -128, 127);
        }
    } else if k == 20 {
        if let Some(v) = o.encoder_mode {
            crate::template::params::lemma_str_param_value(e, "encoder_mode"@, v);
        }
    } else if k == 21 {
        crate::template::params::lemma_ranged_param_value(e, "data_rate"@, m.data_rate as int, 0, 65535);
    }
}

proof fn lemma_pcm_rest_keeps(r: Result<PcmDdpV1Model, Seq<char>>, k: int, o: OverridesModel, e: ParamEnv)
    requires
        0 <= k <= 21,
        r matches Ok(m) ==> pcm_overrides_held(m, o, k),
    ensures
        pcm_rest(r, k, o, e) matches Ok(m2) ==> pcm_overrides_held(m2, o, 21),
    decreases 21 - k,
{
    if k < 21 {
        let r2 = pcm_step_at(r, k + 1, o, e);
        match r {
            Ok(m) => lemma_pcm_step_keeps(m, k + 1, o, e),
            Err(x) => assert(r2 == r),
        }
        lemma_pcm_rest_keeps(r2, k + 1, o, e);
    }
}

/// An override that validates is what the filter holds afterwards: where
/// the overrides apply, each parameter that the job sets has the job's
/// value (string values up to ASCII case, since an enum value comes back
/// in its canonical spelling).
pub proof fn law_pcm_overrides_hold(f: PcmDdpV1Model, o: OverridesModel, e: ParamEnv)
    ensures
        pcm_apply(f, o, e) matches Ok(m) ==> {
            (o.metering_mode matches Some(v) ==> seq_lower(m.metering_mode) == seq_lower(v))
            && (o.dialogue_intelligence matches Some(v) ==> m.dialogue_intelligence == v)
            && (o.speech_threshold matches Some(v) ==> m.speech_threshold as int == v)
            && (o.data_rate matches Some(v) ==> m.data_rate as int == v)
            && (o.timecode_frame_rate matches Some(v) ==> seq_lower(m.timecode_frame_rate) == seq_lower(v))
            && (o.start matches Some(v) ==> seq_lower(m.start) == seq_lower(v))
            && (o.end matches Some(v) ==> seq_lower(m.end) == seq_lower(v))
            && (o.time_base matches Some(v) ==> seq_lower(m.time_base) == seq_lower(v))
            && (o.prepend_silence_duration matches Some(v) ==> seq_lower(m.prepend_silence_duration) == seq_lower(v))
            && (o.append_silence_duration matches Some(v) ==> seq_lower(m.append_silence_duration) == seq_lower(v))
            && (o.line_mode_drc_profile matches Some(v) ==> seq_lower(m.line_mode_drc_profile) == seq_lower(v))
            && (o.rf_mode_drc_profile matches Some(v) ==> seq_lower(m.rf_mode_drc_profile) == seq_lower(v))
            && (o.loro_center_mix_level matches Some(v) ==> seq_lower(m.loro_center_mix_level) == seq_lower(v))
            && (o.loro_surround_mix_level matches Some(v) ==> seq_lower(m.loro_surround_mix_level) == seq_lower(v))
            && (o.ltrt_center_mix_level matches Some(v) ==> seq_lower(m.ltrt_center_mix_level) == seq_lower(v))
            && (o.ltrt_surround_mix_level matches Some(v) ==> seq_lower(m.ltrt_surround_mix_level) == seq_lower(v))
            && (o.preferred_downmix_mode matches Some(v) ==> seq_lower(m.preferred_downmix_mode) == seq_lower(v))
            && (o.custom_dialnorm matches Some(v) ==> m.custom_dialnorm as int == v)
            && (o.encoder_mode matches Some(v) ==> seq_lower(m.encoder_mode) == seq_lower(v))
        },
{
    lemma_pcm_rest_keeps(Ok(f), 0, o, e);
}

} // verus!
