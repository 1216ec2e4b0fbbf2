//! `thd_atmos_wav_v1`: a Dolby Atmos mezzanine mixed with a WAV file, to
//! Dolby TrueHD.
//!
//! The encoder settings are those of `thd_v1`; the template adds the timing
//! of the WAV input (its timecode frame rate, offset and FFOA).
use vstd::prelude::*;

pub mod json;
pub mod xml;

use crate::decode::OverridesModel;
use crate::media::InputMediaInfo;
use crate::schema::{
    schemas_model, values_model, AvailModel, ModeAvailability, ParamRule, ParamSchema, RuleModel,
    SchemaModel, SourceTag, Value, ValueModel,
};
use crate::spec::{EncodeMode, FilterOverrides, Profile};
use crate::template::params::{str_param, validate_string_param, ParamCtx, ParamEnv};
use crate::template::thd_v1::{self, ThdV1Filter, ThdV1Model};
use crate::template::timecode::is_timecode;
use crate::text::{owned, seq_lower};

verus! {

/// Template id.
pub const ID: &'static str = "thd_atmos_wav_v1";

/// Template id.
pub open spec fn thd_atmos_wav_id() -> Seq<char> {
    "thd_atmos_wav_v1"@
}

/// Resolved filter parameters of the template: the timing of the WAV input
/// and the TrueHD encoder settings.
#[derive(Debug, Clone)]
pub struct ThdAtmosWavV1Filter {
    pub input_timecode_frame_rate: String,
    pub offset: String,
    pub ffoa: String,
    pub encode: ThdV1Filter,
}

/// Model of the filter.
pub struct ThdAtmosWavV1Model {
    pub input_timecode_frame_rate: Seq<char>,
    pub offset: Seq<char>,
    pub ffoa: Seq<char>,
    pub encode: ThdV1Model,
}

impl View for ThdAtmosWavV1Filter {
    type V = ThdAtmosWavV1Model;

    open spec fn view(&self) -> ThdAtmosWavV1Model {
        ThdAtmosWavV1Model {
            input_timecode_frame_rate: self.input_timecode_frame_rate@,
            offset: self.offset@,
            ffoa: self.ffoa@,
            encode: self.encode@,
        }
    }
}

/// The parameters of the WAV input's timing.
pub open spec fn input_schemas() -> Seq<SchemaModel> {
    seq![
        SchemaModel {
            key: "input_timecode_frame_rate"@,
            rule: RuleModel::Enum(seq!["not_indicated"@, "23.976"@, "24"@, "25"@, "29.97"@, "30"@, "48"@, "50"@, "59.94"@, "60"@]),
            avail: AvailModel::All,
            sources: seq![SourceTag::DolbyOfficial],
        },
        SchemaModel { key: "offset"@, rule: RuleModel::FreeString, avail: AvailModel::All, sources: seq![SourceTag::DolbyOfficial] },
        SchemaModel { key: "ffoa"@, rule: RuleModel::FreeString, avail: AvailModel::All, sources: seq![SourceTag::DolbyOfficial] },
    ]
}

/// The parameters of the template: the WAV timing, then the encoder's.
pub open spec fn thd_atmos_wav_schemas() -> Seq<SchemaModel> {
    input_schemas() + thd_v1::thd_schemas()
}

/// The parameters of the template.
pub fn param_schemas() -> (r: Vec<ParamSchema>)
    ensures
        schemas_model(r@) == thd_atmos_wav_schemas(),
{
    let mut r = vec![
        ParamSchema {
            key: "input_timecode_frame_rate",
            rule: ParamRule::Enum(vec!["not_indicated", "23.976", "24", "25", "29.97", "30", "48", "50", "59.94", "60"]),
            mode_availability: ModeAvailability::All,
            sources: vec![SourceTag::DolbyOfficial],
        },
        ParamSchema {
            key: "offset",
            rule: ParamRule::FreeString,
            mode_availability: ModeAvailability::All,
            sources: vec![SourceTag::DolbyOfficial],
        },
        ParamSchema {
            key: "ffoa",
            rule: ParamRule::FreeString,
            mode_availability: ModeAvailability::All,
            sources: vec![SourceTag::DolbyOfficial],
        },
    ];
    assert(schemas_model(r@) =~~= input_schemas());
    let ghost first = r@;
    let mut rest = thd_v1::param_schemas();
    let ghost second = rest@;
    r.append(&mut rest);
    assert(r@ == first + second);
    assert(schemas_model(r@) =~~= schemas_model(first) + schemas_model(second));
    r
}

/// Default filter: the WAV input follows the mezzanine's timing, and the
/// encoder settings are the TrueHD defaults.
pub open spec fn thd_atmos_wav_defaults() -> ThdAtmosWavV1Model {
    ThdAtmosWavV1Model {
        input_timecode_frame_rate: "not_indicated"@,
        offset: "auto"@,
        ffoa: "auto"@,
        encode: thd_v1::thd_defaults(),
    }
}

/// The default filter, in the mode the template supports.
pub fn defaults(profile: Profile, encode_mode: EncodeMode) -> (r: ThdAtmosWavV1Filter)
    requires
        thd_v1::thd_supports(encode_mode),
    ensures
        r@ == thd_atmos_wav_defaults(),
{
    ThdAtmosWavV1Filter {
        input_timecode_frame_rate: owned("not_indicated"),
        offset: owned("auto"),
        ffoa: owned("auto"),
        encode: thd_v1::defaults(profile, encode_mode),
    }
}

/// The first override that the template does not support: the same
/// settings as for `thd_v1`.
pub open spec fn thd_atmos_wav_unsupported(o: OverridesModel) -> Option<Seq<char>> {
    thd_v1::thd_unsupported(o)
}

/// The refusal of an unsupported override. The check is the one of the
/// single-WAV TrueHD template, and its message names that template.
pub open spec fn unsupported_error(field: Seq<char>) -> Seq<char> {
    "parameter '"@ + field + "' is not supported by template_id 'thd_wav_v1'"@
}

/// An offset or FFOA of the WAV input: `auto` or a timecode.
pub open spec fn input_timecode_outcome(key: Seq<char>, value: Seq<char>) -> Result<Seq<char>, Seq<char>> {
    if value == "auto"@ || is_timecode(value) {
        Ok(value)
    } else {
        Err("invalid value '"@ + value + "' for "@ + key + "; expected auto, HH:MM:SS:FF[df], or HH:MM:SS.xx"@)
    }
}

/// Checks an offset or FFOA of the WAV input.
pub fn validate_input_timecode_value(key: &str, value: &str) -> (r: Result<String, String>)
    ensures
        crate::template::timecode::string_result(r) == input_timecode_outcome(key@, value@),
{
    if crate::text::str_eq(value, "auto") || crate::template::timecode::is_valid_timecode(value) {
        Ok(owned(value))
    } else {
        let mut e = owned("invalid value '");
        e.append(value);
        e.append("' for ");
        e.append(key);
        e.append("; expected auto, HH:MM:SS:FF[df], or HH:MM:SS.xx");
        Err(e)
    }
}

/// The overrides of the WAV input's timing, in order: its timecode frame
/// rate, its offset and its FFOA.
pub open spec fn input_timing_apply(f: ThdAtmosWavV1Model, o: OverridesModel, e: ParamEnv) -> Result<
    ThdAtmosWavV1Model,
    Seq<char>,
> {
    let r1: Result<ThdAtmosWavV1Model, Seq<char>> = match o.input_timecode_frame_rate {
        None => Ok(f),
        Some(v) => match str_param(e, "input_timecode_frame_rate"@, v) {
            Ok(x) => Ok(ThdAtmosWavV1Model { input_timecode_frame_rate: x, ..f }),
            Err(x) => Err(x),
        },
    };
    let r2: Result<ThdAtmosWavV1Model, Seq<char>> = match r1 {
        Err(x) => Err(x),
        Ok(m) => match o.offset {
            None => Ok(m),
            Some(v) => match str_param(e, "offset"@, v) {
                Err(x) => Err(x),
                Ok(x) => match input_timecode_outcome("offset"@, x) {
                    Ok(y) => Ok(ThdAtmosWavV1Model { offset: y, ..m }),
                    Err(y) => Err(y),
                },
            },
        },
    };
    match r2 {
        Err(x) => Err(x),
        Ok(m) => match o.ffoa {
            None => Ok(m),
            Some(v) => match str_param(e, "ffoa"@, v) {
                Err(x) => Err(x),
                Ok(x) => match input_timecode_outcome("ffoa"@, x) {
                    Ok(y) => Ok(ThdAtmosWavV1Model { ffoa: y, ..m }),
                    Err(y) => Err(y),
                },
            },
        },
    }
}

/// The filter after the overrides, or the first error: the support check,
/// the WAV input's timing, then the encoder settings of `thd_v1` in their
/// order.
pub open spec fn thd_atmos_wav_apply(f: ThdAtmosWavV1Model, o: OverridesModel, e: ParamEnv) -> Result<
    ThdAtmosWavV1Model,
    Seq<char>,
> {
    match thd_atmos_wav_unsupported(o) {
        Some(k) => Err(unsupported_error(k)),
        None => match input_timing_apply(f, o, e) {
            Err(x) => Err(x),
            Ok(m) => match thd_v1::thd_rest(Ok(m.encode), 1, o, e) {
                Ok(t) => Ok(ThdAtmosWavV1Model { encode: t, ..m }),
                Err(x) => Err(x),
            },
        },
    }
}

fn apply_input_timing(filter: &mut ThdAtmosWavV1Filter, overrides: &FilterOverrides, ctx: &ParamCtx) -> (r: Result<(), String>)
    ensures
        match r {
            Ok(_) => input_timing_apply(old(filter)@, overrides@, ctx.env()) == Ok::<ThdAtmosWavV1Model, Seq<char>>(final(filter)@),
            Err(e) => input_timing_apply(old(filter)@, overrides@, ctx.env()) == Err::<ThdAtmosWavV1Model, Seq<char>>(e@),
        },
{
    if let Some(v) = &overrides.input_timecode_frame_rate {
        match validate_string_param(ctx, "input_timecode_frame_rate", v.as_str()) {
            Ok(x) => {
                filter.input_timecode_frame_rate = x;
            },
            Err(e) => {
                return Err(e);
            },
        }
    }
    if let Some(v) = &overrides.offset {
        let value = match validate_string_param(ctx, "offset", v.as_str()) {
            Ok(x) => x,
            Err(e) => {
                return Err(e);
            },
        };
        match validate_input_timecode_value("offset", value.as_str()) {
            Ok(x) => {
                filter.offset = x;
            },
            Err(e) => {
                return Err(e);
            },
        }
    }
    if let Some(v) = &overrides.ffoa {
        let value = match validate_string_param(ctx, "ffoa", v.as_str()) {
            Ok(x) => x,
            Err(e) => {
                return Err(e);
            },
        };
        match validate_input_timecode_value("ffoa", value.as_str()) {
            Ok(x) => {
                filter.ffoa = x;
            },
            Err(e) => {
                return Err(e);
            },
        }
    }
    Ok(())
}

/// Applies the job's overrides to the filter: unsupported settings are
/// refused before anything changes, then each override is validated against
/// the schema of the template, in the order of its parameters.
pub fn apply_overrides(filter: &mut ThdAtmosWavV1Filter, overrides: &FilterOverrides, ctx: &ParamCtx) -> (r: Result<(), String>)
    ensures
        match r {
            Ok(_) => thd_atmos_wav_apply(old(filter)@, overrides@, ctx.env()) == Ok::<ThdAtmosWavV1Model, Seq<char>>(final(filter)@),
            Err(e) => thd_atmos_wav_apply(old(filter)@, overrides@, ctx.env()) == Err::<ThdAtmosWavV1Model, Seq<char>>(e@),
        },
        thd_atmos_wav_unsupported(overrides@) is Some ==> final(filter)@ == old(filter)@,
{
    if let Some(field) = thd_v1::first_unsupported(overrides) {
        let mut msg = owned("parameter '");
        msg.append(field);
        msg.append("' is not supported by template_id 'thd_wav_v1'");
        return Err(msg);
    }
    match apply_input_timing(filter, overrides, ctx) {
        Ok(()) => {},
        Err(e) => {
            return Err(e);
        },
    }
    thd_v1::apply_settings(&mut filter.encode, overrides, ctx)
}

/// The parameter values that constraints read, by key.
pub open spec fn thd_atmos_wav_values(m: ThdAtmosWavV1Model) -> Seq<(Seq<char>, ValueModel)> {
    seq![
        ("input_timecode_frame_rate"@, ValueModel::Str(m.input_timecode_frame_rate)),
        ("offset"@, ValueModel::Str(m.offset)),
        ("ffoa"@, ValueModel::Str(m.ffoa)),
    ] + thd_v1::thd_values(m.encode)
}

/// The parameter values that constraints read, by key.
pub fn constraint_values(f: &ThdAtmosWavV1Filter) -> (r: Vec<(&'static str, Value)>)
    ensures
        values_model(r@) == thd_atmos_wav_values(f@),
{
    let mut r: Vec<(&'static str, Value)> = vec![
        ("input_timecode_frame_rate", Value::Str(f.input_timecode_frame_rate.clone())),
        ("offset", Value::Str(f.offset.clone())),
        ("ffoa", Value::Str(f.ffoa.clone())),
    ];
    let ghost first = r@;
    let mut rest = thd_v1::constraint_values(&f.encode);
    let ghost second = rest@;
    r.append(&mut rest);
    assert(r@ == first + second);
    assert(values_model(r@) =~= values_model(first) + values_model(second));
    r
}

/// The run-time checks of a job from its probed media: one mezzanine and
/// one WAV input, aligned, a WAV of 2, 6 or 8 channels, and an explicit
/// start where the WAV has an offset or an FFOA.
pub open spec fn thd_atmos_wav_runtime(m: ThdAtmosWavV1Model, media: Seq<InputMediaInfo>) -> Result<(), Seq<char>> {
    crate::mixed_inputs::thd_atmos_wav_runtime_outcome(media, m.offset, m.ffoa, m.encode.start)
}

/// Checks the settings that DEE rejects at run time.
pub fn validate_runtime_compatibility(f: &ThdAtmosWavV1Filter, input_media: &Vec<InputMediaInfo>) -> (r: Result<(), String>)
    ensures
        crate::schema::unit_model(r) == thd_atmos_wav_runtime(f@, input_media@),
{
    crate::mixed_inputs::validate_thd_atmos_wav_runtime(input_media, f.offset.as_str(), f.ffoa.as_str(), f.encode.start.as_str())
}

/// An override that validates is what the filter holds afterwards: where
/// the overrides apply, the WAV input's timing and each encoder parameter
/// that the job sets have the job's value (string values up to ASCII case,
/// since an enum value comes back in its canonical spelling).
pub proof fn law_thd_atmos_wav_overrides_hold(f: ThdAtmosWavV1Model, o: OverridesModel, e: ParamEnv)
    ensures
        thd_atmos_wav_apply(f, o, e) matches Ok(m) ==> {
            (o.input_timecode_frame_rate matches Some(v) ==> seq_lower(m.input_timecode_frame_rate) == seq_lower(v))
            && (o.offset matches Some(v) ==> seq_lower(m.offset) == seq_lower(v))
            && (o.ffoa matches Some(v) ==> seq_lower(m.ffoa) == seq_lower(v))
            && (o.metering_mode matches Some(v) ==> seq_lower(m.encode.metering_mode) == seq_lower(v))
            && (o.dialogue_intelligence matches Some(v) ==> m.encode.dialogue_intelligence == v)
            && (o.speech_threshold matches Some(v) ==> m.encode.speech_threshold as int == v)
            && (o.timecode_frame_rate matches Some(v) ==> seq_lower(m.encode.timecode_frame_rate) == seq_lower(v))
            && (o.starting_timecode matches Some(v) ==> seq_lower(m.encode.starting_timecode) == seq_lower(v))
            && (o.frame_rate matches Some(v) ==> seq_lower(m.encode.frame_rate) == seq_lower(v))
            && (o.start matches Some(v) ==> seq_lower(m.encode.start) == seq_lower(v))
            && (o.end matches Some(v) ==> seq_lower(m.encode.end) == seq_lower(v))
            && (o.time_base matches Some(v) ==> seq_lower(m.encode.time_base) == seq_lower(v))
            && (o.prepend_silence_duration matches Some(v) ==> seq_lower(m.encode.prepend_silence_duration) == seq_lower(v))
            && (o.append_silence_duration matches Some(v) ==> seq_lower(m.encode.append_silence_duration) == seq_lower(v))
            && (o.custom_dialnorm matches Some(v) ==> m.encode.custom_dialnorm as int == v)
            && (o.atmos_presentation_drc_profile matches Some(v) ==> seq_lower(m.encode.atmos_presentation_drc_profile) == seq_lower(v))
            && (o.spatial_clusters matches Some(v) ==> seq_lower(m.encode.spatial_clusters) == seq_lower(v))
            && (o.legacy_authoring_compatibility matches Some(v) ==> m.encode.legacy_authoring_compatibility == v)
            && (o.presentation_8ch_drc_profile matches Some(v) ==> seq_lower(m.encode.presentation_8ch_drc_profile) == seq_lower(v))
            && (o.presentation_6ch_drc_profile matches Some(v) ==> seq_lower(m.encode.presentation_6ch_drc_profile) == seq_lower(v))
            && (o.presentation_2ch_drc_profile matches Some(v) ==> seq_lower(m.encode.presentation_2ch_drc_profile) == seq_lower(v))
            && (o.optimize_data_rate matches Some(v) ==> m.encode.optimize_data_rate == v)
        },
{
    crate::template::params::lemma_str_param_value(e, "input_timecode_frame_rate"@, o.input_timecode_frame_rate->Some_0);
    crate::template::params::lemma_str_param_value(e, "offset"@, o.offset->Some_0);
    crate::template::params::lemma_str_param_value(e, "ffoa"@, o.ffoa->Some_0);
    if let Ok(m) = input_timing_apply(f, o, e) {
        thd_v1::lemma_thd_rest_keeps(Ok(m.encode), 1, o, e);
    }
}

} // verus!
