//! The catalogue of the Atmos EC-3 parameters, with their rules and sources.
use vstd::prelude::*;

use crate::schema::{
    find_enum, find_enum_exec, lemma_find_enum_case, lemma_find_enum_found, rates_text, strs_model,
    u16_contains, u16_list_text, RuleModel,
};
use crate::text::seq_lower;
use crate::text::{i64_text, int_text, join, join_strs, nat_digits, owned, u64_text};

verus! {

/// Where a parameter's rule comes from.
#[derive(Debug, Clone, Copy, PartialEq, Eq, Structural)]
pub enum SourceTag {
    DolbyOfficial,
    DeewObserved,
    DeezyObserved,
}

/// The rule a parameter's value follows.
#[derive(Debug, Clone)]
pub enum Rule {
    Enum(Vec<&'static str>),
    IntRange { min: i64, max: i64 },
    DataRate,
    Bool,
    String,
}

impl View for Rule {
    type V = RuleModel;

    open spec fn view(&self) -> RuleModel {
        match self {
            Rule::Enum(v) => RuleModel::Enum(strs_model(v@)),
            Rule::IntRange { min, max } => RuleModel::IntRange { min: *min as int, max: *max as int },
            Rule::DataRate => RuleModel::DataRate,
            Rule::Bool => RuleModel::Bool,
            Rule::String => RuleModel::FreeString,
        }
    }
}

/// A parameter of the catalogue.
#[derive(Debug, Clone)]
pub struct ParamDef {
    pub key: &'static str,
    pub rule: Rule,
    pub sources: Vec<SourceTag>,
    pub notes: &'static str,
}

/// Streaming data rates.
pub open spec fn streaming_bitrates() -> Seq<u16> {
    seq![384, 448, 576, 640, 768, 1024]
}

/// Blu-ray data rates.
pub open spec fn bluray_bitrates() -> Seq<u16> {
    seq![768, 1024, 1152, 1280, 1408, 1512, 1536, 1664]
}

/// Upper bound of a Blu-ray data rate.
pub const BLURAY_HARD_MAX: u16 = 1664;

/// Keys and rules of the catalogue, in order.
pub open spec fn registry_defs() -> Seq<(Seq<char>, RuleModel)> {
    seq![
        ("metering_mode"@, RuleModel::Enum(seq!["1770-1"@, "1770-2"@, "1770-3"@, "1770-4"@, "LeqA"@])),
        ("dialogue_intelligence"@, RuleModel::Bool),
        ("speech_threshold"@, RuleModel::IntRange { min: 0, max: 100 }),
        ("data_rate"@, RuleModel::DataRate),
        ("timecode_frame_rate"@, RuleModel::Enum(seq!["not_indicated"@, "23.976"@, "24"@, "25"@, "29.97"@, "30"@, "48"@, "50"@, "59.94"@, "60"@])),
        ("start"@, RuleModel::FreeString),
        ("end"@, RuleModel::FreeString),
        ("time_base"@, RuleModel::Enum(seq!["file_position"@, "embedded_timecode"@])),
        ("prepend_silence_duration"@, RuleModel::FreeString),
        ("append_silence_duration"@, RuleModel::FreeString),
        ("line_mode_drc_profile"@, RuleModel::Enum(seq!["film_standard"@, "film_light"@, "music_standard"@, "music_light"@, "speech"@, "none"@])),
        ("rf_mode_drc_profile"@, RuleModel::Enum(seq!["film_standard"@, "film_light"@, "music_standard"@, "music_light"@, "speech"@, "none"@])),
        ("loro_center_mix_level"@, RuleModel::Enum(seq!["+3"@, "+1.5"@, "0"@, "-1.5"@, "-3"@, "-4.5"@, "-6"@, "-inf"@])),
        ("loro_surround_mix_level"@, RuleModel::Enum(seq!["-1.5"@, "-3"@, "-4.5"@, "-6"@, "-inf"@])),
        ("ltrt_center_mix_level"@, RuleModel::Enum(seq!["+3"@, "+1.5"@, "0"@, "-1.5"@, "-3"@, "-4.5"@, "-6"@, "-inf"@])),
        ("ltrt_surround_mix_level"@, RuleModel::Enum(seq!["-1.5"@, "-3"@, "-4.5"@, "-6"@, "-inf"@])),
        ("preferred_downmix_mode"@, RuleModel::Enum(seq!["not_indicated"@, "loro"@, "ltrt"@, "ltrt-pl2"@])),
        ("surround_trim_5_1"@, RuleModel::Enum(seq!["0"@, "-3"@, "-6"@, "-9"@, "auto"@])),
        ("height_trim_5_1"@, RuleModel::Enum(seq!["-3"@, "-6"@, "-9"@, "-12"@, "auto"@])),
        ("custom_dialnorm"@, RuleModel::IntRange { min: -31, max: 0 }),
        ("encoding_backend"@, RuleModel::Enum(seq!["atmosprocessor"@])),
        ("encoder_mode"@, RuleModel::Enum(seq!["bluray"@])),
    ]
}

/// Model of a catalogue entry.
#[verifier::ext_equal]
pub struct ParamModel {
    pub key: Seq<char>,
    pub rule: RuleModel,
    pub sources: Seq<SourceTag>,
    pub notes: Seq<char>,
}

impl View for ParamDef {
    type V = ParamModel;

    open spec fn view(&self) -> ParamModel {
        ParamModel { key: self.key@, rule: self.rule@, sources: self.sources@, notes: self.notes@ }
    }
}

/// The entries of the catalogue, in order.
pub open spec fn registry_entries() -> Seq<ParamModel> {
    seq![
        ParamModel {
            key: "metering_mode"@,
            rule: RuleModel::Enum(seq!["1770-1"@, "1770-2"@, "1770-3"@, "1770-4"@, "LeqA"@]),
            sources: seq![SourceTag::DolbyOfficial, SourceTag::DeezyObserved],
            notes: "Loudness measuring mode."@,
        },
        ParamModel {
            key: "dialogue_intelligence"@,
            rule: RuleModel::Bool,
            sources: seq![SourceTag::DolbyOfficial, SourceTag::DeezyObserved],
            notes: "Ignored for 1770-1/LeqA."@,
        },
        ParamModel {
            key: "speech_threshold"@,
            rule: RuleModel::IntRange { min: 0, max: 100 },
            sources: seq![SourceTag::DolbyOfficial, SourceTag::DeezyObserved],
            notes: "Speech gating threshold percentage."@,
        },
        ParamModel {
            key: "data_rate"@,
            rule: RuleModel::DataRate,
            sources: seq![SourceTag::DolbyOfficial, SourceTag::DeewObserved, SourceTag::DeezyObserved],
            notes: "Streaming and bluray bitrate sets differ."@,
        },
        ParamModel {
            key: "timecode_frame_rate"@,
            rule: RuleModel::Enum(seq!["not_indicated"@, "23.976"@, "24"@, "25"@, "29.97"@, "30"@, "48"@, "50"@, "59.94"@, "60"@]),
            sources: seq![SourceTag::DolbyOfficial],
            notes: "Frame rate associated with timecodes."@,
        },
        ParamModel {
            key: "start"@,
            rule: RuleModel::FreeString,
            sources: seq![SourceTag::DolbyOfficial],
            notes: "Start timecode or first_frame_of_action."@,
        },
        ParamModel {
            key: "end"@,
            rule: RuleModel::FreeString,
            sources: seq![SourceTag::DolbyOfficial],
            notes: "End timecode or end_of_file."@,
        },
        ParamModel {
            key: "time_base"@,
            rule: RuleModel::Enum(seq!["file_position"@, "embedded_timecode"@]),
            sources: seq![SourceTag::DolbyOfficial],
            notes: "How start/end are interpreted."@,
        },
        ParamModel {
            key: "prepend_silence_duration"@,
            rule: RuleModel::FreeString,
            sources: seq![SourceTag::DolbyOfficial],
            notes: "Seconds or frame count syntax."@,
        },
        ParamModel {
            key: "append_silence_duration"@,
            rule: RuleModel::FreeString,
            sources: seq![SourceTag::DolbyOfficial],
            notes: "Seconds or frame count syntax."@,
        },
        ParamModel {
            key: "line_mode_drc_profile"@,
            rule: RuleModel::Enum(seq!["film_standard"@, "film_light"@, "music_standard"@, "music_light"@, "speech"@, "none"@]),
            sources: seq![SourceTag::DolbyOfficial, SourceTag::DeewObserved, SourceTag::DeezyObserved],
            notes: "Dynamic range control line mode."@,
        },
        ParamModel {
            key: "rf_mode_drc_profile"@,
            rule: RuleModel::Enum(seq!["film_standard"@, "film_light"@, "music_standard"@, "music_light"@, "speech"@, "none"@]),
            sources: seq![SourceTag::DolbyOfficial, SourceTag::DeewObserved, SourceTag::DeezyObserved],
            notes: "Dynamic range control RF mode."@,
        },
        ParamModel {
            key: "loro_center_mix_level"@,
            rule: RuleModel::Enum(seq!["+3"@, "+1.5"@, "0"@, "-1.5"@, "-3"@, "-4.5"@, "-6"@, "-inf"@]),
            sources: seq![SourceTag::DolbyOfficial],
            notes: "Lo/Ro center downmix level."@,
        },
        ParamModel {
            key: "loro_surround_mix_level"@,
            rule: RuleModel::Enum(seq!["-1.5"@, "-3"@, "-4.5"@, "-6"@, "-inf"@]),
            sources: seq![SourceTag::DolbyOfficial],
            notes: "Lo/Ro surround downmix level."@,
        },
        ParamModel {
            key: "ltrt_center_mix_level"@,
            rule: RuleModel::Enum(seq!["+3"@, "+1.5"@, "0"@, "-1.5"@, "-3"@, "-4.5"@, "-6"@, "-inf"@]),
            sources: seq![SourceTag::DolbyOfficial],
            notes: "Lt/Rt center downmix level."@,
        },
        ParamModel {
            key: "ltrt_surround_mix_level"@,
            rule: RuleModel::Enum(seq!["-1.5"@, "-3"@, "-4.5"@, "-6"@, "-inf"@]),
            sources: seq![SourceTag::DolbyOfficial],
            notes: "Lt/Rt surround downmix level."@,
        },
        ParamModel {
            key: "preferred_downmix_mode"@,
            rule: RuleModel::Enum(seq!["not_indicated"@, "loro"@, "ltrt"@, "ltrt-pl2"@]),
            sources: seq![SourceTag::DolbyOfficial],
            notes: "Stereo downmix preference."@,
        },
        ParamModel {
            key: "surround_trim_5_1"@,
            rule: RuleModel::Enum(seq!["0"@, "-3"@, "-6"@, "-9"@, "auto"@]),
            sources: seq![SourceTag::DolbyOfficial],
            notes: "Custom surround trim for 5.1."@,
        },
        ParamModel {
            key: "height_trim_5_1"@,
            rule: RuleModel::Enum(seq!["-3"@, "-6"@, "-9"@, "-12"@, "auto"@]),
            sources: seq![SourceTag::DolbyOfficial],
            notes: "Custom height trim for 5.1."@,
        },
        ParamModel {
            key: "custom_dialnorm"@,
            rule: RuleModel::IntRange { min: -31, max: 0 },
            sources: seq![SourceTag::DolbyOfficial, SourceTag::DeewObserved, SourceTag::DeezyObserved],
            notes: "0 keeps measured dialnorm."@,
        },
        ParamModel {
            key: "encoding_backend"@,
            rule: RuleModel::Enum(seq!["atmosprocessor"@]),
            sources: seq![SourceTag::DeewObserved, SourceTag::DeezyObserved],
            notes: "Observed community bluray extension parameter."@,
        },
        ParamModel {
            key: "encoder_mode"@,
            rule: RuleModel::Enum(seq!["bluray"@]),
            sources: seq![SourceTag::DeewObserved, SourceTag::DeezyObserved],
            notes: "Observed community bluray extension parameter."@,
        },
    ]
}

/// The first entry of the catalogue with the key.
pub open spec fn registry_lookup(entries: Seq<ParamModel>, key: Seq<char>) -> Option<ParamModel>
    decreases entries.len(),
{
    if entries.len() == 0 {
        None
    } else if entries[0].key == key {
        Some(entries[0])
    } else {
        registry_lookup(entries.drop_first(), key)
    }
}

/// The catalogue.
pub fn params() -> (r: Vec<ParamDef>)
    ensures
        r@.map_values(|d: ParamDef| (d.key@, d.rule@)) == registry_defs(),
        r@.map_values(|d: ParamDef| d@) == registry_entries(),
{
    let r = vec![
        ParamDef {
            key: "metering_mode",
            rule: Rule::Enum(vec!["1770-1", "1770-2", "1770-3", "1770-4", "LeqA"]),
            sources: vec![SourceTag::DolbyOfficial, SourceTag::DeezyObserved],
            notes: "Loudness measuring mode.",
        },
        ParamDef {
            key: "dialogue_intelligence",
            rule: Rule::Bool,
            sources: vec![SourceTag::DolbyOfficial, SourceTag::DeezyObserved],
            notes: "Ignored for 1770-1/LeqA.",
        },
        ParamDef {
            key: "speech_threshold",
            rule: Rule::IntRange { min: 0, max: 100 },
            sources: vec![SourceTag::DolbyOfficial, SourceTag::DeezyObserved],
            notes: "Speech gating threshold percentage.",
        },
        ParamDef {
            key: "data_rate",
            rule: Rule::DataRate,
            sources: vec![SourceTag::DolbyOfficial, SourceTag::DeewObserved, SourceTag::DeezyObserved],
            notes: "Streaming and bluray bitrate sets differ.",
        },
        ParamDef {
            key: "timecode_frame_rate",
            rule: Rule::Enum(vec!["not_indicated", "23.976", "24", "25", "29.97", "30", "48", "50", "59.94", "60"]),
            sources: vec![SourceTag::DolbyOfficial],
            notes: "Frame rate associated with timecodes.",
        },
        ParamDef {
            key: "start",
            rule: Rule::String,
            sources: vec![SourceTag::DolbyOfficial],
            notes: "Start timecode or first_frame_of_action.",
        },
        ParamDef {
            key: "end",
            rule: Rule::String,
            sources: vec![SourceTag::DolbyOfficial],
            notes: "End timecode or end_of_file.",
        },
        ParamDef {
            key: "time_base",
            rule: Rule::Enum(vec!["file_position", "embedded_timecode"]),
            sources: vec![SourceTag::DolbyOfficial],
            notes: "How start/end are interpreted.",
        },
        ParamDef {
            key: "prepend_silence_duration",
            rule: Rule::String,
            sources: vec![SourceTag::DolbyOfficial],
            notes: "Seconds or frame count syntax.",
        },
        ParamDef {
            key: "append_silence_duration",
            rule: Rule::String,
            sources: vec![SourceTag::DolbyOfficial],
            notes: "Seconds or frame count syntax.",
        },
        ParamDef {
            key: "line_mode_drc_profile",
            rule: Rule::Enum(vec!["film_standard", "film_light", "music_standard", "music_light", "speech", "none"]),
            sources: vec![SourceTag::DolbyOfficial, SourceTag::DeewObserved, SourceTag::DeezyObserved],
            notes: "Dynamic range control line mode.",
        },
        ParamDef {
            key: "rf_mode_drc_profile",
            rule: Rule::Enum(vec!["film_standard", "film_light", "music_standard", "music_light", "speech", "none"]),
            sources: vec![SourceTag::DolbyOfficial, SourceTag::DeewObserved, SourceTag::DeezyObserved],
            notes: "Dynamic range control RF mode.",
        },
        ParamDef {
            key: "loro_center_mix_level",
            rule: Rule::Enum(vec!["+3", "+1.5", "0", "-1.5", "-3", "-4.5", "-6", "-inf"]),
            sources: vec![SourceTag::DolbyOfficial],
            notes: "Lo/Ro center downmix level.",
        },
        ParamDef {
            key: "loro_surround_mix_level",
            rule: Rule::Enum(vec!["-1.5", "-3", "-4.5", "-6", "-inf"]),
            sources: vec![SourceTag::DolbyOfficial],
            notes: "Lo/Ro surround downmix level.",
        },
        ParamDef {
            key: "ltrt_center_mix_level",
            rule: Rule::Enum(vec!["+3", "+1.5", "0", "-1.5", "-3", "-4.5", "-6", "-inf"]),
            sources: vec![SourceTag::DolbyOfficial],
            notes: "Lt/Rt center downmix level.",
        },
        ParamDef {
            key: "ltrt_surround_mix_level",
            rule: Rule::Enum(vec!["-1.5", "-3", "-4.5", "-6", "-inf"]),
            sources: vec![SourceTag::DolbyOfficial],
            notes: "Lt/Rt surround downmix level.",
        },
        ParamDef {
            key: "preferred_downmix_mode",
            rule: Rule::Enum(vec!["not_indicated", "loro", "ltrt", "ltrt-pl2"]),
            sources: vec![SourceTag::DolbyOfficial],
            notes: "Stereo downmix preference.",
        },
        ParamDef {
            key: "surround_trim_5_1",
            rule: Rule::Enum(vec!["0", "-3", "-6", "-9", "auto"]),
            sources: vec![SourceTag::DolbyOfficial],
            notes: "Custom surround trim for 5.1.",
        },
        ParamDef {
            key: "height_trim_5_1",
            rule: Rule::Enum(vec!["-3", "-6", "-9", "-12", "auto"]),
            sources: vec![SourceTag::DolbyOfficial],
            notes: "Custom height trim for 5.1.",
        },
        ParamDef {
            key: "custom_dialnorm",
            rule: Rule::IntRange { min: -31, max: 0 },
            sources: vec![SourceTag::DolbyOfficial, SourceTag::DeewObserved, SourceTag::DeezyObserved],
            notes: "0 keeps measured dialnorm.",
        },
        ParamDef {
            key: "encoding_backend",
            rule: Rule::Enum(vec!["atmosprocessor"]),
            sources: vec![SourceTag::DeewObserved, SourceTag::DeezyObserved],
            notes: "Observed community bluray extension parameter.",
        },
        ParamDef {
            key: "encoder_mode",
            rule: Rule::Enum(vec!["bluray"]),
            sources: vec![SourceTag::DeewObserved, SourceTag::DeezyObserved],
            notes: "Observed community bluray extension parameter.",
        },
    ];
    assert(r@.map_values(|d: ParamDef| (d.key@, d.rule@)) =~~= registry_defs());
    assert(r@.map_values(|d: ParamDef| d@) =~~= registry_entries());
    r
}

/// The first entry of the catalogue with the key.
pub open spec fn registry_find(defs: Seq<(Seq<char>, RuleModel)>, key: Seq<char>) -> Option<RuleModel>
    decreases defs.len(),
{
    if defs.len() == 0 {
        None
    } else if defs[0].0 == key {
        Some(defs[0].1)
    } else {
        registry_find(defs.drop_first(), key)
    }
}

/// Looks a parameter up by key.
pub fn find_param(key: &str) -> (r: Option<ParamDef>)
    ensures
        match r {
            Some(d) => d.key@ == key@ && registry_find(registry_defs(), key@) == Some(d.rule@)
                && registry_lookup(registry_entries(), key@) == Some(d@),
            None => registry_find(registry_defs(), key@) is None && registry_lookup(registry_entries(), key@) is None,
        },
{
    let all = params();
    let ghost m = registry_defs();
    let ghost e = registry_entries();
    let mut i: usize = 0;
    assert(m.skip(0) == m);
    assert(e.skip(0) == e);
    while i < all.len()
        invariant
            i <= all.len(),
            all@.map_values(|d: ParamDef| (d.key@, d.rule@)) == m,
            all@.map_values(|d: ParamDef| d@) == e,
            m == registry_defs(),
            e == registry_entries(),
            registry_find(m, key@) == registry_find(m.skip(i as int), key@),
            registry_lookup(e, key@) == registry_lookup(e.skip(i as int), key@),
        decreases all.len() - i,
    {
        assert(m.skip(i as int)[0] == (all@[i as int].key@, all@[i as int].rule@));
        assert(e.skip(i as int)[0] == all@[i as int]@);
        if crate::text::str_eq(all[i].key, key) {
            assert(m.skip(i as int).len() > 0);
            assert(e.skip(i as int).len() > 0);
            assert(registry_find(m.skip(i as int), key@) == Some(all@[i as int].rule@));
            assert(registry_lookup(e.skip(i as int), key@) == Some(all@[i as int]@));
            return Some(all[i].clone_def());
        }
        assert(m.skip(i as int).drop_first() == m.skip(i + 1));
        assert(e.skip(i as int).drop_first() == e.skip(i + 1));
        i += 1;
    }
    None
}

impl ParamDef {
    /// A copy of the entry.
    pub fn clone_def(&self) -> (r: ParamDef)
        ensures
            r@ == self@,
    {
        let rule = match &self.rule {
            Rule::Enum(v) => {
                let mut c: Vec<&'static str> = Vec::new();
                let mut i: usize = 0;
                while i < v.len()
                    invariant
                        i <= v.len(),
                        c@ == v@.take(i as int),
                    decreases v.len() - i,
                {
                    c.push(v[i]);
                    assert(v@.take(i + 1) == v@.take(i as int).push(v@[i as int]));
                    i += 1;
                }
                assert(v@.take(v.len() as int) == v@);
                Rule::Enum(c)
            },
            Rule::IntRange { min, max } => Rule::IntRange { min: *min, max: *max },
            Rule::DataRate => Rule::DataRate,
            Rule::Bool => Rule::Bool,
            Rule::String => Rule::String,
        };
        let mut sources: Vec<SourceTag> = Vec::new();
        let mut j: usize = 0;
        while j < self.sources.len()
            invariant
                j <= self.sources.len(),
                sources@ == self.sources@.take(j as int),
            decreases self.sources.len() - j,
        {
            sources.push(self.sources[j]);
            assert(self.sources@.take(j + 1) == self.sources@.take(j as int).push(self.sources@[j as int]));
            j += 1;
        }
        assert(self.sources@.take(self.sources.len() as int) == self.sources@);
        ParamDef { key: self.key, rule, sources, notes: self.notes }
    }
}

pub open spec fn unknown_error(key: Seq<char>) -> Seq<char> {
    "unknown parameter: "@ + key
}

/// The canonical spelling of an enum value, matched without regard to
/// ASCII case.
pub open spec fn canonical_outcome(key: Seq<char>, value: Seq<char>) -> Result<Seq<char>, Seq<char>> {
    match registry_find(registry_defs(), key) {
        None => Err(unknown_error(key)),
        Some(RuleModel::Enum(allowed)) => match find_enum(allowed, value) {
            Some(found) => Ok(found),
            None => Err("invalid value '"@ + value + "' for "@ + key + "; allowed: "@ + join(allowed, ", "@)),
        },
        Some(_) => Err("parameter "@ + key + " is not enum"@),
    }
}

/// Canonicalises an enum value of a catalogued parameter.
pub fn canonicalize_enum(key: &str, value: &str) -> (r: Result<String, String>)
    ensures
        match r {
            Ok(s) => canonical_outcome(key@, value@) == Ok::<Seq<char>, Seq<char>>(s@),
            Err(e) => canonical_outcome(key@, value@) == Err::<Seq<char>, Seq<char>>(e@),
        },
{
    let def = match find_param(key) {
        Some(d) => d,
        None => {
            return Err(crate::text::cat("unknown parameter: ", key));
        },
    };
    match &def.rule {
        Rule::Enum(allowed) => match find_enum_exec(allowed, value) {
            Some(found) => Ok(owned(found)),
            None => {
                let mut e = owned("invalid value '");
                e.append(value);
                e.append("' for ");
                e.append(key);
                e.append("; allowed: ");
                e.append(join_strs(allowed, ", ").as_str());
                Err(e)
            },
        },
        _ => {
            let mut e = owned("parameter ");
            e.append(key);
            e.append(" is not enum");
            Err(e)
        },
    }
}

/// An integer of a catalogued range parameter.
pub open spec fn int_outcome(key: Seq<char>, value: int) -> Result<(), Seq<char>> {
    match registry_find(registry_defs(), key) {
        None => Err(unknown_error(key)),
        Some(RuleModel::IntRange { min, max }) => if min <= value <= max {
            Ok(())
        } else {
            Err("invalid value '"@ + int_text(value) + "' for "@ + key + "; expected "@ + int_text(min) + ".."@
                + int_text(max))
        },
        Some(_) => Err("parameter "@ + key + " is not integer range"@),
    }
}

/// Checks an integer against the range of a catalogued parameter.
pub fn validate_int(key: &str, value: i64) -> (r: Result<(), String>)
    ensures
        crate::schema::unit_model(r) == int_outcome(key@, value as int),
{
    let def = match find_param(key) {
        Some(d) => d,
        None => {
            return Err(crate::text::cat("unknown parameter: ", key));
        },
    };
    match &def.rule {
        Rule::IntRange { min, max } => {
            if *min <= value && value <= *max {
                Ok(())
            } else {
                let mut e = owned("invalid value '");
                e.append(i64_text(value).as_str());
                e.append("' for ");
                e.append(key);
                e.append("; expected ");
                e.append(i64_text(*min).as_str());
                e.append("..");
                e.append(i64_text(*max).as_str());
                Err(e)
            }
        },
        _ => {
            let mut e = owned("parameter ");
            e.append(key);
            e.append(" is not integer range");
            Err(e)
        },
    }
}

/// A data rate of an Atmos mode.
pub open spec fn atmos_rate_outcome(value: u16, mode: Seq<char>) -> Result<(), Seq<char>> {
    if value > BLURAY_HARD_MAX {
        Err("invalid data_rate '"@ + nat_digits(value as nat) + "'; hard max is 1664"@)
    } else {
        let allowed = if mode == "streaming"@ {
            Some(streaming_bitrates())
        } else if mode == "bluray"@ {
            Some(bluray_bitrates())
        } else {
            None
        };
        match allowed {
            None => Err("unsupported atmos_mode '"@ + mode + "'"@),
            Some(rates) => if rates.contains(value) {
                Ok(())
            } else {
                Err("invalid data_rate '"@ + nat_digits(value as nat) + "' for mode '"@ + mode + "'; allowed: "@
                    + rates_text(rates))
            },
        }
    }
}

/// Checks a data rate against the bitrates of an Atmos mode.
pub fn validate_data_rate(value: u16, atmos_mode: &str) -> (r: Result<(), String>)
    ensures
        crate::schema::unit_model(r) == atmos_rate_outcome(value, atmos_mode@),
{
    if value > BLURAY_HARD_MAX {
        let mut e = owned("invalid data_rate '");
        e.append(u64_text(value as u64).as_str());
        e.append("'; hard max is 1664");
        return Err(e);
    }
    let allowed: Vec<u16> = if crate::text::str_eq(atmos_mode, "streaming") {
        let v: Vec<u16> = vec![384, 448, 576, 640, 768, 1024];
        assert(v@ =~= streaming_bitrates());
        v
    } else if crate::text::str_eq(atmos_mode, "bluray") {
        let v: Vec<u16> = vec![768, 1024, 1152, 1280, 1408, 1512, 1536, 1664];
        assert(v@ =~= bluray_bitrates());
        v
    } else {
        let mut e = owned("unsupported atmos_mode '");
        e.append(atmos_mode);
        e.append("'");
        return Err(e);
    };
    if u16_contains(&allowed, value) {
        Ok(())
    } else {
        let mut e = owned("invalid data_rate '");
        e.append(u64_text(value as u64).as_str());
        e.append("' for mode '");
        e.append(atmos_mode);
        e.append("'; allowed: ");
        e.append(u16_list_text(&allowed).as_str());
        Err(e)
    }
}

/// Canonicalising is idempotent: a canonical value is its own canonical
/// form.
pub proof fn law_canonical_idempotent(key: Seq<char>, value: Seq<char>)
    requires
        canonical_outcome(key, value) is Ok,
    ensures
        canonical_outcome(key, canonical_outcome(key, value)->Ok_0) == canonical_outcome(key, value),
{
    if let Some(RuleModel::Enum(allowed)) = registry_find(registry_defs(), key) {
        lemma_find_enum_found(allowed, value);
        let c = find_enum(allowed, value)->0;
        lemma_find_enum_case(allowed, c, value);
    }
}

/// Spellings of an enum value that differ only in ASCII case are accepted
/// or refused together, and accepted ones give the same canonical value.
pub proof fn law_canonical_ignores_case(key: Seq<char>, x: Seq<char>, y: Seq<char>)
    requires
        seq_lower(x) == seq_lower(y),
    ensures
        canonical_outcome(key, x) is Ok <==> canonical_outcome(key, y) is Ok,
        canonical_outcome(key, x) is Ok ==> canonical_outcome(key, x) == canonical_outcome(key, y),
{
    if let Some(RuleModel::Enum(allowed)) = registry_find(registry_defs(), key) {
        lemma_find_enum_case(allowed, x, y);
    }
}

/// An accepted Atmos data rate never exceeds the Blu-ray hard maximum, and
/// is one of the bitrates of its mode.
pub proof fn law_accepted_data_rate(value: u16, mode: Seq<char>)
    requires
        atmos_rate_outcome(value, mode) is Ok,
    ensures
        value <= 1664,
        mode == "streaming"@ ==> streaming_bitrates().contains(value),
        mode == "bluray"@ ==> bluray_bitrates().contains(value),
        mode == "streaming"@ || mode == "bluray"@,
{
    reveal_strlit("streaming");
    reveal_strlit("bluray");
    assert("streaming"@.len() != "bluray"@.len());
}

} // verus!
