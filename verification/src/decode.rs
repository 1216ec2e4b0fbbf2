//! Reading job specs from YAML or JSON documents, as the job file format
//! defines them.
use vstd::prelude::*;

use crate::doc::{
    bool_of, env_of, field, find_field, int_of, key_is, names_of, names_view, opt_text_of,
    pairs_view, read_env, read_names, read_text, read_texts, text_of, texts_of, unique_keys, Doc,
    DocModel,
};
use crate::resolve::{names_model, IoModel, OutputModel, RunModel};
use crate::spec::{
    Ac4OutputMode, EncodeMode, FilterOverrides, InputsSpec, IoSpec, JobMode, JobSpec, MiscSpec,
    OutputContainer, OutputSpec, Profile, RunSpec,
};
use crate::text::{owned, str_eq};

verus! {

/// The names of a field that has no alias.
pub fn one(name: &'static str) -> (r: Vec<&'static str>)
    ensures
        names_view(r@) == seq![name@],
{
    let r = vec![name];
    assert(names_view(r@) =~= seq![name@]);
    r
}

/// A required string field.
pub open spec fn f_text(es: Seq<(Option<Seq<char>>, DocModel)>, names: Seq<Seq<char>>, l: bool) -> Option<Seq<char>> {
    match field(es, names) {
        Some(Some(d)) => text_of(d, l),
        _ => None,
    }
}

pub fn read_f_text(es: &Vec<(Option<String>, Doc)>, names: &Vec<&str>, l: bool) -> (r: Option<String>)
    ensures
        match r {
            Some(s) => f_text(crate::doc::dict_model(es@), names_view(names@), l) == Some(s@),
            None => f_text(crate::doc::dict_model(es@), names_view(names@), l) is None,
        },
{
    match find_field(es, names) {
        Some(Some(i)) => read_text(&es[i].1, l),
        _ => None,
    }
}

/// An optional string field: missing or null reads as unset.
pub open spec fn f_opt_text(es: Seq<(Option<Seq<char>>, DocModel)>, names: Seq<Seq<char>>, l: bool) -> Option<Option<Seq<char>>> {
    match field(es, names) {
        None => None,
        Some(None) => Some(None),
        Some(Some(d)) => opt_text_of(d, l),
    }
}

pub fn read_f_opt_text(es: &Vec<(Option<String>, Doc)>, names: &Vec<&str>, l: bool) -> (r: Option<Option<String>>)
    ensures
        match r {
            Some(Some(s)) => f_opt_text(crate::doc::dict_model(es@), names_view(names@), l) == Some(Some(s@)),
            Some(None) => f_opt_text(crate::doc::dict_model(es@), names_view(names@), l) == Some(None::<Seq<char>>),
            None => f_opt_text(crate::doc::dict_model(es@), names_view(names@), l) is None,
        },
{
    match find_field(es, names) {
        None => None,
        Some(None) => Some(None),
        Some(Some(i)) => match &es[i].1 {
            Doc::Null => Some(None),
            d => match read_text(d, l) {
                Some(s) => Some(Some(s)),
                None => None,
            },
        },
    }
}

/// An optional flag field: missing or null reads as unset.
pub open spec fn f_opt_bool(es: Seq<(Option<Seq<char>>, DocModel)>, names: Seq<Seq<char>>) -> Option<Option<bool>> {
    match field(es, names) {
        None => None,
        Some(None) => Some(None),
        Some(Some(DocModel::Null)) => Some(None),
        Some(Some(d)) => match bool_of(d) {
            Some(b) => Some(Some(b)),
            None => None,
        },
    }
}

pub fn read_f_opt_bool(es: &Vec<(Option<String>, Doc)>, names: &Vec<&str>) -> (r: Option<Option<bool>>)
    ensures
        r == f_opt_bool(crate::doc::dict_model(es@), names_view(names@)),
{
    match find_field(es, names) {
        None => None,
        Some(None) => Some(None),
        Some(Some(i)) => match &es[i].1 {
            Doc::Null => Some(None),
            Doc::Bool(b) => Some(Some(*b)),
            _ => None,
        },
    }
}

/// A flag field with a default.
pub open spec fn f_bool_or(es: Seq<(Option<Seq<char>>, DocModel)>, names: Seq<Seq<char>>, dflt: bool) -> Option<bool> {
    match field(es, names) {
        None => None,
        Some(None) => Some(dflt),
        Some(Some(d)) => bool_of(d),
    }
}

pub fn read_f_bool_or(es: &Vec<(Option<String>, Doc)>, names: &Vec<&str>, dflt: bool) -> (r: Option<bool>)
    ensures
        r == f_bool_or(crate::doc::dict_model(es@), names_view(names@), dflt),
{
    match find_field(es, names) {
        None => None,
        Some(None) => Some(dflt),
        Some(Some(i)) => match &es[i].1 {
            Doc::Bool(b) => Some(*b),
            _ => None,
        },
    }
}

/// An optional integer field in `lo..=hi`: missing or null reads as unset.
pub open spec fn f_opt_int(es: Seq<(Option<Seq<char>>, DocModel)>, names: Seq<Seq<char>>, lo: int, hi: int) -> Option<Option<int>> {
    match field(es, names) {
        None => None,
        Some(None) => Some(None),
        Some(Some(DocModel::Null)) => Some(None),
        Some(Some(d)) => match int_of(d, lo, hi) {
            Some(n) => Some(Some(n)),
            None => None,
        },
    }
}

pub fn read_f_opt_int(es: &Vec<(Option<String>, Doc)>, names: &Vec<&str>, lo: i64, hi: i64) -> (r: Option<Option<i64>>)
    ensures
        match r {
            Some(Some(n)) => lo <= n <= hi && f_opt_int(crate::doc::dict_model(es@), names_view(names@), lo as int, hi as int) == Some(Some(n as int)),
            Some(None) => f_opt_int(crate::doc::dict_model(es@), names_view(names@), lo as int, hi as int) == Some(None::<int>),
            None => f_opt_int(crate::doc::dict_model(es@), names_view(names@), lo as int, hi as int) is None,
        },
{
    match find_field(es, names) {
        None => None,
        Some(None) => Some(None),
        Some(Some(i)) => match &es[i].1 {
            Doc::Null => Some(None),
            Doc::Int(n) => if lo <= *n && *n <= hi {
                Some(Some(*n))
            } else {
                None
            },
            _ => None,
        },
    }
}

/// A `Profile` by its name.
pub open spec fn profile_of(d: DocModel) -> Option<Profile> {
    match d {
        DocModel::Str(s) => if s == "standard"@ {
            Some(Profile::Standard)
        } else if s == "music"@ {
            Some(Profile::Music)
        } else {
            None
        },
        _ => None,
    }
}

pub fn read_profile(d: &Doc) -> (r: Option<Profile>)
    ensures
        r == profile_of(d@),
{
    match d {
        Doc::Str(s) => {
            if str_eq(s.as_str(), "standard") {
                Some(Profile::Standard)
            } else if str_eq(s.as_str(), "music") {
                Some(Profile::Music)
            } else {
                None
            }
        },
        _ => None,
    }
}

/// A `Profile` field, with its default where missing.
pub open spec fn f_profile_of(es: Seq<(Option<Seq<char>>, DocModel)>, names: Seq<Seq<char>>) -> Option<Profile> {
    match field(es, names) {
        None => None,
        Some(None) => Some(Profile::Standard),
        Some(Some(d)) => profile_of(d),
    }
}

pub fn read_f_profile_of(es: &Vec<(Option<String>, Doc)>, names: &Vec<&str>) -> (r: Option<Profile>)
    ensures
        r == f_profile_of(crate::doc::dict_model(es@), names_view(names@)),
{
    match find_field(es, names) {
        None => None,
        Some(None) => Some(Profile::Standard),
        Some(Some(i)) => read_profile(&es[i].1),
    }
}

/// A `JobMode` by its name.
pub open spec fn job_mode_of(d: DocModel) -> Option<JobMode> {
    match d {
        DocModel::Str(s) => if s == "single"@ {
            Some(JobMode::Single)
        } else if s == "album"@ {
            Some(JobMode::Album)
        } else {
            None
        },
        _ => None,
    }
}

pub fn read_job_mode(d: &Doc) -> (r: Option<JobMode>)
    ensures
        r == job_mode_of(d@),
{
    match d {
        Doc::Str(s) => {
            if str_eq(s.as_str(), "single") {
                Some(JobMode::Single)
            } else if str_eq(s.as_str(), "album") {
                Some(JobMode::Album)
            } else {
                None
            }
        },
        _ => None,
    }
}

/// A `JobMode` field, with its default where missing.
pub open spec fn f_job_mode_of(es: Seq<(Option<Seq<char>>, DocModel)>, names: Seq<Seq<char>>) -> Option<JobMode> {
    match field(es, names) {
        None => None,
        Some(None) => Some(JobMode::Single),
        Some(Some(d)) => job_mode_of(d),
    }
}

pub fn read_f_job_mode_of(es: &Vec<(Option<String>, Doc)>, names: &Vec<&str>) -> (r: Option<JobMode>)
    ensures
        r == f_job_mode_of(crate::doc::dict_model(es@), names_view(names@)),
{
    match find_field(es, names) {
        None => None,
        Some(None) => Some(JobMode::Single),
        Some(Some(i)) => read_job_mode(&es[i].1),
    }
}

/// A `EncodeMode` by its name.
pub open spec fn encode_mode_of(d: DocModel) -> Option<EncodeMode> {
    match d {
        DocModel::Str(s) => if s == "streaming"@ {
            Some(EncodeMode::Streaming)
        } else if s == "dd"@ {
            Some(EncodeMode::Dd)
        } else if s == "ddp"@ {
            Some(EncodeMode::Ddp)
        } else if s == "mlp"@ {
            Some(EncodeMode::Mlp)
        } else if s == "bluray"@ {
            Some(EncodeMode::Bluray)
        } else if s == "ddp71"@ {
            Some(EncodeMode::Ddp71)
        } else if s == "ac4"@ {
            Some(EncodeMode::Ac4)
        } else {
            None
        },
        _ => None,
    }
}

pub fn read_encode_mode(d: &Doc) -> (r: Option<EncodeMode>)
    ensures
        r == encode_mode_of(d@),
{
    match d {
        Doc::Str(s) => {
            if str_eq(s.as_str(), "streaming") {
                Some(EncodeMode::Streaming)
            } else if str_eq(s.as_str(), "dd") {
                Some(EncodeMode::Dd)
            } else if str_eq(s.as_str(), "ddp") {
                Some(EncodeMode::Ddp)
            } else if str_eq(s.as_str(), "mlp") {
                Some(EncodeMode::Mlp)
            } else if str_eq(s.as_str(), "bluray") {
                Some(EncodeMode::Bluray)
            } else if str_eq(s.as_str(), "ddp71") {
                Some(EncodeMode::Ddp71)
            } else if str_eq(s.as_str(), "ac4") {
                Some(EncodeMode::Ac4)
            } else {
                None
            }
        },
        _ => None,
    }
}

/// A `EncodeMode` field, with its default where missing.
pub open spec fn f_encode_mode_of(es: Seq<(Option<Seq<char>>, DocModel)>, names: Seq<Seq<char>>) -> Option<EncodeMode> {
    match field(es, names) {
        None => None,
        Some(None) => Some(EncodeMode::Streaming),
        Some(Some(d)) => encode_mode_of(d),
    }
}

pub fn read_f_encode_mode_of(es: &Vec<(Option<String>, Doc)>, names: &Vec<&str>) -> (r: Option<EncodeMode>)
    ensures
        r == f_encode_mode_of(crate::doc::dict_model(es@), names_view(names@)),
{
    match find_field(es, names) {
        None => None,
        Some(None) => Some(EncodeMode::Streaming),
        Some(Some(i)) => read_encode_mode(&es[i].1),
    }
}

/// A `OutputContainer` by its name.
pub open spec fn container_of(d: DocModel) -> Option<OutputContainer> {
    match d {
        DocModel::Str(s) => if s == "ac4"@ {
            Some(OutputContainer::Ac4)
        } else if s == "mp4"@ {
            Some(OutputContainer::Mp4)
        } else {
            None
        },
        _ => None,
    }
}

pub fn read_container(d: &Doc) -> (r: Option<OutputContainer>)
    ensures
        r == container_of(d@),
{
    match d {
        Doc::Str(s) => {
            if str_eq(s.as_str(), "ac4") {
                Some(OutputContainer::Ac4)
            } else if str_eq(s.as_str(), "mp4") {
                Some(OutputContainer::Mp4)
            } else {
                None
            }
        },
        _ => None,
    }
}

/// A `OutputContainer` field, with its default where missing.
pub open spec fn f_container_of(es: Seq<(Option<Seq<char>>, DocModel)>, names: Seq<Seq<char>>) -> Option<OutputContainer> {
    match field(es, names) {
        None => None,
        Some(None) => Some(OutputContainer::Ac4),
        Some(Some(d)) => container_of(d),
    }
}

pub fn read_f_container_of(es: &Vec<(Option<String>, Doc)>, names: &Vec<&str>) -> (r: Option<OutputContainer>)
    ensures
        r == f_container_of(crate::doc::dict_model(es@), names_view(names@)),
{
    match find_field(es, names) {
        None => None,
        Some(None) => Some(OutputContainer::Ac4),
        Some(Some(i)) => read_container(&es[i].1),
    }
}

/// A `Ac4OutputMode` by its name.
pub open spec fn ac4_output_mode_of(d: DocModel) -> Option<Ac4OutputMode> {
    match d {
        DocModel::Str(s) => if s == "single"@ {
            Some(Ac4OutputMode::Single)
        } else if s == "multi3"@ {
            Some(Ac4OutputMode::Multi3)
        } else {
            None
        },
        _ => None,
    }
}

pub fn read_ac4_output_mode(d: &Doc) -> (r: Option<Ac4OutputMode>)
    ensures
        r == ac4_output_mode_of(d@),
{
    match d {
        Doc::Str(s) => {
            if str_eq(s.as_str(), "single") {
                Some(Ac4OutputMode::Single)
            } else if str_eq(s.as_str(), "multi3") {
                Some(Ac4OutputMode::Multi3)
            } else {
                None
            }
        },
        _ => None,
    }
}

/// A `Ac4OutputMode` field, with its default where missing.
pub open spec fn f_ac4_output_mode_of(es: Seq<(Option<Seq<char>>, DocModel)>, names: Seq<Seq<char>>) -> Option<Ac4OutputMode> {
    match field(es, names) {
        None => None,
        Some(None) => Some(Ac4OutputMode::Single),
        Some(Some(d)) => ac4_output_mode_of(d),
    }
}

pub fn read_f_ac4_output_mode_of(es: &Vec<(Option<String>, Doc)>, names: &Vec<&str>) -> (r: Option<Ac4OutputMode>)
    ensures
        r == f_ac4_output_mode_of(crate::doc::dict_model(es@), names_view(names@)),
{
    match find_field(es, names) {
        None => None,
        Some(None) => Some(Ac4OutputMode::Single),
        Some(Some(i)) => read_ac4_output_mode(&es[i].1),
    }
}

/// Model of the filter overrides.
pub struct OverridesModel {
    pub channel_configuration: Option<Seq<char>>,
    pub input_timecode_frame_rate: Option<Seq<char>>,
    pub offset: Option<Seq<char>>,
    pub ffoa: Option<Seq<char>>,
    pub metering_mode: Option<Seq<char>>,
    pub dialogue_intelligence: Option<bool>,
    pub speech_threshold: Option<int>,
    pub data_rate: Option<int>,
    pub ac4_frame_rate: Option<Seq<char>>,
    pub ims_legacy_presentation: Option<bool>,
    pub iframe_interval: Option<int>,
    pub language: Option<Seq<char>>,
    pub encoding_profile: Option<Seq<char>>,
    pub bitstream_mode: Option<Seq<char>>,
    pub downmix_config: Option<Seq<char>>,
    pub timecode_frame_rate: Option<Seq<char>>,
    pub start: Option<Seq<char>>,
    pub end: Option<Seq<char>>,
    pub time_base: Option<Seq<char>>,
    pub prepend_silence_duration: Option<Seq<char>>,
    pub append_silence_duration: Option<Seq<char>>,
    pub lfe_on: Option<bool>,
    pub dolby_surround_mode: Option<Seq<char>>,
    pub dolby_surround_ex_mode: Option<Seq<char>>,
    pub user_data: Option<int>,
    pub line_mode_drc_profile: Option<Seq<char>>,
    pub rf_mode_drc_profile: Option<Seq<char>>,
    pub ddp_drc_profile: Option<Seq<char>>,
    pub flat_panel_drc_profile: Option<Seq<char>>,
    pub home_theatre_drc_profile: Option<Seq<char>>,
    pub portable_hp_drc_profile: Option<Seq<char>>,
    pub portable_spkr_drc_profile: Option<Seq<char>>,
    pub lfe_lowpass_filter: Option<bool>,
    pub surround_90_degree_phase_shift: Option<bool>,
    pub surround_3db_attenuation: Option<bool>,
    pub loro_center_mix_level: Option<Seq<char>>,
    pub loro_surround_mix_level: Option<Seq<char>>,
    pub ltrt_center_mix_level: Option<Seq<char>>,
    pub ltrt_surround_mix_level: Option<Seq<char>>,
    pub preferred_downmix_mode: Option<Seq<char>>,
    pub allow_hybrid_downmix: Option<bool>,
    pub starting_timecode: Option<Seq<char>>,
    pub frame_rate: Option<Seq<char>>,
    pub surround_trim_5_1: Option<Seq<char>>,
    pub height_trim_5_1: Option<Seq<char>>,
    pub custom_dialnorm: Option<int>,
    pub encoding_backend: Option<Seq<char>>,
    pub encoder_mode: Option<Seq<char>>,
    pub atmos_presentation_drc_profile: Option<Seq<char>>,
    pub spatial_clusters: Option<Seq<char>>,
    pub legacy_authoring_compatibility: Option<bool>,
    pub presentation_8ch_drc_profile: Option<Seq<char>>,
    pub presentation_6ch_drc_profile: Option<Seq<char>>,
    pub presentation_2ch_drc_profile: Option<Seq<char>>,
    pub optimize_data_rate: Option<bool>,
}

impl View for FilterOverrides {
    type V = OverridesModel;

    open spec fn view(&self) -> OverridesModel {
        OverridesModel {
            channel_configuration: match &self.channel_configuration {
                Some(s) => Some(s@),
                None => None,
            },
            input_timecode_frame_rate: match &self.input_timecode_frame_rate {
                Some(s) => Some(s@),
                None => None,
            },
            offset: match &self.offset {
                Some(s) => Some(s@),
                None => None,
            },
            ffoa: match &self.ffoa {
                Some(s) => Some(s@),
                None => None,
            },
            metering_mode: match &self.metering_mode {
                Some(s) => Some(s@),
                None => None,
            },
            dialogue_intelligence: self.dialogue_intelligence,
            speech_threshold: match self.speech_threshold {
                Some(x) => Some(x as int),
                None => None,
            },
            data_rate: match self.data_rate {
                Some(x) => Some(x as int),
                None => None,
            },
            ac4_frame_rate: match &self.ac4_frame_rate {
                Some(s) => Some(s@),
                None => None,
            },
            ims_legacy_presentation: self.ims_legacy_presentation,
            iframe_interval: match self.iframe_interval {
                Some(x) => Some(x as int),
                None => None,
            },
            language: match &self.language {
                Some(s) => Some(s@),
                None => None,
            },
            encoding_profile: match &self.encoding_profile {
                Some(s) => Some(s@),
                None => None,
            },
            bitstream_mode: match &self.bitstream_mode {
                Some(s) => Some(s@),
                None => None,
            },
            downmix_config: match &self.downmix_config {
                Some(s) => Some(s@),
                None => None,
            },
            timecode_frame_rate: match &self.timecode_frame_rate {
                Some(s) => Some(s@),
                None => None,
            },
            start: match &self.start {
                Some(s) => Some(s@),
                None => None,
            },
            end: match &self.end {
                Some(s) => Some(s@),
                None => None,
            },
            time_base: match &self.time_base {
                Some(s) => Some(s@),
                None => None,
            },
            prepend_silence_duration: match &self.prepend_silence_duration {
                Some(s) => Some(s@),
                None => None,
            },
            append_silence_duration: match &self.append_silence_duration {
                Some(s) => Some(s@),
                None => None,
            },
            lfe_on: self.lfe_on,
            dolby_surround_mode: match &self.dolby_surround_mode {
                Some(s) => Some(s@),
                None => None,
            },
            dolby_surround_ex_mode: match &self.dolby_surround_ex_mode {
                Some(s) => Some(s@),
                None => None,
            },
            user_data: match self.user_data {
                Some(x) => Some(x as int),
                None => None,
            },
            line_mode_drc_profile: match &self.line_mode_drc_profile {
                Some(s) => Some(s@),
                None => None,
            },
            rf_mode_drc_profile: match &self.rf_mode_drc_profile {
                Some(s) => Some(s@),
                None => None,
            },
            ddp_drc_profile: match &self.ddp_drc_profile {
                Some(s) => Some(s@),
                None => None,
            },
            flat_panel_drc_profile: match &self.flat_panel_drc_profile {
                Some(s) => Some(s@),
                None => None,
            },
            home_theatre_drc_profile: match &self.home_theatre_drc_profile {
                Some(s) => Some(s@),
                None => None,
            },
            portable_hp_drc_profile: match &self.portable_hp_drc_profile {
                Some(s) => Some(s@),
                None => None,
            },
            portable_spkr_drc_profile: match &self.portable_spkr_drc_profile {
                Some(s) => Some(s@),
                None => None,
            },
            lfe_lowpass_filter: self.lfe_lowpass_filter,
            surround_90_degree_phase_shift: self.surround_90_degree_phase_shift,
            surround_3db_attenuation: self.surround_3db_attenuation,
            loro_center_mix_level: match &self.loro_center_mix_level {
                Some(s) => Some(s@),
                None => None,
            },
            loro_surround_mix_level: match &self.loro_surround_mix_level {
                Some(s) => Some(s@),
                None => None,
            },
            ltrt_center_mix_level: match &self.ltrt_center_mix_level {
                Some(s) => Some(s@),
                None => None,
            },
            ltrt_surround_mix_level: match &self.ltrt_surround_mix_level {
                Some(s) => Some(s@),
                None => None,
            },
            preferred_downmix_mode: match &self.preferred_downmix_mode {
                Some(s) => Some(s@),
                None => None,
            },
            allow_hybrid_downmix: self.allow_hybrid_downmix,
            starting_timecode: match &self.starting_timecode {
                Some(s) => Some(s@),
                None => None,
            },
            frame_rate: match &self.frame_rate {
                Some(s) => Some(s@),
                None => None,
            },
            surround_trim_5_1: match &self.surround_trim_5_1 {
                Some(s) => Some(s@),
                None => None,
            },
            height_trim_5_1: match &self.height_trim_5_1 {
                Some(s) => Some(s@),
                None => None,
            },
            custom_dialnorm: match self.custom_dialnorm {
                Some(x) => Some(x as int),
                None => None,
            },
            encoding_backend: match &self.encoding_backend {
                Some(s) => Some(s@),
                None => None,
            },
            encoder_mode: match &self.encoder_mode {
                Some(s) => Some(s@),
                None => None,
            },
            atmos_presentation_drc_profile: match &self.atmos_presentation_drc_profile {
                Some(s) => Some(s@),
                None => None,
            },
            spatial_clusters: match &self.spatial_clusters {
                Some(s) => Some(s@),
                None => None,
            },
            legacy_authoring_compatibility: self.legacy_authoring_compatibility,
            presentation_8ch_drc_profile: match &self.presentation_8ch_drc_profile {
                Some(s) => Some(s@),
                None => None,
            },
            presentation_6ch_drc_profile: match &self.presentation_6ch_drc_profile {
                Some(s) => Some(s@),
                None => None,
            },
            presentation_2ch_drc_profile: match &self.presentation_2ch_drc_profile {
                Some(s) => Some(s@),
                None => None,
            },
            optimize_data_rate: self.optimize_data_rate,
        }
    }
}

/// Fields channel_configuration to data_rate of a `filter` mapping read.
pub open spec fn overrides_ok_0(es: Seq<(Option<Seq<char>>, DocModel)>, l: bool) -> bool {
    f_opt_text(es, seq!["channel_configuration"@], l) is Some
        && f_opt_text(es, seq!["input_timecode_frame_rate"@], l) is Some
        && f_opt_text(es, seq!["offset"@], l) is Some
        && f_opt_text(es, seq!["ffoa"@], l) is Some
        && f_opt_text(es, seq!["metering_mode"@], l) is Some
        && f_opt_bool(es, seq!["dialogue_intelligence"@]) is Some
        && f_opt_int(es, seq!["speech_threshold"@], 0, 255) is Some
        && f_opt_int(es, seq!["data_rate"@], 0, 65535) is Some
}

/// Fields ac4_frame_rate to timecode_frame_rate of a `filter` mapping read.
pub open spec fn overrides_ok_1(es: Seq<(Option<Seq<char>>, DocModel)>, l: bool) -> bool {
    f_opt_text(es, seq!["ac4_frame_rate"@], l) is Some
        && f_opt_bool(es, seq!["ims_legacy_presentation"@]) is Some
        && f_opt_int(es, seq!["iframe_interval"@], 0, 65535) is Some
        && f_opt_text(es, seq!["language"@], l) is Some
        && f_opt_text(es, seq!["encoding_profile"@], l) is Some
        && f_opt_text(es, seq!["bitstream_mode"@], l) is Some
        && f_opt_text(es, seq!["downmix_config"@], l) is Some
        && f_opt_text(es, seq!["timecode_frame_rate"@], l) is Some
}

/// Fields start to dolby_surround_ex_mode of a `filter` mapping read.
pub open spec fn overrides_ok_2(es: Seq<(Option<Seq<char>>, DocModel)>, l: bool) -> bool {
    f_opt_text(es, seq!["start"@], l) is Some
        && f_opt_text(es, seq!["end"@], l) is Some
        && f_opt_text(es, seq!["time_base"@], l) is Some
        && f_opt_text(es, seq!["prepend_silence_duration"@], l) is Some
        && f_opt_text(es, seq!["append_silence_duration"@], l) is Some
        && f_opt_bool(es, seq!["lfe_on"@]) is Some
        && f_opt_text(es, seq!["dolby_surround_mode"@], l) is Some
        && f_opt_text(es, seq!["dolby_surround_ex_mode"@], l) is Some
}

/// Fields user_data to portable_spkr_drc_profile of a `filter` mapping read.
pub open spec fn overrides_ok_3(es: Seq<(Option<Seq<char>>, DocModel)>, l: bool) -> bool {
    f_opt_int(es, seq!["user_data"@], -2147483648, 2147483647) is Some
        && f_opt_text(es, seq!["line_mode_drc_profile"@], l) is Some
        && f_opt_text(es, seq!["rf_mode_drc_profile"@], l) is Some
        && f_opt_text(es, seq!["ddp_drc_profile"@], l) is Some
        && f_opt_text(es, seq!["flat_panel_drc_profile"@], l) is Some
        && f_opt_text(es, seq!["home_theatre_drc_profile"@], l) is Some
        && f_opt_text(es, seq!["portable_hp_drc_profile"@], l) is Some
        && f_opt_text(es, seq!["portable_spkr_drc_profile"@], l) is Some
}

/// Fields lfe_lowpass_filter to preferred_downmix_mode of a `filter` mapping read.
pub open spec fn overrides_ok_4(es: Seq<(Option<Seq<char>>, DocModel)>, l: bool) -> bool {
    f_opt_bool(es, seq!["lfe_lowpass_filter"@]) is Some
        && f_opt_bool(es, seq!["surround_90_degree_phase_shift"@]) is Some
        && f_opt_bool(es, seq!["surround_3db_attenuation"@]) is Some
        && f_opt_text(es, seq!["loro_center_mix_level"@], l) is Some
        && f_opt_text(es, seq!["loro_surround_mix_level"@], l) is Some
        && f_opt_text(es, seq!["ltrt_center_mix_level"@], l) is Some
        && f_opt_text(es, seq!["ltrt_surround_mix_level"@], l) is Some
        && f_opt_text(es, seq!["preferred_downmix_mode"@], l) is Some
}

/// Fields allow_hybrid_downmix to encoder_mode of a `filter` mapping read.
pub open spec fn overrides_ok_5(es: Seq<(Option<Seq<char>>, DocModel)>, l: bool) -> bool {
    f_opt_bool(es, seq!["allow_hybrid_downmix"@]) is Some
        && f_opt_text(es, seq!["starting_timecode"@], l) is Some
        && f_opt_text(es, seq!["frame_rate"@], l) is Some
        && f_opt_text(es, seq!["surround_trim_5_1"@], l) is Some
        && f_opt_text(es, seq!["height_trim_5_1"@], l) is Some
        && f_opt_int(es, seq!["custom_dialnorm"@], -128, 127) is Some
        && f_opt_text(es, seq!["encoding_backend"@], l) is Some
        && f_opt_text(es, seq!["encoder_mode"@], l) is Some
}

/// Fields atmos_presentation_drc_profile to optimize_data_rate of a `filter` mapping read.
pub open spec fn overrides_ok_6(es: Seq<(Option<Seq<char>>, DocModel)>, l: bool) -> bool {
    f_opt_text(es, seq!["atmos_presentation_drc_profile"@], l) is Some
        && f_opt_text(es, seq!["spatial_clusters"@], l) is Some
        && f_opt_bool(es, seq!["legacy_authoring_compatibility"@]) is Some
        && f_opt_text(es, seq!["presentation_8ch_drc_profile"@], l) is Some
        && f_opt_text(es, seq!["presentation_6ch_drc_profile"@], l) is Some
        && f_opt_text(es, seq!["presentation_2ch_drc_profile"@], l) is Some
        && f_opt_bool(es, seq!["optimize_data_rate"@]) is Some
}

pub open spec fn overrides_ok(es: Seq<(Option<Seq<char>>, DocModel)>, l: bool) -> bool {
    overrides_ok_0(es, l) && overrides_ok_1(es, l) && overrides_ok_2(es, l) && overrides_ok_3(es, l) && overrides_ok_4(es, l) && overrides_ok_5(es, l) && overrides_ok_6(es, l)
}

pub open spec fn overrides_value(es: Seq<(Option<Seq<char>>, DocModel)>, l: bool) -> OverridesModel {
    OverridesModel {
        channel_configuration: f_opt_text(es, seq!["channel_configuration"@], l)->0,
        input_timecode_frame_rate: f_opt_text(es, seq!["input_timecode_frame_rate"@], l)->0,
        offset: f_opt_text(es, seq!["offset"@], l)->0,
        ffoa: f_opt_text(es, seq!["ffoa"@], l)->0,
        metering_mode: f_opt_text(es, seq!["metering_mode"@], l)->0,
        dialogue_intelligence: f_opt_bool(es, seq!["dialogue_intelligence"@])->0,
        speech_threshold: f_opt_int(es, seq!["speech_threshold"@], 0, 255)->0,
        data_rate: f_opt_int(es, seq!["data_rate"@], 0, 65535)->0,
        ac4_frame_rate: f_opt_text(es, seq!["ac4_frame_rate"@], l)->0,
        ims_legacy_presentation: f_opt_bool(es, seq!["ims_legacy_presentation"@])->0,
        iframe_interval: f_opt_int(es, seq!["iframe_interval"@], 0, 65535)->0,
        language: f_opt_text(es, seq!["language"@], l)->0,
        encoding_profile: f_opt_text(es, seq!["encoding_profile"@], l)->0,
        bitstream_mode: f_opt_text(es, seq!["bitstream_mode"@], l)->0,
        downmix_config: f_opt_text(es, seq!["downmix_config"@], l)->0,
        timecode_frame_rate: f_opt_text(es, seq!["timecode_frame_rate"@], l)->0,
        start: f_opt_text(es, seq!["start"@], l)->0,
        end: f_opt_text(es, seq!["end"@], l)->0,
        time_base: f_opt_text(es, seq!["time_base"@], l)->0,
        prepend_silence_duration: f_opt_text(es, seq!["prepend_silence_duration"@], l)->0,
        append_silence_duration: f_opt_text(es, seq!["append_silence_duration"@], l)->0,
        lfe_on: f_opt_bool(es, seq!["lfe_on"@])->0,
        dolby_surround_mode: f_opt_text(es, seq!["dolby_surround_mode"@], l)->0,
        dolby_surround_ex_mode: f_opt_text(es, seq!["dolby_surround_ex_mode"@], l)->0,
        user_data: f_opt_int(es, seq!["user_data"@], -2147483648, 2147483647)->0,
        line_mode_drc_profile: f_opt_text(es, seq!["line_mode_drc_profile"@], l)->0,
        rf_mode_drc_profile: f_opt_text(es, seq!["rf_mode_drc_profile"@], l)->0,
        ddp_drc_profile: f_opt_text(es, seq!["ddp_drc_profile"@], l)->0,
        flat_panel_drc_profile: f_opt_text(es, seq!["flat_panel_drc_profile"@], l)->0,
        home_theatre_drc_profile: f_opt_text(es, seq!["home_theatre_drc_profile"@], l)->0,
        portable_hp_drc_profile: f_opt_text(es, seq!["portable_hp_drc_profile"@], l)->0,
        portable_spkr_drc_profile: f_opt_text(es, seq!["portable_spkr_drc_profile"@], l)->0,
        lfe_lowpass_filter: f_opt_bool(es, seq!["lfe_lowpass_filter"@])->0,
        surround_90_degree_phase_shift: f_opt_bool(es, seq!["surround_90_degree_phase_shift"@])->0,
        surround_3db_attenuation: f_opt_bool(es, seq!["surround_3db_attenuation"@])->0,
        loro_center_mix_level: f_opt_text(es, seq!["loro_center_mix_level"@], l)->0,
        loro_surround_mix_level: f_opt_text(es, seq!["loro_surround_mix_level"@], l)->0,
        ltrt_center_mix_level: f_opt_text(es, seq!["ltrt_center_mix_level"@], l)->0,
        ltrt_surround_mix_level: f_opt_text(es, seq!["ltrt_surround_mix_level"@], l)->0,
        preferred_downmix_mode: f_opt_text(es, seq!["preferred_downmix_mode"@], l)->0,
        allow_hybrid_downmix: f_opt_bool(es, seq!["allow_hybrid_downmix"@])->0,
        starting_timecode: f_opt_text(es, seq!["starting_timecode"@], l)->0,
        frame_rate: f_opt_text(es, seq!["frame_rate"@], l)->0,
        surround_trim_5_1: f_opt_text(es, seq!["surround_trim_5_1"@], l)->0,
        height_trim_5_1: f_opt_text(es, seq!["height_trim_5_1"@], l)->0,
        custom_dialnorm: f_opt_int(es, seq!["custom_dialnorm"@], -128, 127)->0,
        encoding_backend: f_opt_text(es, seq!["encoding_backend"@], l)->0,
        encoder_mode: f_opt_text(es, seq!["encoder_mode"@], l)->0,
        atmos_presentation_drc_profile: f_opt_text(es, seq!["atmos_presentation_drc_profile"@], l)->0,
        spatial_clusters: f_opt_text(es, seq!["spatial_clusters"@], l)->0,
        legacy_authoring_compatibility: f_opt_bool(es, seq!["legacy_authoring_compatibility"@])->0,
        presentation_8ch_drc_profile: f_opt_text(es, seq!["presentation_8ch_drc_profile"@], l)->0,
        presentation_6ch_drc_profile: f_opt_text(es, seq!["presentation_6ch_drc_profile"@], l)->0,
        presentation_2ch_drc_profile: f_opt_text(es, seq!["presentation_2ch_drc_profile"@], l)->0,
        optimize_data_rate: f_opt_bool(es, seq!["optimize_data_rate"@])->0,
    }
}

/// The filter overrides of a `filter` mapping.
pub open spec fn overrides_of(d: DocModel, l: bool) -> Option<OverridesModel> {
    match d {
        DocModel::Dict(es) => if overrides_ok(es, l) {
            Some(overrides_value(es, l))
        } else {
            None
        },
        _ => None,
    }
}

fn read_overrides_0(o: &mut FilterOverrides, es: &Vec<(Option<String>, Doc)>, l: bool) -> (r: bool)
    ensures
        r == overrides_ok_0(crate::doc::dict_model(es@), l),
        r ==> ({
            let es = crate::doc::dict_model(es@);
            final(o)@ == (OverridesModel { channel_configuration: f_opt_text(es, seq!["channel_configuration"@], l)->0, input_timecode_frame_rate: f_opt_text(es, seq!["input_timecode_frame_rate"@], l)->0, offset: f_opt_text(es, seq!["offset"@], l)->0, ffoa: f_opt_text(es, seq!["ffoa"@], l)->0, metering_mode: f_opt_text(es, seq!["metering_mode"@], l)->0, dialogue_intelligence: f_opt_bool(es, seq!["dialogue_intelligence"@])->0, speech_threshold: f_opt_int(es, seq!["speech_threshold"@], 0, 255)->0, data_rate: f_opt_int(es, seq!["data_rate"@], 0, 65535)->0, ..old(o)@ })
        }),
{
    match read_f_opt_text(es, &one("channel_configuration"), l) {
        Some(v) => {
            o.channel_configuration = v;
        },
        None => {
            return false;
        },
    }
    match read_f_opt_text(es, &one("input_timecode_frame_rate"), l) {
        Some(v) => {
            o.input_timecode_frame_rate = v;
        },
        None => {
            return false;
        },
    }
    match read_f_opt_text(es, &one("offset"), l) {
        Some(v) => {
            o.offset = v;
        },
        None => {
            return false;
        },
    }
    match read_f_opt_text(es, &one("ffoa"), l) {
        Some(v) => {
            o.ffoa = v;
        },
        None => {
            return false;
        },
    }
    match read_f_opt_text(es, &one("metering_mode"), l) {
        Some(v) => {
            o.metering_mode = v;
        },
        None => {
            return false;
        },
    }
    match read_f_opt_bool(es, &one("dialogue_intelligence")) {
        Some(v) => {
            o.dialogue_intelligence = v;
        },
        None => {
            return false;
        },
    }
    match read_f_opt_int(es, &one("speech_threshold"), 0, 255) {
        Some(Some(v)) => {
            o.speech_threshold = Some(v as u8);
        },
        Some(None) => {
            o.speech_threshold = None;
        },
        None => {
            return false;
        },
    }
    match read_f_opt_int(es, &one("data_rate"), 0, 65535) {
        Some(Some(v)) => {
            o.data_rate = Some(v as u16);
        },
        Some(None) => {
            o.data_rate = None;
        },
        None => {
            return false;
        },
    }
    true
}

fn read_overrides_1(o: &mut FilterOverrides, es: &Vec<(Option<String>, Doc)>, l: bool) -> (r: bool)
    ensures
        r == overrides_ok_1(crate::doc::dict_model(es@), l),
        r ==> ({
            let es = crate::doc::dict_model(es@);
            final(o)@ == (OverridesModel { ac4_frame_rate: f_opt_text(es, seq!["ac4_frame_rate"@], l)->0, ims_legacy_presentation: f_opt_bool(es, seq!["ims_legacy_presentation"@])->0, iframe_interval: f_opt_int(es, seq!["iframe_interval"@], 0, 65535)->0, language: f_opt_text(es, seq!["language"@], l)->0, encoding_profile: f_opt_text(es, seq!["encoding_profile"@], l)->0, bitstream_mode: f_opt_text(es, seq!["bitstream_mode"@], l)->0, downmix_config: f_opt_text(es, seq!["downmix_config"@], l)->0, timecode_frame_rate: f_opt_text(es, seq!["timecode_frame_rate"@], l)->0, ..old(o)@ })
        }),
{
    match read_f_opt_text(es, &one("ac4_frame_rate"), l) {
        Some(v) => {
            o.ac4_frame_rate = v;
        },
        None => {
            return false;
        },
    }
    match read_f_opt_bool(es, &one("ims_legacy_presentation")) {
        Some(v) => {
            o.ims_legacy_presentation = v;
        },
        None => {
            return false;
        },
    }
    match read_f_opt_int(es, &one("iframe_interval"), 0, 65535) {
        Some(Some(v)) => {
            o.iframe_interval = Some(v as u16);
        },
        Some(None) => {
            o.iframe_interval = None;
        },
        None => {
            return false;
        },
    }
    match read_f_opt_text(es, &one("language"), l) {
        Some(v) => {
            o.language = v;
        },
        None => {
            return false;
        },
    }
    match read_f_opt_text(es, &one("encoding_profile"), l) {
        Some(v) => {
            o.encoding_profile = v;
        },
        None => {
            return false;
        },
    }
    match read_f_opt_text(es, &one("bitstream_mode"), l) {
        Some(v) => {
            o.bitstream_mode = v;
        },
        None => {
            return false;
        },
    }
    match read_f_opt_text(es, &one("downmix_config"), l) {
        Some(v) => {
            o.downmix_config = v;
        },
        None => {
            return false;
        },
    }
    match read_f_opt_text(es, &one("timecode_frame_rate"), l) {
        Some(v) => {
            o.timecode_frame_rate = v;
        },
        None => {
            return false;
        },
    }
    true
}

fn read_overrides_2(o: &mut FilterOverrides, es: &Vec<(Option<String>, Doc)>, l: bool) -> (r: bool)
    ensures
        r == overrides_ok_2(crate::doc::dict_model(es@), l),
        r ==> ({
            let es = crate::doc::dict_model(es@);
            final(o)@ == (OverridesModel { start: f_opt_text(es, seq!["start"@], l)->0, end: f_opt_text(es, seq!["end"@], l)->0, time_base: f_opt_text(es, seq!["time_base"@], l)->0, prepend_silence_duration: f_opt_text(es, seq!["prepend_silence_duration"@], l)->0, append_silence_duration: f_opt_text(es, seq!["append_silence_duration"@], l)->0, lfe_on: f_opt_bool(es, seq!["lfe_on"@])->0, dolby_surround_mode: f_opt_text(es, seq!["dolby_surround_mode"@], l)->0, dolby_surround_ex_mode: f_opt_text(es, seq!["dolby_surround_ex_mode"@], l)->0, ..old(o)@ })
        }),
{
    match read_f_opt_text(es, &one("start"), l) {
        Some(v) => {
            o.start = v;
        },
        None => {
            return false;
        },
    }
    match read_f_opt_text(es, &one("end"), l) {
        Some(v) => {
            o.end = v;
        },
        None => {
            return false;
        },
    }
    match read_f_opt_text(es, &one("time_base"), l) {
        Some(v) => {
            o.time_base = v;
        },
        None => {
            return false;
        },
    }
    match read_f_opt_text(es, &one("prepend_silence_duration"), l) {
        Some(v) => {
            o.prepend_silence_duration = v;
        },
        None => {
            return false;
        },
    }
    match read_f_opt_text(es, &one("append_silence_duration"), l) {
        Some(v) => {
            o.append_silence_duration = v;
        },
        None => {
            return false;
        },
    }
    match read_f_opt_bool(es, &one("lfe_on")) {
        Some(v) => {
            o.lfe_on = v;
        },
        None => {
            return false;
        },
    }
    match read_f_opt_text(es, &one("dolby_surround_mode"), l) {
        Some(v) => {
            o.dolby_surround_mode = v;
        },
        None => {
            return false;
        },
    }
    match read_f_opt_text(es, &one("dolby_surround_ex_mode"), l) {
        Some(v) => {
            o.dolby_surround_ex_mode = v;
        },
        None => {
            return false;
        },
    }
    true
}

fn read_overrides_3(o: &mut FilterOverrides, es: &Vec<(Option<String>, Doc)>, l: bool) -> (r: bool)
    ensures
        r == overrides_ok_3(crate::doc::dict_model(es@), l),
        r ==> ({
            let es = crate::doc::dict_model(es@);
            final(o)@ == (OverridesModel { user_data: f_opt_int(es, seq!["user_data"@], -2147483648, 2147483647)->0, line_mode_drc_profile: f_opt_text(es, seq!["line_mode_drc_profile"@], l)->0, rf_mode_drc_profile: f_opt_text(es, seq!["rf_mode_drc_profile"@], l)->0, ddp_drc_profile: f_opt_text(es, seq!["ddp_drc_profile"@], l)->0, flat_panel_drc_profile: f_opt_text(es, seq!["flat_panel_drc_profile"@], l)->0, home_theatre_drc_profile: f_opt_text(es, seq!["home_theatre_drc_profile"@], l)->0, portable_hp_drc_profile: f_opt_text(es, seq!["portable_hp_drc_profile"@], l)->0, portable_spkr_drc_profile: f_opt_text(es, seq!["portable_spkr_drc_profile"@], l)->0, ..old(o)@ })
        }),
{
    match read_f_opt_int(es, &one("user_data"), -2147483648, 2147483647) {
        Some(Some(v)) => {
            o.user_data = Some(v as i32);
        },
        Some(None) => {
            o.user_data = None;
        },
        None => {
            return false;
        },
    }
    match read_f_opt_text(es, &one("line_mode_drc_profile"), l) {
        Some(v) => {
            o.line_mode_drc_profile = v;
        },
        None => {
            return false;
        },
    }
    match read_f_opt_text(es, &one("rf_mode_drc_profile"), l) {
        Some(v) => {
            o.rf_mode_drc_profile = v;
        },
        None => {
            return false;
        },
    }
    match read_f_opt_text(es, &one("ddp_drc_profile"), l) {
        Some(v) => {
            o.ddp_drc_profile = v;
        },
        None => {
            return false;
        },
    }
    match read_f_opt_text(es, &one("flat_panel_drc_profile"), l) {
        Some(v) => {
            o.flat_panel_drc_profile = v;
        },
        None => {
            return false;
        },
    }
    match read_f_opt_text(es, &one("home_theatre_drc_profile"), l) {
        Some(v) => {
            o.home_theatre_drc_profile = v;
        },
        None => {
            return false;
        },
    }
    match read_f_opt_text(es, &one("portable_hp_drc_profile"), l) {
        Some(v) => {
            o.portable_hp_drc_profile = v;
        },
        None => {
            return false;
        },
    }
    match read_f_opt_text(es, &one("portable_spkr_drc_profile"), l) {
        Some(v) => {
            o.portable_spkr_drc_profile = v;
        },
        None => {
            return false;
        },
    }
    true
}

fn read_overrides_4(o: &mut FilterOverrides, es: &Vec<(Option<String>, Doc)>, l: bool) -> (r: bool)
    ensures
        r == overrides_ok_4(crate::doc::dict_model(es@), l),
        r ==> ({
            let es = crate::doc::dict_model(es@);
            final(o)@ == (OverridesModel { lfe_lowpass_filter: f_opt_bool(es, seq!["lfe_lowpass_filter"@])->0, surround_90_degree_phase_shift: f_opt_bool(es, seq!["surround_90_degree_phase_shift"@])->0, surround_3db_attenuation: f_opt_bool(es, seq!["surround_3db_attenuation"@])->0, loro_center_mix_level: f_opt_text(es, seq!["loro_center_mix_level"@], l)->0, loro_surround_mix_level: f_opt_text(es, seq!["loro_surround_mix_level"@], l)->0, ltrt_center_mix_level: f_opt_text(es, seq!["ltrt_center_mix_level"@], l)->0, ltrt_surround_mix_level: f_opt_text(es, seq!["ltrt_surround_mix_level"@], l)->0, preferred_downmix_mode: f_opt_text(es, seq!["preferred_downmix_mode"@], l)->0, ..old(o)@ })
        }),
{
    match read_f_opt_bool(es, &one("lfe_lowpass_filter")) {
        Some(v) => {
            o.lfe_lowpass_filter = v;
        },
        None => {
            return false;
        },
    }
    match read_f_opt_bool(es, &one("surround_90_degree_phase_shift")) {
        Some(v) => {
            o.surround_90_degree_phase_shift = v;
        },
        None => {
            return false;
        },
    }
    match read_f_opt_bool(es, &one("surround_3db_attenuation")) {
        Some(v) => {
            o.surround_3db_attenuation = v;
        },
        None => {
            return false;
        },
    }
    match read_f_opt_text(es, &one("loro_center_mix_level"), l) {
        Some(v) => {
            o.loro_center_mix_level = v;
        },
        None => {
            return false;
        },
    }
    match read_f_opt_text(es, &one("loro_surround_mix_level"), l) {
        Some(v) => {
            o.loro_surround_mix_level = v;
        },
        None => {
            return false;
        },
    }
    match read_f_opt_text(es, &one("ltrt_center_mix_level"), l) {
        Some(v) => {
            o.ltrt_center_mix_level = v;
        },
        None => {
            return false;
        },
    }
    match read_f_opt_text(es, &one("ltrt_surround_mix_level"), l) {
        Some(v) => {
            o.ltrt_surround_mix_level = v;
        },
        None => {
            return false;
        },
    }
    match read_f_opt_text(es, &one("preferred_downmix_mode"), l) {
        Some(v) => {
            o.preferred_downmix_mode = v;
        },
        None => {
            return false;
        },
    }
    true
}

fn read_overrides_5(o: &mut FilterOverrides, es: &Vec<(Option<String>, Doc)>, l: bool) -> (r: bool)
    ensures
        r == overrides_ok_5(crate::doc::dict_model(es@), l),
        r ==> ({
            let es = crate::doc::dict_model(es@);
            final(o)@ == (OverridesModel { allow_hybrid_downmix: f_opt_bool(es, seq!["allow_hybrid_downmix"@])->0, starting_timecode: f_opt_text(es, seq!["starting_timecode"@], l)->0, frame_rate: f_opt_text(es, seq!["frame_rate"@], l)->0, surround_trim_5_1: f_opt_text(es, seq!["surround_trim_5_1"@], l)->0, height_trim_5_1: f_opt_text(es, seq!["height_trim_5_1"@], l)->0, custom_dialnorm: f_opt_int(es, seq!["custom_dialnorm"@], -128, 127)->0, encoding_backend: f_opt_text(es, seq!["encoding_backend"@], l)->0, encoder_mode: f_opt_text(es, seq!["encoder_mode"@], l)->0, ..old(o)@ })
        }),
{
    match read_f_opt_bool(es, &one("allow_hybrid_downmix")) {
        Some(v) => {
            o.allow_hybrid_downmix = v;
        },
        None => {
            return false;
        },
    }
    match read_f_opt_text(es, &one("starting_timecode"), l) {
        Some(v) => {
            o.starting_timecode = v;
        },
        None => {
            return false;
        },
    }
    match read_f_opt_text(es, &one("frame_rate"), l) {
        Some(v) => {
            o.frame_rate = v;
        },
        None => {
            return false;
        },
    }
    match read_f_opt_text(es, &one("surround_trim_5_1"), l) {
        Some(v) => {
            o.surround_trim_5_1 = v;
        },
        None => {
            return false;
        },
    }
    match read_f_opt_text(es, &one("height_trim_5_1"), l) {
        Some(v) => {
            o.height_trim_5_1 = v;
        },
        None => {
            return false;
        },
    }
    match read_f_opt_int(es, &one("custom_dialnorm"), -128, 127) {
        Some(Some(v)) => {
            o.custom_dialnorm = Some(v as i8);
        },
        Some(None) => {
            o.custom_dialnorm = None;
        },
        None => {
            return false;
        },
    }
    match read_f_opt_text(es, &one("encoding_backend"), l) {
        Some(v) => {
            o.encoding_backend = v;
        },
        None => {
            return false;
        },
    }
    match read_f_opt_text(es, &one("encoder_mode"), l) {
        Some(v) => {
            o.encoder_mode = v;
        },
        None => {
            return false;
        },
    }
    true
}

fn read_overrides_6(o: &mut FilterOverrides, es: &Vec<(Option<String>, Doc)>, l: bool) -> (r: bool)
    ensures
        r == overrides_ok_6(crate::doc::dict_model(es@), l),
        r ==> ({
            let es = crate::doc::dict_model(es@);
            final(o)@ == (OverridesModel { atmos_presentation_drc_profile: f_opt_text(es, seq!["atmos_presentation_drc_profile"@], l)->0, spatial_clusters: f_opt_text(es, seq!["spatial_clusters"@], l)->0, legacy_authoring_compatibility: f_opt_bool(es, seq!["legacy_authoring_compatibility"@])->0, presentation_8ch_drc_profile: f_opt_text(es, seq!["presentation_8ch_drc_profile"@], l)->0, presentation_6ch_drc_profile: f_opt_text(es, seq!["presentation_6ch_drc_profile"@], l)->0, presentation_2ch_drc_profile: f_opt_text(es, seq!["presentation_2ch_drc_profile"@], l)->0, optimize_data_rate: f_opt_bool(es, seq!["optimize_data_rate"@])->0, ..old(o)@ })
        }),
{
    match read_f_opt_text(es, &one("atmos_presentation_drc_profile"), l) {
        Some(v) => {
            o.atmos_presentation_drc_profile = v;
        },
        None => {
            return false;
        },
    }
    match read_f_opt_text(es, &one("spatial_clusters"), l) {
        Some(v) => {
            o.spatial_clusters = v;
        },
        None => {
            return false;
        },
    }
    match read_f_opt_bool(es, &one("legacy_authoring_compatibility")) {
        Some(v) => {
            o.legacy_authoring_compatibility = v;
        },
        None => {
            return false;
        },
    }
    match read_f_opt_text(es, &one("presentation_8ch_drc_profile"), l) {
        Some(v) => {
            o.presentation_8ch_drc_profile = v;
        },
        None => {
            return false;
        },
    }
    match read_f_opt_text(es, &one("presentation_6ch_drc_profile"), l) {
        Some(v) => {
            o.presentation_6ch_drc_profile = v;
        },
        None => {
            return false;
        },
    }
    match read_f_opt_text(es, &one("presentation_2ch_drc_profile"), l) {
        Some(v) => {
            o.presentation_2ch_drc_profile = v;
        },
        None => {
            return false;
        },
    }
    match read_f_opt_bool(es, &one("optimize_data_rate")) {
        Some(v) => {
            o.optimize_data_rate = v;
        },
        None => {
            return false;
        },
    }
    true
}

/// Reads the filter overrides of a `filter` mapping.
pub fn read_overrides(d: &Doc, l: bool) -> (r: Option<FilterOverrides>)
    ensures
        match r {
            Some(o) => overrides_of(d@, l) == Some(o@),
            None => overrides_of(d@, l) is None,
        },
{
    let es = match d {
        Doc::Dict(es) => es,
        _ => {
            return None;
        },
    };
    let mut o = FilterOverrides::default();
    if !read_overrides_0(&mut o, es, l) {
        return None;
    }
    if !read_overrides_1(&mut o, es, l) {
        return None;
    }
    if !read_overrides_2(&mut o, es, l) {
        return None;
    }
    if !read_overrides_3(&mut o, es, l) {
        return None;
    }
    if !read_overrides_4(&mut o, es, l) {
        return None;
    }
    if !read_overrides_5(&mut o, es, l) {
        return None;
    }
    if !read_overrides_6(&mut o, es, l) {
        return None;
    }
    assert(o@ == overrides_value(crate::doc::dict_model(es@), l));
    Some(o)
}

/// No parameter overridden.
pub open spec fn empty_overrides() -> OverridesModel {
    OverridesModel {
        channel_configuration: None,
        input_timecode_frame_rate: None,
        offset: None,
        ffoa: None,
        metering_mode: None,
        dialogue_intelligence: None,
        speech_threshold: None,
        data_rate: None,
        ac4_frame_rate: None,
        ims_legacy_presentation: None,
        iframe_interval: None,
        language: None,
        encoding_profile: None,
        bitstream_mode: None,
        downmix_config: None,
        timecode_frame_rate: None,
        start: None,
        end: None,
        time_base: None,
        prepend_silence_duration: None,
        append_silence_duration: None,
        lfe_on: None,
        dolby_surround_mode: None,
        dolby_surround_ex_mode: None,
        user_data: None,
        line_mode_drc_profile: None,
        rf_mode_drc_profile: None,
        ddp_drc_profile: None,
        flat_panel_drc_profile: None,
        home_theatre_drc_profile: None,
        portable_hp_drc_profile: None,
        portable_spkr_drc_profile: None,
        lfe_lowpass_filter: None,
        surround_90_degree_phase_shift: None,
        surround_3db_attenuation: None,
        loro_center_mix_level: None,
        loro_surround_mix_level: None,
        ltrt_center_mix_level: None,
        ltrt_surround_mix_level: None,
        preferred_downmix_mode: None,
        allow_hybrid_downmix: None,
        starting_timecode: None,
        frame_rate: None,
        surround_trim_5_1: None,
        height_trim_5_1: None,
        custom_dialnorm: None,
        encoding_backend: None,
        encoder_mode: None,
        atmos_presentation_drc_profile: None,
        spatial_clusters: None,
        legacy_authoring_compatibility: None,
        presentation_8ch_drc_profile: None,
        presentation_6ch_drc_profile: None,
        presentation_2ch_drc_profile: None,
        optimize_data_rate: None,
    }
}

impl View for IoSpec {
    type V = IoModel;

    open spec fn view(&self) -> IoModel {
        IoModel { storage_path: self.storage_path@, file_names: names_model(self.file_names@) }
    }
}

impl View for OutputSpec {
    type V = OutputModel;

    open spec fn view(&self) -> OutputModel {
        OutputModel {
            storage_path: self.storage_path@,
            file_names: names_model(self.file_names@),
            container: self.container,
            ac4_output_mode: self.ac4_output_mode,
        }
    }
}

/// Model of the input groups.
pub struct InputsModel {
    pub atmos_mezz: Option<IoModel>,
    pub wav: Option<IoModel>,
    pub wav_list: Option<IoModel>,
}

pub open spec fn opt_io(o: Option<IoSpec>) -> Option<IoModel> {
    match o {
        Some(x) => Some(x@),
        None => None,
    }
}

impl View for InputsSpec {
    type V = InputsModel;

    open spec fn view(&self) -> InputsModel {
        InputsModel {
            atmos_mezz: opt_io(self.atmos_mezz),
            wav: opt_io(self.wav),
            wav_list: opt_io(self.wav_list),
        }
    }
}

/// Model of the temporary directory settings.
pub struct MiscModel {
    pub temp_dir: Seq<char>,
    pub clean_temp: bool,
}

impl View for MiscSpec {
    type V = MiscModel;

    open spec fn view(&self) -> MiscModel {
        MiscModel { temp_dir: self.temp_dir@, clean_temp: self.clean_temp }
    }
}

impl View for RunSpec {
    type V = RunModel;

    open spec fn view(&self) -> RunModel {
        crate::resolve::run_model(*self)
    }
}

/// Model of a job spec.
pub struct JobSpecModel {
    pub template_id: Option<Seq<char>>,
    pub profile: Profile,
    pub job_mode: JobMode,
    pub encode_mode: EncodeMode,
    pub input: IoModel,
    pub inputs: Option<InputsModel>,
    pub output: OutputModel,
    pub misc: MiscModel,
    pub filter: OverridesModel,
    pub run: RunModel,
}

impl View for JobSpec {
    type V = JobSpecModel;

    open spec fn view(&self) -> JobSpecModel {
        JobSpecModel {
            template_id: match &self.template_id {
                Some(s) => Some(s@),
                None => None,
            },
            profile: self.profile,
            job_mode: self.job_mode,
            encode_mode: self.encode_mode,
            input: self.input@,
            inputs: match &self.inputs {
                Some(x) => Some(x@),
                None => None,
            },
            output: self.output@,
            misc: self.misc@,
            filter: self.filter@,
            run: self.run@,
        }
    }
}

pub open spec fn file_names_names() -> Seq<Seq<char>> {
    seq!["file_names"@, "file_name"@, "files"@]
}

/// The names of the file name list field: `file_names`, or its aliases
/// `file_name` and `files`.
fn file_names_field() -> (r: Vec<&'static str>)
    ensures
        names_view(r@) == file_names_names(),
{
    let r = vec!["file_names", "file_name", "files"];
    assert(names_view(r@) =~= file_names_names());
    r
}

/// A storage location: its path and its file names, both required.
pub open spec fn io_of(d: DocModel, l: bool) -> Option<IoModel> {
    match d {
        DocModel::Dict(es) => match (f_text(es, seq!["storage_path"@], l), field(es, file_names_names())) {
            (Some(p), Some(Some(f))) => match names_of(f) {
                Some(names) => Some(IoModel { storage_path: p, file_names: names }),
                None => None,
            },
            _ => None,
        },
        _ => None,
    }
}

pub fn read_io(d: &Doc, l: bool) -> (r: Option<IoSpec>)
    ensures
        match r {
            Some(x) => io_of(d@, l) == Some(x@),
            None => io_of(d@, l) is None,
        },
{
    let es = match d {
        Doc::Dict(es) => es,
        _ => {
            return None;
        },
    };
    let storage_path = match read_f_text(es, &one("storage_path"), l) {
        Some(p) => p,
        None => {
            return None;
        },
    };
    let file_names = match find_field(es, &file_names_field()) {
        Some(Some(i)) => match read_names(&es[i].1) {
            Some(v) => v,
            None => {
                return None;
            },
        },
        _ => {
            return None;
        },
    };
    let r = IoSpec { storage_path, file_names };
    assert(names_model(r.file_names@) =~= r.file_names@.map_values(|s: String| s@));
    Some(r)
}

/// An optional storage location: missing or null reads as unset.
pub open spec fn f_opt_io(es: Seq<(Option<Seq<char>>, DocModel)>, name: Seq<char>, l: bool) -> Option<Option<IoModel>> {
    match field(es, seq![name]) {
        None => None,
        Some(None) => Some(None),
        Some(Some(DocModel::Null)) => Some(None),
        Some(Some(d)) => match io_of(d, l) {
            Some(x) => Some(Some(x)),
            None => None,
        },
    }
}

fn read_f_opt_io(es: &Vec<(Option<String>, Doc)>, name: &'static str, l: bool) -> (r: Option<Option<IoSpec>>)
    ensures
        match r {
            Some(o) => f_opt_io(crate::doc::dict_model(es@), name@, l) == Some(opt_io(o)),
            None => f_opt_io(crate::doc::dict_model(es@), name@, l) is None,
        },
{
    match find_field(es, &one(name)) {
        None => None,
        Some(None) => Some(None),
        Some(Some(i)) => match &es[i].1 {
            Doc::Null => Some(None),
            d => match read_io(d, l) {
                Some(x) => Some(Some(x)),
                None => None,
            },
        },
    }
}

/// The input groups.
pub open spec fn inputs_of(d: DocModel, l: bool) -> Option<InputsModel> {
    match d {
        DocModel::Dict(es) => match (
            f_opt_io(es, "atmos_mezz"@, l),
            f_opt_io(es, "wav"@, l),
            f_opt_io(es, "wav_list"@, l),
        ) {
            (Some(a), Some(b), Some(c)) => Some(InputsModel { atmos_mezz: a, wav: b, wav_list: c }),
            _ => None,
        },
        _ => None,
    }
}

fn read_inputs(d: &Doc, l: bool) -> (r: Option<InputsSpec>)
    ensures
        match r {
            Some(x) => inputs_of(d@, l) == Some(x@),
            None => inputs_of(d@, l) is None,
        },
{
    let es = match d {
        Doc::Dict(es) => es,
        _ => {
            return None;
        },
    };
    let atmos_mezz = match read_f_opt_io(es, "atmos_mezz", l) {
        Some(x) => x,
        None => {
            return None;
        },
    };
    let wav = match read_f_opt_io(es, "wav", l) {
        Some(x) => x,
        None => {
            return None;
        },
    };
    let wav_list = match read_f_opt_io(es, "wav_list", l) {
        Some(x) => x,
        None => {
            return None;
        },
    };
    Some(InputsSpec { atmos_mezz, wav, wav_list })
}

/// The output location: path and file names required, container settings
/// with their defaults.
pub open spec fn output_of(d: DocModel, l: bool) -> Option<OutputModel> {
    match d {
        DocModel::Dict(es) => match (
            io_of(d, l),
            f_container_of(es, seq!["container"@]),
            f_ac4_output_mode_of(es, seq!["ac4_output_mode"@]),
        ) {
            (Some(io), Some(c), Some(m)) => Some(
                OutputModel {
                    storage_path: io.storage_path,
                    file_names: io.file_names,
                    container: c,
                    ac4_output_mode: m,
                },
            ),
            _ => None,
        },
        _ => None,
    }
}

fn read_output(d: &Doc, l: bool) -> (r: Option<OutputSpec>)
    ensures
        match r {
            Some(x) => output_of(d@, l) == Some(x@),
            None => output_of(d@, l) is None,
        },
{
    let io = match read_io(d, l) {
        Some(x) => x,
        None => {
            return None;
        },
    };
    let es = match d {
        Doc::Dict(es) => es,
        _ => {
            return None;
        },
    };
    let container = match read_f_container_of(es, &one("container")) {
        Some(c) => c,
        None => {
            return None;
        },
    };
    let ac4_output_mode = match read_f_ac4_output_mode_of(es, &one("ac4_output_mode")) {
        Some(m) => m,
        None => {
            return None;
        },
    };
    Some(OutputSpec { storage_path: io.storage_path, file_names: io.file_names, container, ac4_output_mode })
}

/// The temporary directory: its path required, cleaning on by default.
pub open spec fn misc_of(d: DocModel, l: bool) -> Option<MiscModel> {
    match d {
        DocModel::Dict(es) => match (
            f_text(es, seq!["temp_dir"@], l),
            f_bool_or(es, seq!["clean_temp"@], true),
        ) {
            (Some(t), Some(c)) => Some(MiscModel { temp_dir: t, clean_temp: c }),
            _ => None,
        },
        _ => None,
    }
}

fn read_misc(d: &Doc, l: bool) -> (r: Option<MiscSpec>)
    ensures
        match r {
            Some(x) => misc_of(d@, l) == Some(x@),
            None => misc_of(d@, l) is None,
        },
{
    let es = match d {
        Doc::Dict(es) => es,
        _ => {
            return None;
        },
    };
    let temp_dir = match read_f_text(es, &one("temp_dir"), l) {
        Some(t) => t,
        None => {
            return None;
        },
    };
    let clean_temp = match read_f_bool_or(es, &one("clean_temp"), true) {
        Some(c) => c,
        None => {
            return None;
        },
    };
    Some(MiscSpec { temp_dir, clean_temp })
}

/// Runner arguments and environment, both empty by default.
pub open spec fn run_of(d: DocModel, l: bool) -> Option<RunModel> {
    match d {
        DocModel::Dict(es) => match (run_args(es, l), run_env(es, l)) {
            (Some(a), Some(e)) => Some(RunModel { runner_args: a, env: e }),
            _ => None,
        },
        _ => None,
    }
}

fn read_run(d: &Doc, l: bool) -> (r: Option<RunSpec>)
    ensures
        match r {
            Some(x) => run_of(d@, l) == Some(x@) && unique_keys(pairs_view(x.env@)),
            None => run_of(d@, l) is None,
        },
{
    let es = match d {
        Doc::Dict(es) => es,
        _ => {
            return None;
        },
    };
    let ghost dm = crate::doc::dict_model(es@);
    let runner_args: Vec<String> = match find_field(es, &one("runner_args")) {
        None => {
            return None;
        },
        Some(None) => {
            let v: Vec<String> = Vec::new();
            assert(names_model(v@) =~= Seq::<Seq<char>>::empty());
            v
        },
        Some(Some(i)) => match read_texts(&es[i].1, l) {
            Some(v) => {
                assert(names_model(v@) =~= v@.map_values(|s: String| s@));
                v
            },
            None => {
                return None;
            },
        },
    };
    assert(run_args(dm, l) == Some(names_model(runner_args@)));
    let env: Vec<(String, String)> = match find_field(es, &one("env")) {
        None => {
            return None;
        },
        Some(None) => {
            let v: Vec<(String, String)> = Vec::new();
            assert(pairs_view(v@) =~= Seq::<(Seq<char>, Seq<char>)>::empty());
            v
        },
        Some(Some(i)) => match read_env(&es[i].1, l) {
            Some(v) => v,
            None => {
                return None;
            },
        },
    };
    assert(run_env(dm, l) == Some(pairs_view(env@)));
    let r = RunSpec { runner_args, env };
    assert(r@.env =~= pairs_view(r.env@));
    Some(r)
}

/// The fields a job spec may have.
pub open spec fn job_fields() -> Seq<Seq<char>> {
    seq![
        "template_id"@,
        "profile"@,
        "job_mode"@,
        "encode_mode"@,
        "input"@,
        "inputs"@,
        "output"@,
        "misc"@,
        "filter"@,
        "run"@,
    ]
}

fn job_fields_exec() -> (r: Vec<&'static str>)
    ensures
        names_view(r@) == job_fields(),
{
    let r = vec![
        "template_id",
        "profile",
        "job_mode",
        "encode_mode",
        "input",
        "inputs",
        "output",
        "misc",
        "filter",
        "run",
    ];
    assert(names_view(r@) =~= job_fields());
    r
}

/// Every key of the mapping names a field of a job spec.
pub open spec fn only_job_fields(es: Seq<(Option<Seq<char>>, DocModel)>) -> bool {
    forall|i: int| 0 <= i < es.len() ==> key_is(#[trigger] es[i].0, job_fields())
}

fn check_job_fields(es: &Vec<(Option<String>, Doc)>) -> (r: bool)
    ensures
        r == only_job_fields(crate::doc::dict_model(es@)),
{
    let names = job_fields_exec();
    let ghost dm = crate::doc::dict_model(es@);
    proof {
        lemma_dict_model_index(es@);
    }
    let mut i: usize = 0;
    while i < es.len()
        invariant
            i <= es.len(),
            names_view(names@) == job_fields(),
            dm == crate::doc::dict_model(es@),
            dm.len() == es@.len(),
            forall|j: int| 0 <= j < es@.len() ==> #[trigger] dm[j].0 == crate::doc::key_model(es@[j].0),
            forall|j: int| 0 <= j < i ==> key_is(#[trigger] dm[j].0, job_fields()),
        decreases es.len() - i,
    {
        if !crate::doc::key_matches(&es[i].0, &names) {
            assert(!key_is(dm[i as int].0, job_fields()));
            return false;
        }
        i += 1;
    }
    true
}

proof fn lemma_dict_model_index(es: Seq<(Option<String>, Doc)>)
    ensures
        crate::doc::dict_model(es).len() == es.len(),
        forall|j: int| 0 <= j < es.len() ==> #[trigger] crate::doc::dict_model(es)[j].0 == crate::doc::key_model(es[j].0),
    decreases es.len(),
{
    if es.len() > 0 {
        lemma_dict_model_index(es.drop_last());
        assert forall|j: int| 0 <= j < es.len() implies #[trigger] crate::doc::dict_model(es)[j].0 == crate::doc::key_model(es[j].0) by {
            if j < es.len() - 1 {
                assert(es.drop_last()[j] == es[j]);
            }
        }
    }
}

/// A sub-mapping field with a default where missing.
pub open spec fn f_io_or_empty(es: Seq<(Option<Seq<char>>, DocModel)>, l: bool) -> Option<IoModel> {
    match field(es, seq!["input"@]) {
        None => None,
        Some(None) => Some(IoModel { storage_path: Seq::empty(), file_names: Seq::empty() }),
        Some(Some(d)) => io_of(d, l),
    }
}

pub open spec fn f_inputs(es: Seq<(Option<Seq<char>>, DocModel)>, l: bool) -> Option<Option<InputsModel>> {
    match field(es, seq!["inputs"@]) {
        None => None,
        Some(None) => Some(None),
        Some(Some(DocModel::Null)) => Some(None),
        Some(Some(d)) => match inputs_of(d, l) {
            Some(x) => Some(Some(x)),
            None => None,
        },
    }
}

pub open spec fn f_output(es: Seq<(Option<Seq<char>>, DocModel)>, l: bool) -> Option<OutputModel> {
    match field(es, seq!["output"@]) {
        Some(Some(d)) => output_of(d, l),
        _ => None,
    }
}

pub open spec fn f_misc(es: Seq<(Option<Seq<char>>, DocModel)>, l: bool) -> Option<MiscModel> {
    match field(es, seq!["misc"@]) {
        Some(Some(d)) => misc_of(d, l),
        _ => None,
    }
}

pub open spec fn f_filter(es: Seq<(Option<Seq<char>>, DocModel)>, l: bool) -> Option<OverridesModel> {
    match field(es, seq!["filter"@]) {
        None => None,
        Some(None) => Some(empty_overrides()),
        Some(Some(d)) => overrides_of(d, l),
    }
}

pub open spec fn f_run(es: Seq<(Option<Seq<char>>, DocModel)>, l: bool) -> Option<RunModel> {
    match field(es, seq!["run"@]) {
        None => None,
        Some(None) => Some(RunModel { runner_args: Seq::empty(), env: Seq::empty() }),
        Some(Some(d)) => run_of(d, l),
    }
}

pub open spec fn run_args(es: Seq<(Option<Seq<char>>, DocModel)>, l: bool) -> Option<Seq<Seq<char>>> {
    match field(es, seq!["runner_args"@]) {
        None => None,
        Some(None) => Some(Seq::<Seq<char>>::empty()),
        Some(Some(x)) => texts_of(x, l),
    }
}

pub open spec fn run_env(es: Seq<(Option<Seq<char>>, DocModel)>, l: bool) -> Option<Seq<(Seq<char>, Seq<char>)>> {
    match field(es, seq!["env"@]) {
        None => None,
        Some(None) => Some(Seq::<(Seq<char>, Seq<char>)>::empty()),
        Some(Some(x)) => env_of(x, l),
    }
}

/// A job spec: `output` and `misc` required, the others with their
/// defaults, no field twice and no unknown field.
pub open spec fn job_of(d: DocModel, l: bool) -> Option<JobSpecModel> {
    match d {
        DocModel::Dict(es) => if !only_job_fields(es) {
            None
        } else {
            match (
                f_opt_text(es, seq!["template_id"@], l),
                f_profile_of(es, seq!["profile"@]),
                f_job_mode_of(es, seq!["job_mode"@]),
                f_encode_mode_of(es, seq!["encode_mode"@]),
                f_io_or_empty(es, l),
                f_inputs(es, l),
                f_output(es, l),
                f_misc(es, l),
                f_filter(es, l),
                f_run(es, l),
            ) {
                (
                    Some(template_id),
                    Some(profile),
                    Some(job_mode),
                    Some(encode_mode),
                    Some(input),
                    Some(inputs),
                    Some(output),
                    Some(misc),
                    Some(filter),
                    Some(run),
                ) => Some(
                    JobSpecModel {
                        template_id,
                        profile,
                        job_mode,
                        encode_mode,
                        input,
                        inputs,
                        output,
                        misc,
                        filter,
                        run,
                    },
                ),
                _ => None,
            }
        },
        _ => None,
    }
}

/// Reads a job spec from a document; `lenient` reads scalars as text where
/// a string is expected, as YAML does.
pub fn read_job_doc(d: &Doc, l: bool) -> (r: Option<JobSpec>)
    ensures
        match r {
            Some(s) => job_of(d@, l) == Some(s@),
            None => job_of(d@, l) is None,
        },
{
    let es = match d {
        Doc::Dict(es) => es,
        _ => {
            return None;
        },
    };
    let ghost m = crate::doc::dict_model(es@);
    if !check_job_fields(es) {
        return None;
    }
    let template_id = match read_f_opt_text(es, &one("template_id"), l) {
        Some(t) => t,
        None => {
            return None;
        },
    };
    let profile = match read_f_profile_of(es, &one("profile")) {
        Some(p) => p,
        None => {
            return None;
        },
    };
    let job_mode = match read_f_job_mode_of(es, &one("job_mode")) {
        Some(p) => p,
        None => {
            return None;
        },
    };
    let encode_mode = match read_f_encode_mode_of(es, &one("encode_mode")) {
        Some(p) => p,
        None => {
            return None;
        },
    };
    let input = match find_field(es, &one("input")) {
        None => {
            return None;
        },
        Some(None) => IoSpec::empty(),
        Some(Some(i)) => match read_io(&es[i].1, l) {
            Some(x) => x,
            None => {
                return None;
            },
        },
    };
    let inputs = match find_field(es, &one("inputs")) {
        None => {
            return None;
        },
        Some(None) => None,
        Some(Some(i)) => match &es[i].1 {
            Doc::Null => None,
            x => match read_inputs(x, l) {
                Some(v) => Some(v),
                None => {
                    return None;
                },
            },
        },
    };
    let output = match find_field(es, &one("output")) {
        Some(Some(i)) => match read_output(&es[i].1, l) {
            Some(x) => x,
            None => {
                return None;
            },
        },
        _ => {
            return None;
        },
    };
    let misc = match find_field(es, &one("misc")) {
        Some(Some(i)) => match read_misc(&es[i].1, l) {
            Some(x) => x,
            None => {
                return None;
            },
        },
        _ => {
            return None;
        },
    };
    let filter = match find_field(es, &one("filter")) {
        None => {
            return None;
        },
        Some(None) => FilterOverrides::default(),
        Some(Some(i)) => match read_overrides(&es[i].1, l) {
            Some(x) => x,
            None => {
                return None;
            },
        },
    };
    let run = match find_field(es, &one("run")) {
        None => {
            return None;
        },
        Some(None) => RunSpec::default(),
        Some(Some(i)) => match read_run(&es[i].1, l) {
            Some(x) => x,
            None => {
                return None;
            },
        },
    };
    assert(f_io_or_empty(m, l) == Some(input@)) by {
        if field(m, seq!["input"@]) == Some(None::<DocModel>) {
            assert(input@.file_names =~= Seq::<Seq<char>>::empty());
        }
    }
    assert(f_filter(m, l) == Some(filter@)) by {
        if field(m, seq!["filter"@]) == Some(None::<DocModel>) {
            assert(filter@ == empty_overrides());
        }
    }
    assert(f_run(m, l) == Some(run@)) by {
        if field(m, seq!["run"@]) == Some(None::<DocModel>) {
            assert(run@.runner_args =~= Seq::<Seq<char>>::empty());
            assert(run@.env =~= Seq::<(Seq<char>, Seq<char>)>::empty());
        }
    }
    let r = JobSpec { template_id, profile, job_mode, encode_mode, input, inputs, output, misc, filter, run };
    Some(r)
}

pub open spec fn yaml_reading(text: Seq<char>) -> Option<JobSpecModel> {
    match crate::doc::yaml_doc(text) {
        Some(d) => job_of(d, true),
        None => None,
    }
}

pub open spec fn json_reading(text: Seq<char>) -> Option<JobSpecModel> {
    match crate::doc::json_doc(text) {
        Some(d) => job_of(d, false),
        None => None,
    }
}

pub open spec fn yaml_then_json(text: Seq<char>) -> Option<JobSpecModel> {
    match yaml_reading(text) {
        Some(s) => Some(s),
        None => json_reading(text),
    }
}

pub open spec fn json_then_yaml(text: Seq<char>) -> Option<JobSpecModel> {
    match json_reading(text) {
        Some(s) => Some(s),
        None => yaml_reading(text),
    }
}

fn read_yaml(text: &str) -> (r: Option<JobSpec>)
    ensures
        match r {
            Some(s) => yaml_reading(text@) == Some(s@),
            None => yaml_reading(text@) is None,
        },
{
    match crate::doc::parse_yaml(text) {
        Some(d) => read_job_doc(&d, true),
        None => None,
    }
}

fn read_json(text: &str) -> (r: Option<JobSpec>)
    ensures
        match r {
            Some(s) => json_reading(text@) == Some(s@),
            None => json_reading(text@) is None,
        },
{
    match crate::doc::parse_json(text) {
        Some(d) => read_job_doc(&d, false),
        None => None,
    }
}

/// Parses a job spec from YAML, or from JSON where YAML gives none.
pub fn parse_job_str(input: &str) -> (r: Result<JobSpec, String>)
    ensures
        match r {
            Ok(s) => yaml_then_json(input@) == Some(s@),
            Err(e) => yaml_then_json(input@) is None && e@ == "failed to parse input as YAML or JSON"@,
        },
{
    match read_yaml(input) {
        Some(s) => Ok(s),
        None => match read_json(input) {
            Some(s) => Ok(s),
            None => Err(owned("failed to parse input as YAML or JSON")),
        },
    }
}

/// Parses a job spec from JSON, or from YAML where JSON gives none.
pub fn parse_job_str_json_first(input: &str) -> (r: Result<JobSpec, String>)
    ensures
        match r {
            Ok(s) => json_then_yaml(input@) == Some(s@),
            Err(e) => json_then_yaml(input@) is None && e@ == "failed to parse input as JSON or YAML"@,
        },
{
    match read_json(input) {
        Some(s) => Ok(s),
        None => match read_yaml(input) {
            Some(s) => Ok(s),
            None => Err(owned("failed to parse input as JSON or YAML")),
        },
    }
}


/// Whether a mapping leaves out a field.
pub open spec fn absent(es: Seq<(Option<Seq<char>>, DocModel)>, name: Seq<char>) -> bool {
    field(es, seq![name]) == Some(None::<DocModel>)
}

/// A job document may leave out `template_id`, `profile`, `job_mode`,
/// `encode_mode`, `input`, `inputs`, `filter`, `run` and the `clean_temp`
/// of its `misc` block: each then takes its default (no template id, the
/// standard profile, single mode, streaming, an empty input, no input
/// groups, no overrides, no runner arguments nor environment, and cleaning
/// the temporary directory).
pub proof fn law_absent_fields_take_defaults(es: Seq<(Option<Seq<char>>, DocModel)>, l: bool)
    requires
        job_of(DocModel::Dict(es), l) is Some,
    ensures
        ({
            let j = job_of(DocModel::Dict(es), l)->0;
            &&& absent(es, "template_id"@) ==> j.template_id is None
            &&& absent(es, "profile"@) ==> j.profile == Profile::Standard
            &&& absent(es, "job_mode"@) ==> j.job_mode == JobMode::Single
            &&& absent(es, "encode_mode"@) ==> j.encode_mode == EncodeMode::Streaming
            &&& absent(es, "input"@) ==> j.input == IoModel { storage_path: Seq::empty(), file_names: Seq::empty() }
            &&& absent(es, "inputs"@) ==> j.inputs is None
            &&& absent(es, "filter"@) ==> j.filter == empty_overrides()
            &&& absent(es, "run"@) ==> j.run == RunModel { runner_args: Seq::empty(), env: Seq::empty() }
            &&& (field(es, seq!["misc"@]) matches Some(Some(DocModel::Dict(ms))) && absent(ms, "clean_temp"@))
                ==> j.misc.clean_temp
        }),
{
}


/// A job mode is read from exactly its own name: the text `single` gives
/// `JobMode::Single`, `album` gives `JobMode::Album`, and nothing else gives
/// a job mode.
pub proof fn law_job_mode_read_by_name(d: DocModel, m: JobMode)
    ensures
        (job_mode_of(d) == Some(m)) <==> (d == DocModel::Str(crate::spec::spec_job_mode_name(m))),
        job_mode_of(DocModel::Str("album"@)) == Some(JobMode::Album),
        job_mode_of(DocModel::Str("single"@)) == Some(JobMode::Single),
{
    reveal_strlit("single");
    reveal_strlit("album");
    assert("single"@.len() != "album"@.len());
}

/// A profile is read from exactly its own name.
pub proof fn law_profile_read_by_name(d: DocModel, p: Profile)
    ensures
        (profile_of(d) == Some(p)) <==> (d == DocModel::Str(crate::spec::spec_profile_name(p))),
{
    reveal_strlit("standard");
    reveal_strlit("music");
    assert("standard"@.len() != "music"@.len());
}

/// An encode mode is read from exactly its own name.
pub proof fn law_encode_mode_read_by_name(d: DocModel, m: EncodeMode)
    ensures
        (encode_mode_of(d) == Some(m)) <==> (d == DocModel::Str(crate::spec::spec_encode_mode_name(m))),
{
    reveal_strlit("streaming");
    reveal_strlit("dd");
    reveal_strlit("ddp");
    reveal_strlit("mlp");
    reveal_strlit("bluray");
    reveal_strlit("ddp71");
    reveal_strlit("ac4");
    crate::spec::lemma_mode_names(m);
}

/// An output container is read from exactly its own name.
pub proof fn law_container_read_by_name(d: DocModel, c: OutputContainer)
    ensures
        (container_of(d) == Some(c)) <==> (d == DocModel::Str(crate::spec::spec_output_container_name(c))),
{
    reveal_strlit("ac4");
    reveal_strlit("mp4");
    assert("ac4"@[0] != "mp4"@[0]);
}

/// An AC-4 output mode is read from exactly its own name.
pub proof fn law_ac4_output_mode_read_by_name(d: DocModel, m: Ac4OutputMode)
    ensures
        (ac4_output_mode_of(d) == Some(m)) <==> (d == DocModel::Str(crate::spec::spec_ac4_output_mode_name(m))),
{
    reveal_strlit("single");
    reveal_strlit("multi3");
    assert("single"@[0] != "multi3"@[0]);
}

/// A `filter` mapping is read field by field: each parameter that the
/// mapping gives as a string, a flag or an integer is that parameter's
/// override, and each parameter that it leaves out has none.
pub proof fn law_filter_reads_given_values(es: Seq<(Option<Seq<char>>, DocModel)>, l: bool)
    requires
        overrides_of(DocModel::Dict(es), l) is Some,
    ensures
        ({
            let o = overrides_of(DocModel::Dict(es), l)->0;
            &&& (field(es, seq!["channel_configuration"@]) matches Some(Some(DocModel::Str(v))) ==> o.channel_configuration == Some(v))
            &&& (absent(es, "channel_configuration"@) ==> o.channel_configuration is None)
            &&& (field(es, seq!["input_timecode_frame_rate"@]) matches Some(Some(DocModel::Str(v))) ==> o.input_timecode_frame_rate == Some(v))
            &&& (absent(es, "input_timecode_frame_rate"@) ==> o.input_timecode_frame_rate is None)
            &&& (field(es, seq!["offset"@]) matches Some(Some(DocModel::Str(v))) ==> o.offset == Some(v))
            &&& (absent(es, "offset"@) ==> o.offset is None)
            &&& (field(es, seq!["ffoa"@]) matches Some(Some(DocModel::Str(v))) ==> o.ffoa == Some(v))
            &&& (absent(es, "ffoa"@) ==> o.ffoa is None)
            &&& (field(es, seq!["metering_mode"@]) matches Some(Some(DocModel::Str(v))) ==> o.metering_mode == Some(v))
            &&& (absent(es, "metering_mode"@) ==> o.metering_mode is None)
            &&& (field(es, seq!["dialogue_intelligence"@]) matches Some(Some(DocModel::Bool(v))) ==> o.dialogue_intelligence == Some(v))
            &&& (absent(es, "dialogue_intelligence"@) ==> o.dialogue_intelligence is None)
            &&& (field(es, seq!["speech_threshold"@]) matches Some(Some(DocModel::Int(v))) ==> o.speech_threshold == Some(v))
            &&& (absent(es, "speech_threshold"@) ==> o.speech_threshold is None)
            &&& (field(es, seq!["data_rate"@]) matches Some(Some(DocModel::Int(v))) ==> o.data_rate == Some(v))
            &&& (absent(es, "data_rate"@) ==> o.data_rate is None)
            &&& (field(es, seq!["ac4_frame_rate"@]) matches Some(Some(DocModel::Str(v))) ==> o.ac4_frame_rate == Some(v))
            &&& (absent(es, "ac4_frame_rate"@) ==> o.ac4_frame_rate is None)
            &&& (field(es, seq!["ims_legacy_presentation"@]) matches Some(Some(DocModel::Bool(v))) ==> o.ims_legacy_presentation == Some(v))
            &&& (absent(es, "ims_legacy_presentation"@) ==> o.ims_legacy_presentation is None)
            &&& (field(es, seq!["iframe_interval"@]) matches Some(Some(DocModel::Int(v))) ==> o.iframe_interval == Some(v))
            &&& (absent(es, "iframe_interval"@) ==> o.iframe_interval is None)
            &&& (field(es, seq!["language"@]) matches Some(Some(DocModel::Str(v))) ==> o.language == Some(v))
            &&& (absent(es, "language"@) ==> o.language is None)
            &&& (field(es, seq!["encoding_profile"@]) matches Some(Some(DocModel::Str(v))) ==> o.encoding_profile == Some(v))
            &&& (absent(es, "encoding_profile"@) ==> o.encoding_profile is None)
            &&& (field(es, seq!["bitstream_mode"@]) matches Some(Some(DocModel::Str(v))) ==> o.bitstream_mode == Some(v))
            &&& (absent(es, "bitstream_mode"@) ==> o.bitstream_mode is None)
            &&& (field(es, seq!["downmix_config"@]) matches Some(Some(DocModel::Str(v))) ==> o.downmix_config == Some(v))
            &&& (absent(es, "downmix_config"@) ==> o.downmix_config is None)
            &&& (field(es, seq!["timecode_frame_rate"@]) matches Some(Some(DocModel::Str(v))) ==> o.timecode_frame_rate == Some(v))
            &&& (absent(es, "timecode_frame_rate"@) ==> o.timecode_frame_rate is None)
            &&& (field(es, seq!["start"@]) matches Some(Some(DocModel::Str(v))) ==> o.start == Some(v))
            &&& (absent(es, "start"@) ==> o.start is None)
            &&& (field(es, seq!["end"@]) matches Some(Some(DocModel::Str(v))) ==> o.end == Some(v))
            &&& (absent(es, "end"@) ==> o.end is None)
            &&& (field(es, seq!["time_base"@]) matches Some(Some(DocModel::Str(v))) ==> o.time_base == Some(v))
            &&& (absent(es, "time_base"@) ==> o.time_base is None)
            &&& (field(es, seq!["prepend_silence_duration"@]) matches Some(Some(DocModel::Str(v))) ==> o.prepend_silence_duration == Some(v))
            &&& (absent(es, "prepend_silence_duration"@) ==> o.prepend_silence_duration is None)
            &&& (field(es, seq!["append_silence_duration"@]) matches Some(Some(DocModel::Str(v))) ==> o.append_silence_duration == Some(v))
            &&& (absent(es, "append_silence_duration"@) ==> o.append_silence_duration is None)
            &&& (field(es, seq!["lfe_on"@]) matches Some(Some(DocModel::Bool(v))) ==> o.lfe_on == Some(v))
            &&& (absent(es, "lfe_on"@) ==> o.lfe_on is None)
            &&& (field(es, seq!["dolby_surround_mode"@]) matches Some(Some(DocModel::Str(v))) ==> o.dolby_surround_mode == Some(v))
            &&& (absent(es, "dolby_surround_mode"@) ==> o.dolby_surround_mode is None)
            &&& (field(es, seq!["dolby_surround_ex_mode"@]) matches Some(Some(DocModel::Str(v))) ==> o.dolby_surround_ex_mode == Some(v))
            &&& (absent(es, "dolby_surround_ex_mode"@) ==> o.dolby_surround_ex_mode is None)
            &&& (field(es, seq!["user_data"@]) matches Some(Some(DocModel::Int(v))) ==> o.user_data == Some(v))
            &&& (absent(es, "user_data"@) ==> o.user_data is None)
            &&& (field(es, seq!["line_mode_drc_profile"@]) matches Some(Some(DocModel::Str(v))) ==> o.line_mode_drc_profile == Some(v))
            &&& (absent(es, "line_mode_drc_profile"@) ==> o.line_mode_drc_profile is None)
            &&& (field(es, seq!["rf_mode_drc_profile"@]) matches Some(Some(DocModel::Str(v))) ==> o.rf_mode_drc_profile == Some(v))
            &&& (absent(es, "rf_mode_drc_profile"@) ==> o.rf_mode_drc_profile is None)
            &&& (field(es, seq!["ddp_drc_profile"@]) matches Some(Some(DocModel::Str(v))) ==> o.ddp_drc_profile == Some(v))
            &&& (absent(es, "ddp_drc_profile"@) ==> o.ddp_drc_profile is None)
            &&& (field(es, seq!["flat_panel_drc_profile"@]) matches Some(Some(DocModel::Str(v))) ==> o.flat_panel_drc_profile == Some(v))
            &&& (absent(es, "flat_panel_drc_profile"@) ==> o.flat_panel_drc_profile is None)
            &&& (field(es, seq!["home_theatre_drc_profile"@]) matches Some(Some(DocModel::Str(v))) ==> o.home_theatre_drc_profile == Some(v))
            &&& (absent(es, "home_theatre_drc_profile"@) ==> o.home_theatre_drc_profile is None)
            &&& (field(es, seq!["portable_hp_drc_profile"@]) matches Some(Some(DocModel::Str(v))) ==> o.portable_hp_drc_profile == Some(v))
            &&& (absent(es, "portable_hp_drc_profile"@) ==> o.portable_hp_drc_profile is None)
            &&& (field(es, seq!["portable_spkr_drc_profile"@]) matches Some(Some(DocModel::Str(v))) ==> o.portable_spkr_drc_profile == Some(v))
            &&& (absent(es, "portable_spkr_drc_profile"@) ==> o.portable_spkr_drc_profile is None)
            &&& (field(es, seq!["lfe_lowpass_filter"@]) matches Some(Some(DocModel::Bool(v))) ==> o.lfe_lowpass_filter == Some(v))
            &&& (absent(es, "lfe_lowpass_filter"@) ==> o.lfe_lowpass_filter is None)
            &&& (field(es, seq!["surround_90_degree_phase_shift"@]) matches Some(Some(DocModel::Bool(v))) ==> o.surround_90_degree_phase_shift == Some(v))
            &&& (absent(es, "surround_90_degree_phase_shift"@) ==> o.surround_90_degree_phase_shift is None)
            &&& (field(es, seq!["surround_3db_attenuation"@]) matches Some(Some(DocModel::Bool(v))) ==> o.surround_3db_attenuation == Some(v))
            &&& (absent(es, "surround_3db_attenuation"@) ==> o.surround_3db_attenuation is None)
            &&& (field(es, seq!["loro_center_mix_level"@]) matches Some(Some(DocModel::Str(v))) ==> o.loro_center_mix_level == Some(v))
            &&& (absent(es, "loro_center_mix_level"@) ==> o.loro_center_mix_level is None)
            &&& (field(es, seq!["loro_surround_mix_level"@]) matches Some(Some(DocModel::Str(v))) ==> o.loro_surround_mix_level == Some(v))
            &&& (absent(es, "loro_surround_mix_level"@) ==> o.loro_surround_mix_level is None)
            &&& (field(es, seq!["ltrt_center_mix_level"@]) matches Some(Some(DocModel::Str(v))) ==> o.ltrt_center_mix_level == Some(v))
            &&& (absent(es, "ltrt_center_mix_level"@) ==> o.ltrt_center_mix_level is None)
            &&& (field(es, seq!["ltrt_surround_mix_level"@]) matches Some(Some(DocModel::Str(v))) ==> o.ltrt_surround_mix_level == Some(v))
            &&& (absent(es, "ltrt_surround_mix_level"@) ==> o.ltrt_surround_mix_level is None)
            &&& (field(es, seq!["preferred_downmix_mode"@]) matches Some(Some(DocModel::Str(v))) ==> o.preferred_downmix_mode == Some(v))
            &&& (absent(es, "preferred_downmix_mode"@) ==> o.preferred_downmix_mode is None)
            &&& (field(es, seq!["allow_hybrid_downmix"@]) matches Some(Some(DocModel::Bool(v))) ==> o.allow_hybrid_downmix == Some(v))
            &&& (absent(es, "allow_hybrid_downmix"@) ==> o.allow_hybrid_downmix is None)
            &&& (field(es, seq!["starting_timecode"@]) matches Some(Some(DocModel::Str(v))) ==> o.starting_timecode == Some(v))
            &&& (absent(es, "starting_timecode"@) ==> o.starting_timecode is None)
            &&& (field(es, seq!["frame_rate"@]) matches Some(Some(DocModel::Str(v))) ==> o.frame_rate == Some(v))
            &&& (absent(es, "frame_rate"@) ==> o.frame_rate is None)
            &&& (field(es, seq!["surround_trim_5_1"@]) matches Some(Some(DocModel::Str(v))) ==> o.surround_trim_5_1 == Some(v))
            &&& (absent(es, "surround_trim_5_1"@) ==> o.surround_trim_5_1 is None)
            &&& (field(es, seq!["height_trim_5_1"@]) matches Some(Some(DocModel::Str(v))) ==> o.height_trim_5_1 == Some(v))
            &&& (absent(es, "height_trim_5_1"@) ==> o.height_trim_5_1 is None)
            &&& (field(es, seq!["custom_dialnorm"@]) matches Some(Some(DocModel::Int(v))) ==> o.custom_dialnorm == Some(v))
            &&& (absent(es, "custom_dialnorm"@) ==> o.custom_dialnorm is None)
            &&& (field(es, seq!["encoding_backend"@]) matches Some(Some(DocModel::Str(v))) ==> o.encoding_backend == Some(v))
            &&& (absent(es, "encoding_backend"@) ==> o.encoding_backend is None)
            &&& (field(es, seq!["encoder_mode"@]) matches Some(Some(DocModel::Str(v))) ==> o.encoder_mode == Some(v))
            &&& (absent(es, "encoder_mode"@) ==> o.encoder_mode is None)
            &&& (field(es, seq!["atmos_presentation_drc_profile"@]) matches Some(Some(DocModel::Str(v))) ==> o.atmos_presentation_drc_profile == Some(v))
            &&& (absent(es, "atmos_presentation_drc_profile"@) ==> o.atmos_presentation_drc_profile is None)
            &&& (field(es, seq!["spatial_clusters"@]) matches Some(Some(DocModel::Str(v))) ==> o.spatial_clusters == Some(v))
            &&& (absent(es, "spatial_clusters"@) ==> o.spatial_clusters is None)
            &&& (field(es, seq!["legacy_authoring_compatibility"@]) matches Some(Some(DocModel::Bool(v))) ==> o.legacy_authoring_compatibility == Some(v))
            &&& (absent(es, "legacy_authoring_compatibility"@) ==> o.legacy_authoring_compatibility is None)
            &&& (field(es, seq!["presentation_8ch_drc_profile"@]) matches Some(Some(DocModel::Str(v))) ==> o.presentation_8ch_drc_profile == Some(v))
            &&& (absent(es, "presentation_8ch_drc_profile"@) ==> o.presentation_8ch_drc_profile is None)
            &&& (field(es, seq!["presentation_6ch_drc_profile"@]) matches Some(Some(DocModel::Str(v))) ==> o.presentation_6ch_drc_profile == Some(v))
            &&& (absent(es, "presentation_6ch_drc_profile"@) ==> o.presentation_6ch_drc_profile is None)
            &&& (field(es, seq!["presentation_2ch_drc_profile"@]) matches Some(Some(DocModel::Str(v))) ==> o.presentation_2ch_drc_profile == Some(v))
            &&& (absent(es, "presentation_2ch_drc_profile"@) ==> o.presentation_2ch_drc_profile is None)
            &&& (field(es, seq!["optimize_data_rate"@]) matches Some(Some(DocModel::Bool(v))) ==> o.optimize_data_rate == Some(v))
            &&& (absent(es, "optimize_data_rate"@) ==> o.optimize_data_rate is None)
        }),
{
}

/// The overrides of a job are those read from its `filter` mapping.
pub proof fn law_job_filter_is_its_mapping(es: Seq<(Option<Seq<char>>, DocModel)>, l: bool)
    requires
        job_of(DocModel::Dict(es), l) is Some,
    ensures
        field(es, seq!["filter"@]) matches Some(Some(d)) ==> overrides_of(d, l) == Some(
            job_of(DocModel::Dict(es), l)->0.filter,
        ),
{
}

} // verus!
