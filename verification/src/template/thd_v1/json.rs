//! The DEE JSON tree of `thd_v1` jobs.
use vstd::prelude::*;

use crate::json::{entries_model, json_in, push_entry, JsonModel, JsonValue};
use crate::render::{file_list_text, render_file_name_list, strings_model};
use crate::resolve::JobModel;
use crate::template::thd_v1::{ThdV1Filter, ThdV1Model};
use crate::template::common::{
    misc_json, misc_json_model, storage_json, storage_json_model, storage_tag, storage_tag_spec,
};
use crate::text::{bool_str, bool_text, i64_text, int_text, owned};

verus! {

/// The `atmos_mezz` input object.
pub open spec fn thd_input_json_model(tag: Seq<char>, path: Seq<char>, files: Seq<char>, m: ThdV1Model) -> JsonModel {
    JsonModel::Object(seq![("-version"@, JsonModel::Str("1"@)), ("file_name"@, JsonModel::Str(files)), ("timecode_frame_rate"@, JsonModel::Str(m.timecode_frame_rate)), ("offset"@, JsonModel::Str("auto"@)), ("ffoa"@, JsonModel::Str("auto"@)), ("storage"@, storage_json_model(tag, path))])
}

/// The `atmos_mezz` input object.
pub fn input_json(tag_s: &str, path_s: &str, files_s: &str, f: &ThdV1Filter) -> (r: JsonValue)
    ensures
        r@ == thd_input_json_model(tag_s@, path_s@, files_s@, f@),
{
    let ghost tag = tag_s@;
    let ghost path = path_s@;
    let ghost files = files_s@;
    let ghost m = f@;
    let mut es2: Vec<(String, JsonValue)> = Vec::new();
    assert(entries_model(es2@) =~~= Seq::<(Seq<char>, JsonModel)>::empty());
    let v3 = JsonValue::Str(owned("1"));
    let ghost g4 = v3@;
    push_entry(&mut es2, owned("-version"), v3);
    assert(entries_model(es2@) =~~= seq![("-version"@, g4)]);
    let v5 = JsonValue::Str(owned(files_s));
    let ghost g6 = v5@;
    push_entry(&mut es2, owned("file_name"), v5);
    assert(entries_model(es2@) =~~= seq![("-version"@, g4), ("file_name"@, g6)]);
    let v7 = JsonValue::Str(f.timecode_frame_rate.clone());
    let ghost g8 = v7@;
    push_entry(&mut es2, owned("timecode_frame_rate"), v7);
    assert(entries_model(es2@) =~~= seq![("-version"@, g4), ("file_name"@, g6), ("timecode_frame_rate"@, g8)]);
    let v9 = JsonValue::Str(owned("auto"));
    let ghost g10 = v9@;
    push_entry(&mut es2, owned("offset"), v9);
    assert(entries_model(es2@) =~~= seq![("-version"@, g4), ("file_name"@, g6), ("timecode_frame_rate"@, g8), ("offset"@, g10)]);
    let v11 = JsonValue::Str(owned("auto"));
    let ghost g12 = v11@;
    push_entry(&mut es2, owned("ffoa"), v11);
    assert(entries_model(es2@) =~~= seq![("-version"@, g4), ("file_name"@, g6), ("timecode_frame_rate"@, g8), ("offset"@, g10), ("ffoa"@, g12)]);
    let v13 = storage_json(tag_s, path_s);
    let ghost g14 = v13@;
    push_entry(&mut es2, owned("storage"), v13);
    assert(entries_model(es2@) =~~= seq![("-version"@, g4), ("file_name"@, g6), ("timecode_frame_rate"@, g8), ("offset"@, g10), ("ffoa"@, g12), ("storage"@, g14)]);
    let v1 = JsonValue::Object(es2);
    assert(v1@ =~~= JsonModel::Object(seq![("-version"@, JsonModel::Str("1"@)), ("file_name"@, JsonModel::Str(files)), ("timecode_frame_rate"@, JsonModel::Str(m.timecode_frame_rate)), ("offset"@, JsonModel::Str("auto"@)), ("ffoa"@, JsonModel::Str("auto"@)), ("storage"@, storage_json_model(tag, path))]));
    v1
}

/// The `encode_to_dthd` filter object.
pub open spec fn thd_filter_json_model(m: ThdV1Model) -> JsonModel {
    JsonModel::Object(seq![("-version"@, JsonModel::Str("1"@)), ("loudness_measurement"@, JsonModel::Object(seq![("metering_mode"@, JsonModel::Str(m.metering_mode)), ("dialogue_intelligence"@, JsonModel::Bool(m.dialogue_intelligence)), ("speech_threshold"@, JsonModel::Int(m.speech_threshold as int))])), ("timecode_frame_rate"@, JsonModel::Str(m.timecode_frame_rate)), ("start"@, JsonModel::Str(m.start)), ("end"@, JsonModel::Str(m.end)), ("time_base"@, JsonModel::Str(m.time_base)), ("prepend_silence_duration"@, JsonModel::Str(m.prepend_silence_duration)), ("append_silence_duration"@, JsonModel::Str(m.append_silence_duration)), ("atmos_presentation"@, JsonModel::Object(seq![("drc_profile"@, JsonModel::Str(m.atmos_presentation_drc_profile)), ("spatial_clusters"@, JsonModel::Str(m.spatial_clusters)), ("legacy_authoring_compatibility"@, JsonModel::Str(bool_text(m.legacy_authoring_compatibility)))])), ("presentation_8ch"@, JsonModel::Object(seq![("drc_profile"@, JsonModel::Str(m.presentation_8ch_drc_profile)), ("surround_3db_attenuation"@, JsonModel::Str("true"@))])), ("presentation_6ch"@, JsonModel::Object(seq![("drc_profile"@, JsonModel::Str(m.presentation_6ch_drc_profile)), ("surround_3db_attenuation"@, JsonModel::Str("true"@))])), ("presentation_2ch"@, JsonModel::Object(seq![("drc_profile"@, JsonModel::Str(m.presentation_2ch_drc_profile)), ("drc_default_on"@, JsonModel::Str("true"@)), ("format"@, JsonModel::Str("stereo"@))])), ("optimize_data_rate"@, JsonModel::Str(bool_text(m.optimize_data_rate))), ("embedded_timecodes"@, JsonModel::Object(seq![("starting_timecode"@, JsonModel::Str(m.starting_timecode)), ("frame_rate"@, JsonModel::Str(m.frame_rate))])), ("log_format"@, JsonModel::Str("txt"@)), ("custom_dialnorm"@, JsonModel::Str(int_text(m.custom_dialnorm as int)))])
}

/// The `encode_to_dthd` filter object.
pub fn filter_json(f: &ThdV1Filter) -> (r: JsonValue)
    ensures
        r@ == thd_filter_json_model(f@),
{
    let ghost m = f@;
    let mut es2: Vec<(String, JsonValue)> = Vec::new();
    assert(entries_model(es2@) =~~= Seq::<(Seq<char>, JsonModel)>::empty());
    let v3 = JsonValue::Str(owned("1"));
    let ghost g4 = v3@;
    push_entry(&mut es2, owned("-version"), v3);
    assert(entries_model(es2@) =~~= seq![("-version"@, g4)]);
    let mut es6: Vec<(String, JsonValue)> = Vec::new();
    assert(entries_model(es6@) =~~= Seq::<(Seq<char>, JsonModel)>::empty());
    let v7 = JsonValue::Str(f.metering_mode.clone());
    let ghost g8 = v7@;
    push_entry(&mut es6, owned("metering_mode"), v7);
    assert(entries_model(es6@) =~~= seq![("metering_mode"@, g8)]);
    let v9 = JsonValue::Bool(f.dialogue_intelligence);
    let ghost g10 = v9@;
    push_entry(&mut es6, owned("dialogue_intelligence"), v9);
    assert(entries_model(es6@) =~~= seq![("metering_mode"@, g8), ("dialogue_intelligence"@, g10)]);
    let v11 = JsonValue::Int(f.speech_threshold as i64);
    let ghost g12 = v11@;
    push_entry(&mut es6, owned("speech_threshold"), v11);
    assert(entries_model(es6@) =~~= seq![("metering_mode"@, g8), ("dialogue_intelligence"@, g10), ("speech_threshold"@, g12)]);
    let v5 = JsonValue::Object(es6);
    assert(v5@ =~~= JsonModel::Object(seq![("metering_mode"@, JsonModel::Str(m.metering_mode)), ("dialogue_intelligence"@, JsonModel::Bool(m.dialogue_intelligence)), ("speech_threshold"@, JsonModel::Int(m.speech_threshold as int))]));
    let ghost g13 = v5@;
    push_entry(&mut es2, owned("loudness_measurement"), v5);
    assert(entries_model(es2@) =~~= seq![("-version"@, g4), ("loudness_measurement"@, g13)]);
    let v14 = JsonValue::Str(f.timecode_frame_rate.clone());
    let ghost g15 = v14@;
    push_entry(&mut es2, owned("timecode_frame_rate"), v14);
    assert(entries_model(es2@) =~~= seq![("-version"@, g4), ("loudness_measurement"@, g13), ("timecode_frame_rate"@, g15)]);
    let v16 = JsonValue::Str(f.start.clone());
    let ghost g17 = v16@;
    push_entry(&mut es2, owned("start"), v16);
    assert(entries_model(es2@) =~~= seq![("-version"@, g4), ("loudness_measurement"@, g13), ("timecode_frame_rate"@, g15), ("start"@, g17)]);
    let v18 = JsonValue::Str(f.end.clone());
    let ghost g19 = v18@;
    push_entry(&mut es2, owned("end"), v18);
    assert(entries_model(es2@) =~~= seq![("-version"@, g4), ("loudness_measurement"@, g13), ("timecode_frame_rate"@, g15), ("start"@, g17), ("end"@, g19)]);
    let v20 = JsonValue::Str(f.time_base.clone());
    let ghost g21 = v20@;
    push_entry(&mut es2, owned("time_base"), v20);
    assert(entries_model(es2@) =~~= seq![("-version"@, g4), ("loudness_measurement"@, g13), ("timecode_frame_rate"@, g15), ("start"@, g17), ("end"@, g19), ("time_base"@, g21)]);
    let v22 = JsonValue::Str(f.prepend_silence_duration.clone());
    let ghost g23 = v22@;
    push_entry(&mut es2, owned("prepend_silence_duration"), v22);
    assert(entries_model(es2@) =~~= seq![("-version"@, g4), ("loudness_measurement"@, g13), ("timecode_frame_rate"@, g15), ("start"@, g17), ("end"@, g19), ("time_base"@, g21), ("prepend_silence_duration"@, g23)]);
    let v24 = JsonValue::Str(f.append_silence_duration.clone());
    let ghost g25 = v24@;
    push_entry(&mut es2, owned("append_silence_duration"), v24);
    assert(entries_model(es2@) =~~= seq![("-version"@, g4), ("loudness_measurement"@, g13), ("timecode_frame_rate"@, g15), ("start"@, g17), ("end"@, g19), ("time_base"@, g21), ("prepend_silence_duration"@, g23), ("append_silence_duration"@, g25)]);
    let mut es27: Vec<(String, JsonValue)> = Vec::new();
    assert(entries_model(es27@) =~~= Seq::<(Seq<char>, JsonModel)>::empty());
    let v28 = JsonValue::Str(f.atmos_presentation_drc_profile.clone());
    let ghost g29 = v28@;
    push_entry(&mut es27, owned("drc_profile"), v28);
    assert(entries_model(es27@) =~~= seq![("drc_profile"@, g29)]);
    let v30 = JsonValue::Str(f.spatial_clusters.clone());
    let ghost g31 = v30@;
    push_entry(&mut es27, owned("spatial_clusters"), v30);
    assert(entries_model(es27@) =~~= seq![("drc_profile"@, g29), ("spatial_clusters"@, g31)]);
    let v32 = JsonValue::Str(owned(bool_str(f.legacy_authoring_compatibility)));
    let ghost g33 = v32@;
    push_entry(&mut es27, owned("legacy_authoring_compatibility"), v32);
    assert(entries_model(es27@) =~~= seq![("drc_profile"@, g29), ("spatial_clusters"@, g31), ("legacy_authoring_compatibility"@, g33)]);
    let v26 = JsonValue::Object(es27);
    assert(v26@ =~~= JsonModel::Object(seq![("drc_profile"@, JsonModel::Str(m.atmos_presentation_drc_profile)), ("spatial_clusters"@, JsonModel::Str(m.spatial_clusters)), ("legacy_authoring_compatibility"@, JsonModel::Str(bool_text(m.legacy_authoring_compatibility)))]));
    let ghost g34 = v26@;
    push_entry(&mut es2, owned("atmos_presentation"), v26);
    assert(entries_model(es2@) =~~= seq![("-version"@, g4), ("loudness_measurement"@, g13), ("timecode_frame_rate"@, g15), ("start"@, g17), ("end"@, g19), ("time_base"@, g21), ("prepend_silence_duration"@, g23), ("append_silence_duration"@, g25), ("atmos_presentation"@, g34)]);
    let mut es36: Vec<(String, JsonValue)> = Vec::new();
    assert(entries_model(es36@) =~~= Seq::<(Seq<char>, JsonModel)>::empty());
    let v37 = JsonValue::Str(f.presentation_8ch_drc_profile.clone());
    let ghost g38 = v37@;
    push_entry(&mut es36, owned("drc_profile"), v37);
    assert(entries_model(es36@) =~~= seq![("drc_profile"@, g38)]);
    let v39 = JsonValue::Str(owned("true"));
    let ghost g40 = v39@;
    push_entry(&mut es36, owned("surround_3db_attenuation"), v39);
    assert(entries_model(es36@) =~~= seq![("drc_profile"@, g38), ("surround_3db_attenuation"@, g40)]);
    let v35 = JsonValue::Object(es36);
    assert(v35@ =~~= JsonModel::Object(seq![("drc_profile"@, JsonModel::Str(m.presentation_8ch_drc_profile)), ("surround_3db_attenuation"@, JsonModel::Str("true"@))]));
    let ghost g41 = v35@;
    push_entry(&mut es2, owned("presentation_8ch"), v35);
    assert(entries_model(es2@) =~~= seq![("-version"@, g4), ("loudness_measurement"@, g13), ("timecode_frame_rate"@, g15), ("start"@, g17), ("end"@, g19), ("time_base"@, g21), ("prepend_silence_duration"@, g23), ("append_silence_duration"@, g25), ("atmos_presentation"@, g34), ("presentation_8ch"@, g41)]);
    let mut es43: Vec<(String, JsonValue)> = Vec::new();
    assert(entries_model(es43@) =~~= Seq::<(Seq<char>, JsonModel)>::empty());
    let v44 = JsonValue::Str(f.presentation_6ch_drc_profile.clone());
    let ghost g45 = v44@;
    push_entry(&mut es43, owned("drc_profile"), v44);
    assert(entries_model(es43@) =~~= seq![("drc_profile"@, g45)]);
    let v46 = JsonValue::Str(owned("true"));
    let ghost g47 = v46@;
    push_entry(&mut es43, owned("surround_3db_attenuation"), v46);
    assert(entries_model(es43@) =~~= seq![("drc_profile"@, g45), ("surround_3db_attenuation"@, g47)]);
    let v42 = JsonValue::Object(es43);
    assert(v42@ =~~= JsonModel::Object(seq![("drc_profile"@, JsonModel::Str(m.presentation_6ch_drc_profile)), ("surround_3db_attenuation"@, JsonModel::Str("true"@))]));
    let ghost g48 = v42@;
    push_entry(&mut es2, owned("presentation_6ch"), v42);
    assert(entries_model(es2@) =~~= seq![("-version"@, g4), ("loudness_measurement"@, g13), ("timecode_frame_rate"@, g15), ("start"@, g17), ("end"@, g19), ("time_base"@, g21), ("prepend_silence_duration"@, g23), ("append_silence_duration"@, g25), ("atmos_presentation"@, g34), ("presentation_8ch"@, g41), ("presentation_6ch"@, g48)]);
    let mut es50: Vec<(String, JsonValue)> = Vec::new();
    assert(entries_model(es50@) =~~= Seq::<(Seq<char>, JsonModel)>::empty());
    let v51 = JsonValue::Str(f.presentation_2ch_drc_profile.clone());
    let ghost g52 = v51@;
    push_entry(&mut es50, owned("drc_profile"), v51);
    assert(entries_model(es50@) =~~= seq![("drc_profile"@, g52)]);
    let v53 = JsonValue::Str(owned("true"));
    let ghost g54 = v53@;
    push_entry(&mut es50, owned("drc_default_on"), v53);
    assert(entries_model(es50@) =~~= seq![("drc_profile"@, g52), ("drc_default_on"@, g54)]);
    let v55 = JsonValue::Str(owned("stereo"));
    let ghost g56 = v55@;
    push_entry(&mut es50, owned("format"), v55);
    assert(entries_model(es50@) =~~= seq![("drc_profile"@, g52), ("drc_default_on"@, g54), ("format"@, g56)]);
    let v49 = JsonValue::Object(es50);
    assert(v49@ =~~= JsonModel::Object(seq![("drc_profile"@, JsonModel::Str(m.presentation_2ch_drc_profile)), ("drc_default_on"@, JsonModel::Str("true"@)), ("format"@, JsonModel::Str("stereo"@))]));
    let ghost g57 = v49@;
    push_entry(&mut es2, owned("presentation_2ch"), v49);
    assert(entries_model(es2@) =~~= seq![("-version"@, g4), ("loudness_measurement"@, g13), ("timecode_frame_rate"@, g15), ("start"@, g17), ("end"@, g19), ("time_base"@, g21), ("prepend_silence_duration"@, g23), ("append_silence_duration"@, g25), ("atmos_presentation"@, g34), ("presentation_8ch"@, g41), ("presentation_6ch"@, g48), ("presentation_2ch"@, g57)]);
    let v58 = JsonValue::Str(owned(bool_str(f.optimize_data_rate)));
    let ghost g59 = v58@;
    push_entry(&mut es2, owned("optimize_data_rate"), v58);
    assert(entries_model(es2@) =~~= seq![("-version"@, g4), ("loudness_measurement"@, g13), ("timecode_frame_rate"@, g15), ("start"@, g17), ("end"@, g19), ("time_base"@, g21), ("prepend_silence_duration"@, g23), ("append_silence_duration"@, g25), ("atmos_presentation"@, g34), ("presentation_8ch"@, g41), ("presentation_6ch"@, g48), ("presentation_2ch"@, g57), ("optimize_data_rate"@, g59)]);
    let mut es61: Vec<(String, JsonValue)> = Vec::new();
    assert(entries_model(es61@) =~~= Seq::<(Seq<char>, JsonModel)>::empty());
    let v62 = JsonValue::Str(f.starting_timecode.clone());
    let ghost g63 = v62@;
    push_entry(&mut es61, owned("starting_timecode"), v62);
    assert(entries_model(es61@) =~~= seq![("starting_timecode"@, g63)]);
    let v64 = JsonValue::Str(f.frame_rate.clone());
    let ghost g65 = v64@;
    push_entry(&mut es61, owned("frame_rate"), v64);
    assert(entries_model(es61@) =~~= seq![("starting_timecode"@, g63), ("frame_rate"@, g65)]);
    let v60 = JsonValue::Object(es61);
    assert(v60@ =~~= JsonModel::Object(seq![("starting_timecode"@, JsonModel::Str(m.starting_timecode)), ("frame_rate"@, JsonModel::Str(m.frame_rate))]));
    let ghost g66 = v60@;
    push_entry(&mut es2, owned("embedded_timecodes"), v60);
    assert(entries_model(es2@) =~~= seq![("-version"@, g4), ("loudness_measurement"@, g13), ("timecode_frame_rate"@, g15), ("start"@, g17), ("end"@, g19), ("time_base"@, g21), ("prepend_silence_duration"@, g23), ("append_silence_duration"@, g25), ("atmos_presentation"@, g34), ("presentation_8ch"@, g41), ("presentation_6ch"@, g48), ("presentation_2ch"@, g57), ("optimize_data_rate"@, g59), ("embedded_timecodes"@, g66)]);
    let v67 = JsonValue::Str(owned("txt"));
    let ghost g68 = v67@;
    push_entry(&mut es2, owned("log_format"), v67);
    assert(entries_model(es2@) =~~= seq![("-version"@, g4), ("loudness_measurement"@, g13), ("timecode_frame_rate"@, g15), ("start"@, g17), ("end"@, g19), ("time_base"@, g21), ("prepend_silence_duration"@, g23), ("append_silence_duration"@, g25), ("atmos_presentation"@, g34), ("presentation_8ch"@, g41), ("presentation_6ch"@, g48), ("presentation_2ch"@, g57), ("optimize_data_rate"@, g59), ("embedded_timecodes"@, g66), ("log_format"@, g68)]);
    let v69 = JsonValue::Str(i64_text(f.custom_dialnorm as i64));
    let ghost g70 = v69@;
    push_entry(&mut es2, owned("custom_dialnorm"), v69);
    assert(entries_model(es2@) =~~= seq![("-version"@, g4), ("loudness_measurement"@, g13), ("timecode_frame_rate"@, g15), ("start"@, g17), ("end"@, g19), ("time_base"@, g21), ("prepend_silence_duration"@, g23), ("append_silence_duration"@, g25), ("atmos_presentation"@, g34), ("presentation_8ch"@, g41), ("presentation_6ch"@, g48), ("presentation_2ch"@, g57), ("optimize_data_rate"@, g59), ("embedded_timecodes"@, g66), ("log_format"@, g68), ("custom_dialnorm"@, g70)]);
    let v1 = JsonValue::Object(es2);
    assert(v1@ =~~= JsonModel::Object(seq![("-version"@, JsonModel::Str("1"@)), ("loudness_measurement"@, JsonModel::Object(seq![("metering_mode"@, JsonModel::Str(m.metering_mode)), ("dialogue_intelligence"@, JsonModel::Bool(m.dialogue_intelligence)), ("speech_threshold"@, JsonModel::Int(m.speech_threshold as int))])), ("timecode_frame_rate"@, JsonModel::Str(m.timecode_frame_rate)), ("start"@, JsonModel::Str(m.start)), ("end"@, JsonModel::Str(m.end)), ("time_base"@, JsonModel::Str(m.time_base)), ("prepend_silence_duration"@, JsonModel::Str(m.prepend_silence_duration)), ("append_silence_duration"@, JsonModel::Str(m.append_silence_duration)), ("atmos_presentation"@, JsonModel::Object(seq![("drc_profile"@, JsonModel::Str(m.atmos_presentation_drc_profile)), ("spatial_clusters"@, JsonModel::Str(m.spatial_clusters)), ("legacy_authoring_compatibility"@, JsonModel::Str(bool_text(m.legacy_authoring_compatibility)))])), ("presentation_8ch"@, JsonModel::Object(seq![("drc_profile"@, JsonModel::Str(m.presentation_8ch_drc_profile)), ("surround_3db_attenuation"@, JsonModel::Str("true"@))])), ("presentation_6ch"@, JsonModel::Object(seq![("drc_profile"@, JsonModel::Str(m.presentation_6ch_drc_profile)), ("surround_3db_attenuation"@, JsonModel::Str("true"@))])), ("presentation_2ch"@, JsonModel::Object(seq![("drc_profile"@, JsonModel::Str(m.presentation_2ch_drc_profile)), ("drc_default_on"@, JsonModel::Str("true"@)), ("format"@, JsonModel::Str("stereo"@))])), ("optimize_data_rate"@, JsonModel::Str(bool_text(m.optimize_data_rate))), ("embedded_timecodes"@, JsonModel::Object(seq![("starting_timecode"@, JsonModel::Str(m.starting_timecode)), ("frame_rate"@, JsonModel::Str(m.frame_rate))])), ("log_format"@, JsonModel::Str("txt"@)), ("custom_dialnorm"@, JsonModel::Str(int_text(m.custom_dialnorm as int)))]));
    v1
}

/// The `mlp` output object.
pub open spec fn thd_output_json_model(tag: Seq<char>, path: Seq<char>, files: Seq<char>) -> JsonModel {
    JsonModel::Object(seq![("-version"@, JsonModel::Str("1"@)), ("file_name"@, JsonModel::Str(files)), ("storage"@, storage_json_model(tag, path))])
}

/// The `mlp` output object.
pub fn output_json(tag_s: &str, path_s: &str, files_s: &str) -> (r: JsonValue)
    ensures
        r@ == thd_output_json_model(tag_s@, path_s@, files_s@),
{
    let ghost tag = tag_s@;
    let ghost path = path_s@;
    let ghost files = files_s@;
    let mut es2: Vec<(String, JsonValue)> = Vec::new();
    assert(entries_model(es2@) =~~= Seq::<(Seq<char>, JsonModel)>::empty());
    let v3 = JsonValue::Str(owned("1"));
    let ghost g4 = v3@;
    push_entry(&mut es2, owned("-version"), v3);
    assert(entries_model(es2@) =~~= seq![("-version"@, g4)]);
    let v5 = JsonValue::Str(owned(files_s));
    let ghost g6 = v5@;
    push_entry(&mut es2, owned("file_name"), v5);
    assert(entries_model(es2@) =~~= seq![("-version"@, g4), ("file_name"@, g6)]);
    let v7 = storage_json(tag_s, path_s);
    let ghost g8 = v7@;
    push_entry(&mut es2, owned("storage"), v7);
    assert(entries_model(es2@) =~~= seq![("-version"@, g4), ("file_name"@, g6), ("storage"@, g8)]);
    let v1 = JsonValue::Object(es2);
    assert(v1@ =~~= JsonModel::Object(seq![("-version"@, JsonModel::Str("1"@)), ("file_name"@, JsonModel::Str(files)), ("storage"@, storage_json_model(tag, path))]));
    v1
}

/// An object of one entry.
pub open spec fn single(key: Seq<char>, v: JsonModel) -> JsonModel {
    JsonModel::Object(seq![(key, v)])
}

pub(crate) fn single_exec(key: &str, v: JsonValue) -> (r: JsonValue)
    ensures
        r@ == single(key@, v@),
{
    let ghost g = v@;
    let mut es: Vec<(String, JsonValue)> = Vec::new();
    push_entry(&mut es, owned(key), v);
    let r = JsonValue::Object(es);
    assert(r@ =~~= single(key@, g));
    r
}

/// The JSON tree of a job.
pub open spec fn thd_json_model(j: JobModel, m: ThdV1Model) -> JsonModel {
    let tag = storage_tag_spec(j.job_mode);
    single(
        "job_config"@,
        JsonModel::Object(
            seq![
                ("input"@, single("audio"@, single("atmos_mezz"@, thd_input_json_model(tag, j.input.storage_path, file_list_text(j.input.file_names), m)))),
                ("filter"@, single("audio"@, single("encode_to_dthd"@, thd_filter_json_model(m)))),
                ("output"@, single("mlp"@, thd_output_json_model(tag, j.output.storage_path, file_list_text(j.output.file_names)))),
                ("misc"@, single("temp_dir"@, misc_json_model(j.temp_dir, j.clean_temp))),
            ],
        ),
    )
}

/// The JSON tree of a job.
pub fn json_structure(job: &crate::resolve::ResolvedJob, f: &ThdV1Filter) -> (r: JsonValue)
    ensures
        r@ == thd_json_model(job@, f@),
{
    let tag = storage_tag(job.job_mode);
    let input_files = render_file_name_list(&job.input.file_names);
    let output_files = render_file_name_list(&job.output.file_names);
    assert(strings_model(job.input.file_names@) =~= job@.input.file_names);
    assert(strings_model(job.output.file_names@) =~= job@.output.file_names);
    let a = input_json(tag, job.input.storage_path.as_str(), input_files.as_str(), f);
    let a = single_exec("atmos_mezz", a);
    let a = single_exec("audio", a);
    let b = filter_json(f);
    let b = single_exec("encode_to_dthd", b);
    let b = single_exec("audio", b);
    let c = output_json(tag, job.output.storage_path.as_str(), output_files.as_str());
    let c = single_exec("mlp", c);
    let d = misc_json(job.misc.temp_dir.as_str(), job.misc.clean_temp);
    let d = single_exec("temp_dir", d);
    let ghost (ga, gb, gc, gd) = (a@, b@, c@, d@);
    let mut es: Vec<(String, JsonValue)> = Vec::new();
    assert(entries_model(es@) =~~= Seq::<(Seq<char>, JsonModel)>::empty());
    push_entry(&mut es, owned("input"), a);
    push_entry(&mut es, owned("filter"), b);
    push_entry(&mut es, owned("output"), c);
    push_entry(&mut es, owned("misc"), d);
    assert(entries_model(es@) =~~= seq![("input"@, ga), ("filter"@, gb), ("output"@, gc), ("misc"@, gd)]);
    let top = JsonValue::Object(es);
    let r = single_exec("job_config", top);
    assert(r@ =~~= thd_json_model(job@, f@));
    r
}

/// The JSON tree of a job reads its files where the job puts them: the
/// mezzanine's file list and directory are the job's input ones, the encoded
/// file's are the job's output ones (under `mlp`), and the temporary
/// directory is the job's; each directory is given in double quotes, under
/// the storage tag of the job mode (`local` for one file,
/// `local_multi_path` for an album).
pub proof fn law_thd_json_paths(j: JobModel, m: ThdV1Model)
    ensures
        ({
            let t = Some(thd_json_model(j, m));
            let tag = if j.job_mode == crate::spec::JobMode::Single {
                "local"@
            } else {
                "local_multi_path"@
            };
            let src = json_in(json_in(json_in(json_in(t, "job_config"@), "input"@), "audio"@), "atmos_mezz"@);
            let dst = json_in(json_in(json_in(t, "job_config"@), "output"@), "mlp"@);
            &&& json_in(json_in(json_in(dst, "storage"@), tag), "path"@) == Some(
                JsonModel::Str(seq!['"'] + j.output.storage_path + seq!['"']),
            )
            &&& json_in(dst, "file_name"@) == Some(JsonModel::Str(file_list_text(j.output.file_names)))
            &&& json_in(json_in(json_in(src, "storage"@), tag), "path"@) == Some(
                JsonModel::Str(seq!['"'] + j.input.storage_path + seq!['"']),
            )
            &&& json_in(src, "file_name"@) == Some(JsonModel::Str(file_list_text(j.input.file_names)))
            &&& json_in(json_in(json_in(json_in(t, "job_config"@), "misc"@), "temp_dir"@), "path"@) == Some(
                JsonModel::Str(seq!['"'] + j.temp_dir + seq!['"']),
            )
        }),
{
    reveal_strlit("job_config");
    reveal_strlit("input");
    reveal_strlit("filter");
    reveal_strlit("output");
    reveal_strlit("misc");
    reveal_strlit("audio");
    reveal_strlit("temp_dir");
    reveal_strlit("storage");
    reveal_strlit("file_name");
    reveal_strlit("-version");
    reveal_strlit("timecode_frame_rate");
    reveal_strlit("offset");
    reveal_strlit("ffoa");
    reveal_strlit("atmos_mezz");
    reveal_strlit("mlp");
    let tag = storage_tag_spec(j.job_mode);
    crate::template::common::lemma_storage_tag(j.job_mode);
    reveal_with_fuel(crate::json::entry_get, 2);
    let t = thd_json_model(j, m);
    let es = t->Object_0[0].1->Object_0;
    assert(json_in(Some(t), "job_config"@) == Some(JsonModel::Object(es)));
    assert(es[0].0.len() != "misc"@.len());
    assert(es[1].0.len() != "misc"@.len());
    assert(es[2].0.len() != "misc"@.len());
    assert(es[0].0.len() != "output"@.len());
    assert(es[1].0[0] != "output"@[0]);
    crate::json::lemma_entry_get_at(es, "input"@, 0);
    crate::json::lemma_entry_get_at(es, "output"@, 2);
    crate::json::lemma_entry_get_at(es, "misc"@, 3);
    let ies = thd_input_json_model(tag, j.input.storage_path, file_list_text(j.input.file_names), m)->Object_0;
    assert forall|k: int| 0 <= k < 5 implies ies[k].0 != "storage"@ by {
        assert(ies[k].0.len() != "storage"@.len());
    }
    assert(ies[0].0.len() != "file_name"@.len());
    crate::json::lemma_entry_get_at(ies, "storage"@, 5);
    crate::json::lemma_entry_get_at(ies, "file_name"@, 1);
    let oes = thd_output_json_model(tag, j.output.storage_path, file_list_text(j.output.file_names))->Object_0;
    assert(oes[0].0.len() != "storage"@.len());
    assert(oes[1].0.len() != "storage"@.len());
    assert(oes[0].0.len() != "file_name"@.len());
    crate::json::lemma_entry_get_at(oes, "storage"@, 2);
    crate::json::lemma_entry_get_at(oes, "file_name"@, 1);
    crate::template::common::lemma_storage_json_path(tag, j.input.storage_path);
    crate::template::common::lemma_storage_json_path(tag, j.output.storage_path);
    crate::template::common::lemma_misc_json_path(j.temp_dir, j.clean_temp);
}

/// The filter object holds each parameter of the filter under the
/// parameter's own name, with the parameter's value, and each setting that
/// the template fixes with its fixed value.
pub proof fn law_thd_json_filter_values(m: ThdV1Model)
    ensures
        ({
            let root = Some(thd_filter_json_model(m));
            let loudness_measurement = json_in(root, "loudness_measurement"@);
            let atmos_presentation = json_in(root, "atmos_presentation"@);
            let presentation_8ch = json_in(root, "presentation_8ch"@);
            let presentation_6ch = json_in(root, "presentation_6ch"@);
            let presentation_2ch = json_in(root, "presentation_2ch"@);
            let embedded_timecodes = json_in(root, "embedded_timecodes"@);
            &&& json_in(loudness_measurement, "metering_mode"@) == Some(JsonModel::Str(m.metering_mode))
            &&& json_in(loudness_measurement, "dialogue_intelligence"@) == Some(JsonModel::Bool(m.dialogue_intelligence))
            &&& json_in(loudness_measurement, "speech_threshold"@) == Some(JsonModel::Int(m.speech_threshold as int))
            &&& json_in(root, "timecode_frame_rate"@) == Some(JsonModel::Str(m.timecode_frame_rate))
            &&& json_in(root, "start"@) == Some(JsonModel::Str(m.start))
            &&& json_in(root, "end"@) == Some(JsonModel::Str(m.end))
            &&& json_in(root, "time_base"@) == Some(JsonModel::Str(m.time_base))
            &&& json_in(root, "prepend_silence_duration"@) == Some(JsonModel::Str(m.prepend_silence_duration))
            &&& json_in(root, "append_silence_duration"@) == Some(JsonModel::Str(m.append_silence_duration))
            &&& json_in(atmos_presentation, "drc_profile"@) == Some(JsonModel::Str(m.atmos_presentation_drc_profile))
            &&& json_in(atmos_presentation, "spatial_clusters"@) == Some(JsonModel::Str(m.spatial_clusters))
            &&& json_in(atmos_presentation, "legacy_authoring_compatibility"@) == Some(JsonModel::Str(bool_text(m.legacy_authoring_compatibility)))
            &&& json_in(presentation_8ch, "drc_profile"@) == Some(JsonModel::Str(m.presentation_8ch_drc_profile))
            &&& json_in(presentation_8ch, "surround_3db_attenuation"@) == Some(JsonModel::Str("true"@))
            &&& json_in(presentation_6ch, "drc_profile"@) == Some(JsonModel::Str(m.presentation_6ch_drc_profile))
            &&& json_in(presentation_6ch, "surround_3db_attenuation"@) == Some(JsonModel::Str("true"@))
            &&& json_in(presentation_2ch, "drc_profile"@) == Some(JsonModel::Str(m.presentation_2ch_drc_profile))
            &&& json_in(presentation_2ch, "drc_default_on"@) == Some(JsonModel::Str("true"@))
            &&& json_in(presentation_2ch, "format"@) == Some(JsonModel::Str("stereo"@))
            &&& json_in(root, "optimize_data_rate"@) == Some(JsonModel::Str(bool_text(m.optimize_data_rate)))
            &&& json_in(embedded_timecodes, "starting_timecode"@) == Some(JsonModel::Str(m.starting_timecode))
            &&& json_in(embedded_timecodes, "frame_rate"@) == Some(JsonModel::Str(m.frame_rate))
            &&& json_in(root, "log_format"@) == Some(JsonModel::Str("txt"@))
            &&& json_in(root, "custom_dialnorm"@) == Some(JsonModel::Str(int_text(m.custom_dialnorm as int)))
        }),
{
    reveal_strlit("-version");
    reveal_strlit("append_silence_duration");
    reveal_strlit("atmos_presentation");
    reveal_strlit("custom_dialnorm");
    reveal_strlit("dialogue_intelligence");
    reveal_strlit("drc_default_on");
    reveal_strlit("drc_profile");
    reveal_strlit("embedded_timecodes");
    reveal_strlit("end");
    reveal_strlit("format");
    reveal_strlit("frame_rate");
    reveal_strlit("legacy_authoring_compatibility");
    reveal_strlit("log_format");
    reveal_strlit("loudness_measurement");
    reveal_strlit("metering_mode");
    reveal_strlit("optimize_data_rate");
    reveal_strlit("prepend_silence_duration");
    reveal_strlit("presentation_2ch");
    reveal_strlit("presentation_6ch");
    reveal_strlit("presentation_8ch");
    reveal_strlit("spatial_clusters");
    reveal_strlit("speech_threshold");
    reveal_strlit("start");
    reveal_strlit("starting_timecode");
    reveal_strlit("surround_3db_attenuation");
    reveal_strlit("time_base");
    reveal_strlit("timecode_frame_rate");
    reveal_with_fuel(crate::json::entry_get, 1);
    assert("-version"@.len() != "loudness_measurement"@.len());
    crate::json::lemma_entry_get_at(thd_filter_json_model(m)->Object_0, "loudness_measurement"@, 1);
    crate::json::lemma_entry_get_at(thd_filter_json_model(m)->Object_0[1].1->Object_0, "metering_mode"@, 0);
    assert("metering_mode"@.len() != "dialogue_intelligence"@.len());
    crate::json::lemma_entry_get_at(thd_filter_json_model(m)->Object_0[1].1->Object_0, "dialogue_intelligence"@, 1);
    assert("metering_mode"@.len() != "speech_threshold"@.len());
    assert("dialogue_intelligence"@.len() != "speech_threshold"@.len());
    crate::json::lemma_entry_get_at(thd_filter_json_model(m)->Object_0[1].1->Object_0, "speech_threshold"@, 2);
    assert("-version"@.len() != "timecode_frame_rate"@.len());
    assert("loudness_measurement"@.len() != "timecode_frame_rate"@.len());
    crate::json::lemma_entry_get_at(thd_filter_json_model(m)->Object_0, "timecode_frame_rate"@, 2);
    assert("-version"@.len() != "start"@.len());
    assert("loudness_measurement"@.len() != "start"@.len());
    assert("timecode_frame_rate"@.len() != "start"@.len());
    crate::json::lemma_entry_get_at(thd_filter_json_model(m)->Object_0, "start"@, 3);
    assert("-version"@.len() != "end"@.len());
    assert("loudness_measurement"@.len() != "end"@.len());
    assert("timecode_frame_rate"@.len() != "end"@.len());
    assert("start"@.len() != "end"@.len());
    crate::json::lemma_entry_get_at(thd_filter_json_model(m)->Object_0, "end"@, 4);
    assert("-version"@.len() != "time_base"@.len());
    assert("loudness_measurement"@.len() != "time_base"@.len());
    assert("timecode_frame_rate"@.len() != "time_base"@.len());
    assert("start"@.len() != "time_base"@.len());
    assert("end"@.len() != "time_base"@.len());
    crate::json::lemma_entry_get_at(thd_filter_json_model(m)->Object_0, "time_base"@, 5);
    assert("-version"@.len() != "prepend_silence_duration"@.len());
    assert("loudness_measurement"@.len() != "prepend_silence_duration"@.len());
    assert("timecode_frame_rate"@.len() != "prepend_silence_duration"@.len());
    assert("start"@.len() != "prepend_silence_duration"@.len());
    assert("end"@.len() != "prepend_silence_duration"@.len());
    assert("time_base"@.len() != "prepend_silence_duration"@.len());
    crate::json::lemma_entry_get_at(thd_filter_json_model(m)->Object_0, "prepend_silence_duration"@, 6);
    assert("-version"@.len() != "append_silence_duration"@.len());
    assert("loudness_measurement"@.len() != "append_silence_duration"@.len());
    assert("timecode_frame_rate"@.len() != "append_silence_duration"@.len());
    assert("start"@.len() != "append_silence_duration"@.len());
    assert("end"@.len() != "append_silence_duration"@.len());
    assert("time_base"@.len() != "append_silence_duration"@.len());
    assert("prepend_silence_duration"@.len() != "append_silence_duration"@.len());
    crate::json::lemma_entry_get_at(thd_filter_json_model(m)->Object_0, "append_silence_duration"@, 7);
    assert("-version"@.len() != "atmos_presentation"@.len());
    assert("loudness_measurement"@.len() != "atmos_presentation"@.len());
    assert("timecode_frame_rate"@.len() != "atmos_presentation"@.len());
    assert("start"@.len() != "atmos_presentation"@.len());
    assert("end"@.len() != "atmos_presentation"@.len());
    assert("time_base"@.len() != "atmos_presentation"@.len());
    assert("prepend_silence_duration"@.len() != "atmos_presentation"@.len());
    assert("append_silence_duration"@.len() != "atmos_presentation"@.len());
    crate::json::lemma_entry_get_at(thd_filter_json_model(m)->Object_0, "atmos_presentation"@, 8);
    crate::json::lemma_entry_get_at(thd_filter_json_model(m)->Object_0[8].1->Object_0, "drc_profile"@, 0);
    assert("drc_profile"@.len() != "spatial_clusters"@.len());
    crate::json::lemma_entry_get_at(thd_filter_json_model(m)->Object_0[8].1->Object_0, "spatial_clusters"@, 1);
    assert("drc_profile"@.len() != "legacy_authoring_compatibility"@.len());
    assert("spatial_clusters"@.len() != "legacy_authoring_compatibility"@.len());
    crate::json::lemma_entry_get_at(thd_filter_json_model(m)->Object_0[8].1->Object_0, "legacy_authoring_compatibility"@, 2);
    assert("-version"@.len() != "presentation_8ch"@.len());
    assert("loudness_measurement"@.len() != "presentation_8ch"@.len());
    assert("timecode_frame_rate"@.len() != "presentation_8ch"@.len());
    assert("start"@.len() != "presentation_8ch"@.len());
    assert("end"@.len() != "presentation_8ch"@.len());
    assert("time_base"@.len() != "presentation_8ch"@.len());
    assert("prepend_silence_duration"@.len() != "presentation_8ch"@.len());
    assert("append_silence_duration"@.len() != "presentation_8ch"@.len());
    assert("atmos_presentation"@.len() != "presentation_8ch"@.len());
    crate::json::lemma_entry_get_at(thd_filter_json_model(m)->Object_0, "presentation_8ch"@, 9);
    crate::json::lemma_entry_get_at(thd_filter_json_model(m)->Object_0[9].1->Object_0, "drc_profile"@, 0);
    assert("drc_profile"@.len() != "surround_3db_attenuation"@.len());
    crate::json::lemma_entry_get_at(thd_filter_json_model(m)->Object_0[9].1->Object_0, "surround_3db_attenuation"@, 1);
    assert("-version"@.len() != "presentation_6ch"@.len());
    assert("loudness_measurement"@.len() != "presentation_6ch"@.len());
    assert("timecode_frame_rate"@.len() != "presentation_6ch"@.len());
    assert("start"@.len() != "presentation_6ch"@.len());
    assert("end"@.len() != "presentation_6ch"@.len());
    assert("time_base"@.len() != "presentation_6ch"@.len());
    assert("prepend_silence_duration"@.len() != "presentation_6ch"@.len());
    assert("append_silence_duration"@.len() != "presentation_6ch"@.len());
    assert("atmos_presentation"@.len() != "presentation_6ch"@.len());
    assert("presentation_8ch"@[13] != "presentation_6ch"@[13]);
    crate::json::lemma_entry_get_at(thd_filter_json_model(m)->Object_0, "presentation_6ch"@, 10);
    crate::json::lemma_entry_get_at(thd_filter_json_model(m)->Object_0[10].1->Object_0, "drc_profile"@, 0);
    assert("drc_profile"@.len() != "surround_3db_attenuation"@.len());
    crate::json::lemma_entry_get_at(thd_filter_json_model(m)->Object_0[10].1->Object_0, "surround_3db_attenuation"@, 1);
    assert("-version"@.len() != "presentation_2ch"@.len());
    assert("loudness_measurement"@.len() != "presentation_2ch"@.len());
    assert("timecode_frame_rate"@.len() != "presentation_2ch"@.len());
    assert("start"@.len() != "presentation_2ch"@.len());
    assert("end"@.len() != "presentation_2ch"@.len());
    assert("time_base"@.len() != "presentation_2ch"@.len());
    assert("prepend_silence_duration"@.len() != "presentation_2ch"@.len());
    assert("append_silence_duration"@.len() != "presentation_2ch"@.len());
    assert("atmos_presentation"@.len() != "presentation_2ch"@.len());
    assert("presentation_8ch"@[13] != "presentation_2ch"@[13]);
    assert("presentation_6ch"@[13] != "presentation_2ch"@[13]);
    crate::json::lemma_entry_get_at(thd_filter_json_model(m)->Object_0, "presentation_2ch"@, 11);
    crate::json::lemma_entry_get_at(thd_filter_json_model(m)->Object_0[11].1->Object_0, "drc_profile"@, 0);
    assert("drc_profile"@.len() != "drc_default_on"@.len());
    crate::json::lemma_entry_get_at(thd_filter_json_model(m)->Object_0[11].1->Object_0, "drc_default_on"@, 1);
    assert("drc_profile"@.len() != "format"@.len());
    assert("drc_default_on"@.len() != "format"@.len());
    crate::json::lemma_entry_get_at(thd_filter_json_model(m)->Object_0[11].1->Object_0, "format"@, 2);
    assert("-version"@.len() != "optimize_data_rate"@.len());
    assert("loudness_measurement"@.len() != "optimize_data_rate"@.len());
    assert("timecode_frame_rate"@.len() != "optimize_data_rate"@.len());
    assert("start"@.len() != "optimize_data_rate"@.len());
    assert("end"@.len() != "optimize_data_rate"@.len());
    assert("time_base"@.len() != "optimize_data_rate"@.len());
    assert("prepend_silence_duration"@.len() != "optimize_data_rate"@.len());
    assert("append_silence_duration"@.len() != "optimize_data_rate"@.len());
    assert("atmos_presentation"@[0] != "optimize_data_rate"@[0]);
    assert("presentation_8ch"@.len() != "optimize_data_rate"@.len());
    assert("presentation_6ch"@.len() != "optimize_data_rate"@.len());
    assert("presentation_2ch"@.len() != "optimize_data_rate"@.len());
    crate::json::lemma_entry_get_at(thd_filter_json_model(m)->Object_0, "optimize_data_rate"@, 12);
    assert("-version"@.len() != "embedded_timecodes"@.len());
    assert("loudness_measurement"@.len() != "embedded_timecodes"@.len());
    assert("timecode_frame_rate"@.len() != "embedded_timecodes"@.len());
    assert("start"@.len() != "embedded_timecodes"@.len());
    assert("end"@.len() != "embedded_timecodes"@.len());
    assert("time_base"@.len() != "embedded_timecodes"@.len());
    assert("prepend_silence_duration"@.len() != "embedded_timecodes"@.len());
    assert("append_silence_duration"@.len() != "embedded_timecodes"@.len());
    assert("atmos_presentation"@[0] != "embedded_timecodes"@[0]);
    assert("presentation_8ch"@.len() != "embedded_timecodes"@.len());
    assert("presentation_6ch"@.len() != "embedded_timecodes"@.len());
    assert("presentation_2ch"@.len() != "embedded_timecodes"@.len());
    assert("optimize_data_rate"@[0] != "embedded_timecodes"@[0]);
    crate::json::lemma_entry_get_at(thd_filter_json_model(m)->Object_0, "embedded_timecodes"@, 13);
    crate::json::lemma_entry_get_at(thd_filter_json_model(m)->Object_0[13].1->Object_0, "starting_timecode"@, 0);
    assert("starting_timecode"@.len() != "frame_rate"@.len());
    crate::json::lemma_entry_get_at(thd_filter_json_model(m)->Object_0[13].1->Object_0, "frame_rate"@, 1);
    assert("-version"@.len() != "log_format"@.len());
    assert("loudness_measurement"@.len() != "log_format"@.len());
    assert("timecode_frame_rate"@.len() != "log_format"@.len());
    assert("start"@.len() != "log_format"@.len());
    assert("end"@.len() != "log_format"@.len());
    assert("time_base"@.len() != "log_format"@.len());
    assert("prepend_silence_duration"@.len() != "log_format"@.len());
    assert("append_silence_duration"@.len() != "log_format"@.len());
    assert("atmos_presentation"@.len() != "log_format"@.len());
    assert("presentation_8ch"@.len() != "log_format"@.len());
    assert("presentation_6ch"@.len() != "log_format"@.len());
    assert("presentation_2ch"@.len() != "log_format"@.len());
    assert("optimize_data_rate"@.len() != "log_format"@.len());
    assert("embedded_timecodes"@.len() != "log_format"@.len());
    crate::json::lemma_entry_get_at(thd_filter_json_model(m)->Object_0, "log_format"@, 14);
    assert("-version"@.len() != "custom_dialnorm"@.len());
    assert("loudness_measurement"@.len() != "custom_dialnorm"@.len());
    assert("timecode_frame_rate"@.len() != "custom_dialnorm"@.len());
    assert("start"@.len() != "custom_dialnorm"@.len());
    assert("end"@.len() != "custom_dialnorm"@.len());
    assert("time_base"@.len() != "custom_dialnorm"@.len());
    assert("prepend_silence_duration"@.len() != "custom_dialnorm"@.len());
    assert("append_silence_duration"@.len() != "custom_dialnorm"@.len());
    assert("atmos_presentation"@.len() != "custom_dialnorm"@.len());
    assert("presentation_8ch"@.len() != "custom_dialnorm"@.len());
    assert("presentation_6ch"@.len() != "custom_dialnorm"@.len());
    assert("presentation_2ch"@.len() != "custom_dialnorm"@.len());
    assert("optimize_data_rate"@.len() != "custom_dialnorm"@.len());
    assert("embedded_timecodes"@.len() != "custom_dialnorm"@.len());
    assert("log_format"@.len() != "custom_dialnorm"@.len());
    crate::json::lemma_entry_get_at(thd_filter_json_model(m)->Object_0, "custom_dialnorm"@, 15);
}

} // verus!
