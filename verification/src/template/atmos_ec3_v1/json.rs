//! The DEE JSON tree of `atmos_ec3_v1` jobs.
use vstd::prelude::*;

use crate::json::{entries_model, json_get, json_in, push_entry, JsonModel, JsonValue};
use crate::render::{file_list_text, render_file_name_list, strings_model};
use crate::resolve::JobModel;
use crate::template::atmos_ec3_v1::{AtmosEc3V1Filter, AtmosEc3V1Model};
use crate::template::common::{
    misc_json, misc_json_model, opt_entry, storage_json, storage_json_model, storage_tag,
    storage_tag_spec,
};
use crate::text::owned;

verus! {

/// The `atmos_mezz` input object.
pub open spec fn atmos_input_json_model(tag: Seq<char>, path: Seq<char>, files: Seq<char>, m: AtmosEc3V1Model) -> JsonModel {
    JsonModel::Object(seq![("-version"@, JsonModel::Str("1"@)), ("file_name"@, JsonModel::Str(files)), ("timecode_frame_rate"@, JsonModel::Str(m.timecode_frame_rate)), ("offset"@, JsonModel::Str("auto"@)), ("ffoa"@, JsonModel::Str("auto"@)), ("storage"@, storage_json_model(tag, path))])
}

/// The `atmos_mezz` input object.
pub fn input_json(tag_s: &str, path_s: &str, files_s: &str, f: &AtmosEc3V1Filter) -> (r: JsonValue)
    ensures
        r@ == atmos_input_json_model(tag_s@, path_s@, files_s@, f@),
{
    let ghost tag = tag_s@;
    let ghost path = path_s@;
    let ghost files = files_s@;
    let ghost m = f@;
    let mut es2: Vec<(String, JsonValue)> = Vec::new();
    assert(entries_model(es2@) =~~= Seq::<(Seq<char>, JsonModel)>::empty());
    let v3 = JsonValue::Str(owned("1"));
    let ghost g4 = v3@;
    push_entry(&mut es2, owned("-version"), v3);
    assert(entries_model(es2@) =~~= seq![("-version"@, g4)]);
    let v5 = JsonValue::Str(owned(files_s));
    let ghost g6 = v5@;
    push_entry(&mut es2, owned("file_name"), v5);
    assert(entries_model(es2@) =~~= seq![("-version"@, g4), ("file_name"@, g6)]);
    let v7 = JsonValue::Str(f.timecode_frame_rate.clone());
    let ghost g8 = v7@;
    push_entry(&mut es2, owned("timecode_frame_rate"), v7);
    assert(entries_model(es2@) =~~= seq![("-version"@, g4), ("file_name"@, g6), ("timecode_frame_rate"@, g8)]);
    let v9 = JsonValue::Str(owned("auto"));
    let ghost g10 = v9@;
    push_entry(&mut es2, owned("offset"), v9);
    assert(entries_model(es2@) =~~= seq![("-version"@, g4), ("file_name"@, g6), ("timecode_frame_rate"@, g8), ("offset"@, g10)]);
    let v11 = JsonValue::Str(owned("auto"));
    let ghost g12 = v11@;
    push_entry(&mut es2, owned("ffoa"), v11);
    assert(entries_model(es2@) =~~= seq![("-version"@, g4), ("file_name"@, g6), ("timecode_frame_rate"@, g8), ("offset"@, g10), ("ffoa"@, g12)]);
    let v13 = storage_json(tag_s, path_s);
    let ghost g14 = v13@;
    push_entry(&mut es2, owned("storage"), v13);
    assert(entries_model(es2@) =~~= seq![("-version"@, g4), ("file_name"@, g6), ("timecode_frame_rate"@, g8), ("offset"@, g10), ("ffoa"@, g12), ("storage"@, g14)]);
    let v1 = JsonValue::Object(es2);
    assert(v1@ =~~= JsonModel::Object(seq![("-version"@, JsonModel::Str("1"@)), ("file_name"@, JsonModel::Str(files)), ("timecode_frame_rate"@, JsonModel::Str(m.timecode_frame_rate)), ("offset"@, JsonModel::Str("auto"@)), ("ffoa"@, JsonModel::Str("auto"@)), ("storage"@, storage_json_model(tag, path))]));
    v1
}

/// The `encode_to_atmos_ddp` filter object.
pub open spec fn atmos_filter_json_model(m: AtmosEc3V1Model) -> JsonModel {
    JsonModel::Object(seq![("-version"@, JsonModel::Str("1"@)), ("loudness"@, JsonModel::Object(seq![("measure_only"@, JsonModel::Object(seq![("metering_mode"@, JsonModel::Str(m.metering_mode)), ("dialogue_intelligence"@, JsonModel::Bool(m.dialogue_intelligence)), ("speech_threshold"@, JsonModel::Int(m.speech_threshold as int))]))])), ("data_rate"@, JsonModel::Int(m.data_rate as int)), ("timecode_frame_rate"@, JsonModel::Str(m.timecode_frame_rate)), ("start"@, JsonModel::Str(m.start)), ("end"@, JsonModel::Str(m.end)), ("time_base"@, JsonModel::Str(m.time_base)), ("prepend_silence_duration"@, JsonModel::Str(m.prepend_silence_duration)), ("append_silence_duration"@, JsonModel::Str(m.append_silence_duration)), ("drc"@, JsonModel::Object(seq![("line_mode_drc_profile"@, JsonModel::Str(m.line_mode_drc_profile)), ("rf_mode_drc_profile"@, JsonModel::Str(m.rf_mode_drc_profile))])), ("downmix"@, JsonModel::Object(seq![("loro_center_mix_level"@, JsonModel::Str(m.loro_center_mix_level)), ("loro_surround_mix_level"@, JsonModel::Str(m.loro_surround_mix_level)), ("ltrt_center_mix_level"@, JsonModel::Str(m.ltrt_center_mix_level)), ("ltrt_surround_mix_level"@, JsonModel::Str(m.ltrt_surround_mix_level)), ("preferred_downmix_mode"@, JsonModel::Str(m.preferred_downmix_mode))])), ("custom_trims"@, JsonModel::Object(seq![("surround_trim_5_1"@, JsonModel::Str(m.surround_trim_5_1)), ("height_trim_5_1"@, JsonModel::Str(m.height_trim_5_1))])), ("custom_dialnorm"@, JsonModel::Int(m.custom_dialnorm as int))] + opt_entry("encoding_backend"@, m.encoding_backend) + opt_entry("encoder_mode"@, m.encoder_mode))
}

/// The `encode_to_atmos_ddp` filter object.
pub fn filter_json(f: &AtmosEc3V1Filter) -> (r: JsonValue)
    ensures
        r@ == atmos_filter_json_model(f@),
{
    let ghost m = f@;
    let mut es2: Vec<(String, JsonValue)> = Vec::new();
    assert(entries_model(es2@) =~~= Seq::<(Seq<char>, JsonModel)>::empty());
    let v3 = JsonValue::Str(owned("1"));
    let ghost g4 = v3@;
    push_entry(&mut es2, owned("-version"), v3);
    assert(entries_model(es2@) =~~= seq![("-version"@, g4)]);
    let mut es6: Vec<(String, JsonValue)> = Vec::new();
    assert(entries_model(es6@) =~~= Seq::<(Seq<char>, JsonModel)>::empty());
    let mut es8: Vec<(String, JsonValue)> = Vec::new();
    assert(entries_model(es8@) =~~= Seq::<(Seq<char>, JsonModel)>::empty());
    let v9 = JsonValue::Str(f.metering_mode.clone());
    let ghost g10 = v9@;
    push_entry(&mut es8, owned("metering_mode"), v9);
    assert(entries_model(es8@) =~~= seq![("metering_mode"@, g10)]);
    let v11 = JsonValue::Bool(f.dialogue_intelligence);
    let ghost g12 = v11@;
    push_entry(&mut es8, owned("dialogue_intelligence"), v11);
    assert(entries_model(es8@) =~~= seq![("metering_mode"@, g10), ("dialogue_intelligence"@, g12)]);
    let v13 = JsonValue::Int(f.speech_threshold as i64);
    let ghost g14 = v13@;
    push_entry(&mut es8, owned("speech_threshold"), v13);
    assert(entries_model(es8@) =~~= seq![("metering_mode"@, g10), ("dialogue_intelligence"@, g12), ("speech_threshold"@, g14)]);
    let v7 = JsonValue::Object(es8);
    assert(v7@ =~~= JsonModel::Object(seq![("metering_mode"@, JsonModel::Str(m.metering_mode)), ("dialogue_intelligence"@, JsonModel::Bool(m.dialogue_intelligence)), ("speech_threshold"@, JsonModel::Int(m.speech_threshold as int))]));
    let ghost g15 = v7@;
    push_entry(&mut es6, owned("measure_only"), v7);
    assert(entries_model(es6@) =~~= seq![("measure_only"@, g15)]);
    let v5 = JsonValue::Object(es6);
    assert(v5@ =~~= JsonModel::Object(seq![("measure_only"@, JsonModel::Object(seq![("metering_mode"@, JsonModel::Str(m.metering_mode)), ("dialogue_intelligence"@, JsonModel::Bool(m.dialogue_intelligence)), ("speech_threshold"@, JsonModel::Int(m.speech_threshold as int))]))]));
    let ghost g16 = v5@;
    push_entry(&mut es2, owned("loudness"), v5);
    assert(entries_model(es2@) =~~= seq![("-version"@, g4), ("loudness"@, g16)]);
    let v17 = JsonValue::Int(f.data_rate as i64);
    let ghost g18 = v17@;
    push_entry(&mut es2, owned("data_rate"), v17);
    assert(entries_model(es2@) =~~= seq![("-version"@, g4), ("loudness"@, g16), ("data_rate"@, g18)]);
    let v19 = JsonValue::Str(f.timecode_frame_rate.clone());
    let ghost g20 = v19@;
    push_entry(&mut es2, owned("timecode_frame_rate"), v19);
    assert(entries_model(es2@) =~~= seq![("-version"@, g4), ("loudness"@, g16), ("data_rate"@, g18), ("timecode_frame_rate"@, g20)]);
    let v21 = JsonValue::Str(f.start.clone());
    let ghost g22 = v21@;
    push_entry(&mut es2, owned("start"), v21);
    assert(entries_model(es2@) =~~= seq![("-version"@, g4), ("loudness"@, g16), ("data_rate"@, g18), ("timecode_frame_rate"@, g20), ("start"@, g22)]);
    let v23 = JsonValue::Str(f.end.clone());
    let ghost g24 = v23@;
    push_entry(&mut es2, owned("end"), v23);
    assert(entries_model(es2@) =~~= seq![("-version"@, g4), ("loudness"@, g16), ("data_rate"@, g18), ("timecode_frame_rate"@, g20), ("start"@, g22), ("end"@, g24)]);
    let v25 = JsonValue::Str(f.time_base.clone());
    let ghost g26 = v25@;
    push_entry(&mut es2, owned("time_base"), v25);
    assert(entries_model(es2@) =~~= seq![("-version"@, g4), ("loudness"@, g16), ("data_rate"@, g18), ("timecode_frame_rate"@, g20), ("start"@, g22), ("end"@, g24), ("time_base"@, g26)]);
    let v27 = JsonValue::Str(f.prepend_silence_duration.clone());
    let ghost g28 = v27@;
    push_entry(&mut es2, owned("prepend_silence_duration"), v27);
    assert(entries_model(es2@) =~~= seq![("-version"@, g4), ("loudness"@, g16), ("data_rate"@, g18), ("timecode_frame_rate"@, g20), ("start"@, g22), ("end"@, g24), ("time_base"@, g26), ("prepend_silence_duration"@, g28)]);
    let v29 = JsonValue::Str(f.append_silence_duration.clone());
    let ghost g30 = v29@;
    push_entry(&mut es2, owned("append_silence_duration"), v29);
    assert(entries_model(es2@) =~~= seq![("-version"@, g4), ("loudness"@, g16), ("data_rate"@, g18), ("timecode_frame_rate"@, g20), ("start"@, g22), ("end"@, g24), ("time_base"@, g26), ("prepend_silence_duration"@, g28), ("append_silence_duration"@, g30)]);
    let mut es32: Vec<(String, JsonValue)> = Vec::new();
    assert(entries_model(es32@) =~~= Seq::<(Seq<char>, JsonModel)>::empty());
    let v33 = JsonValue::Str(f.line_mode_drc_profile.clone());
    let ghost g34 = v33@;
    push_entry(&mut es32, owned("line_mode_drc_profile"), v33);
    assert(entries_model(es32@) =~~= seq![("line_mode_drc_profile"@, g34)]);
    let v35 = JsonValue::Str(f.rf_mode_drc_profile.clone());
    let ghost g36 = v35@;
    push_entry(&mut es32, owned("rf_mode_drc_profile"), v35);
    assert(entries_model(es32@) =~~= seq![("line_mode_drc_profile"@, g34), ("rf_mode_drc_profile"@, g36)]);
    let v31 = JsonValue::Object(es32);
    assert(v31@ =~~= JsonModel::Object(seq![("line_mode_drc_profile"@, JsonModel::Str(m.line_mode_drc_profile)), ("rf_mode_drc_profile"@, JsonModel::Str(m.rf_mode_drc_profile))]));
    let ghost g37 = v31@;
    push_entry(&mut es2, owned("drc"), v31);
    assert(entries_model(es2@) =~~= seq![("-version"@, g4), ("loudness"@, g16), ("data_rate"@, g18), ("timecode_frame_rate"@, g20), ("start"@, g22), ("end"@, g24), ("time_base"@, g26), ("prepend_silence_duration"@, g28), ("append_silence_duration"@, g30), ("drc"@, g37)]);
    let mut es39: Vec<(String, JsonValue)> = Vec::new();
    assert(entries_model(es39@) =~~= Seq::<(Seq<char>, JsonModel)>::empty());
    let v40 = JsonValue::Str(f.loro_center_mix_level.clone());
    let ghost g41 = v40@;
    push_entry(&mut es39, owned("loro_center_mix_level"), v40);
    assert(entries_model(es39@) =~~= seq![("loro_center_mix_level"@, g41)]);
    let v42 = JsonValue::Str(f.loro_surround_mix_level.clone());
    let ghost g43 = v42@;
    push_entry(&mut es39, owned("loro_surround_mix_level"), v42);
    assert(entries_model(es39@) =~~= seq![("loro_center_mix_level"@, g41), ("loro_surround_mix_level"@, g43)]);
    let v44 = JsonValue::Str(f.ltrt_center_mix_level.clone());
    let ghost g45 = v44@;
    push_entry(&mut es39, owned("ltrt_center_mix_level"), v44);
    assert(entries_model(es39@) =~~= seq![("loro_center_mix_level"@, g41), ("loro_surround_mix_level"@, g43), ("ltrt_center_mix_level"@, g45)]);
    let v46 = JsonValue::Str(f.ltrt_surround_mix_level.clone());
    let ghost g47 = v46@;
    push_entry(&mut es39, owned("ltrt_surround_mix_level"), v46);
    assert(entries_model(es39@) =~~= seq![("loro_center_mix_level"@, g41), ("loro_surround_mix_level"@, g43), ("ltrt_center_mix_level"@, g45), ("ltrt_surround_mix_level"@, g47)]);
    let v48 = JsonValue::Str(f.preferred_downmix_mode.clone());
    let ghost g49 = v48@;
    push_entry(&mut es39, owned("preferred_downmix_mode"), v48);
    assert(entries_model(es39@) =~~= seq![("loro_center_mix_level"@, g41), ("loro_surround_mix_level"@, g43), ("ltrt_center_mix_level"@, g45), ("ltrt_surround_mix_level"@, g47), ("preferred_downmix_mode"@, g49)]);
    let v38 = JsonValue::Object(es39);
    assert(v38@ =~~= JsonModel::Object(seq![("loro_center_mix_level"@, JsonModel::Str(m.loro_center_mix_level)), ("loro_surround_mix_level"@, JsonModel::Str(m.loro_surround_mix_level)), ("ltrt_center_mix_level"@, JsonModel::Str(m.ltrt_center_mix_level)), ("ltrt_surround_mix_level"@, JsonModel::Str(m.ltrt_surround_mix_level)), ("preferred_downmix_mode"@, JsonModel::Str(m.preferred_downmix_mode))]));
    let ghost g50 = v38@;
    push_entry(&mut es2, owned("downmix"), v38);
    assert(entries_model(es2@) =~~= seq![("-version"@, g4), ("loudness"@, g16), ("data_rate"@, g18), ("timecode_frame_rate"@, g20), ("start"@, g22), ("end"@, g24), ("time_base"@, g26), ("prepend_silence_duration"@, g28), ("append_silence_duration"@, g30), ("drc"@, g37), ("downmix"@, g50)]);
    let mut es52: Vec<(String, JsonValue)> = Vec::new();
    assert(entries_model(es52@) =~~= Seq::<(Seq<char>, JsonModel)>::empty());
    let v53 = JsonValue::Str(f.surround_trim_5_1.clone());
    let ghost g54 = v53@;
    push_entry(&mut es52, owned("surround_trim_5_1"), v53);
    assert(entries_model(es52@) =~~= seq![("surround_trim_5_1"@, g54)]);
    let v55 = JsonValue::Str(f.height_trim_5_1.clone());
    let ghost g56 = v55@;
    push_entry(&mut es52, owned("height_trim_5_1"), v55);
    assert(entries_model(es52@) =~~= seq![("surround_trim_5_1"@, g54), ("height_trim_5_1"@, g56)]);
    let v51 = JsonValue::Object(es52);
    assert(v51@ =~~= JsonModel::Object(seq![("surround_trim_5_1"@, JsonModel::Str(m.surround_trim_5_1)), ("height_trim_5_1"@, JsonModel::Str(m.height_trim_5_1))]));
    let ghost g57 = v51@;
    push_entry(&mut es2, owned("custom_trims"), v51);
    assert(entries_model(es2@) =~~= seq![("-version"@, g4), ("loudness"@, g16), ("data_rate"@, g18), ("timecode_frame_rate"@, g20), ("start"@, g22), ("end"@, g24), ("time_base"@, g26), ("prepend_silence_duration"@, g28), ("append_silence_duration"@, g30), ("drc"@, g37), ("downmix"@, g50), ("custom_trims"@, g57)]);
    let v58 = JsonValue::Int(f.custom_dialnorm as i64);
    let ghost g59 = v58@;
    push_entry(&mut es2, owned("custom_dialnorm"), v58);
    assert(entries_model(es2@) =~~= seq![("-version"@, g4), ("loudness"@, g16), ("data_rate"@, g18), ("timecode_frame_rate"@, g20), ("start"@, g22), ("end"@, g24), ("time_base"@, g26), ("prepend_silence_duration"@, g28), ("append_silence_duration"@, g30), ("drc"@, g37), ("downmix"@, g50), ("custom_trims"@, g57), ("custom_dialnorm"@, g59)]);
    let ghost before_encoding_backend = entries_model(es2@);
    match &f.encoding_backend {
        Some(x) => push_entry(&mut es2, owned("encoding_backend"), JsonValue::Str(x.clone())),
        None => {},
    }
    assert(entries_model(es2@) =~~= before_encoding_backend + opt_entry("encoding_backend"@, m.encoding_backend));
    let ghost before_encoder_mode = entries_model(es2@);
    match &f.encoder_mode {
        Some(x) => push_entry(&mut es2, owned("encoder_mode"), JsonValue::Str(x.clone())),
        None => {},
    }
    assert(entries_model(es2@) =~~= before_encoder_mode + opt_entry("encoder_mode"@, m.encoder_mode));
    let v1 = JsonValue::Object(es2);
    assert(v1@ =~~= JsonModel::Object(seq![("-version"@, JsonModel::Str("1"@)), ("loudness"@, JsonModel::Object(seq![("measure_only"@, JsonModel::Object(seq![("metering_mode"@, JsonModel::Str(m.metering_mode)), ("dialogue_intelligence"@, JsonModel::Bool(m.dialogue_intelligence)), ("speech_threshold"@, JsonModel::Int(m.speech_threshold as int))]))])), ("data_rate"@, JsonModel::Int(m.data_rate as int)), ("timecode_frame_rate"@, JsonModel::Str(m.timecode_frame_rate)), ("start"@, JsonModel::Str(m.start)), ("end"@, JsonModel::Str(m.end)), ("time_base"@, JsonModel::Str(m.time_base)), ("prepend_silence_duration"@, JsonModel::Str(m.prepend_silence_duration)), ("append_silence_duration"@, JsonModel::Str(m.append_silence_duration)), ("drc"@, JsonModel::Object(seq![("line_mode_drc_profile"@, JsonModel::Str(m.line_mode_drc_profile)), ("rf_mode_drc_profile"@, JsonModel::Str(m.rf_mode_drc_profile))])), ("downmix"@, JsonModel::Object(seq![("loro_center_mix_level"@, JsonModel::Str(m.loro_center_mix_level)), ("loro_surround_mix_level"@, JsonModel::Str(m.loro_surround_mix_level)), ("ltrt_center_mix_level"@, JsonModel::Str(m.ltrt_center_mix_level)), ("ltrt_surround_mix_level"@, JsonModel::Str(m.ltrt_surround_mix_level)), ("preferred_downmix_mode"@, JsonModel::Str(m.preferred_downmix_mode))])), ("custom_trims"@, JsonModel::Object(seq![("surround_trim_5_1"@, JsonModel::Str(m.surround_trim_5_1)), ("height_trim_5_1"@, JsonModel::Str(m.height_trim_5_1))])), ("custom_dialnorm"@, JsonModel::Int(m.custom_dialnorm as int))] + opt_entry("encoding_backend"@, m.encoding_backend) + opt_entry("encoder_mode"@, m.encoder_mode)));
    v1
}

/// The `ec3` output object.
pub open spec fn atmos_output_json_model(tag: Seq<char>, path: Seq<char>, files: Seq<char>) -> JsonModel {
    JsonModel::Object(seq![("-version"@, JsonModel::Str("1"@)), ("file_name"@, JsonModel::Str(files)), ("storage"@, storage_json_model(tag, path))])
}

/// The `ec3` output object.
pub fn output_json(tag_s: &str, path_s: &str, files_s: &str) -> (r: JsonValue)
    ensures
        r@ == atmos_output_json_model(tag_s@, path_s@, files_s@),
{
    let ghost tag = tag_s@;
    let ghost path = path_s@;
    let ghost files = files_s@;
    let mut es2: Vec<(String, JsonValue)> = Vec::new();
    assert(entries_model(es2@) =~~= Seq::<(Seq<char>, JsonModel)>::empty());
    let v3 = JsonValue::Str(owned("1"));
    let ghost g4 = v3@;
    push_entry(&mut es2, owned("-version"), v3);
    assert(entries_model(es2@) =~~= seq![("-version"@, g4)]);
    let v5 = JsonValue::Str(owned(files_s));
    let ghost g6 = v5@;
    push_entry(&mut es2, owned("file_name"), v5);
    assert(entries_model(es2@) =~~= seq![("-version"@, g4), ("file_name"@, g6)]);
    let v7 = storage_json(tag_s, path_s);
    let ghost g8 = v7@;
    push_entry(&mut es2, owned("storage"), v7);
    assert(entries_model(es2@) =~~= seq![("-version"@, g4), ("file_name"@, g6), ("storage"@, g8)]);
    let v1 = JsonValue::Object(es2);
    assert(v1@ =~~= JsonModel::Object(seq![("-version"@, JsonModel::Str("1"@)), ("file_name"@, JsonModel::Str(files)), ("storage"@, storage_json_model(tag, path))]));
    v1
}

/// An object of one entry.
pub open spec fn single(key: Seq<char>, v: JsonModel) -> JsonModel {
    JsonModel::Object(seq![(key, v)])
}

fn single_exec(key: &str, v: JsonValue) -> (r: JsonValue)
    ensures
        r@ == single(key@, v@),
{
    let ghost g = v@;
    let mut es: Vec<(String, JsonValue)> = Vec::new();
    push_entry(&mut es, owned(key), v);
    let r = JsonValue::Object(es);
    assert(r@ =~~= single(key@, g));
    r
}

/// The JSON tree of a job.
pub open spec fn atmos_json_model(j: JobModel, m: AtmosEc3V1Model) -> JsonModel {
    let tag = storage_tag_spec(j.job_mode);
    single(
        "job_config"@,
        JsonModel::Object(
            seq![
                ("input"@, single("audio"@, single("atmos_mezz"@, atmos_input_json_model(tag, j.input.storage_path, file_list_text(j.input.file_names), m)))),
                ("filter"@, single("audio"@, single("encode_to_atmos_ddp"@, atmos_filter_json_model(m)))),
                ("output"@, single("ec3"@, atmos_output_json_model(tag, j.output.storage_path, file_list_text(j.output.file_names)))),
                ("misc"@, single("temp_dir"@, misc_json_model(j.temp_dir, j.clean_temp))),
            ],
        ),
    )
}

/// The JSON tree of a job.
pub fn json_structure(job: &crate::resolve::ResolvedJob, f: &AtmosEc3V1Filter) -> (r: JsonValue)
    ensures
        r@ == atmos_json_model(job@, f@),
{
    let ghost m = f@;
    let tag = storage_tag(job.job_mode);
    let input_files = render_file_name_list(&job.input.file_names);
    let output_files = render_file_name_list(&job.output.file_names);
    assert(strings_model(job.input.file_names@) =~= job@.input.file_names);
    assert(strings_model(job.output.file_names@) =~= job@.output.file_names);
    let a = input_json(tag, job.input.storage_path.as_str(), input_files.as_str(), f);
    let a = single_exec("atmos_mezz", a);
    let a = single_exec("audio", a);
    let b = filter_json(f);
    let b = single_exec("encode_to_atmos_ddp", b);
    let b = single_exec("audio", b);
    let c = output_json(tag, job.output.storage_path.as_str(), output_files.as_str());
    let c = single_exec("ec3", c);
    let d = misc_json(job.misc.temp_dir.as_str(), job.misc.clean_temp);
    let d = single_exec("temp_dir", d);
    let ghost (ga, gb, gc, gd) = (a@, b@, c@, d@);
    let mut es: Vec<(String, JsonValue)> = Vec::new();
    assert(entries_model(es@) =~~= Seq::<(Seq<char>, JsonModel)>::empty());
    push_entry(&mut es, owned("input"), a);
    push_entry(&mut es, owned("filter"), b);
    push_entry(&mut es, owned("output"), c);
    push_entry(&mut es, owned("misc"), d);
    assert(entries_model(es@) =~~= seq![("input"@, ga), ("filter"@, gb), ("output"@, gc), ("misc"@, gd)]);
    let top = JsonValue::Object(es);
    let r = single_exec("job_config", top);
    assert(r@ =~~= atmos_json_model(job@, f@));
    r
}


proof fn lemma_input_object(tag: Seq<char>, path: Seq<char>, files: Seq<char>, m: AtmosEc3V1Model)
    ensures
        json_get(atmos_input_json_model(tag, path, files, m), "storage"@) == Some(storage_json_model(tag, path)),
        json_get(atmos_input_json_model(tag, path, files, m), "file_name"@) == Some(JsonModel::Str(files)),
{
    reveal_strlit("-version");
    reveal_strlit("file_name");
    reveal_strlit("timecode_frame_rate");
    reveal_strlit("offset");
    reveal_strlit("ffoa");
    reveal_strlit("storage");
    let es = atmos_input_json_model(tag, path, files, m)->Object_0;
    assert(es[0].0.len() != "storage"@.len());
    assert(es[1].0.len() != "storage"@.len());
    assert(es[2].0.len() != "storage"@.len());
    assert(es[3].0.len() != "storage"@.len());
    assert(es[4].0.len() != "storage"@.len());
    assert(es[0].0.len() != "file_name"@.len());
    assert forall|k: int| 0 <= k < 5 implies es[k].0 != "storage"@ by {
        assert(es[k].0.len() != "storage"@.len());
    }
    crate::json::lemma_entry_get_at(es, "storage"@, 5);
    crate::json::lemma_entry_get_at(es, "file_name"@, 1);
}

proof fn lemma_output_object(tag: Seq<char>, path: Seq<char>, files: Seq<char>)
    ensures
        json_get(atmos_output_json_model(tag, path, files), "storage"@) == Some(storage_json_model(tag, path)),
        json_get(atmos_output_json_model(tag, path, files), "file_name"@) == Some(JsonModel::Str(files)),
{
    reveal_strlit("-version");
    reveal_strlit("file_name");
    reveal_strlit("storage");
    let es = atmos_output_json_model(tag, path, files)->Object_0;
    assert(es[0].0.len() != "storage"@.len());
    assert(es[1].0.len() != "storage"@.len());
    assert(es[0].0.len() != "file_name"@.len());
    crate::json::lemma_entry_get_at(es, "storage"@, 2);
    crate::json::lemma_entry_get_at(es, "file_name"@, 1);
}

proof fn lemma_job_object(j: JobModel, m: AtmosEc3V1Model)
    ensures
        ({
            let tag = storage_tag_spec(j.job_mode);
            let jc = json_in(Some(atmos_json_model(j, m)), "job_config"@);
            &&& json_in(json_in(json_in(jc, "input"@), "audio"@), "atmos_mezz"@) == Some(
                atmos_input_json_model(tag, j.input.storage_path, file_list_text(j.input.file_names), m),
            )
            &&& json_in(json_in(jc, "output"@), "ec3"@) == Some(
                atmos_output_json_model(tag, j.output.storage_path, file_list_text(j.output.file_names)),
            )
            &&& json_in(json_in(jc, "misc"@), "temp_dir"@) == Some(misc_json_model(j.temp_dir, j.clean_temp))
        }),
{
    reveal_strlit("job_config");
    reveal_strlit("input");
    reveal_strlit("filter");
    reveal_strlit("output");
    reveal_strlit("misc");
    reveal_strlit("audio");
    reveal_strlit("atmos_mezz");
    reveal_strlit("ec3");
    reveal_strlit("temp_dir");
    reveal_with_fuel(crate::json::entry_get, 2);
    let t = atmos_json_model(j, m);
    let es = json_get(t, "job_config"@)->0->Object_0;
    assert(json_in(Some(t), "job_config"@) == Some(JsonModel::Object(es)));
    assert(es[0].0.len() != "misc"@.len());
    assert(es[1].0.len() != "misc"@.len());
    assert(es[2].0.len() != "misc"@.len());
    assert(es[0].0.len() != "output"@.len());
    assert(es[1].0[0] != "output"@[0]);
    crate::json::lemma_entry_get_at(es, "input"@, 0);
    crate::json::lemma_entry_get_at(es, "output"@, 2);
    crate::json::lemma_entry_get_at(es, "misc"@, 3);
}

/// The JSON tree of a job reads its files where the job puts them: the
/// mezzanine's file list and directory are the job's input ones, the encoded
/// file's are the job's output ones, and the temporary directory is the
/// job's; each directory is given in double quotes, under the storage tag
/// of the job mode (`local` for one file, `local_multi_path` for an album).
pub proof fn law_atmos_json_paths(j: JobModel, m: AtmosEc3V1Model)
    ensures
        ({
            let t = atmos_json_model(j, m);
            let tag = if j.job_mode == crate::spec::JobMode::Single {
                "local"@
            } else {
                "local_multi_path"@
            };
            &&& json_in(json_in(json_in(json_in(json_in(json_in(Some(t), "job_config"@), "output"@), "ec3"@), "storage"@), tag), "path"@) == Some(
                JsonModel::Str(seq!['"'] + j.output.storage_path + seq!['"']),
            )
            &&& json_in(json_in(json_in(json_in(Some(t), "job_config"@), "output"@), "ec3"@), "file_name"@) == Some(
                JsonModel::Str(file_list_text(j.output.file_names)),
            )
            &&& json_in(json_in(json_in(json_in(json_in(json_in(json_in(Some(t), "job_config"@), "input"@), "audio"@), "atmos_mezz"@), "storage"@), tag), "path"@)
                == Some(JsonModel::Str(seq!['"'] + j.input.storage_path + seq!['"']))
            &&& json_in(json_in(json_in(json_in(json_in(Some(t), "job_config"@), "input"@), "audio"@), "atmos_mezz"@), "file_name"@) == Some(
                JsonModel::Str(file_list_text(j.input.file_names)),
            )
            &&& json_in(json_in(json_in(json_in(Some(t), "job_config"@), "misc"@), "temp_dir"@), "path"@) == Some(
                JsonModel::Str(seq!['"'] + j.temp_dir + seq!['"']),
            )
        }),
{
    let tag = storage_tag_spec(j.job_mode);
    crate::template::common::lemma_storage_tag(j.job_mode);
    lemma_job_object(j, m);
    lemma_input_object(tag, j.input.storage_path, file_list_text(j.input.file_names), m);
    lemma_output_object(tag, j.output.storage_path, file_list_text(j.output.file_names));
    crate::template::common::lemma_storage_json_path(tag, j.input.storage_path);
    crate::template::common::lemma_storage_json_path(tag, j.output.storage_path);
    crate::template::common::lemma_misc_json_path(j.temp_dir, j.clean_temp);
}

/// The filter object holds each parameter of the filter under the
/// parameter's own name, with the parameter's value.
pub proof fn law_atmos_json_filter_values(m: AtmosEc3V1Model)
    ensures
        ({
            let root = Some(atmos_filter_json_model(m));
            let loudness = json_in(root, "loudness"@);
            let measure_only = json_in(loudness, "measure_only"@);
            let drc = json_in(root, "drc"@);
            let downmix = json_in(root, "downmix"@);
            let custom_trims = json_in(root, "custom_trims"@);
            &&& json_in(measure_only, "metering_mode"@) == Some(JsonModel::Str(m.metering_mode))
            &&& json_in(measure_only, "dialogue_intelligence"@) == Some(JsonModel::Bool(m.dialogue_intelligence))
            &&& json_in(measure_only, "speech_threshold"@) == Some(JsonModel::Int(m.speech_threshold as int))
            &&& json_in(root, "data_rate"@) == Some(JsonModel::Int(m.data_rate as int))
            &&& json_in(root, "timecode_frame_rate"@) == Some(JsonModel::Str(m.timecode_frame_rate))
            &&& json_in(root, "start"@) == Some(JsonModel::Str(m.start))
            &&& json_in(root, "end"@) == Some(JsonModel::Str(m.end))
            &&& json_in(root, "time_base"@) == Some(JsonModel::Str(m.time_base))
            &&& json_in(root, "prepend_silence_duration"@) == Some(JsonModel::Str(m.prepend_silence_duration))
            &&& json_in(root, "append_silence_duration"@) == Some(JsonModel::Str(m.append_silence_duration))
            &&& json_in(drc, "line_mode_drc_profile"@) == Some(JsonModel::Str(m.line_mode_drc_profile))
            &&& json_in(drc, "rf_mode_drc_profile"@) == Some(JsonModel::Str(m.rf_mode_drc_profile))
            &&& json_in(downmix, "loro_center_mix_level"@) == Some(JsonModel::Str(m.loro_center_mix_level))
            &&& json_in(downmix, "loro_surround_mix_level"@) == Some(JsonModel::Str(m.loro_surround_mix_level))
            &&& json_in(downmix, "ltrt_center_mix_level"@) == Some(JsonModel::Str(m.ltrt_center_mix_level))
            &&& json_in(downmix, "ltrt_surround_mix_level"@) == Some(JsonModel::Str(m.ltrt_surround_mix_level))
            &&& json_in(downmix, "preferred_downmix_mode"@) == Some(JsonModel::Str(m.preferred_downmix_mode))
            &&& json_in(custom_trims, "surround_trim_5_1"@) == Some(JsonModel::Str(m.surround_trim_5_1))
            &&& json_in(custom_trims, "height_trim_5_1"@) == Some(JsonModel::Str(m.height_trim_5_1))
            &&& json_in(root, "custom_dialnorm"@) == Some(JsonModel::Int(m.custom_dialnorm as int))
        }),
{
    reveal_strlit("-version");
    reveal_strlit("append_silence_duration");
    reveal_strlit("custom_dialnorm");
    reveal_strlit("custom_trims");
    reveal_strlit("data_rate");
    reveal_strlit("dialogue_intelligence");
    reveal_strlit("downmix");
    reveal_strlit("drc");
    reveal_strlit("end");
    reveal_strlit("height_trim_5_1");
    reveal_strlit("line_mode_drc_profile");
    reveal_strlit("loro_center_mix_level");
    reveal_strlit("loro_surround_mix_level");
    reveal_strlit("loudness");
    reveal_strlit("ltrt_center_mix_level");
    reveal_strlit("ltrt_surround_mix_level");
    reveal_strlit("measure_only");
    reveal_strlit("metering_mode");
    reveal_strlit("preferred_downmix_mode");
    reveal_strlit("prepend_silence_duration");
    reveal_strlit("rf_mode_drc_profile");
    reveal_strlit("speech_threshold");
    reveal_strlit("start");
    reveal_strlit("surround_trim_5_1");
    reveal_strlit("time_base");
    reveal_strlit("timecode_frame_rate");
    reveal_with_fuel(crate::json::entry_get, 1);
    assert("-version"@[0] != "loudness"@[0]);
    crate::json::lemma_entry_get_at(atmos_filter_json_model(m)->Object_0, "loudness"@, 1);
    crate::json::lemma_entry_get_at(atmos_filter_json_model(m)->Object_0[1].1->Object_0, "measure_only"@, 0);
    crate::json::lemma_entry_get_at(atmos_filter_json_model(m)->Object_0[1].1->Object_0[0].1->Object_0, "metering_mode"@, 0);
    assert("metering_mode"@.len() != "dialogue_intelligence"@.len());
    crate::json::lemma_entry_get_at(atmos_filter_json_model(m)->Object_0[1].1->Object_0[0].1->Object_0, "dialogue_intelligence"@, 1);
    assert("metering_mode"@.len() != "speech_threshold"@.len());
    assert("dialogue_intelligence"@.len() != "speech_threshold"@.len());
    crate::json::lemma_entry_get_at(atmos_filter_json_model(m)->Object_0[1].1->Object_0[0].1->Object_0, "speech_threshold"@, 2);
    assert("-version"@.len() != "data_rate"@.len());
    assert("loudness"@.len() != "data_rate"@.len());
    crate::json::lemma_entry_get_at(atmos_filter_json_model(m)->Object_0, "data_rate"@, 2);
    assert("-version"@.len() != "timecode_frame_rate"@.len());
    assert("loudness"@.len() != "timecode_frame_rate"@.len());
    assert("data_rate"@.len() != "timecode_frame_rate"@.len());
    crate::json::lemma_entry_get_at(atmos_filter_json_model(m)->Object_0, "timecode_frame_rate"@, 3);
    assert("-version"@.len() != "start"@.len());
    assert("loudness"@.len() != "start"@.len());
    assert("data_rate"@.len() != "start"@.len());
    assert("timecode_frame_rate"@.len() != "start"@.len());
    crate::json::lemma_entry_get_at(atmos_filter_json_model(m)->Object_0, "start"@, 4);
    assert("-version"@.len() != "end"@.len());
    assert("loudness"@.len() != "end"@.len());
    assert("data_rate"@.len() != "end"@.len());
    assert("timecode_frame_rate"@.len() != "end"@.len());
    assert("start"@.len() != "end"@.len());
    crate::json::lemma_entry_get_at(atmos_filter_json_model(m)->Object_0, "end"@, 5);
    assert("-version"@.len() != "time_base"@.len());
    assert("loudness"@.len() != "time_base"@.len());
    assert("data_rate"@[0] != "time_base"@[0]);
    assert("timecode_frame_rate"@.len() != "time_base"@.len());
    assert("start"@.len() != "time_base"@.len());
    assert("end"@.len() != "time_base"@.len());
    crate::json::lemma_entry_get_at(atmos_filter_json_model(m)->Object_0, "time_base"@, 6);
    assert("-version"@.len() != "prepend_silence_duration"@.len());
    assert("loudness"@.len() != "prepend_silence_duration"@.len());
    assert("data_rate"@.len() != "prepend_silence_duration"@.len());
    assert("timecode_frame_rate"@.len() != "prepend_silence_duration"@.len());
    assert("start"@.len() != "prepend_silence_duration"@.len());
    assert("end"@.len() != "prepend_silence_duration"@.len());
    assert("time_base"@.len() != "prepend_silence_duration"@.len());
    crate::json::lemma_entry_get_at(atmos_filter_json_model(m)->Object_0, "prepend_silence_duration"@, 7);
    assert("-version"@.len() != "append_silence_duration"@.len());
    assert("loudness"@.len() != "append_silence_duration"@.len());
    assert("data_rate"@.len() != "append_silence_duration"@.len());
    assert("timecode_frame_rate"@.len() != "append_silence_duration"@.len());
    assert("start"@.len() != "append_silence_duration"@.len());
    assert("end"@.len() != "append_silence_duration"@.len());
    assert("time_base"@.len() != "append_silence_duration"@.len());
    assert("prepend_silence_duration"@.len() != "append_silence_duration"@.len());
    crate::json::lemma_entry_get_at(atmos_filter_json_model(m)->Object_0, "append_silence_duration"@, 8);
    assert("-version"@.len() != "drc"@.len());
    assert("loudness"@.len() != "drc"@.len());
    assert("data_rate"@.len() != "drc"@.len());
    assert("timecode_frame_rate"@.len() != "drc"@.len());
    assert("start"@.len() != "drc"@.len());
    assert("end"@[0] != "drc"@[0]);
    assert("time_base"@.len() != "drc"@.len());
    assert("prepend_silence_duration"@.len() != "drc"@.len());
    assert("append_silence_duration"@.len() != "drc"@.len());
    crate::json::lemma_entry_get_at(atmos_filter_json_model(m)->Object_0, "drc"@, 9);
    crate::json::lemma_entry_get_at(atmos_filter_json_model(m)->Object_0[9].1->Object_0, "line_mode_drc_profile"@, 0);
    assert("line_mode_drc_profile"@.len() != "rf_mode_drc_profile"@.len());
    crate::json::lemma_entry_get_at(atmos_filter_json_model(m)->Object_0[9].1->Object_0, "rf_mode_drc_profile"@, 1);
    assert("-version"@.len() != "downmix"@.len());
    assert("loudness"@.len() != "downmix"@.len());
    assert("data_rate"@.len() != "downmix"@.len());
    assert("timecode_frame_rate"@.len() != "downmix"@.len());
    assert("start"@.len() != "downmix"@.len());
    assert("end"@.len() != "downmix"@.len());
    assert("time_base"@.len() != "downmix"@.len());
    assert("prepend_silence_duration"@.len() != "downmix"@.len());
    assert("append_silence_duration"@.len() != "downmix"@.len());
    assert("drc"@.len() != "downmix"@.len());
    crate::json::lemma_entry_get_at(atmos_filter_json_model(m)->Object_0, "downmix"@, 10);
    crate::json::lemma_entry_get_at(atmos_filter_json_model(m)->Object_0[10].1->Object_0, "loro_center_mix_level"@, 0);
    assert("loro_center_mix_level"@.len() != "loro_surround_mix_level"@.len());
    crate::json::lemma_entry_get_at(atmos_filter_json_model(m)->Object_0[10].1->Object_0, "loro_surround_mix_level"@, 1);
    assert("loro_center_mix_level"@[1] != "ltrt_center_mix_level"@[1]);
    assert("loro_surround_mix_level"@.len() != "ltrt_center_mix_level"@.len());
    crate::json::lemma_entry_get_at(atmos_filter_json_model(m)->Object_0[10].1->Object_0, "ltrt_center_mix_level"@, 2);
    assert("loro_center_mix_level"@.len() != "ltrt_surround_mix_level"@.len());
    assert("loro_surround_mix_level"@[1] != "ltrt_surround_mix_level"@[1]);
    assert("ltrt_center_mix_level"@.len() != "ltrt_surround_mix_level"@.len());
    crate::json::lemma_entry_get_at(atmos_filter_json_model(m)->Object_0[10].1->Object_0, "ltrt_surround_mix_level"@, 3);
    assert("loro_center_mix_level"@.len() != "preferred_downmix_mode"@.len());
    assert("loro_surround_mix_level"@.len() != "preferred_downmix_mode"@.len());
    assert("ltrt_center_mix_level"@.len() != "preferred_downmix_mode"@.len());
    assert("ltrt_surround_mix_level"@.len() != "preferred_downmix_mode"@.len());
    crate::json::lemma_entry_get_at(atmos_filter_json_model(m)->Object_0[10].1->Object_0, "preferred_downmix_mode"@, 4);
    assert("-version"@.len() != "custom_trims"@.len());
    assert("loudness"@.len() != "custom_trims"@.len());
    assert("data_rate"@.len() != "custom_trims"@.len());
    assert("timecode_frame_rate"@.len() != "custom_trims"@.len());
    assert("start"@.len() != "custom_trims"@.len());
    assert("end"@.len() != "custom_trims"@.len());
    assert("time_base"@.len() != "custom_trims"@.len());
    assert("prepend_silence_duration"@.len() != "custom_trims"@.len());
    assert("append_silence_duration"@.len() != "custom_trims"@.len());
    assert("drc"@.len() != "custom_trims"@.len());
    assert("downmix"@.len() != "custom_trims"@.len());
    crate::json::lemma_entry_get_at(atmos_filter_json_model(m)->Object_0, "custom_trims"@, 11);
    crate::json::lemma_entry_get_at(atmos_filter_json_model(m)->Object_0[11].1->Object_0, "surround_trim_5_1"@, 0);
    assert("surround_trim_5_1"@.len() != "height_trim_5_1"@.len());
    crate::json::lemma_entry_get_at(atmos_filter_json_model(m)->Object_0[11].1->Object_0, "height_trim_5_1"@, 1);
    assert("-version"@.len() != "custom_dialnorm"@.len());
    assert("loudness"@.len() != "custom_dialnorm"@.len());
    assert("data_rate"@.len() != "custom_dialnorm"@.len());
    assert("timecode_frame_rate"@.len() != "custom_dialnorm"@.len());
    assert("start"@.len() != "custom_dialnorm"@.len());
    assert("end"@.len() != "custom_dialnorm"@.len());
    assert("time_base"@.len() != "custom_dialnorm"@.len());
    assert("prepend_silence_duration"@.len() != "custom_dialnorm"@.len());
    assert("append_silence_duration"@.len() != "custom_dialnorm"@.len());
    assert("drc"@.len() != "custom_dialnorm"@.len());
    assert("downmix"@.len() != "custom_dialnorm"@.len());
    assert("custom_trims"@.len() != "custom_dialnorm"@.len());
    crate::json::lemma_entry_get_at(atmos_filter_json_model(m)->Object_0, "custom_dialnorm"@, 12);
}

} // verus!
