//! The DEE JSON tree of `pcm_ddp_v1` jobs.
use vstd::prelude::*;

use crate::json::{entries_model, json_in, push_entry, JsonModel, JsonValue};
use crate::render::{file_list_text, render_file_name_list, strings_model};
use crate::resolve::JobModel;
use crate::spec::EncodeMode;
use crate::template::pcm_ddp_v1::{pcm_supports, PcmDdpV1Filter, PcmDdpV1Model};
use crate::template::common::{
    misc_json, misc_json_model, storage_json, storage_json_model, storage_tag, storage_tag_spec,
};
use crate::text::{bool_str, bool_text, i64_text, int_text, owned};

verus! {

/// The `wav` input object.
pub open spec fn pcm_input_json_model(tag: Seq<char>, path: Seq<char>, files: Seq<char>) -> JsonModel {
    JsonModel::Object(seq![("-version"@, JsonModel::Str("1"@)), ("file_name"@, JsonModel::Str(files)), ("timecode_frame_rate"@, JsonModel::Str("not_indicated"@)), ("offset"@, JsonModel::Str("auto"@)), ("ffoa"@, JsonModel::Str("auto"@)), ("storage"@, storage_json_model(tag, path))])
}

/// The `wav` input object.
pub fn input_json(tag_s: &str, path_s: &str, files_s: &str) -> (r: JsonValue)
    ensures
        r@ == pcm_input_json_model(tag_s@, path_s@, files_s@),
{
    let ghost tag = tag_s@;
    let ghost path = path_s@;
    let ghost files = files_s@;
    let mut es2: Vec<(String, JsonValue)> = Vec::new();
    assert(entries_model(es2@) =~~= Seq::<(Seq<char>, JsonModel)>::empty());
    let v3 = JsonValue::Str(owned("1"));
    let ghost g4 = v3@;
    push_entry(&mut es2, owned("-version"), v3);
    assert(entries_model(es2@) =~~= seq![("-version"@, g4)]);
    let v5 = JsonValue::Str(owned(files_s));
    let ghost g6 = v5@;
    push_entry(&mut es2, owned("file_name"), v5);
    assert(entries_model(es2@) =~~= seq![("-version"@, g4), ("file_name"@, g6)]);
    let v7 = JsonValue::Str(owned("not_indicated"));
    let ghost g8 = v7@;
    push_entry(&mut es2, owned("timecode_frame_rate"), v7);
    assert(entries_model(es2@) =~~= seq![("-version"@, g4), ("file_name"@, g6), ("timecode_frame_rate"@, g8)]);
    let v9 = JsonValue::Str(owned("auto"));
    let ghost g10 = v9@;
    push_entry(&mut es2, owned("offset"), v9);
    assert(entries_model(es2@) =~~= seq![("-version"@, g4), ("file_name"@, g6), ("timecode_frame_rate"@, g8), ("offset"@, g10)]);
    let v11 = JsonValue::Str(owned("auto"));
    let ghost g12 = v11@;
    push_entry(&mut es2, owned("ffoa"), v11);
    assert(entries_model(es2@) =~~= seq![("-version"@, g4), ("file_name"@, g6), ("timecode_frame_rate"@, g8), ("offset"@, g10), ("ffoa"@, g12)]);
    let v13 = storage_json(tag_s, path_s);
    let ghost g14 = v13@;
    push_entry(&mut es2, owned("storage"), v13);
    assert(entries_model(es2@) =~~= seq![("-version"@, g4), ("file_name"@, g6), ("timecode_frame_rate"@, g8), ("offset"@, g10), ("ffoa"@, g12), ("storage"@, g14)]);
    let v1 = JsonValue::Object(es2);
    assert(v1@ =~~= JsonModel::Object(seq![("-version"@, JsonModel::Str("1"@)), ("file_name"@, JsonModel::Str(files)), ("timecode_frame_rate"@, JsonModel::Str("not_indicated"@)), ("offset"@, JsonModel::Str("auto"@)), ("ffoa"@, JsonModel::Str("auto"@)), ("storage"@, storage_json_model(tag, path))]));
    v1
}

/// The `pcm_to_ddp` filter object.
pub open spec fn pcm_filter_json_model(m: PcmDdpV1Model) -> JsonModel {
    JsonModel::Object(seq![("-version"@, JsonModel::Str("3"@)), ("loudness"@, JsonModel::Object(seq![("measure_only"@, JsonModel::Object(seq![("metering_mode"@, JsonModel::Str(m.metering_mode)), ("dialogue_intelligence"@, JsonModel::Bool(m.dialogue_intelligence)), ("speech_threshold"@, JsonModel::Int(m.speech_threshold as int))]))])), ("encoder_mode"@, JsonModel::Str(m.encoder_mode)), ("bitstream_mode"@, JsonModel::Str(m.bitstream_mode)), ("downmix_config"@, JsonModel::Str(m.downmix_config)), ("data_rate"@, JsonModel::Int(m.data_rate as int)), ("timecode_frame_rate"@, JsonModel::Str(m.timecode_frame_rate)), ("start"@, JsonModel::Str(m.start)), ("end"@, JsonModel::Str(m.end)), ("time_base"@, JsonModel::Str(m.time_base)), ("prepend_silence_duration"@, JsonModel::Str(m.prepend_silence_duration)), ("append_silence_duration"@, JsonModel::Str(m.append_silence_duration)), ("lfe_on"@, JsonModel::Str(bool_text(m.lfe_on))), ("dolby_surround_mode"@, JsonModel::Str(m.dolby_surround_mode)), ("dolby_surround_ex_mode"@, JsonModel::Str(m.dolby_surround_ex_mode)), ("user_data"@, JsonModel::Str(int_text(m.user_data as int))), ("drc"@, JsonModel::Object(seq![("line_mode_drc_profile"@, JsonModel::Str(m.line_mode_drc_profile)), ("rf_mode_drc_profile"@, JsonModel::Str(m.rf_mode_drc_profile))])), ("lfe_lowpass_filter"@, JsonModel::Str(bool_text(m.lfe_lowpass_filter))), ("surround_90_degree_phase_shift"@, JsonModel::Str(bool_text(m.surround_90_degree_phase_shift))), ("surround_3db_attenuation"@, JsonModel::Str(bool_text(m.surround_3db_attenuation))), ("downmix"@, JsonModel::Object(seq![("loro_center_mix_level"@, JsonModel::Str(m.loro_center_mix_level)), ("loro_surround_mix_level"@, JsonModel::Str(m.loro_surround_mix_level)), ("ltrt_center_mix_level"@, JsonModel::Str(m.ltrt_center_mix_level)), ("ltrt_surround_mix_level"@, JsonModel::Str(m.ltrt_surround_mix_level)), ("preferred_downmix_mode"@, JsonModel::Str(m.preferred_downmix_mode))])), ("allow_hybrid_downmix"@, JsonModel::Str(bool_text(m.allow_hybrid_downmix))), ("embedded_timecodes"@, JsonModel::Object(seq![("starting_timecode"@, JsonModel::Str(m.starting_timecode)), ("frame_rate"@, JsonModel::Str(m.frame_rate))])), ("custom_dialnorm"@, JsonModel::Str(int_text(m.custom_dialnorm as int)))])
}

/// The `pcm_to_ddp` filter object.
pub fn filter_json(f: &PcmDdpV1Filter) -> (r: JsonValue)
    ensures
        r@ == pcm_filter_json_model(f@),
{
    let ghost m = f@;
    let mut es2: Vec<(String, JsonValue)> = Vec::new();
    assert(entries_model(es2@) =~~= Seq::<(Seq<char>, JsonModel)>::empty());
    let v3 = JsonValue::Str(owned("3"));
    let ghost g4 = v3@;
    push_entry(&mut es2, owned("-version"), v3);
    assert(entries_model(es2@) =~~= seq![("-version"@, g4)]);
    let mut es6: Vec<(String, JsonValue)> = Vec::new();
    assert(entries_model(es6@) =~~= Seq::<(Seq<char>, JsonModel)>::empty());
    let mut es8: Vec<(String, JsonValue)> = Vec::new();
    assert(entries_model(es8@) =~~= Seq::<(Seq<char>, JsonModel)>::empty());
    let v9 = JsonValue::Str(f.metering_mode.clone());
    let ghost g10 = v9@;
    push_entry(&mut es8, owned("metering_mode"), v9);
    assert(entries_model(es8@) =~~= seq![("metering_mode"@, g10)]);
    let v11 = JsonValue::Bool(f.dialogue_intelligence);
    let ghost g12 = v11@;
    push_entry(&mut es8, owned("dialogue_intelligence"), v11);
    assert(entries_model(es8@) =~~= seq![("metering_mode"@, g10), ("dialogue_intelligence"@, g12)]);
    let v13 = JsonValue::Int(f.speech_threshold as i64);
    let ghost g14 = v13@;
    push_entry(&mut es8, owned("speech_threshold"), v13);
    assert(entries_model(es8@) =~~= seq![("metering_mode"@, g10), ("dialogue_intelligence"@, g12), ("speech_threshold"@, g14)]);
    let v7 = JsonValue::Object(es8);
    assert(v7@ =~~= JsonModel::Object(seq![("metering_mode"@, JsonModel::Str(m.metering_mode)), ("dialogue_intelligence"@, JsonModel::Bool(m.dialogue_intelligence)), ("speech_threshold"@, JsonModel::Int(m.speech_threshold as int))]));
    let ghost g15 = v7@;
    push_entry(&mut es6, owned("measure_only"), v7);
    assert(entries_model(es6@) =~~= seq![("measure_only"@, g15)]);
    let v5 = JsonValue::Object(es6);
    assert(v5@ =~~= JsonModel::Object(seq![("measure_only"@, JsonModel::Object(seq![("metering_mode"@, JsonModel::Str(m.metering_mode)), ("dialogue_intelligence"@, JsonModel::Bool(m.dialogue_intelligence)), ("speech_threshold"@, JsonModel::Int(m.speech_threshold as int))]))]));
    let ghost g16 = v5@;
    push_entry(&mut es2, owned("loudness"), v5);
    assert(entries_model(es2@) =~~= seq![("-version"@, g4), ("loudness"@, g16)]);
    let v17 = JsonValue::Str(f.encoder_mode.clone());
    let ghost g18 = v17@;
    push_entry(&mut es2, owned("encoder_mode"), v17);
    assert(entries_model(es2@) =~~= seq![("-version"@, g4), ("loudness"@, g16), ("encoder_mode"@, g18)]);
    let v19 = JsonValue::Str(f.bitstream_mode.clone());
    let ghost g20 = v19@;
    push_entry(&mut es2, owned("bitstream_mode"), v19);
    assert(entries_model(es2@) =~~= seq![("-version"@, g4), ("loudness"@, g16), ("encoder_mode"@, g18), ("bitstream_mode"@, g20)]);
    let v21 = JsonValue::Str(f.downmix_config.clone());
    let ghost g22 = v21@;
    push_entry(&mut es2, owned("downmix_config"), v21);
    assert(entries_model(es2@) =~~= seq![("-version"@, g4), ("loudness"@, g16), ("encoder_mode"@, g18), ("bitstream_mode"@, g20), ("downmix_config"@, g22)]);
    let v23 = JsonValue::Int(f.data_rate as i64);
    let ghost g24 = v23@;
    push_entry(&mut es2, owned("data_rate"), v23);
    assert(entries_model(es2@) =~~= seq![("-version"@, g4), ("loudness"@, g16), ("encoder_mode"@, g18), ("bitstream_mode"@, g20), ("downmix_config"@, g22), ("data_rate"@, g24)]);
    let v25 = JsonValue::Str(f.timecode_frame_rate.clone());
    let ghost g26 = v25@;
    push_entry(&mut es2, owned("timecode_frame_rate"), v25);
    assert(entries_model(es2@) =~~= seq![("-version"@, g4), ("loudness"@, g16), ("encoder_mode"@, g18), ("bitstream_mode"@, g20), ("downmix_config"@, g22), ("data_rate"@, g24), ("timecode_frame_rate"@, g26)]);
    let v27 = JsonValue::Str(f.start.clone());
    let ghost g28 = v27@;
    push_entry(&mut es2, owned("start"), v27);
    assert(entries_model(es2@) =~~= seq![("-version"@, g4), ("loudness"@, g16), ("encoder_mode"@, g18), ("bitstream_mode"@, g20), ("downmix_config"@, g22), ("data_rate"@, g24), ("timecode_frame_rate"@, g26), ("start"@, g28)]);
    let v29 = JsonValue::Str(f.end.clone());
    let ghost g30 = v29@;
    push_entry(&mut es2, owned("end"), v29);
    assert(entries_model(es2@) =~~= seq![("-version"@, g4), ("loudness"@, g16), ("encoder_mode"@, g18), ("bitstream_mode"@, g20), ("downmix_config"@, g22), ("data_rate"@, g24), ("timecode_frame_rate"@, g26), ("start"@, g28), ("end"@, g30)]);
    let v31 = JsonValue::Str(f.time_base.clone());
    let ghost g32 = v31@;
    push_entry(&mut es2, owned("time_base"), v31);
    assert(entries_model(es2@) =~~= seq![("-version"@, g4), ("loudness"@, g16), ("encoder_mode"@, g18), ("bitstream_mode"@, g20), ("downmix_config"@, g22), ("data_rate"@, g24), ("timecode_frame_rate"@, g26), ("start"@, g28), ("end"@, g30), ("time_base"@, g32)]);
    let v33 = JsonValue::Str(f.prepend_silence_duration.clone());
    let ghost g34 = v33@;
    push_entry(&mut es2, owned("prepend_silence_duration"), v33);
    assert(entries_model(es2@) =~~= seq![("-version"@, g4), ("loudness"@, g16), ("encoder_mode"@, g18), ("bitstream_mode"@, g20), ("downmix_config"@, g22), ("data_rate"@, g24), ("timecode_frame_rate"@, g26), ("start"@, g28), ("end"@, g30), ("time_base"@, g32), ("prepend_silence_duration"@, g34)]);
    let v35 = JsonValue::Str(f.append_silence_duration.clone());
    let ghost g36 = v35@;
    push_entry(&mut es2, owned("append_silence_duration"), v35);
    assert(entries_model(es2@) =~~= seq![("-version"@, g4), ("loudness"@, g16), ("encoder_mode"@, g18), ("bitstream_mode"@, g20), ("downmix_config"@, g22), ("data_rate"@, g24), ("timecode_frame_rate"@, g26), ("start"@, g28), ("end"@, g30), ("time_base"@, g32), ("prepend_silence_duration"@, g34), ("append_silence_duration"@, g36)]);
    let v37 = JsonValue::Str(owned(bool_str(f.lfe_on)));
    let ghost g38 = v37@;
    push_entry(&mut es2, owned("lfe_on"), v37);
    assert(entries_model(es2@) =~~= seq![("-version"@, g4), ("loudness"@, g16), ("encoder_mode"@, g18), ("bitstream_mode"@, g20), ("downmix_config"@, g22), ("data_rate"@, g24), ("timecode_frame_rate"@, g26), ("start"@, g28), ("end"@, g30), ("time_base"@, g32), ("prepend_silence_duration"@, g34), ("append_silence_duration"@, g36), ("lfe_on"@, g38)]);
    let v39 = JsonValue::Str(f.dolby_surround_mode.clone());
    let ghost g40 = v39@;
    push_entry(&mut es2, owned("dolby_surround_mode"), v39);
    assert(entries_model(es2@) =~~= seq![("-version"@, g4), ("loudness"@, g16), ("encoder_mode"@, g18), ("bitstream_mode"@, g20), ("downmix_config"@, g22), ("data_rate"@, g24), ("timecode_frame_rate"@, g26), ("start"@, g28), ("end"@, g30), ("time_base"@, g32), ("prepend_silence_duration"@, g34), ("append_silence_duration"@, g36), ("lfe_on"@, g38), ("dolby_surround_mode"@, g40)]);
    let v41 = JsonValue::Str(f.dolby_surround_ex_mode.clone());
    let ghost g42 = v41@;
    push_entry(&mut es2, owned("dolby_surround_ex_mode"), v41);
    assert(entries_model(es2@) =~~= seq![("-version"@, g4), ("loudness"@, g16), ("encoder_mode"@, g18), ("bitstream_mode"@, g20), ("downmix_config"@, g22), ("data_rate"@, g24), ("timecode_frame_rate"@, g26), ("start"@, g28), ("end"@, g30), ("time_base"@, g32), ("prepend_silence_duration"@, g34), ("append_silence_duration"@, g36), ("lfe_on"@, g38), ("dolby_surround_mode"@, g40), ("dolby_surround_ex_mode"@, g42)]);
    let v43 = JsonValue::Str(i64_text(f.user_data as i64));
    let ghost g44 = v43@;
    push_entry(&mut es2, owned("user_data"), v43);
    assert(entries_model(es2@) =~~= seq![("-version"@, g4), ("loudness"@, g16), ("encoder_mode"@, g18), ("bitstream_mode"@, g20), ("downmix_config"@, g22), ("data_rate"@, g24), ("timecode_frame_rate"@, g26), ("start"@, g28), ("end"@, g30), ("time_base"@, g32), ("prepend_silence_duration"@, g34), ("append_silence_duration"@, g36), ("lfe_on"@, g38), ("dolby_surround_mode"@, g40), ("dolby_surround_ex_mode"@, g42), ("user_data"@, g44)]);
    let mut es46: Vec<(String, JsonValue)> = Vec::new();
    assert(entries_model(es46@) =~~= Seq::<(Seq<char>, JsonModel)>::empty());
    let v47 = JsonValue::Str(f.line_mode_drc_profile.clone());
    let ghost g48 = v47@;
    push_entry(&mut es46, owned("line_mode_drc_profile"), v47);
    assert(entries_model(es46@) =~~= seq![("line_mode_drc_profile"@, g48)]);
    let v49 = JsonValue::Str(f.rf_mode_drc_profile.clone());
    let ghost g50 = v49@;
    push_entry(&mut es46, owned("rf_mode_drc_profile"), v49);
    assert(entries_model(es46@) =~~= seq![("line_mode_drc_profile"@, g48), ("rf_mode_drc_profile"@, g50)]);
    let v45 = JsonValue::Object(es46);
    assert(v45@ =~~= JsonModel::Object(seq![("line_mode_drc_profile"@, JsonModel::Str(m.line_mode_drc_profile)), ("rf_mode_drc_profile"@, JsonModel::Str(m.rf_mode_drc_profile))]));
    let ghost g51 = v45@;
    push_entry(&mut es2, owned("drc"), v45);
    assert(entries_model(es2@) =~~= seq![("-version"@, g4), ("loudness"@, g16), ("encoder_mode"@, g18), ("bitstream_mode"@, g20), ("downmix_config"@, g22), ("data_rate"@, g24), ("timecode_frame_rate"@, g26), ("start"@, g28), ("end"@, g30), ("time_base"@, g32), ("prepend_silence_duration"@, g34), ("append_silence_duration"@, g36), ("lfe_on"@, g38), ("dolby_surround_mode"@, g40), ("dolby_surround_ex_mode"@, g42), ("user_data"@, g44), ("drc"@, g51)]);
    let v52 = JsonValue::Str(owned(bool_str(f.lfe_lowpass_filter)));
    let ghost g53 = v52@;
    push_entry(&mut es2, owned("lfe_lowpass_filter"), v52);
    assert(entries_model(es2@) =~~= seq![("-version"@, g4), ("loudness"@, g16), ("encoder_mode"@, g18), ("bitstream_mode"@, g20), ("downmix_config"@, g22), ("data_rate"@, g24), ("timecode_frame_rate"@, g26), ("start"@, g28), ("end"@, g30), ("time_base"@, g32), ("prepend_silence_duration"@, g34), ("append_silence_duration"@, g36), ("lfe_on"@, g38), ("dolby_surround_mode"@, g40), ("dolby_surround_ex_mode"@, g42), ("user_data"@, g44), ("drc"@, g51), ("lfe_lowpass_filter"@, g53)]);
    let v54 = JsonValue::Str(owned(bool_str(f.surround_90_degree_phase_shift)));
    let ghost g55 = v54@;
    push_entry(&mut es2, owned("surround_90_degree_phase_shift"), v54);
    assert(entries_model(es2@) =~~= seq![("-version"@, g4), ("loudness"@, g16), ("encoder_mode"@, g18), ("bitstream_mode"@, g20), ("downmix_config"@, g22), ("data_rate"@, g24), ("timecode_frame_rate"@, g26), ("start"@, g28), ("end"@, g30), ("time_base"@, g32), ("prepend_silence_duration"@, g34), ("append_silence_duration"@, g36), ("lfe_on"@, g38), ("dolby_surround_mode"@, g40), ("dolby_surround_ex_mode"@, g42), ("user_data"@, g44), ("drc"@, g51), ("lfe_lowpass_filter"@, g53), ("surround_90_degree_phase_shift"@, g55)]);
    let v56 = JsonValue::Str(owned(bool_str(f.surround_3db_attenuation)));
    let ghost g57 = v56@;
    push_entry(&mut es2, owned("surround_3db_attenuation"), v56);
    assert(entries_model(es2@) =~~= seq![("-version"@, g4), ("loudness"@, g16), ("encoder_mode"@, g18), ("bitstream_mode"@, g20), ("downmix_config"@, g22), ("data_rate"@, g24), ("timecode_frame_rate"@, g26), ("start"@, g28), ("end"@, g30), ("time_base"@, g32), ("prepend_silence_duration"@, g34), ("append_silence_duration"@, g36), ("lfe_on"@, g38), ("dolby_surround_mode"@, g40), ("dolby_surround_ex_mode"@, g42), ("user_data"@, g44), ("drc"@, g51), ("lfe_lowpass_filter"@, g53), ("surround_90_degree_phase_shift"@, g55), ("surround_3db_attenuation"@, g57)]);
    let mut es59: Vec<(String, JsonValue)> = Vec::new();
    assert(entries_model(es59@) =~~= Seq::<(Seq<char>, JsonModel)>::empty());
    let v60 = JsonValue::Str(f.loro_center_mix_level.clone());
    let ghost g61 = v60@;
    push_entry(&mut es59, owned("loro_center_mix_level"), v60);
    assert(entries_model(es59@) =~~= seq![("loro_center_mix_level"@, g61)]);
    let v62 = JsonValue::Str(f.loro_surround_mix_level.clone());
    let ghost g63 = v62@;
    push_entry(&mut es59, owned("loro_surround_mix_level"), v62);
    assert(entries_model(es59@) =~~= seq![("loro_center_mix_level"@, g61), ("loro_surround_mix_level"@, g63)]);
    let v64 = JsonValue::Str(f.ltrt_center_mix_level.clone());
    let ghost g65 = v64@;
    push_entry(&mut es59, owned("ltrt_center_mix_level"), v64);
    assert(entries_model(es59@) =~~= seq![("loro_center_mix_level"@, g61), ("loro_surround_mix_level"@, g63), ("ltrt_center_mix_level"@, g65)]);
    let v66 = JsonValue::Str(f.ltrt_surround_mix_level.clone());
    let ghost g67 = v66@;
    push_entry(&mut es59, owned("ltrt_surround_mix_level"), v66);
    assert(entries_model(es59@) =~~= seq![("loro_center_mix_level"@, g61), ("loro_surround_mix_level"@, g63), ("ltrt_center_mix_level"@, g65), ("ltrt_surround_mix_level"@, g67)]);
    let v68 = JsonValue::Str(f.preferred_downmix_mode.clone());
    let ghost g69 = v68@;
    push_entry(&mut es59, owned("preferred_downmix_mode"), v68);
    assert(entries_model(es59@) =~~= seq![("loro_center_mix_level"@, g61), ("loro_surround_mix_level"@, g63), ("ltrt_center_mix_level"@, g65), ("ltrt_surround_mix_level"@, g67), ("preferred_downmix_mode"@, g69)]);
    let v58 = JsonValue::Object(es59);
    assert(v58@ =~~= JsonModel::Object(seq![("loro_center_mix_level"@, JsonModel::Str(m.loro_center_mix_level)), ("loro_surround_mix_level"@, JsonModel::Str(m.loro_surround_mix_level)), ("ltrt_center_mix_level"@, JsonModel::Str(m.ltrt_center_mix_level)), ("ltrt_surround_mix_level"@, JsonModel::Str(m.ltrt_surround_mix_level)), ("preferred_downmix_mode"@, JsonModel::Str(m.preferred_downmix_mode))]));
    let ghost g70 = v58@;
    push_entry(&mut es2, owned("downmix"), v58);
    assert(entries_model(es2@) =~~= seq![("-version"@, g4), ("loudness"@, g16), ("encoder_mode"@, g18), ("bitstream_mode"@, g20), ("downmix_config"@, g22), ("data_rate"@, g24), ("timecode_frame_rate"@, g26), ("start"@, g28), ("end"@, g30), ("time_base"@, g32), ("prepend_silence_duration"@, g34), ("append_silence_duration"@, g36), ("lfe_on"@, g38), ("dolby_surround_mode"@, g40), ("dolby_surround_ex_mode"@, g42), ("user_data"@, g44), ("drc"@, g51), ("lfe_lowpass_filter"@, g53), ("surround_90_degree_phase_shift"@, g55), ("surround_3db_attenuation"@, g57), ("downmix"@, g70)]);
    let v71 = JsonValue::Str(owned(bool_str(f.allow_hybrid_downmix)));
    let ghost g72 = v71@;
    push_entry(&mut es2, owned("allow_hybrid_downmix"), v71);
    assert(entries_model(es2@) =~~= seq![("-version"@, g4), ("loudness"@, g16), ("encoder_mode"@, g18), ("bitstream_mode"@, g20), ("downmix_config"@, g22), ("data_rate"@, g24), ("timecode_frame_rate"@, g26), ("start"@, g28), ("end"@, g30), ("time_base"@, g32), ("prepend_silence_duration"@, g34), ("append_silence_duration"@, g36), ("lfe_on"@, g38), ("dolby_surround_mode"@, g40), ("dolby_surround_ex_mode"@, g42), ("user_data"@, g44), ("drc"@, g51), ("lfe_lowpass_filter"@, g53), ("surround_90_degree_phase_shift"@, g55), ("surround_3db_attenuation"@, g57), ("downmix"@, g70), ("allow_hybrid_downmix"@, g72)]);
    let mut es74: Vec<(String, JsonValue)> = Vec::new();
    assert(entries_model(es74@) =~~= Seq::<(Seq<char>, JsonModel)>::empty());
    let v75 = JsonValue::Str(f.starting_timecode.clone());
    let ghost g76 = v75@;
    push_entry(&mut es74, owned("starting_timecode"), v75);
    assert(entries_model(es74@) =~~= seq![("starting_timecode"@, g76)]);
    let v77 = JsonValue::Str(f.frame_rate.clone());
    let ghost g78 = v77@;
    push_entry(&mut es74, owned("frame_rate"), v77);
    assert(entries_model(es74@) =~~= seq![("starting_timecode"@, g76), ("frame_rate"@, g78)]);
    let v73 = JsonValue::Object(es74);
    assert(v73@ =~~= JsonModel::Object(seq![("starting_timecode"@, JsonModel::Str(m.starting_timecode)), ("frame_rate"@, JsonModel::Str(m.frame_rate))]));
    let ghost g79 = v73@;
    push_entry(&mut es2, owned("embedded_timecodes"), v73);
    assert(entries_model(es2@) =~~= seq![("-version"@, g4), ("loudness"@, g16), ("encoder_mode"@, g18), ("bitstream_mode"@, g20), ("downmix_config"@, g22), ("data_rate"@, g24), ("timecode_frame_rate"@, g26), ("start"@, g28), ("end"@, g30), ("time_base"@, g32), ("prepend_silence_duration"@, g34), ("append_silence_duration"@, g36), ("lfe_on"@, g38), ("dolby_surround_mode"@, g40), ("dolby_surround_ex_mode"@, g42), ("user_data"@, g44), ("drc"@, g51), ("lfe_lowpass_filter"@, g53), ("surround_90_degree_phase_shift"@, g55), ("surround_3db_attenuation"@, g57), ("downmix"@, g70), ("allow_hybrid_downmix"@, g72), ("embedded_timecodes"@, g79)]);
    let v80 = JsonValue::Str(i64_text(f.custom_dialnorm as i64));
    let ghost g81 = v80@;
    push_entry(&mut es2, owned("custom_dialnorm"), v80);
    assert(entries_model(es2@) =~~= seq![("-version"@, g4), ("loudness"@, g16), ("encoder_mode"@, g18), ("bitstream_mode"@, g20), ("downmix_config"@, g22), ("data_rate"@, g24), ("timecode_frame_rate"@, g26), ("start"@, g28), ("end"@, g30), ("time_base"@, g32), ("prepend_silence_duration"@, g34), ("append_silence_duration"@, g36), ("lfe_on"@, g38), ("dolby_surround_mode"@, g40), ("dolby_surround_ex_mode"@, g42), ("user_data"@, g44), ("drc"@, g51), ("lfe_lowpass_filter"@, g53), ("surround_90_degree_phase_shift"@, g55), ("surround_3db_attenuation"@, g57), ("downmix"@, g70), ("allow_hybrid_downmix"@, g72), ("embedded_timecodes"@, g79), ("custom_dialnorm"@, g81)]);
    let v1 = JsonValue::Object(es2);
    assert(v1@ =~~= JsonModel::Object(seq![("-version"@, JsonModel::Str("3"@)), ("loudness"@, JsonModel::Object(seq![("measure_only"@, JsonModel::Object(seq![("metering_mode"@, JsonModel::Str(m.metering_mode)), ("dialogue_intelligence"@, JsonModel::Bool(m.dialogue_intelligence)), ("speech_threshold"@, JsonModel::Int(m.speech_threshold as int))]))])), ("encoder_mode"@, JsonModel::Str(m.encoder_mode)), ("bitstream_mode"@, JsonModel::Str(m.bitstream_mode)), ("downmix_config"@, JsonModel::Str(m.downmix_config)), ("data_rate"@, JsonModel::Int(m.data_rate as int)), ("timecode_frame_rate"@, JsonModel::Str(m.timecode_frame_rate)), ("start"@, JsonModel::Str(m.start)), ("end"@, JsonModel::Str(m.end)), ("time_base"@, JsonModel::Str(m.time_base)), ("prepend_silence_duration"@, JsonModel::Str(m.prepend_silence_duration)), ("append_silence_duration"@, JsonModel::Str(m.append_silence_duration)), ("lfe_on"@, JsonModel::Str(bool_text(m.lfe_on))), ("dolby_surround_mode"@, JsonModel::Str(m.dolby_surround_mode)), ("dolby_surround_ex_mode"@, JsonModel::Str(m.dolby_surround_ex_mode)), ("user_data"@, JsonModel::Str(int_text(m.user_data as int))), ("drc"@, JsonModel::Object(seq![("line_mode_drc_profile"@, JsonModel::Str(m.line_mode_drc_profile)), ("rf_mode_drc_profile"@, JsonModel::Str(m.rf_mode_drc_profile))])), ("lfe_lowpass_filter"@, JsonModel::Str(bool_text(m.lfe_lowpass_filter))), ("surround_90_degree_phase_shift"@, JsonModel::Str(bool_text(m.surround_90_degree_phase_shift))), ("surround_3db_attenuation"@, JsonModel::Str(bool_text(m.surround_3db_attenuation))), ("downmix"@, JsonModel::Object(seq![("loro_center_mix_level"@, JsonModel::Str(m.loro_center_mix_level)), ("loro_surround_mix_level"@, JsonModel::Str(m.loro_surround_mix_level)), ("ltrt_center_mix_level"@, JsonModel::Str(m.ltrt_center_mix_level)), ("ltrt_surround_mix_level"@, JsonModel::Str(m.ltrt_surround_mix_level)), ("preferred_downmix_mode"@, JsonModel::Str(m.preferred_downmix_mode))])), ("allow_hybrid_downmix"@, JsonModel::Str(bool_text(m.allow_hybrid_downmix))), ("embedded_timecodes"@, JsonModel::Object(seq![("starting_timecode"@, JsonModel::Str(m.starting_timecode)), ("frame_rate"@, JsonModel::Str(m.frame_rate))])), ("custom_dialnorm"@, JsonModel::Str(int_text(m.custom_dialnorm as int)))]));
    v1
}

/// The output object.
pub open spec fn pcm_output_json_model(tag: Seq<char>, path: Seq<char>, files: Seq<char>) -> JsonModel {
    JsonModel::Object(seq![("-version"@, JsonModel::Str("1"@)), ("file_name"@, JsonModel::Str(files)), ("storage"@, storage_json_model(tag, path))])
}

/// The output object.
pub fn output_json(tag_s: &str, path_s: &str, files_s: &str) -> (r: JsonValue)
    ensures
        r@ == pcm_output_json_model(tag_s@, path_s@, files_s@),
{
    let ghost tag = tag_s@;
    let ghost path = path_s@;
    let ghost files = files_s@;
    let mut es2: Vec<(String, JsonValue)> = Vec::new();
    assert(entries_model(es2@) =~~= Seq::<(Seq<char>, JsonModel)>::empty());
    let v3 = JsonValue::Str(owned("1"));
    let ghost g4 = v3@;
    push_entry(&mut es2, owned("-version"), v3);
    assert(entries_model(es2@) =~~= seq![("-version"@, g4)]);
    let v5 = JsonValue::Str(owned(files_s));
    let ghost g6 = v5@;
    push_entry(&mut es2, owned("file_name"), v5);
    assert(entries_model(es2@) =~~= seq![("-version"@, g4), ("file_name"@, g6)]);
    let v7 = storage_json(tag_s, path_s);
    let ghost g8 = v7@;
    push_entry(&mut es2, owned("storage"), v7);
    assert(entries_model(es2@) =~~= seq![("-version"@, g4), ("file_name"@, g6), ("storage"@, g8)]);
    let v1 = JsonValue::Object(es2);
    assert(v1@ =~~= JsonModel::Object(seq![("-version"@, JsonModel::Str("1"@)), ("file_name"@, JsonModel::Str(files)), ("storage"@, storage_json_model(tag, path))]));
    v1
}

/// An object of one entry.
pub open spec fn single(key: Seq<char>, v: JsonModel) -> JsonModel {
    JsonModel::Object(seq![(key, v)])
}

fn single_exec(key: &str, v: JsonValue) -> (r: JsonValue)
    ensures
        r@ == single(key@, v@),
{
    let ghost g = v@;
    let mut es: Vec<(String, JsonValue)> = Vec::new();
    push_entry(&mut es, owned(key), v);
    let r = JsonValue::Object(es);
    assert(r@ =~~= single(key@, g));
    r
}

/// The output element of a mode: `ac3` for Dolby Digital, `ec3` for the
/// Dolby Digital Plus modes.
pub open spec fn pcm_output_tag(mode: EncodeMode) -> Seq<char> {
    if mode == EncodeMode::Dd {
        "ac3"@
    } else {
        "ec3"@
    }
}

/// The JSON tree of a job.
pub open spec fn pcm_json_model(j: JobModel, m: PcmDdpV1Model) -> JsonModel {
    let tag = storage_tag_spec(j.job_mode);
    single(
        "job_config"@,
        JsonModel::Object(
            seq![
                ("input"@, single("audio"@, single("wav"@, pcm_input_json_model(tag, j.input.storage_path, file_list_text(j.input.file_names))))),
                ("filter"@, single("audio"@, single("pcm_to_ddp"@, pcm_filter_json_model(m)))),
                ("output"@, single(pcm_output_tag(j.encode_mode), pcm_output_json_model(tag, j.output.storage_path, file_list_text(j.output.file_names)))),
                ("misc"@, single("temp_dir"@, misc_json_model(j.temp_dir, j.clean_temp))),
            ],
        ),
    )
}

/// The JSON tree of a job in one of the template's modes.
pub fn json_structure(job: &crate::resolve::ResolvedJob, f: &PcmDdpV1Filter) -> (r: JsonValue)
    requires
        pcm_supports(job.encode_mode),
    ensures
        r@ == pcm_json_model(job@, f@),
{
    let tag = storage_tag(job.job_mode);
    let input_files = render_file_name_list(&job.input.file_names);
    let output_files = render_file_name_list(&job.output.file_names);
    assert(strings_model(job.input.file_names@) =~= job@.input.file_names);
    assert(strings_model(job.output.file_names@) =~= job@.output.file_names);
    let output_tag = match job.encode_mode {
        EncodeMode::Dd => "ac3",
        _ => "ec3",
    };
    let a = input_json(tag, job.input.storage_path.as_str(), input_files.as_str());
    let a = single_exec("wav", a);
    let a = single_exec("audio", a);
    let b = filter_json(f);
    let b = single_exec("pcm_to_ddp", b);
    let b = single_exec("audio", b);
    let c = output_json(tag, job.output.storage_path.as_str(), output_files.as_str());
    let c = single_exec(output_tag, c);
    let d = misc_json(job.misc.temp_dir.as_str(), job.misc.clean_temp);
    let d = single_exec("temp_dir", d);
    let ghost (ga, gb, gc, gd) = (a@, b@, c@, d@);
    let mut es: Vec<(String, JsonValue)> = Vec::new();
    assert(entries_model(es@) =~~= Seq::<(Seq<char>, JsonModel)>::empty());
    push_entry(&mut es, owned("input"), a);
    push_entry(&mut es, owned("filter"), b);
    push_entry(&mut es, owned("output"), c);
    push_entry(&mut es, owned("misc"), d);
    assert(entries_model(es@) =~~= seq![("input"@, ga), ("filter"@, gb), ("output"@, gc), ("misc"@, gd)]);
    let top = JsonValue::Object(es);
    let r = single_exec("job_config", top);
    assert(r@ =~~= pcm_json_model(job@, f@));
    r
}

/// The JSON tree of a job reads its files where the job puts them: the
/// WAV input's file list and directory are the job's input ones, the encoded
/// file's are the job's output ones (under `ac3` for Dolby Digital, else
/// `ec3`), and the temporary directory is the job's; each directory is given
/// in double quotes, under the storage tag of the job mode (`local` for one
/// file, `local_multi_path` for an album).
pub proof fn law_pcm_json_paths(j: JobModel, m: PcmDdpV1Model)
    ensures
        ({
            let t = Some(pcm_json_model(j, m));
            let tag = if j.job_mode == crate::spec::JobMode::Single {
                "local"@
            } else {
                "local_multi_path"@
            };
            let src = json_in(json_in(json_in(json_in(t, "job_config"@), "input"@), "audio"@), "wav"@);
            let out = if j.encode_mode == EncodeMode::Dd {
                "ac3"@
            } else {
                "ec3"@
            };
            let dst = json_in(json_in(json_in(t, "job_config"@), "output"@), out);
            &&& json_in(json_in(json_in(dst, "storage"@), tag), "path"@) == Some(
                JsonModel::Str(seq!['"'] + j.output.storage_path + seq!['"']),
            )
            &&& json_in(dst, "file_name"@) == Some(JsonModel::Str(file_list_text(j.output.file_names)))
            &&& json_in(json_in(json_in(src, "storage"@), tag), "path"@) == Some(
                JsonModel::Str(seq!['"'] + j.input.storage_path + seq!['"']),
            )
            &&& json_in(src, "file_name"@) == Some(JsonModel::Str(file_list_text(j.input.file_names)))
            &&& json_in(json_in(json_in(json_in(t, "job_config"@), "misc"@), "temp_dir"@), "path"@) == Some(
                JsonModel::Str(seq!['"'] + j.temp_dir + seq!['"']),
            )
        }),
{
    reveal_strlit("job_config");
    reveal_strlit("input");
    reveal_strlit("filter");
    reveal_strlit("output");
    reveal_strlit("misc");
    reveal_strlit("audio");
    reveal_strlit("temp_dir");
    reveal_strlit("storage");
    reveal_strlit("file_name");
    reveal_strlit("-version");
    reveal_strlit("timecode_frame_rate");
    reveal_strlit("offset");
    reveal_strlit("ffoa");
    reveal_strlit("wav");
    reveal_strlit("ac3");
    reveal_strlit("ec3");
    let tag = storage_tag_spec(j.job_mode);
    crate::template::common::lemma_storage_tag(j.job_mode);
    reveal_with_fuel(crate::json::entry_get, 2);
    let t = pcm_json_model(j, m);
    let es = t->Object_0[0].1->Object_0;
    assert(json_in(Some(t), "job_config"@) == Some(JsonModel::Object(es)));
    assert(es[0].0.len() != "misc"@.len());
    assert(es[1].0.len() != "misc"@.len());
    assert(es[2].0.len() != "misc"@.len());
    assert(es[0].0.len() != "output"@.len());
    assert(es[1].0[0] != "output"@[0]);
    crate::json::lemma_entry_get_at(es, "input"@, 0);
    crate::json::lemma_entry_get_at(es, "output"@, 2);
    crate::json::lemma_entry_get_at(es, "misc"@, 3);
    let ies = pcm_input_json_model(tag, j.input.storage_path, file_list_text(j.input.file_names))->Object_0;
    assert forall|k: int| 0 <= k < 5 implies ies[k].0 != "storage"@ by {
        assert(ies[k].0.len() != "storage"@.len());
    }
    assert(ies[0].0.len() != "file_name"@.len());
    crate::json::lemma_entry_get_at(ies, "storage"@, 5);
    crate::json::lemma_entry_get_at(ies, "file_name"@, 1);
    let oes = pcm_output_json_model(tag, j.output.storage_path, file_list_text(j.output.file_names))->Object_0;
    assert(oes[0].0.len() != "storage"@.len());
    assert(oes[1].0.len() != "storage"@.len());
    assert(oes[0].0.len() != "file_name"@.len());
    crate::json::lemma_entry_get_at(oes, "storage"@, 2);
    crate::json::lemma_entry_get_at(oes, "file_name"@, 1);
    crate::template::common::lemma_storage_json_path(tag, j.input.storage_path);
    crate::template::common::lemma_storage_json_path(tag, j.output.storage_path);
    crate::template::common::lemma_misc_json_path(j.temp_dir, j.clean_temp);
}

/// The filter object holds each parameter of the filter under the
/// parameter's own name, with the parameter's value, and each setting that
/// the template fixes with its fixed value.
pub proof fn law_pcm_json_filter_values(m: PcmDdpV1Model)
    ensures
        ({
            let root = Some(pcm_filter_json_model(m));
            let loudness = json_in(root, "loudness"@);
            let measure_only = json_in(loudness, "measure_only"@);
            let drc = json_in(root, "drc"@);
            let downmix = json_in(root, "downmix"@);
            let embedded_timecodes = json_in(root, "embedded_timecodes"@);
            &&& json_in(measure_only, "metering_mode"@) == Some(JsonModel::Str(m.metering_mode))
            &&& json_in(measure_only, "dialogue_intelligence"@) == Some(JsonModel::Bool(m.dialogue_intelligence))
            &&& json_in(measure_only, "speech_threshold"@) == Some(JsonModel::Int(m.speech_threshold as int))
            &&& json_in(root, "encoder_mode"@) == Some(JsonModel::Str(m.encoder_mode))
            &&& json_in(root, "bitstream_mode"@) == Some(JsonModel::Str(m.bitstream_mode))
            &&& json_in(root, "downmix_config"@) == Some(JsonModel::Str(m.downmix_config))
            &&& json_in(root, "data_rate"@) == Some(JsonModel::Int(m.data_rate as int))
            &&& json_in(root, "timecode_frame_rate"@) == Some(JsonModel::Str(m.timecode_frame_rate))
            &&& json_in(root, "start"@) == Some(JsonModel::Str(m.start))
            &&& json_in(root, "end"@) == Some(JsonModel::Str(m.end))
            &&& json_in(root, "time_base"@) == Some(JsonModel::Str(m.time_base))
            &&& json_in(root, "prepend_silence_duration"@) == Some(JsonModel::Str(m.prepend_silence_duration))
            &&& json_in(root, "append_silence_duration"@) == Some(JsonModel::Str(m.append_silence_duration))
            &&& json_in(root, "lfe_on"@) == Some(JsonModel::Str(bool_text(m.lfe_on)))
            &&& json_in(root, "dolby_surround_mode"@) == Some(JsonModel::Str(m.dolby_surround_mode))
            &&& json_in(root, "dolby_surround_ex_mode"@) == Some(JsonModel::Str(m.dolby_surround_ex_mode))
            &&& json_in(root, "user_data"@) == Some(JsonModel::Str(int_text(m.user_data as int)))
            &&& json_in(drc, "line_mode_drc_profile"@) == Some(JsonModel::Str(m.line_mode_drc_profile))
            &&& json_in(drc, "rf_mode_drc_profile"@) == Some(JsonModel::Str(m.rf_mode_drc_profile))
            &&& json_in(root, "lfe_lowpass_filter"@) == Some(JsonModel::Str(bool_text(m.lfe_lowpass_filter)))
            &&& json_in(root, "surround_90_degree_phase_shift"@) == Some(JsonModel::Str(bool_text(m.surround_90_degree_phase_shift)))
            &&& json_in(root, "surround_3db_attenuation"@) == Some(JsonModel::Str(bool_text(m.surround_3db_attenuation)))
            &&& json_in(downmix, "loro_center_mix_level"@) == Some(JsonModel::Str(m.loro_center_mix_level))
            &&& json_in(downmix, "loro_surround_mix_level"@) == Some(JsonModel::Str(m.loro_surround_mix_level))
            &&& json_in(downmix, "ltrt_center_mix_level"@) == Some(JsonModel::Str(m.ltrt_center_mix_level))
            &&& json_in(downmix, "ltrt_surround_mix_level"@) == Some(JsonModel::Str(m.ltrt_surround_mix_level))
            &&& json_in(downmix, "preferred_downmix_mode"@) == Some(JsonModel::Str(m.preferred_downmix_mode))
            &&& json_in(root, "allow_hybrid_downmix"@) == Some(JsonModel::Str(bool_text(m.allow_hybrid_downmix)))
            &&& json_in(embedded_timecodes, "starting_timecode"@) == Some(JsonModel::Str(m.starting_timecode))
            &&& json_in(embedded_timecodes, "frame_rate"@) == Some(JsonModel::Str(m.frame_rate))
            &&& json_in(root, "custom_dialnorm"@) == Some(JsonModel::Str(int_text(m.custom_dialnorm as int)))
        }),
{
    reveal_strlit("-version");
    reveal_strlit("allow_hybrid_downmix");
    reveal_strlit("append_silence_duration");
    reveal_strlit("bitstream_mode");
    reveal_strlit("custom_dialnorm");
    reveal_strlit("data_rate");
    reveal_strlit("dialogue_intelligence");
    reveal_strlit("dolby_surround_ex_mode");
    reveal_strlit("dolby_surround_mode");
    reveal_strlit("downmix");
    reveal_strlit("downmix_config");
    reveal_strlit("drc");
    reveal_strlit("embedded_timecodes");
    reveal_strlit("encoder_mode");
    reveal_strlit("end");
    reveal_strlit("frame_rate");
    reveal_strlit("lfe_lowpass_filter");
    reveal_strlit("lfe_on");
    reveal_strlit("line_mode_drc_profile");
    reveal_strlit("loro_center_mix_level");
    reveal_strlit("loro_surround_mix_level");
    reveal_strlit("loudness");
    reveal_strlit("ltrt_center_mix_level");
    reveal_strlit("ltrt_surround_mix_level");
    reveal_strlit("measure_only");
    reveal_strlit("metering_mode");
    reveal_strlit("preferred_downmix_mode");
    reveal_strlit("prepend_silence_duration");
    reveal_strlit("rf_mode_drc_profile");
    reveal_strlit("speech_threshold");
    reveal_strlit("start");
    reveal_strlit("starting_timecode");
    reveal_strlit("surround_3db_attenuation");
    reveal_strlit("surround_90_degree_phase_shift");
    reveal_strlit("time_base");
    reveal_strlit("timecode_frame_rate");
    reveal_strlit("user_data");
    reveal_with_fuel(crate::json::entry_get, 1);
    assert("-version"@[0] != "loudness"@[0]);
    crate::json::lemma_entry_get_at(pcm_filter_json_model(m)->Object_0, "loudness"@, 1);
    crate::json::lemma_entry_get_at(pcm_filter_json_model(m)->Object_0[1].1->Object_0, "measure_only"@, 0);
    crate::json::lemma_entry_get_at(pcm_filter_json_model(m)->Object_0[1].1->Object_0[0].1->Object_0, "metering_mode"@, 0);
    assert("metering_mode"@.len() != "dialogue_intelligence"@.len());
    crate::json::lemma_entry_get_at(pcm_filter_json_model(m)->Object_0[1].1->Object_0[0].1->Object_0, "dialogue_intelligence"@, 1);
    assert("metering_mode"@.len() != "speech_threshold"@.len());
    assert("dialogue_intelligence"@.len() != "speech_threshold"@.len());
    crate::json::lemma_entry_get_at(pcm_filter_json_model(m)->Object_0[1].1->Object_0[0].1->Object_0, "speech_threshold"@, 2);
    assert("-version"@.len() != "encoder_mode"@.len());
    assert("loudness"@.len() != "encoder_mode"@.len());
    crate::json::lemma_entry_get_at(pcm_filter_json_model(m)->Object_0, "encoder_mode"@, 2);
    assert("-version"@.len() != "bitstream_mode"@.len());
    assert("loudness"@.len() != "bitstream_mode"@.len());
    assert("encoder_mode"@.len() != "bitstream_mode"@.len());
    crate::json::lemma_entry_get_at(pcm_filter_json_model(m)->Object_0, "bitstream_mode"@, 3);
    assert("-version"@.len() != "downmix_config"@.len());
    assert("loudness"@.len() != "downmix_config"@.len());
    assert("encoder_mode"@.len() != "downmix_config"@.len());
    assert("bitstream_mode"@[0] != "downmix_config"@[0]);
    crate::json::lemma_entry_get_at(pcm_filter_json_model(m)->Object_0, "downmix_config"@, 4);
    assert("-version"@.len() != "data_rate"@.len());
    assert("loudness"@.len() != "data_rate"@.len());
    assert("encoder_mode"@.len() != "data_rate"@.len());
    assert("bitstream_mode"@.len() != "data_rate"@.len());
    assert("downmix_config"@.len() != "data_rate"@.len());
    crate::json::lemma_entry_get_at(pcm_filter_json_model(m)->Object_0, "data_rate"@, 5);
    assert("-version"@.len() != "timecode_frame_rate"@.len());
    assert("loudness"@.len() != "timecode_frame_rate"@.len());
    assert("encoder_mode"@.len() != "timecode_frame_rate"@.len());
    assert("bitstream_mode"@.len() != "timecode_frame_rate"@.len());
    assert("downmix_config"@.len() != "timecode_frame_rate"@.len());
    assert("data_rate"@.len() != "timecode_frame_rate"@.len());
    crate::json::lemma_entry_get_at(pcm_filter_json_model(m)->Object_0, "timecode_frame_rate"@, 6);
    assert("-version"@.len() != "start"@.len());
    assert("loudness"@.len() != "start"@.len());
    assert("encoder_mode"@.len() != "start"@.len());
    assert("bitstream_mode"@.len() != "start"@.len());
    assert("downmix_config"@.len() != "start"@.len());
    assert("data_rate"@.len() != "start"@.len());
    assert("timecode_frame_rate"@.len() != "start"@.len());
    crate::json::lemma_entry_get_at(pcm_filter_json_model(m)->Object_0, "start"@, 7);
    assert("-version"@.len() != "end"@.len());
    assert("loudness"@.len() != "end"@.len());
    assert("encoder_mode"@.len() != "end"@.len());
    assert("bitstream_mode"@.len() != "end"@.len());
    assert("downmix_config"@.len() != "end"@.len());
    assert("data_rate"@.len() != "end"@.len());
    assert("timecode_frame_rate"@.len() != "end"@.len());
    assert("start"@.len() != "end"@.len());
    crate::json::lemma_entry_get_at(pcm_filter_json_model(m)->Object_0, "end"@, 8);
    assert("-version"@.len() != "time_base"@.len());
    assert("loudness"@.len() != "time_base"@.len());
    assert("encoder_mode"@.len() != "time_base"@.len());
    assert("bitstream_mode"@.len() != "time_base"@.len());
    assert("downmix_config"@.len() != "time_base"@.len());
    assert("data_rate"@[0] != "time_base"@[0]);
    assert("timecode_frame_rate"@.len() != "time_base"@.len());
    assert("start"@.len() != "time_base"@.len());
    assert("end"@.len() != "time_base"@.len());
    crate::json::lemma_entry_get_at(pcm_filter_json_model(m)->Object_0, "time_base"@, 9);
    assert("-version"@.len() != "prepend_silence_duration"@.len());
    assert("loudness"@.len() != "prepend_silence_duration"@.len());
    assert("encoder_mode"@.len() != "prepend_silence_duration"@.len());
    assert("bitstream_mode"@.len() != "prepend_silence_duration"@.len());
    assert("downmix_config"@.len() != "prepend_silence_duration"@.len());
    assert("data_rate"@.len() != "prepend_silence_duration"@.len());
    assert("timecode_frame_rate"@.len() != "prepend_silence_duration"@.len());
    assert("start"@.len() != "prepend_silence_duration"@.len());
    assert("end"@.len() != "prepend_silence_duration"@.len());
    assert("time_base"@.len() != "prepend_silence_duration"@.len());
    crate::json::lemma_entry_get_at(pcm_filter_json_model(m)->Object_0, "prepend_silence_duration"@, 10);
    assert("-version"@.len() != "append_silence_duration"@.len());
    assert("loudness"@.len() != "append_silence_duration"@.len());
    assert("encoder_mode"@.len() != "append_silence_duration"@.len());
    assert("bitstream_mode"@.len() != "append_silence_duration"@.len());
    assert("downmix_config"@.len() != "append_silence_duration"@.len());
    assert("data_rate"@.len() != "append_silence_duration"@.len());
    assert("timecode_frame_rate"@.len() != "append_silence_duration"@.len());
    assert("start"@.len() != "append_silence_duration"@.len());
    assert("end"@.len() != "append_silence_duration"@.len());
    assert("time_base"@.len() != "append_silence_duration"@.len());
    assert("prepend_silence_duration"@.len() != "append_silence_duration"@.len());
    crate::json::lemma_entry_get_at(pcm_filter_json_model(m)->Object_0, "append_silence_duration"@, 11);
    assert("-version"@.len() != "lfe_on"@.len());
    assert("loudness"@.len() != "lfe_on"@.len());
    assert("encoder_mode"@.len() != "lfe_on"@.len());
    assert("bitstream_mode"@.len() != "lfe_on"@.len());
    assert("downmix_config"@.len() != "lfe_on"@.len());
    assert("data_rate"@.len() != "lfe_on"@.len());
    assert("timecode_frame_rate"@.len() != "lfe_on"@.len());
    assert("start"@.len() != "lfe_on"@.len());
    assert("end"@.len() != "lfe_on"@.len());
    assert("time_base"@.len() != "lfe_on"@.len());
    assert("prepend_silence_duration"@.len() != "lfe_on"@.len());
    assert("append_silence_duration"@.len() != "lfe_on"@.len());
    crate::json::lemma_entry_get_at(pcm_filter_json_model(m)->Object_0, "lfe_on"@, 12);
    assert("-version"@.len() != "dolby_surround_mode"@.len());
    assert("loudness"@.len() != "dolby_surround_mode"@.len());
    assert("encoder_mode"@.len() != "dolby_surround_mode"@.len());
    assert("bitstream_mode"@.len() != "dolby_surround_mode"@.len());
    assert("downmix_config"@.len() != "dolby_surround_mode"@.len());
    assert("data_rate"@.len() != "dolby_surround_mode"@.len());
    assert("timecode_frame_rate"@[0] != "dolby_surround_mode"@[0]);
    assert("start"@.len() != "dolby_surround_mode"@.len());
    assert("end"@.len() != "dolby_surround_mode"@.len());
    assert("time_base"@.len() != "dolby_surround_mode"@.len());
    assert("prepend_silence_duration"@.len() != "dolby_surround_mode"@.len());
    assert("append_silence_duration"@.len() != "dolby_surround_mode"@.len());
    assert("lfe_on"@.len() != "dolby_surround_mode"@.len());
    crate::json::lemma_entry_get_at(pcm_filter_json_model(m)->Object_0, "dolby_surround_mode"@, 13);
    assert("-version"@.len() != "dolby_surround_ex_mode"@.len());
    assert("loudness"@.len() != "dolby_surround_ex_mode"@.len());
    assert("encoder_mode"@.len() != "dolby_surround_ex_mode"@.len());
    assert("bitstream_mode"@.len() != "dolby_surround_ex_mode"@.len());
    assert("downmix_config"@.len() != "dolby_surround_ex_mode"@.len());
    assert("data_rate"@.len() != "dolby_surround_ex_mode"@.len());
    assert("timecode_frame_rate"@.len() != "dolby_surround_ex_mode"@.len());
    assert("start"@.len() != "dolby_surround_ex_mode"@.len());
    assert("end"@.len() != "dolby_surround_ex_mode"@.len());
    assert("time_base"@.len() != "dolby_surround_ex_mode"@.len());
    assert("prepend_silence_duration"@.len() != "dolby_surround_ex_mode"@.len());
    assert("append_silence_duration"@.len() != "dolby_surround_ex_mode"@.len());
    assert("lfe_on"@.len() != "dolby_surround_ex_mode"@.len());
    assert("dolby_surround_mode"@.len() != "dolby_surround_ex_mode"@.len());
    crate::json::lemma_entry_get_at(pcm_filter_json_model(m)->Object_0, "dolby_surround_ex_mode"@, 14);
    assert("-version"@.len() != "user_data"@.len());
    assert("loudness"@.len() != "user_data"@.len());
    assert("encoder_mode"@.len() != "user_data"@.len());
    assert("bitstream_mode"@.len() != "user_data"@.len());
    assert("downmix_config"@.len() != "user_data"@.len());
    assert("data_rate"@[0] != "user_data"@[0]);
    assert("timecode_frame_rate"@.len() != "user_data"@.len());
    assert("start"@.len() != "user_data"@.len());
    assert("end"@.len() != "user_data"@.len());
    assert("time_base"@[0] != "user_data"@[0]);
    assert("prepend_silence_duration"@.len() != "user_data"@.len());
    assert("append_silence_duration"@.len() != "user_data"@.len());
    assert("lfe_on"@.len() != "user_data"@.len());
    assert("dolby_surround_mode"@.len() != "user_data"@.len());
    assert("dolby_surround_ex_mode"@.len() != "user_data"@.len());
    crate::json::lemma_entry_get_at(pcm_filter_json_model(m)->Object_0, "user_data"@, 15);
    assert("-version"@.len() != "drc"@.len());
    assert("loudness"@.len() != "drc"@.len());
    assert("encoder_mode"@.len() != "drc"@.len());
    assert("bitstream_mode"@.len() != "drc"@.len());
    assert("downmix_config"@.len() != "drc"@.len());
    assert("data_rate"@.len() != "drc"@.len());
    assert("timecode_frame_rate"@.len() != "drc"@.len());
    assert("start"@.len() != "drc"@.len());
    assert("end"@[0] != "drc"@[0]);
    assert("time_base"@.len() != "drc"@.len());
    assert("prepend_silence_duration"@.len() != "drc"@.len());
    assert("append_silence_duration"@.len() != "drc"@.len());
    assert("lfe_on"@.len() != "drc"@.len());
    assert("dolby_surround_mode"@.len() != "drc"@.len());
    assert("dolby_surround_ex_mode"@.len() != "drc"@.len());
    assert("user_data"@.len() != "drc"@.len());
    crate::json::lemma_entry_get_at(pcm_filter_json_model(m)->Object_0, "drc"@, 16);
    crate::json::lemma_entry_get_at(pcm_filter_json_model(m)->Object_0[16].1->Object_0, "line_mode_drc_profile"@, 0);
    assert("line_mode_drc_profile"@.len() != "rf_mode_drc_profile"@.len());
    crate::json::lemma_entry_get_at(pcm_filter_json_model(m)->Object_0[16].1->Object_0, "rf_mode_drc_profile"@, 1);
    assert("-version"@.len() != "lfe_lowpass_filter"@.len());
    assert("loudness"@.len() != "lfe_lowpass_filter"@.len());
    assert("encoder_mode"@.len() != "lfe_lowpass_filter"@.len());
    assert("bitstream_mode"@.len() != "lfe_lowpass_filter"@.len());
    assert("downmix_config"@.len() != "lfe_lowpass_filter"@.len());
    assert("data_rate"@.len() != "lfe_lowpass_filter"@.len());
    assert("timecode_frame_rate"@.len() != "lfe_lowpass_filter"@.len());
    assert("start"@.len() != "lfe_lowpass_filter"@.len());
    assert("end"@.len() != "lfe_lowpass_filter"@.len());
    assert("time_base"@.len() != "lfe_lowpass_filter"@.len());
    assert("prepend_silence_duration"@.len() != "lfe_lowpass_filter"@.len());
    assert("append_silence_duration"@.len() != "lfe_lowpass_filter"@.len());
    assert("lfe_on"@.len() != "lfe_lowpass_filter"@.len());
    assert("dolby_surround_mode"@.len() != "lfe_lowpass_filter"@.len());
    assert("dolby_surround_ex_mode"@.len() != "lfe_lowpass_filter"@.len());
    assert("user_data"@.len() != "lfe_lowpass_filter"@.len());
    assert("drc"@.len() != "lfe_lowpass_filter"@.len());
    crate::json::lemma_entry_get_at(pcm_filter_json_model(m)->Object_0, "lfe_lowpass_filter"@, 17);
    assert("-version"@.len() != "surround_90_degree_phase_shift"@.len());
    assert("loudness"@.len() != "surround_90_degree_phase_shift"@.len());
    assert("encoder_mode"@.len() != "surround_90_degree_phase_shift"@.len());
    assert("bitstream_mode"@.len() != "surround_90_degree_phase_shift"@.len());
    assert("downmix_config"@.len() != "surround_90_degree_phase_shift"@.len());
    assert("data_rate"@.len() != "surround_90_degree_phase_shift"@.len());
    assert("timecode_frame_rate"@.len() != "surround_90_degree_phase_shift"@.len());
    assert("start"@.len() != "surround_90_degree_phase_shift"@.len());
    assert("end"@.len() != "surround_90_degree_phase_shift"@.len());
    assert("time_base"@.len() != "surround_90_degree_phase_shift"@.len());
    assert("prepend_silence_duration"@.len() != "surround_90_degree_phase_shift"@.len());
    assert("append_silence_duration"@.len() != "surround_90_degree_phase_shift"@.len());
    assert("lfe_on"@.len() != "surround_90_degree_phase_shift"@.len());
    assert("dolby_surround_mode"@.len() != "surround_90_degree_phase_shift"@.len());
    assert("dolby_surround_ex_mode"@.len() != "surround_90_degree_phase_shift"@.len());
    assert("user_data"@.len() != "surround_90_degree_phase_shift"@.len());
    assert("drc"@.len() != "surround_90_degree_phase_shift"@.len());
    assert("lfe_lowpass_filter"@.len() != "surround_90_degree_phase_shift"@.len());
    crate::json::lemma_entry_get_at(pcm_filter_json_model(m)->Object_0, "surround_90_degree_phase_shift"@, 18);
    assert("-version"@.len() != "surround_3db_attenuation"@.len());
    assert("loudness"@.len() != "surround_3db_attenuation"@.len());
    assert("encoder_mode"@.len() != "surround_3db_attenuation"@.len());
    assert("bitstream_mode"@.len() != "surround_3db_attenuation"@.len());
    assert("downmix_config"@.len() != "surround_3db_attenuation"@.len());
    assert("data_rate"@.len() != "surround_3db_attenuation"@.len());
    assert("timecode_frame_rate"@.len() != "surround_3db_attenuation"@.len());
    assert("start"@.len() != "surround_3db_attenuation"@.len());
    assert("end"@.len() != "surround_3db_attenuation"@.len());
    assert("time_base"@.len() != "surround_3db_attenuation"@.len());
    assert("prepend_silence_duration"@[0] != "surround_3db_attenuation"@[0]);
    assert("append_silence_duration"@.len() != "surround_3db_attenuation"@.len());
    assert("lfe_on"@.len() != "surround_3db_attenuation"@.len());
    assert("dolby_surround_mode"@.len() != "surround_3db_attenuation"@.len());
    assert("dolby_surround_ex_mode"@.len() != "surround_3db_attenuation"@.len());
    assert("user_data"@.len() != "surround_3db_attenuation"@.len());
    assert("drc"@.len() != "surround_3db_attenuation"@.len());
    assert("lfe_lowpass_filter"@.len() != "surround_3db_attenuation"@.len());
    assert("surround_90_degree_phase_shift"@.len() != "surround_3db_attenuation"@.len());
    crate::json::lemma_entry_get_at(pcm_filter_json_model(m)->Object_0, "surround_3db_attenuation"@, 19);
    assert("-version"@.len() != "downmix"@.len());
    assert("loudness"@.len() != "downmix"@.len());
    assert("encoder_mode"@.len() != "downmix"@.len());
    assert("bitstream_mode"@.len() != "downmix"@.len());
    assert("downmix_config"@.len() != "downmix"@.len());
    assert("data_rate"@.len() != "downmix"@.len());
    assert("timecode_frame_rate"@.len() != "downmix"@.len());
    assert("start"@.len() != "downmix"@.len());
    assert("end"@.len() != "downmix"@.len());
    assert("time_base"@.len() != "downmix"@.len());
    assert("prepend_silence_duration"@.len() != "downmix"@.len());
    assert("append_silence_duration"@.len() != "downmix"@.len());
    assert("lfe_on"@.len() != "downmix"@.len());
    assert("dolby_surround_mode"@.len() != "downmix"@.len());
    assert("dolby_surround_ex_mode"@.len() != "downmix"@.len());
    assert("user_data"@.len() != "downmix"@.len());
    assert("drc"@.len() != "downmix"@.len());
    assert("lfe_lowpass_filter"@.len() != "downmix"@.len());
    assert("surround_90_degree_phase_shift"@.len() != "downmix"@.len());
    assert("surround_3db_attenuation"@.len() != "downmix"@.len());
    crate::json::lemma_entry_get_at(pcm_filter_json_model(m)->Object_0, "downmix"@, 20);
    crate::json::lemma_entry_get_at(pcm_filter_json_model(m)->Object_0[20].1->Object_0, "loro_center_mix_level"@, 0);
    assert("loro_center_mix_level"@.len() != "loro_surround_mix_level"@.len());
    crate::json::lemma_entry_get_at(pcm_filter_json_model(m)->Object_0[20].1->Object_0, "loro_surround_mix_level"@, 1);
    assert("loro_center_mix_level"@[1] != "ltrt_center_mix_level"@[1]);
    assert("loro_surround_mix_level"@.len() != "ltrt_center_mix_level"@.len());
    crate::json::lemma_entry_get_at(pcm_filter_json_model(m)->Object_0[20].1->Object_0, "ltrt_center_mix_level"@, 2);
    assert("loro_center_mix_level"@.len() != "ltrt_surround_mix_level"@.len());
    assert("loro_surround_mix_level"@[1] != "ltrt_surround_mix_level"@[1]);
    assert("ltrt_center_mix_level"@.len() != "ltrt_surround_mix_level"@.len());
    crate::json::lemma_entry_get_at(pcm_filter_json_model(m)->Object_0[20].1->Object_0, "ltrt_surround_mix_level"@, 3);
    assert("loro_center_mix_level"@.len() != "preferred_downmix_mode"@.len());
    assert("loro_surround_mix_level"@.len() != "preferred_downmix_mode"@.len());
    assert("ltrt_center_mix_level"@.len() != "preferred_downmix_mode"@.len());
    assert("ltrt_surround_mix_level"@.len() != "preferred_downmix_mode"@.len());
    crate::json::lemma_entry_get_at(pcm_filter_json_model(m)->Object_0[20].1->Object_0, "preferred_downmix_mode"@, 4);
    assert("-version"@.len() != "allow_hybrid_downmix"@.len());
    assert("loudness"@.len() != "allow_hybrid_downmix"@.len());
    assert("encoder_mode"@.len() != "allow_hybrid_downmix"@.len());
    assert("bitstream_mode"@.len() != "allow_hybrid_downmix"@.len());
    assert("downmix_config"@.len() != "allow_hybrid_downmix"@.len());
    assert("data_rate"@.len() != "allow_hybrid_downmix"@.len());
    assert("timecode_frame_rate"@.len() != "allow_hybrid_downmix"@.len());
    assert("start"@.len() != "allow_hybrid_downmix"@.len());
    assert("end"@.len() != "allow_hybrid_downmix"@.len());
    assert("time_base"@.len() != "allow_hybrid_downmix"@.len());
    assert("prepend_silence_duration"@.len() != "allow_hybrid_downmix"@.len());
    assert("append_silence_duration"@.len() != "allow_hybrid_downmix"@.len());
    assert("lfe_on"@.len() != "allow_hybrid_downmix"@.len());
    assert("dolby_surround_mode"@.len() != "allow_hybrid_downmix"@.len());
    assert("dolby_surround_ex_mode"@.len() != "allow_hybrid_downmix"@.len());
    assert("user_data"@.len() != "allow_hybrid_downmix"@.len());
    assert("drc"@.len() != "allow_hybrid_downmix"@.len());
    assert("lfe_lowpass_filter"@.len() != "allow_hybrid_downmix"@.len());
    assert("surround_90_degree_phase_shift"@.len() != "allow_hybrid_downmix"@.len());
    assert("surround_3db_attenuation"@.len() != "allow_hybrid_downmix"@.len());
    assert("downmix"@.len() != "allow_hybrid_downmix"@.len());
    crate::json::lemma_entry_get_at(pcm_filter_json_model(m)->Object_0, "allow_hybrid_downmix"@, 21);
    assert("-version"@.len() != "embedded_timecodes"@.len());
    assert("loudness"@.len() != "embedded_timecodes"@.len());
    assert("encoder_mode"@.len() != "embedded_timecodes"@.len());
    assert("bitstream_mode"@.len() != "embedded_timecodes"@.len());
    assert("downmix_config"@.len() != "embedded_timecodes"@.len());
    assert("data_rate"@.len() != "embedded_timecodes"@.len());
    assert("timecode_frame_rate"@.len() != "embedded_timecodes"@.len());
    assert("start"@.len() != "embedded_timecodes"@.len());
    assert("end"@.len() != "embedded_timecodes"@.len());
    assert("time_base"@.len() != "embedded_timecodes"@.len());
    assert("prepend_silence_duration"@.len() != "embedded_timecodes"@.len());
    assert("append_silence_duration"@.len() != "embedded_timecodes"@.len());
    assert("lfe_on"@.len() != "embedded_timecodes"@.len());
    assert("dolby_surround_mode"@.len() != "embedded_timecodes"@.len());
    assert("dolby_surround_ex_mode"@.len() != "embedded_timecodes"@.len());
    assert("user_data"@.len() != "embedded_timecodes"@.len());
    assert("drc"@.len() != "embedded_timecodes"@.len());
    assert("lfe_lowpass_filter"@[0] != "embedded_timecodes"@[0]);
    assert("surround_90_degree_phase_shift"@.len() != "embedded_timecodes"@.len());
    assert("surround_3db_attenuation"@.len() != "embedded_timecodes"@.len());
    assert("downmix"@.len() != "embedded_timecodes"@.len());
    assert("allow_hybrid_downmix"@.len() != "embedded_timecodes"@.len());
    crate::json::lemma_entry_get_at(pcm_filter_json_model(m)->Object_0, "embedded_timecodes"@, 22);
    crate::json::lemma_entry_get_at(pcm_filter_json_model(m)->Object_0[22].1->Object_0, "starting_timecode"@, 0);
    assert("starting_timecode"@.len() != "frame_rate"@.len());
    crate::json::lemma_entry_get_at(pcm_filter_json_model(m)->Object_0[22].1->Object_0, "frame_rate"@, 1);
    assert("-version"@.len() != "custom_dialnorm"@.len());
    assert("loudness"@.len() != "custom_dialnorm"@.len());
    assert("encoder_mode"@.len() != "custom_dialnorm"@.len());
    assert("bitstream_mode"@.len() != "custom_dialnorm"@.len());
    assert("downmix_config"@.len() != "custom_dialnorm"@.len());
    assert("data_rate"@.len() != "custom_dialnorm"@.len());
    assert("timecode_frame_rate"@.len() != "custom_dialnorm"@.len());
    assert("start"@.len() != "custom_dialnorm"@.len());
    assert("end"@.len() != "custom_dialnorm"@.len());
    assert("time_base"@.len() != "custom_dialnorm"@.len());
    assert("prepend_silence_duration"@.len() != "custom_dialnorm"@.len());
    assert("append_silence_duration"@.len() != "custom_dialnorm"@.len());
    assert("lfe_on"@.len() != "custom_dialnorm"@.len());
    assert("dolby_surround_mode"@.len() != "custom_dialnorm"@.len());
    assert("dolby_surround_ex_mode"@.len() != "custom_dialnorm"@.len());
    assert("user_data"@.len() != "custom_dialnorm"@.len());
    assert("drc"@.len() != "custom_dialnorm"@.len());
    assert("lfe_lowpass_filter"@.len() != "custom_dialnorm"@.len());
    assert("surround_90_degree_phase_shift"@.len() != "custom_dialnorm"@.len());
    assert("surround_3db_attenuation"@.len() != "custom_dialnorm"@.len());
    assert("downmix"@.len() != "custom_dialnorm"@.len());
    assert("allow_hybrid_downmix"@.len() != "custom_dialnorm"@.len());
    assert("embedded_timecodes"@.len() != "custom_dialnorm"@.len());
    crate::json::lemma_entry_get_at(pcm_filter_json_model(m)->Object_0, "custom_dialnorm"@, 23);
}

} // verus!
