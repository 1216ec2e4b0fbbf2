//! The DEE JSON tree of the AC-4 IMS settings.
use vstd::prelude::*;

use crate::json::{entries_model, push_entry, JsonModel, JsonValue};
use crate::resolve::{IoModel, JobModel, ResolvedInputGroups, ResolvedIo, ResolvedJob};
use crate::spec::OutputContainer;
use crate::template::ac4_ims_shared::xml::{channel_tag, opt_io};
use crate::template::ac4_ims_shared::{Ac4ImsFilter, Ac4ImsModel};
use crate::template::common::{
    misc_json, misc_json_model, storage_json, storage_json_model, storage_tag, storage_tag_spec,
};
use crate::text::owned;

verus! {

/// An object of one entry.
pub open spec fn single(key: Seq<char>, v: JsonModel) -> JsonModel {
    JsonModel::Object(seq![(key, v)])
}

fn single_exec(key: &str, v: JsonValue) -> (r: JsonValue)
    ensures
        r@ == single(key@, v@),
{
    let ghost g = v@;
    let mut es: Vec<(String, JsonValue)> = Vec::new();
    push_entry(&mut es, owned(key), v);
    let r = JsonValue::Object(es);
    assert(r@ =~~= single(key@, g));
    r
}

/// The `encode_to_ims_ac4` filter object.
pub open spec fn ac4ims_filter_json_model(m: Ac4ImsModel) -> JsonModel {
    JsonModel::Object(seq![("-version"@, JsonModel::Str("1"@)), ("timecode_frame_rate"@, JsonModel::Str(m.timecode_frame_rate)), ("start"@, JsonModel::Str(m.start)), ("end"@, JsonModel::Str(m.end)), ("time_base"@, JsonModel::Str(m.time_base)), ("prepend_silence_duration"@, JsonModel::Str(m.prepend_silence_duration)), ("append_silence_duration"@, JsonModel::Str(m.append_silence_duration)), ("loudness"@, JsonModel::Object(seq![("measure_only"@, JsonModel::Object(seq![("metering_mode"@, JsonModel::Str(m.metering_mode)), ("dialogue_intelligence"@, JsonModel::Bool(m.dialogue_intelligence)), ("speech_threshold"@, JsonModel::Int(m.speech_threshold as int))]))])), ("data_rate"@, JsonModel::Int(m.data_rate as int)), ("ac4_frame_rate"@, JsonModel::Str(m.ac4_frame_rate)), ("ims_legacy_presentation"@, JsonModel::Bool(m.ims_legacy_presentation)), ("iframe_interval"@, JsonModel::Int(m.iframe_interval as int)), ("language"@, JsonModel::Str(m.language)), ("encoding_profile"@, JsonModel::Str(m.encoding_profile)), ("drc"@, JsonModel::Object(seq![("ddp_drc_profile"@, JsonModel::Str(m.ddp_drc_profile)), ("flat_panel_drc_profile"@, JsonModel::Str(m.flat_panel_drc_profile)), ("home_theatre_drc_profile"@, JsonModel::Str(m.home_theatre_drc_profile)), ("portable_hp_drc_profile"@, JsonModel::Str(m.portable_hp_drc_profile)), ("portable_spkr_drc_profile"@, JsonModel::Str(m.portable_spkr_drc_profile))]))])
}

/// The `encode_to_ims_ac4` filter object.
pub fn filter_json(f: &Ac4ImsFilter) -> (r: JsonValue)
    ensures
        r@ == ac4ims_filter_json_model(f@),
{
    let ghost m = f@;
    let mut es2: Vec<(String, JsonValue)> = Vec::new();
    assert(entries_model(es2@) =~~= Seq::<(Seq<char>, JsonModel)>::empty());
    let v3 = JsonValue::Str(owned("1"));
    let ghost g4 = v3@;
    push_entry(&mut es2, owned("-version"), v3);
    assert(entries_model(es2@) =~~= seq![("-version"@, g4)]);
    let v5 = JsonValue::Str(f.timecode_frame_rate.clone());
    let ghost g6 = v5@;
    push_entry(&mut es2, owned("timecode_frame_rate"), v5);
    assert(entries_model(es2@) =~~= seq![("-version"@, g4), ("timecode_frame_rate"@, g6)]);
    let v7 = JsonValue::Str(f.start.clone());
    let ghost g8 = v7@;
    push_entry(&mut es2, owned("start"), v7);
    assert(entries_model(es2@) =~~= seq![("-version"@, g4), ("timecode_frame_rate"@, g6), ("start"@, g8)]);
    let v9 = JsonValue::Str(f.end.clone());
    let ghost g10 = v9@;
    push_entry(&mut es2, owned("end"), v9);
    assert(entries_model(es2@) =~~= seq![("-version"@, g4), ("timecode_frame_rate"@, g6), ("start"@, g8), ("end"@, g10)]);
    let v11 = JsonValue::Str(f.time_base.clone());
    let ghost g12 = v11@;
    push_entry(&mut es2, owned("time_base"), v11);
    assert(entries_model(es2@) =~~= seq![("-version"@, g4), ("timecode_frame_rate"@, g6), ("start"@, g8), ("end"@, g10), ("time_base"@, g12)]);
    let v13 = JsonValue::Str(f.prepend_silence_duration.clone());
    let ghost g14 = v13@;
    push_entry(&mut es2, owned("prepend_silence_duration"), v13);
    assert(entries_model(es2@) =~~= seq![("-version"@, g4), ("timecode_frame_rate"@, g6), ("start"@, g8), ("end"@, g10), ("time_base"@, g12), ("prepend_silence_duration"@, g14)]);
    let v15 = JsonValue::Str(f.append_silence_duration.clone());
    let ghost g16 = v15@;
    push_entry(&mut es2, owned("append_silence_duration"), v15);
    assert(entries_model(es2@) =~~= seq![("-version"@, g4), ("timecode_frame_rate"@, g6), ("start"@, g8), ("end"@, g10), ("time_base"@, g12), ("prepend_silence_duration"@, g14), ("append_silence_duration"@, g16)]);
    let mut es18: Vec<(String, JsonValue)> = Vec::new();
    assert(entries_model(es18@) =~~= Seq::<(Seq<char>, JsonModel)>::empty());
    let mut es20: Vec<(String, JsonValue)> = Vec::new();
    assert(entries_model(es20@) =~~= Seq::<(Seq<char>, JsonModel)>::empty());
    let v21 = JsonValue::Str(f.metering_mode.clone());
    let ghost g22 = v21@;
    push_entry(&mut es20, owned("metering_mode"), v21);
    assert(entries_model(es20@) =~~= seq![("metering_mode"@, g22)]);
    let v23 = JsonValue::Bool(f.dialogue_intelligence);
    let ghost g24 = v23@;
    push_entry(&mut es20, owned("dialogue_intelligence"), v23);
    assert(entries_model(es20@) =~~= seq![("metering_mode"@, g22), ("dialogue_intelligence"@, g24)]);
    let v25 = JsonValue::Int(f.speech_threshold as i64);
    let ghost g26 = v25@;
    push_entry(&mut es20, owned("speech_threshold"), v25);
    assert(entries_model(es20@) =~~= seq![("metering_mode"@, g22), ("dialogue_intelligence"@, g24), ("speech_threshold"@, g26)]);
    let v19 = JsonValue::Object(es20);
    assert(v19@ =~~= JsonModel::Object(seq![("metering_mode"@, JsonModel::Str(m.metering_mode)), ("dialogue_intelligence"@, JsonModel::Bool(m.dialogue_intelligence)), ("speech_threshold"@, JsonModel::Int(m.speech_threshold as int))]));
    let ghost g27 = v19@;
    push_entry(&mut es18, owned("measure_only"), v19);
    assert(entries_model(es18@) =~~= seq![("measure_only"@, g27)]);
    let v17 = JsonValue::Object(es18);
    assert(v17@ =~~= JsonModel::Object(seq![("measure_only"@, JsonModel::Object(seq![("metering_mode"@, JsonModel::Str(m.metering_mode)), ("dialogue_intelligence"@, JsonModel::Bool(m.dialogue_intelligence)), ("speech_threshold"@, JsonModel::Int(m.speech_threshold as int))]))]));
    let ghost g28 = v17@;
    push_entry(&mut es2, owned("loudness"), v17);
    assert(entries_model(es2@) =~~= seq![("-version"@, g4), ("timecode_frame_rate"@, g6), ("start"@, g8), ("end"@, g10), ("time_base"@, g12), ("prepend_silence_duration"@, g14), ("append_silence_duration"@, g16), ("loudness"@, g28)]);
    let v29 = JsonValue::Int(f.data_rate as i64);
    let ghost g30 = v29@;
    push_entry(&mut es2, owned("data_rate"), v29);
    assert(entries_model(es2@) =~~= seq![("-version"@, g4), ("timecode_frame_rate"@, g6), ("start"@, g8), ("end"@, g10), ("time_base"@, g12), ("prepend_silence_duration"@, g14), ("append_silence_duration"@, g16), ("loudness"@, g28), ("data_rate"@, g30)]);
    let v31 = JsonValue::Str(f.ac4_frame_rate.clone());
    let ghost g32 = v31@;
    push_entry(&mut es2, owned("ac4_frame_rate"), v31);
    assert(entries_model(es2@) =~~= seq![("-version"@, g4), ("timecode_frame_rate"@, g6), ("start"@, g8), ("end"@, g10), ("time_base"@, g12), ("prepend_silence_duration"@, g14), ("append_silence_duration"@, g16), ("loudness"@, g28), ("data_rate"@, g30), ("ac4_frame_rate"@, g32)]);
    let v33 = JsonValue::Bool(f.ims_legacy_presentation);
    let ghost g34 = v33@;
    push_entry(&mut es2, owned("ims_legacy_presentation"), v33);
    assert(entries_model(es2@) =~~= seq![("-version"@, g4), ("timecode_frame_rate"@, g6), ("start"@, g8), ("end"@, g10), ("time_base"@, g12), ("prepend_silence_duration"@, g14), ("append_silence_duration"@, g16), ("loudness"@, g28), ("data_rate"@, g30), ("ac4_frame_rate"@, g32), ("ims_legacy_presentation"@, g34)]);
    let v35 = JsonValue::Int(f.iframe_interval as i64);
    let ghost g36 = v35@;
    push_entry(&mut es2, owned("iframe_interval"), v35);
    assert(entries_model(es2@) =~~= seq![("-version"@, g4), ("timecode_frame_rate"@, g6), ("start"@, g8), ("end"@, g10), ("time_base"@, g12), ("prepend_silence_duration"@, g14), ("append_silence_duration"@, g16), ("loudness"@, g28), ("data_rate"@, g30), ("ac4_frame_rate"@, g32), ("ims_legacy_presentation"@, g34), ("iframe_interval"@, g36)]);
    let v37 = JsonValue::Str(f.language.clone());
    let ghost g38 = v37@;
    push_entry(&mut es2, owned("language"), v37);
    assert(entries_model(es2@) =~~= seq![("-version"@, g4), ("timecode_frame_rate"@, g6), ("start"@, g8), ("end"@, g10), ("time_base"@, g12), ("prepend_silence_duration"@, g14), ("append_silence_duration"@, g16), ("loudness"@, g28), ("data_rate"@, g30), ("ac4_frame_rate"@, g32), ("ims_legacy_presentation"@, g34), ("iframe_interval"@, g36), ("language"@, g38)]);
    let v39 = JsonValue::Str(f.encoding_profile.clone());
    let ghost g40 = v39@;
    push_entry(&mut es2, owned("encoding_profile"), v39);
    assert(entries_model(es2@) =~~= seq![("-version"@, g4), ("timecode_frame_rate"@, g6), ("start"@, g8), ("end"@, g10), ("time_base"@, g12), ("prepend_silence_duration"@, g14), ("append_silence_duration"@, g16), ("loudness"@, g28), ("data_rate"@, g30), ("ac4_frame_rate"@, g32), ("ims_legacy_presentation"@, g34), ("iframe_interval"@, g36), ("language"@, g38), ("encoding_profile"@, g40)]);
    let mut es42: Vec<(String, JsonValue)> = Vec::new();
    assert(entries_model(es42@) =~~= Seq::<(Seq<char>, JsonModel)>::empty());
    let v43 = JsonValue::Str(f.ddp_drc_profile.clone());
    let ghost g44 = v43@;
    push_entry(&mut es42, owned("ddp_drc_profile"), v43);
    assert(entries_model(es42@) =~~= seq![("ddp_drc_profile"@, g44)]);
    let v45 = JsonValue::Str(f.flat_panel_drc_profile.clone());
    let ghost g46 = v45@;
    push_entry(&mut es42, owned("flat_panel_drc_profile"), v45);
    assert(entries_model(es42@) =~~= seq![("ddp_drc_profile"@, g44), ("flat_panel_drc_profile"@, g46)]);
    let v47 = JsonValue::Str(f.home_theatre_drc_profile.clone());
    let ghost g48 = v47@;
    push_entry(&mut es42, owned("home_theatre_drc_profile"), v47);
    assert(entries_model(es42@) =~~= seq![("ddp_drc_profile"@, g44), ("flat_panel_drc_profile"@, g46), ("home_theatre_drc_profile"@, g48)]);
    let v49 = JsonValue::Str(f.portable_hp_drc_profile.clone());
    let ghost g50 = v49@;
    push_entry(&mut es42, owned("portable_hp_drc_profile"), v49);
    assert(entries_model(es42@) =~~= seq![("ddp_drc_profile"@, g44), ("flat_panel_drc_profile"@, g46), ("home_theatre_drc_profile"@, g48), ("portable_hp_drc_profile"@, g50)]);
    let v51 = JsonValue::Str(f.portable_spkr_drc_profile.clone());
    let ghost g52 = v51@;
    push_entry(&mut es42, owned("portable_spkr_drc_profile"), v51);
    assert(entries_model(es42@) =~~= seq![("ddp_drc_profile"@, g44), ("flat_panel_drc_profile"@, g46), ("home_theatre_drc_profile"@, g48), ("portable_hp_drc_profile"@, g50), ("portable_spkr_drc_profile"@, g52)]);
    let v41 = JsonValue::Object(es42);
    assert(v41@ =~~= JsonModel::Object(seq![("ddp_drc_profile"@, JsonModel::Str(m.ddp_drc_profile)), ("flat_panel_drc_profile"@, JsonModel::Str(m.flat_panel_drc_profile)), ("home_theatre_drc_profile"@, JsonModel::Str(m.home_theatre_drc_profile)), ("portable_hp_drc_profile"@, JsonModel::Str(m.portable_hp_drc_profile)), ("portable_spkr_drc_profile"@, JsonModel::Str(m.portable_spkr_drc_profile))]));
    let ghost g53 = v41@;
    push_entry(&mut es2, owned("drc"), v41);
    assert(entries_model(es2@) =~~= seq![("-version"@, g4), ("timecode_frame_rate"@, g6), ("start"@, g8), ("end"@, g10), ("time_base"@, g12), ("prepend_silence_duration"@, g14), ("append_silence_duration"@, g16), ("loudness"@, g28), ("data_rate"@, g30), ("ac4_frame_rate"@, g32), ("ims_legacy_presentation"@, g34), ("iframe_interval"@, g36), ("language"@, g38), ("encoding_profile"@, g40), ("drc"@, g53)]);
    let v1 = JsonValue::Object(es2);
    assert(v1@ =~~= JsonModel::Object(seq![("-version"@, JsonModel::Str("1"@)), ("timecode_frame_rate"@, JsonModel::Str(m.timecode_frame_rate)), ("start"@, JsonModel::Str(m.start)), ("end"@, JsonModel::Str(m.end)), ("time_base"@, JsonModel::Str(m.time_base)), ("prepend_silence_duration"@, JsonModel::Str(m.prepend_silence_duration)), ("append_silence_duration"@, JsonModel::Str(m.append_silence_duration)), ("loudness"@, JsonModel::Object(seq![("measure_only"@, JsonModel::Object(seq![("metering_mode"@, JsonModel::Str(m.metering_mode)), ("dialogue_intelligence"@, JsonModel::Bool(m.dialogue_intelligence)), ("speech_threshold"@, JsonModel::Int(m.speech_threshold as int))]))])), ("data_rate"@, JsonModel::Int(m.data_rate as int)), ("ac4_frame_rate"@, JsonModel::Str(m.ac4_frame_rate)), ("ims_legacy_presentation"@, JsonModel::Bool(m.ims_legacy_presentation)), ("iframe_interval"@, JsonModel::Int(m.iframe_interval as int)), ("language"@, JsonModel::Str(m.language)), ("encoding_profile"@, JsonModel::Str(m.encoding_profile)), ("drc"@, JsonModel::Object(seq![("ddp_drc_profile"@, JsonModel::Str(m.ddp_drc_profile)), ("flat_panel_drc_profile"@, JsonModel::Str(m.flat_panel_drc_profile)), ("home_theatre_drc_profile"@, JsonModel::Str(m.home_theatre_drc_profile)), ("portable_hp_drc_profile"@, JsonModel::Str(m.portable_hp_drc_profile)), ("portable_spkr_drc_profile"@, JsonModel::Str(m.portable_spkr_drc_profile))]))]));
    v1
}

/// The entries of an input file object: version, file, input timecodes and
/// storage.
pub open spec fn timed_input_entries(
    tag: Seq<char>,
    path: Seq<char>,
    file: Seq<char>,
    tc: Seq<char>,
    off: Seq<char>,
    ffoa: Seq<char>,
) -> JsonModel {
    JsonModel::Object(
        seq![
            ("-version"@, JsonModel::Str("1"@)),
            ("file_name"@, JsonModel::Str(file)),
            ("timecode_frame_rate"@, JsonModel::Str(tc)),
            ("offset"@, JsonModel::Str(off)),
            ("ffoa"@, JsonModel::Str(ffoa)),
            ("storage"@, storage_json_model(tag, path)),
        ],
    )
}

fn timed_input_json(tag: &str, path: &str, file: &str, tc: &str, off: &str, ffoa: &str) -> (r: JsonValue)
    ensures
        r@ == timed_input_entries(tag@, path@, file@, tc@, off@, ffoa@),
{
    let st = storage_json(tag, path);
    let ghost gs = st@;
    let mut es: Vec<(String, JsonValue)> = Vec::new();
    assert(entries_model(es@) =~~= Seq::<(Seq<char>, JsonModel)>::empty());
    push_entry(&mut es, owned("-version"), JsonValue::Str(owned("1")));
    push_entry(&mut es, owned("file_name"), JsonValue::Str(owned(file)));
    push_entry(&mut es, owned("timecode_frame_rate"), JsonValue::Str(owned(tc)));
    push_entry(&mut es, owned("offset"), JsonValue::Str(owned(off)));
    push_entry(&mut es, owned("ffoa"), JsonValue::Str(owned(ffoa)));
    push_entry(&mut es, owned("storage"), st);
    assert(entries_model(es@) =~~= seq![
        ("-version"@, JsonModel::Str("1"@)),
        ("file_name"@, JsonModel::Str(file@)),
        ("timecode_frame_rate"@, JsonModel::Str(tc@)),
        ("offset"@, JsonModel::Str(off@)),
        ("ffoa"@, JsonModel::Str(ffoa@)),
        ("storage"@, gs),
    ]);
    let r = JsonValue::Object(es);
    assert(r@ =~~= timed_input_entries(tag@, path@, file@, tc@, off@, ffoa@));
    r
}

/// The `atmos_mezz` input object of an Atmos mezzanine, its first file.
pub open spec fn ac4ims_atmos_input_json_model(
    tag: Seq<char>,
    io: IoModel,
    tc: Seq<char>,
    off: Seq<char>,
    ffoa: Seq<char>,
) -> JsonModel {
    single("atmos_mezz"@, timed_input_entries(tag, io.storage_path, io.file_names[0], tc, off, ffoa))
}

/// The `atmos_mezz` input object of an Atmos mezzanine, its first file,
/// with the input timecodes.
pub fn atmos_input_json_node_with_timecodes(
    storage_tag: &str,
    atmos_mezz: &ResolvedIo,
    input_timecode_frame_rate: &str,
    offset: &str,
    ffoa: &str,
) -> (r: JsonValue)
    requires
        atmos_mezz.file_names@.len() > 0,
    ensures
        r@ == ac4ims_atmos_input_json_model(storage_tag@, atmos_mezz@, input_timecode_frame_rate@, offset@, ffoa@),
{
    let first = atmos_mezz.file_names[0].as_str();
    assert(atmos_mezz@.file_names[0] == first@);
    let v = timed_input_json(
        storage_tag,
        atmos_mezz.storage_path.as_str(),
        first,
        input_timecode_frame_rate,
        offset,
        ffoa,
    );
    single_exec("atmos_mezz", v)
}

/// One entry per channel file of a 5.1 WAV list, for at most six files.
pub open spec fn channel_entries(names: Seq<Seq<char>>) -> Seq<(Seq<char>, JsonModel)> {
    Seq::new(
        if names.len() < 6 { names.len() } else { 6 },
        |i: int| (channel_tag(i), JsonModel::Str(names[i])),
    )
}

/// The `wav_list` object of a 5.1 WAV list with the input timecodes.
pub open spec fn ac4ims_wav_list_json_model(
    tag: Seq<char>,
    wl: IoModel,
    tc: Seq<char>,
    off: Seq<char>,
    ffoa: Seq<char>,
) -> JsonModel {
    JsonModel::Object(
        seq![("-version"@, JsonModel::Str("1"@))] + channel_entries(wl.file_names) + seq![
            ("channel_configuration"@, JsonModel::Str("5.1"@)),
            ("timecode_frame_rate"@, JsonModel::Str(tc)),
            ("offset"@, JsonModel::Str(off)),
            ("ffoa"@, JsonModel::Str(ffoa)),
            ("storage"@, storage_json_model(tag, wl.storage_path)),
        ],
    )
}

fn wav_list_json(tag: &str, wl: &ResolvedIo, tc: &str, off: &str, ffoa: &str) -> (r: JsonValue)
    ensures
        r@ == ac4ims_wav_list_json_model(tag@, wl@, tc@, off@, ffoa@),
{
    let tags = vec!["file_name_L", "file_name_R", "file_name_C", "file_name_LFE", "file_name_LS", "file_name_RS"];
    let ghost names = wl@.file_names;
    let n: usize = if wl.file_names.len() < 6 { wl.file_names.len() } else { 6 };
    let mut es: Vec<(String, JsonValue)> = Vec::new();
    assert(entries_model(es@) =~~= Seq::<(Seq<char>, JsonModel)>::empty());
    push_entry(&mut es, owned("-version"), JsonValue::Str(owned("1")));
    let ghost head = entries_model(es@);
    assert(head =~~= seq![("-version"@, JsonModel::Str("1"@))]);
    let mut i: usize = 0;
    assert(channel_entries(names).take(0) =~= Seq::<(Seq<char>, JsonModel)>::empty());
    while i < n
        invariant
            i <= n,
            n == channel_entries(names).len(),
            n <= wl.file_names@.len(),
            names == wl@.file_names,
            tags@.len() == 6,
            forall|k: int| 0 <= k < 6 ==> (#[trigger] tags@[k])@ == channel_tag(k),
            entries_model(es@) == head + channel_entries(names).take(i as int),
        decreases n - i,
    {
        let ghost before = entries_model(es@);
        push_entry(&mut es, owned(tags[i]), JsonValue::Str(wl.file_names[i].clone()));
        assert(channel_entries(names).take(i + 1) =~= channel_entries(names).take(i as int).push(
            channel_entries(names)[i as int],
        ));
        assert(entries_model(es@) =~~= head + channel_entries(names).take(i + 1));
        i += 1;
    }
    assert(channel_entries(names).take(n as int) =~= channel_entries(names));
    let st = storage_json(tag, wl.storage_path.as_str());
    let ghost gs = st@;
    let ghost mid = entries_model(es@);
    push_entry(&mut es, owned("channel_configuration"), JsonValue::Str(owned("5.1")));
    push_entry(&mut es, owned("timecode_frame_rate"), JsonValue::Str(owned(tc)));
    push_entry(&mut es, owned("offset"), JsonValue::Str(owned(off)));
    push_entry(&mut es, owned("ffoa"), JsonValue::Str(owned(ffoa)));
    push_entry(&mut es, owned("storage"), st);
    assert(entries_model(es@) =~~= mid + seq![
        ("channel_configuration"@, JsonModel::Str("5.1"@)),
        ("timecode_frame_rate"@, JsonModel::Str(tc@)),
        ("offset"@, JsonModel::Str(off@)),
        ("ffoa"@, JsonModel::Str(ffoa@)),
        ("storage"@, gs),
    ]);
    let r = JsonValue::Object(es);
    assert(r@ =~~= ac4ims_wav_list_json_model(tag@, wl@, tc@, off@, ffoa@));
    r
}

/// The input object of the WAV groups present: `wav` (its first file) and
/// `wav_list`, with the input timecodes.
pub open spec fn ac4ims_pcm_input_json_model(
    tag: Seq<char>,
    wav: Option<IoModel>,
    wav_list: Option<IoModel>,
    tc: Seq<char>,
    off: Seq<char>,
    ffoa: Seq<char>,
) -> JsonModel {
    let a: Seq<(Seq<char>, JsonModel)> = match wav {
        Some(w) => seq![("wav"@, timed_input_entries(tag, w.storage_path, w.file_names[0], tc, off, ffoa))],
        None => Seq::empty(),
    };
    let b: Seq<(Seq<char>, JsonModel)> = match wav_list {
        Some(wl) => seq![("wav_list"@, ac4ims_wav_list_json_model(tag, wl, tc, off, ffoa))],
        None => Seq::empty(),
    };
    JsonModel::Object(a + b)
}

/// The input object of the WAV groups present, with the input timecodes.
pub fn pcm_input_json_node_with_timecodes(
    storage_tag: &str,
    groups: &ResolvedInputGroups,
    input_timecode_frame_rate: &str,
    offset: &str,
    ffoa: &str,
) -> (r: JsonValue)
    requires
        groups.wav matches Some(w) ==> w.file_names@.len() > 0,
    ensures
        r@ == ac4ims_pcm_input_json_model(
            storage_tag@,
            opt_io(groups.wav),
            opt_io(groups.wav_list),
            input_timecode_frame_rate@,
            offset@,
            ffoa@,
        ),
{
    let ghost (tc, off, ff) = (input_timecode_frame_rate@, offset@, ffoa@);
    let ghost a: Seq<(Seq<char>, JsonModel)> = match opt_io(groups.wav) {
        Some(w) => seq![("wav"@, timed_input_entries(storage_tag@, w.storage_path, w.file_names[0], tc, off, ff))],
        None => Seq::empty(),
    };
    let ghost b: Seq<(Seq<char>, JsonModel)> = match opt_io(groups.wav_list) {
        Some(wl) => seq![("wav_list"@, ac4ims_wav_list_json_model(storage_tag@, wl, tc, off, ff))],
        None => Seq::empty(),
    };
    let mut es: Vec<(String, JsonValue)> = Vec::new();
    assert(entries_model(es@) =~~= Seq::<(Seq<char>, JsonModel)>::empty());
    if let Some(wav) = &groups.wav {
        let first = wav.file_names[0].as_str();
        assert(wav@.file_names[0] == first@);
        let v = timed_input_json(
            storage_tag,
            wav.storage_path.as_str(),
            first,
            input_timecode_frame_rate,
            offset,
            ffoa,
        );
        push_entry(&mut es, owned("wav"), v);
        assert(entries_model(es@) =~~= a);
    } else {
        assert(entries_model(es@) =~~= a);
    }
    if let Some(wl) = &groups.wav_list {
        let v = wav_list_json(storage_tag, wl, input_timecode_frame_rate, offset, ffoa);
        push_entry(&mut es, owned("wav_list"), v);
        assert(entries_model(es@) =~~= a + b);
    } else {
        assert(entries_model(es@) =~~= a + b);
    }
    let r = JsonValue::Object(es);
    assert(r@ =~~= ac4ims_pcm_input_json_model(storage_tag@, opt_io(groups.wav), opt_io(groups.wav_list), tc, off, ff));
    r
}

/// The `output` object for the job's container and first file name.
pub open spec fn ac4ims_output_json_model(tag: Seq<char>, j: JobModel) -> JsonModel {
    match j.output.container {
        OutputContainer::Ac4 => single(
            "ac4"@,
            JsonModel::Object(
                seq![
                    ("-version"@, JsonModel::Str("1"@)),
                    ("file_name"@, JsonModel::Str(j.output.file_names[0])),
                    ("storage"@, storage_json_model(tag, j.output.storage_path)),
                ],
            ),
        ),
        OutputContainer::Mp4 => single(
            "mp4"@,
            JsonModel::Object(
                seq![
                    ("-version"@, JsonModel::Str("1"@)),
                    ("output_format"@, JsonModel::Str("mp4"@)),
                    ("override_frame_rate"@, JsonModel::Str("no"@)),
                    ("fill_video"@, JsonModel::Bool(false)),
                    ("file_name"@, JsonModel::Str(j.output.file_names[0])),
                    ("storage"@, storage_json_model(tag, j.output.storage_path)),
                ],
            ),
        ),
    }
}

fn output_json(tag: &str, job: &ResolvedJob) -> (r: JsonValue)
    requires
        job.output.file_names@.len() > 0,
    ensures
        r@ == ac4ims_output_json_model(tag@, job@),
{
    let first = job.output.file_names[0].as_str();
    assert(job@.output.file_names[0] == first@);
    let st = storage_json(tag, job.output.storage_path.as_str());
    let ghost gs = st@;
    let mut es: Vec<(String, JsonValue)> = Vec::new();
    assert(entries_model(es@) =~~= Seq::<(Seq<char>, JsonModel)>::empty());
    push_entry(&mut es, owned("-version"), JsonValue::Str(owned("1")));
    match job.output.container {
        OutputContainer::Ac4 => {
            push_entry(&mut es, owned("file_name"), JsonValue::Str(owned(first)));
            push_entry(&mut es, owned("storage"), st);
            assert(entries_model(es@) =~~= seq![
                ("-version"@, JsonModel::Str("1"@)),
                ("file_name"@, JsonModel::Str(first@)),
                ("storage"@, gs),
            ]);
            let v = JsonValue::Object(es);
            let r = single_exec("ac4", v);
            assert(r@ =~~= ac4ims_output_json_model(tag@, job@));
            r
        },
        OutputContainer::Mp4 => {
            push_entry(&mut es, owned("output_format"), JsonValue::Str(owned("mp4")));
            push_entry(&mut es, owned("override_frame_rate"), JsonValue::Str(owned("no")));
            push_entry(&mut es, owned("fill_video"), JsonValue::Bool(false));
            push_entry(&mut es, owned("file_name"), JsonValue::Str(owned(first)));
            push_entry(&mut es, owned("storage"), st);
            assert(entries_model(es@) =~~= seq![
                ("-version"@, JsonModel::Str("1"@)),
                ("output_format"@, JsonModel::Str("mp4"@)),
                ("override_frame_rate"@, JsonModel::Str("no"@)),
                ("fill_video"@, JsonModel::Bool(false)),
                ("file_name"@, JsonModel::Str(first@)),
                ("storage"@, gs),
            ]);
            let v = JsonValue::Object(es);
            let r = single_exec("mp4", v);
            assert(r@ =~~= ac4ims_output_json_model(tag@, job@));
            r
        },
    }
}

/// The `job_config` tree of a job with its input object.
pub open spec fn ac4ims_json_model(j: JobModel, m: Ac4ImsModel, input: JsonModel) -> JsonModel {
    single(
        "job_config"@,
        JsonModel::Object(
            seq![
                ("input"@, single("audio"@, input)),
                ("filter"@, single("audio"@, single("encode_to_ims_ac4"@, ac4ims_filter_json_model(m)))),
                ("output"@, ac4ims_output_json_model(storage_tag_spec(j.job_mode), j)),
                ("misc"@, single("temp_dir"@, misc_json_model(j.temp_dir, j.clean_temp))),
            ],
        ),
    )
}

/// The `job_config` tree of a job with its input object; the job has an
/// output file name.
pub fn json_structure(job: &ResolvedJob, filter: &Ac4ImsFilter, input_node: JsonValue) -> (r: JsonValue)
    requires
        job.output.file_names@.len() > 0,
    ensures
        r@ == ac4ims_json_model(job@, filter@, input_node@),
{
    let ghost gi = input_node@;
    let tag = storage_tag(job.job_mode);
    let a = single_exec("audio", input_node);
    let b = filter_json(filter);
    let b = single_exec("encode_to_ims_ac4", b);
    let b = single_exec("audio", b);
    let c = output_json(tag, job);
    let d = misc_json(job.misc.temp_dir.as_str(), job.misc.clean_temp);
    let d = single_exec("temp_dir", d);
    let ghost (ga, gb, gc, gd) = (a@, b@, c@, d@);
    let mut es: Vec<(String, JsonValue)> = Vec::new();
    assert(entries_model(es@) =~~= Seq::<(Seq<char>, JsonModel)>::empty());
    push_entry(&mut es, owned("input"), a);
    push_entry(&mut es, owned("filter"), b);
    push_entry(&mut es, owned("output"), c);
    push_entry(&mut es, owned("misc"), d);
    assert(entries_model(es@) =~~= seq![("input"@, ga), ("filter"@, gb), ("output"@, gc), ("misc"@, gd)]);
    let top = JsonValue::Object(es);
    let r = single_exec("job_config", top);
    assert(r@ =~~= ac4ims_json_model(job@, filter@, gi));
    r
}

} // verus!
