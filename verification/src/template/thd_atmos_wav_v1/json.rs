//! The DEE JSON tree of `thd_atmos_wav_v1` jobs.
use vstd::prelude::*;

use crate::json::{entries_model, json_in, push_entry, JsonModel, JsonValue};
use crate::resolve::{IoModel, JobModel, ResolvedIo, ResolvedJob};
use crate::template::common::{misc_json, misc_json_model, storage_json, storage_json_model, storage_tag, storage_tag_spec};
use crate::template::thd_atmos_wav_v1::xml::has_mixed_inputs;
use crate::template::thd_atmos_wav_v1::{ThdAtmosWavV1Filter, ThdAtmosWavV1Model};
use crate::template::thd_v1::json::{
    filter_json, output_json, single, single_exec, thd_filter_json_model, thd_output_json_model,
};
use crate::text::owned;

verus! {

/// One audio input object: its file, its timing and its storage.
pub open spec fn audio_input_json_model(
    file: Seq<char>,
    frame_rate: Seq<char>,
    offset: Seq<char>,
    ffoa: Seq<char>,
    tag: Seq<char>,
    path: Seq<char>,
) -> JsonModel {
    JsonModel::Object(
        seq![
            ("-version"@, JsonModel::Str("1"@)),
            ("file_name"@, JsonModel::Str(file)),
            ("timecode_frame_rate"@, JsonModel::Str(frame_rate)),
            ("offset"@, JsonModel::Str(offset)),
            ("ffoa"@, JsonModel::Str(ffoa)),
            ("storage"@, storage_json_model(tag, path)),
        ],
    )
}

fn audio_input_json(file: &str, frame_rate: &str, offset: &str, ffoa: &str, tag: &str, path: &str) -> (r: JsonValue)
    ensures
        r@ == audio_input_json_model(file@, frame_rate@, offset@, ffoa@, tag@, path@),
{
    let v1 = JsonValue::Str(owned("1"));
    let v2 = JsonValue::Str(owned(file));
    let v3 = JsonValue::Str(owned(frame_rate));
    let v4 = JsonValue::Str(owned(offset));
    let v5 = JsonValue::Str(owned(ffoa));
    let v6 = storage_json(tag, path);
    let ghost (g1, g2, g3, g4, g5, g6) = (v1@, v2@, v3@, v4@, v5@, v6@);
    let mut es: Vec<(String, JsonValue)> = Vec::new();
    assert(entries_model(es@) =~~= Seq::<(Seq<char>, JsonModel)>::empty());
    push_entry(&mut es, owned("-version"), v1);
    push_entry(&mut es, owned("file_name"), v2);
    push_entry(&mut es, owned("timecode_frame_rate"), v3);
    push_entry(&mut es, owned("offset"), v4);
    push_entry(&mut es, owned("ffoa"), v5);
    push_entry(&mut es, owned("storage"), v6);
    assert(entries_model(es@) =~~= seq![
        ("-version"@, g1),
        ("file_name"@, g2),
        ("timecode_frame_rate"@, g3),
        ("offset"@, g4),
        ("ffoa"@, g5),
        ("storage"@, g6),
    ]);
    let r = JsonValue::Object(es);
    assert(r@ =~~= audio_input_json_model(file@, frame_rate@, offset@, ffoa@, tag@, path@));
    r
}

/// The `audio` input object: the mezzanine at its own timing, then the WAV
/// file at the filter's.
pub open spec fn thd_atmos_wav_audio_json_model(tag: Seq<char>, a: IoModel, w: IoModel, m: ThdAtmosWavV1Model) -> JsonModel {
    JsonModel::Object(
        seq![
            ("atmos_mezz"@, audio_input_json_model(a.file_names[0], "not_indicated"@, "auto"@, "auto"@, tag, a.storage_path)),
            ("wav"@, audio_input_json_model(w.file_names[0], m.input_timecode_frame_rate, m.offset, m.ffoa, tag, w.storage_path)),
        ],
    )
}

/// The JSON tree of a job.
pub open spec fn thd_atmos_wav_json_model(j: JobModel, m: ThdAtmosWavV1Model) -> JsonModel {
    let tag = storage_tag_spec(j.job_mode);
    let g = j.input_groups->0;
    single(
        "job_config"@,
        JsonModel::Object(
            seq![
                ("input"@, single("audio"@, thd_atmos_wav_audio_json_model(tag, g.0->0, g.1->0, m))),
                ("filter"@, single("audio"@, single("encode_to_dthd"@, thd_filter_json_model(m.encode)))),
                ("output"@, single("mlp"@, thd_output_json_model(tag, j.output.storage_path, j.output.file_names[0]))),
                ("misc"@, single("temp_dir"@, misc_json_model(j.temp_dir, j.clean_temp))),
            ],
        ),
    )
}

/// The JSON tree of a job.
pub fn json_structure(job: &ResolvedJob, f: &ThdAtmosWavV1Filter) -> (r: JsonValue)
    requires
        has_mixed_inputs(job@),
    ensures
        r@ == thd_atmos_wav_json_model(job@, f@),
{
    let tag = storage_tag(job.job_mode);
    let groups = job.input_groups.as_ref().unwrap();
    let a: &ResolvedIo = groups.atmos_mezz.as_ref().unwrap();
    let w: &ResolvedIo = groups.wav.as_ref().unwrap();
    let x = audio_input_json(a.file_names[0].as_str(), "not_indicated", "auto", "auto", tag, a.storage_path.as_str());
    let y = audio_input_json(
        w.file_names[0].as_str(),
        f.input_timecode_frame_rate.as_str(),
        f.offset.as_str(),
        f.ffoa.as_str(),
        tag,
        w.storage_path.as_str(),
    );
    let ghost (gx, gy) = (x@, y@);
    let mut audio: Vec<(String, JsonValue)> = Vec::new();
    assert(entries_model(audio@) =~~= Seq::<(Seq<char>, JsonModel)>::empty());
    push_entry(&mut audio, owned("atmos_mezz"), x);
    push_entry(&mut audio, owned("wav"), y);
    assert(entries_model(audio@) =~~= seq![("atmos_mezz"@, gx), ("wav"@, gy)]);
    let a1 = single_exec("audio", JsonValue::Object(audio));
    let b = filter_json(&f.encode);
    let b = single_exec("encode_to_dthd", b);
    let b = single_exec("audio", b);
    let c = output_json(tag, job.output.storage_path.as_str(), job.output.file_names[0].as_str());
    let c = single_exec("mlp", c);
    let d = misc_json(job.misc.temp_dir.as_str(), job.misc.clean_temp);
    let d = single_exec("temp_dir", d);
    let ghost (ga, gb, gc, gd) = (a1@, b@, c@, d@);
    let mut es: Vec<(String, JsonValue)> = Vec::new();
    assert(entries_model(es@) =~~= Seq::<(Seq<char>, JsonModel)>::empty());
    push_entry(&mut es, owned("input"), a1);
    push_entry(&mut es, owned("filter"), b);
    push_entry(&mut es, owned("output"), c);
    push_entry(&mut es, owned("misc"), d);
    assert(entries_model(es@) =~~= seq![("input"@, ga), ("filter"@, gb), ("output"@, gc), ("misc"@, gd)]);
    let top = JsonValue::Object(es);
    let r = single_exec("job_config", top);
    assert(r@ =~~= thd_atmos_wav_json_model(job@, f@));
    r
}

/// The JSON tree of a job reads its files where the job puts them: the
/// mezzanine's file and directory are those of the job's mezzanine group,
/// the WAV file's those of its WAV group, the encoded file's the job's
/// output ones, and the temporary directory is the job's; each directory is
/// given in double quotes, under the storage tag of the job mode.
pub proof fn law_thd_atmos_wav_json_paths(j: JobModel, m: ThdAtmosWavV1Model)
    ensures
        ({
            let t = Some(thd_atmos_wav_json_model(j, m));
            let tag = if j.job_mode == crate::spec::JobMode::Single {
                "local"@
            } else {
                "local_multi_path"@
            };
            let g = j.input_groups->0;
            let a = g.0->0;
            let w = g.1->0;
            let audio = json_in(json_in(json_in(t, "job_config"@), "input"@), "audio"@);
            let mezz = json_in(audio, "atmos_mezz"@);
            let wav = json_in(audio, "wav"@);
            let dst = json_in(json_in(json_in(t, "job_config"@), "output"@), "mlp"@);
            &&& json_in(json_in(json_in(mezz, "storage"@), tag), "path"@) == Some(
                JsonModel::Str(seq!['"'] + a.storage_path + seq!['"']),
            )
            &&& json_in(mezz, "file_name"@) == Some(JsonModel::Str(a.file_names[0]))
            &&& json_in(json_in(json_in(wav, "storage"@), tag), "path"@) == Some(
                JsonModel::Str(seq!['"'] + w.storage_path + seq!['"']),
            )
            &&& json_in(wav, "file_name"@) == Some(JsonModel::Str(w.file_names[0]))
            &&& json_in(json_in(json_in(dst, "storage"@), tag), "path"@) == Some(
                JsonModel::Str(seq!['"'] + j.output.storage_path + seq!['"']),
            )
            &&& json_in(dst, "file_name"@) == Some(JsonModel::Str(j.output.file_names[0]))
            &&& json_in(json_in(json_in(json_in(t, "job_config"@), "misc"@), "temp_dir"@), "path"@) == Some(
                JsonModel::Str(seq!['"'] + j.temp_dir + seq!['"']),
            )
        }),
{
    reveal_strlit("job_config");
    reveal_strlit("input");
    reveal_strlit("filter");
    reveal_strlit("output");
    reveal_strlit("misc");
    reveal_strlit("audio");
    reveal_strlit("temp_dir");
    reveal_strlit("storage");
    reveal_strlit("file_name");
    reveal_strlit("-version");
    reveal_strlit("timecode_frame_rate");
    reveal_strlit("offset");
    reveal_strlit("ffoa");
    reveal_strlit("atmos_mezz");
    reveal_strlit("wav");
    reveal_strlit("mlp");
    let tag = storage_tag_spec(j.job_mode);
    crate::template::common::lemma_storage_tag(j.job_mode);
    let g = j.input_groups->0;
    let a = g.0->0;
    let w = g.1->0;
    reveal_with_fuel(crate::json::entry_get, 2);
    let t = thd_atmos_wav_json_model(j, m);
    let es = t->Object_0[0].1->Object_0;
    assert(json_in(Some(t), "job_config"@) == Some(JsonModel::Object(es)));
    assert(es[0].0.len() != "misc"@.len());
    assert(es[1].0.len() != "misc"@.len());
    assert(es[2].0.len() != "misc"@.len());
    assert(es[0].0.len() != "output"@.len());
    assert(es[1].0[0] != "output"@[0]);
    crate::json::lemma_entry_get_at(es, "input"@, 0);
    crate::json::lemma_entry_get_at(es, "output"@, 2);
    crate::json::lemma_entry_get_at(es, "misc"@, 3);
    let au = es[0].1->Object_0[0].1->Object_0;
    assert("atmos_mezz"@.len() != "wav"@.len());
    crate::json::lemma_entry_get_at(au, "atmos_mezz"@, 0);
    crate::json::lemma_entry_get_at(au, "wav"@, 1);
    let mes = au[0].1->Object_0;
    assert forall|k: int| 0 <= k < 5 implies mes[k].0 != "storage"@ by {
        assert(mes[k].0.len() != "storage"@.len());
    }
    assert(mes[0].0.len() != "file_name"@.len());
    crate::json::lemma_entry_get_at(mes, "storage"@, 5);
    crate::json::lemma_entry_get_at(mes, "file_name"@, 1);
    let wes = au[1].1->Object_0;
    assert forall|k: int| 0 <= k < 5 implies wes[k].0 != "storage"@ by {
        assert(wes[k].0.len() != "storage"@.len());
    }
    assert(wes[0].0.len() != "file_name"@.len());
    crate::json::lemma_entry_get_at(wes, "storage"@, 5);
    crate::json::lemma_entry_get_at(wes, "file_name"@, 1);
    let oes = es[2].1->Object_0[0].1->Object_0;
    assert(oes[0].0.len() != "storage"@.len());
    assert(oes[1].0.len() != "storage"@.len());
    assert(oes[0].0.len() != "file_name"@.len());
    crate::json::lemma_entry_get_at(oes, "storage"@, 2);
    crate::json::lemma_entry_get_at(oes, "file_name"@, 1);
    crate::template::common::lemma_storage_json_path(tag, a.storage_path);
    crate::template::common::lemma_storage_json_path(tag, w.storage_path);
    crate::template::common::lemma_storage_json_path(tag, j.output.storage_path);
    crate::template::common::lemma_misc_json_path(j.temp_dir, j.clean_temp);
}

} // verus!
