//! The DEE XML tree of `thd_atmos_wav_v1` jobs.
use vstd::prelude::*;

use crate::render::{attrs_model, lemma_child_get_at, node_tag, xml_in, xml_value, XmlModel, XmlNode};
use crate::resolve::{IoModel, JobModel, ResolvedIo, ResolvedJob};
use crate::template::common::{misc_model, misc_node, storage_model, storage_node, storage_tag, storage_tag_spec};
use crate::template::thd_atmos_wav_v1::{ThdAtmosWavV1Filter, ThdAtmosWavV1Model};
use crate::template::thd_v1::xml::{filter_node, output_node, thd_filter_model, thd_output_model};
use crate::text::owned;

verus! {

/// One audio input: its file, its timing and its storage.
pub open spec fn audio_input_model(
    name: Seq<char>,
    file: Seq<char>,
    frame_rate: Seq<char>,
    offset: Seq<char>,
    ffoa: Seq<char>,
    tag: Seq<char>,
    path: Seq<char>,
) -> XmlModel {
    XmlModel::Element {
        tag: name,
        attrs: seq![("version"@, "1"@)],
        children: seq![
            XmlModel::Leaf { tag: "file_name"@, value: file },
            XmlModel::Leaf { tag: "timecode_frame_rate"@, value: frame_rate },
            XmlModel::Leaf { tag: "offset"@, value: offset },
            XmlModel::Leaf { tag: "ffoa"@, value: ffoa },
            storage_model(tag, path),
        ],
    }
}

fn audio_input_node(
    name: &str,
    file: &str,
    frame_rate: &str,
    offset: &str,
    ffoa: &str,
    tag: &str,
    path: &str,
) -> (r: XmlNode)
    ensures
        r@ == audio_input_model(name@, file@, frame_rate@, offset@, ffoa@, tag@, path@),
{
    let n1 = XmlNode::leaf(owned("file_name"), owned(file));
    let n2 = XmlNode::leaf(owned("timecode_frame_rate"), owned(frame_rate));
    let n3 = XmlNode::leaf(owned("offset"), owned(offset));
    let n4 = XmlNode::leaf(owned("ffoa"), owned(ffoa));
    let n5 = storage_node(tag, path);
    let ghost gs = seq![n1@, n2@, n3@, n4@, n5@];
    let cs = vec![n1, n2, n3, n4, n5];
    assert(cs@.map_values(|c: XmlNode| c@) =~= gs);
    let at: Vec<(String, String)> = vec![(owned("version"), owned("1"))];
    assert(attrs_model(at@) =~= seq![("version"@, "1"@)]);
    let r = XmlNode::element(owned(name), at, cs);
    assert(r@ =~~= audio_input_model(name@, file@, frame_rate@, offset@, ffoa@, tag@, path@));
    r
}

/// The `input` element: the mezzanine at its own timing, then the WAV file
/// at the filter's.
pub open spec fn thd_atmos_wav_input_model(tag: Seq<char>, a: IoModel, w: IoModel, m: ThdAtmosWavV1Model) -> XmlModel {
    XmlModel::Element {
        tag: "input"@,
        attrs: seq![],
        children: seq![
            XmlModel::Element {
                tag: "audio"@,
                attrs: seq![],
                children: seq![
                    audio_input_model("atmos_mezz"@, a.file_names[0], "not_indicated"@, "auto"@, "auto"@, tag, a.storage_path),
                    audio_input_model("wav"@, w.file_names[0], m.input_timecode_frame_rate, m.offset, m.ffoa, tag, w.storage_path),
                ],
            },
        ],
    }
}

/// The `input` element.
pub fn input_node(tag: &str, a: &ResolvedIo, w: &ResolvedIo, f: &ThdAtmosWavV1Filter) -> (r: XmlNode)
    requires
        a.file_names.len() > 0,
        w.file_names.len() > 0,
    ensures
        r@ == thd_atmos_wav_input_model(tag@, a@, w@, f@),
{
    let x = audio_input_node(
        "atmos_mezz",
        a.file_names[0].as_str(),
        "not_indicated",
        "auto",
        "auto",
        tag,
        a.storage_path.as_str(),
    );
    let y = audio_input_node(
        "wav",
        w.file_names[0].as_str(),
        f.input_timecode_frame_rate.as_str(),
        f.offset.as_str(),
        f.ffoa.as_str(),
        tag,
        w.storage_path.as_str(),
    );
    let ghost (gx, gy) = (x@, y@);
    let cs = vec![x, y];
    assert(cs@.map_values(|c: XmlNode| c@) =~= seq![gx, gy]);
    let at: Vec<(String, String)> = Vec::new();
    assert(attrs_model(at@) =~= Seq::<(Seq<char>, Seq<char>)>::empty());
    let audio = XmlNode::element(owned("audio"), at, cs);
    let ghost ga = audio@;
    let cs2 = vec![audio];
    assert(cs2@.map_values(|c: XmlNode| c@) =~= seq![ga]);
    let at2: Vec<(String, String)> = Vec::new();
    assert(attrs_model(at2@) =~= Seq::<(Seq<char>, Seq<char>)>::empty());
    let r = XmlNode::element(owned("input"), at2, cs2);
    assert(r@ =~~= thd_atmos_wav_input_model(tag@, a@, w@, f@));
    r
}

/// Whether a job has what its tree reads: the mezzanine and WAV groups,
/// each with a file, and an output file.
pub open spec fn has_mixed_inputs(j: JobModel) -> bool {
    &&& j.input_groups matches Some(g) && g.0 matches Some(a) && a.file_names.len() > 0
    &&& j.input_groups matches Some(g) && g.1 matches Some(w) && w.file_names.len() > 0
    &&& j.output.file_names.len() > 0
}

/// The `job_config` tree of a job.
pub open spec fn thd_atmos_wav_xml_model(j: JobModel, m: ThdAtmosWavV1Model) -> XmlModel {
    let tag = storage_tag_spec(j.job_mode);
    let g = j.input_groups->0;
    XmlModel::Element {
        tag: "job_config"@,
        attrs: seq![],
        children: seq![
            thd_atmos_wav_input_model(tag, g.0->0, g.1->0, m),
            thd_filter_model(m.encode),
            thd_output_model(tag, j.output.storage_path, j.output.file_names[0]),
            misc_model(j.temp_dir, j.clean_temp),
        ],
    }
}

/// The `job_config` tree of a job.
pub fn xml_structure(job: &ResolvedJob, f: &ThdAtmosWavV1Filter) -> (r: XmlNode)
    requires
        has_mixed_inputs(job@),
    ensures
        r@ == thd_atmos_wav_xml_model(job@, f@),
{
    let tag = storage_tag(job.job_mode);
    let groups = job.input_groups.as_ref().unwrap();
    let a = groups.atmos_mezz.as_ref().unwrap();
    let w = groups.wav.as_ref().unwrap();
    let x = input_node(tag, a, w, f);
    let ghost gx = x@;
    let y = filter_node(&f.encode);
    let ghost gy = y@;
    let z = output_node(tag, job.output.storage_path.as_str(), job.output.file_names[0].as_str());
    let ghost gz = z@;
    let d = misc_node(job.misc.temp_dir.as_str(), job.misc.clean_temp);
    let ghost gd = d@;
    let cs = vec![x, y, z, d];
    assert(cs@.map_values(|c: XmlNode| c@) =~= seq![gx, gy, gz, gd]);
    let at: Vec<(String, String)> = Vec::new();
    assert(attrs_model(at@) =~= Seq::<(Seq<char>, Seq<char>)>::empty());
    let r = XmlNode::element(owned("job_config"), at, cs);
    assert(r@ =~~= thd_atmos_wav_xml_model(job@, f@));
    r
}

/// The XML tree of a job reads its files where the job puts them: the
/// mezzanine's file and directory are those of the job's mezzanine group,
/// the WAV file's those of its WAV group, the encoded file's the job's
/// output ones, and the temporary directory is the job's, each directory
/// under the storage tag of the job mode.
pub proof fn law_thd_atmos_wav_xml_paths(j: JobModel, m: ThdAtmosWavV1Model)
    ensures
        ({
            let t = Some(thd_atmos_wav_xml_model(j, m));
            let tag = if j.job_mode == crate::spec::JobMode::Single {
                "local"@
            } else {
                "local_multi_path"@
            };
            let g = j.input_groups->0;
            let a = g.0->0;
            let w = g.1->0;
            let audio = xml_in(xml_in(t, "input"@), "audio"@);
            let mezz = xml_in(audio, "atmos_mezz"@);
            let wav = xml_in(audio, "wav"@);
            let dst = xml_in(xml_in(t, "output"@), "mlp"@);
            &&& xml_value(xml_in(xml_in(xml_in(mezz, "storage"@), tag), "path"@)) == Some(a.storage_path)
            &&& xml_value(xml_in(mezz, "file_name"@)) == Some(a.file_names[0])
            &&& xml_value(xml_in(xml_in(xml_in(wav, "storage"@), tag), "path"@)) == Some(w.storage_path)
            &&& xml_value(xml_in(wav, "file_name"@)) == Some(w.file_names[0])
            &&& xml_value(xml_in(xml_in(xml_in(dst, "storage"@), tag), "path"@)) == Some(j.output.storage_path)
            &&& xml_value(xml_in(dst, "file_name"@)) == Some(j.output.file_names[0])
            &&& xml_value(xml_in(xml_in(xml_in(t, "misc"@), "temp_dir"@), "path"@)) == Some(j.temp_dir)
        }),
{
    reveal_strlit("job_config");
    reveal_strlit("input");
    reveal_strlit("filter");
    reveal_strlit("output");
    reveal_strlit("misc");
    reveal_strlit("audio");
    reveal_strlit("temp_dir");
    reveal_strlit("storage");
    reveal_strlit("file_name");
    reveal_strlit("-version");
    reveal_strlit("timecode_frame_rate");
    reveal_strlit("offset");
    reveal_strlit("ffoa");
    reveal_strlit("atmos_mezz");
    reveal_strlit("wav");
    reveal_strlit("mlp");
    let tag = storage_tag_spec(j.job_mode);
    crate::template::common::lemma_storage_tag(j.job_mode);
    let g = j.input_groups->0;
    let a = g.0->0;
    let w = g.1->0;
    let t = thd_atmos_wav_xml_model(j, m);
    let cs = t->Element_children;
    assert("input"@.len() != "output"@.len());
    assert("filter"@[0] != "output"@[0]);
    assert("input"@.len() != "misc"@.len());
    assert("filter"@.len() != "misc"@.len());
    assert("output"@.len() != "misc"@.len());
    lemma_child_get_at(cs, "input"@, 0);
    lemma_child_get_at(cs, "output"@, 2);
    lemma_child_get_at(cs, "misc"@, 3);
    reveal_with_fuel(crate::render::child_get, 2);
    let au = cs[0]->Element_children[0]->Element_children;
    assert("atmos_mezz"@.len() != "wav"@.len());
    lemma_child_get_at(au, "atmos_mezz"@, 0);
    lemma_child_get_at(au, "wav"@, 1);
    assert("file_name"@.len() != "storage"@.len());
    let mc = au[0]->Element_children;
    assert forall|k: int| 0 <= k < 4 implies node_tag(mc[k]) != Some("storage"@) by {
        assert(node_tag(mc[k])->0.len() != "storage"@.len());
    }
    lemma_child_get_at(mc, "storage"@, 4);
    lemma_child_get_at(mc, "file_name"@, 0);
    let wc = au[1]->Element_children;
    assert forall|k: int| 0 <= k < 4 implies node_tag(wc[k]) != Some("storage"@) by {
        assert(node_tag(wc[k])->0.len() != "storage"@.len());
    }
    lemma_child_get_at(wc, "storage"@, 4);
    lemma_child_get_at(wc, "file_name"@, 0);
    let ec = cs[2]->Element_children[0]->Element_children;
    lemma_child_get_at(ec, "storage"@, 1);
    lemma_child_get_at(ec, "file_name"@, 0);
    crate::template::common::lemma_storage_xml_path(tag, a.storage_path);
    crate::template::common::lemma_storage_xml_path(tag, w.storage_path);
    crate::template::common::lemma_storage_xml_path(tag, j.output.storage_path);
    crate::template::common::lemma_misc_xml_path(j.temp_dir, j.clean_temp);
}

} // verus!
