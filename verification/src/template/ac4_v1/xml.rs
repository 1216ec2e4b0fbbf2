//! The DEE XML tree of `ac4_v1` jobs.
use vstd::prelude::*;

use crate::render::{attrs_model, file_list_text, render_file_name_list, strings_model, PredModel, Predicate, XmlModel, XmlNode};
use crate::resolve::JobModel;
use crate::template::common::{misc_model, misc_node, storage_model, storage_node};
use crate::text::owned;

verus! {

/// The `input` element.
pub open spec fn ac4v1_input_model(path: Seq<char>, files: Seq<char>) -> XmlModel {
    XmlModel::Element {
        tag: "input"@,
        attrs: seq![],
        children: seq![
            XmlModel::Element {
                tag: "audio"@,
                attrs: seq![],
                children: seq![
                    XmlModel::Element {
                        tag: "ac4"@,
                        attrs: seq![("version"@, "1"@)],
                        children: seq![
                            XmlModel::Leaf { tag: "file_name"@, value: files },
                            storage_model("local"@, path),
                        ],
                    },
                ],
            },
        ],
    }
}

/// The `input` element.
pub fn input_node(path_s: &str, files_s: &str) -> (r: XmlNode)
    ensures
        r@ == ac4v1_input_model(path_s@, files_s@),
{
    let ghost path = path_s@;
    let ghost files = files_s@;
    let n1 = XmlNode::leaf(owned("file_name"), owned(files_s));
    let ghost g2 = n1@;
    let n3 = storage_node("local", path_s);
    let ghost g4 = n3@;
    let cs5 = vec![n1, n3];
    assert(cs5@.map_values(|c: XmlNode| c@) =~= seq![g2, g4]);
    let at6: Vec<(String, String)> = vec![(owned("version"), owned("1"))];
    assert(attrs_model(at6@) =~= seq![("version"@, "1"@)]);
    let n7 = XmlNode::element(owned("ac4"), at6, cs5);
    assert(n7@ =~~= (XmlModel::Element {
        tag: "ac4"@,
        attrs: seq![("version"@, "1"@)],
        children: seq![
            XmlModel::Leaf { tag: "file_name"@, value: files },
            storage_model("local"@, path),
        ],
    }));
    let ghost g8 = n7@;
    let cs9 = vec![n7];
    assert(cs9@.map_values(|c: XmlNode| c@) =~= seq![g8]);
    let at10: Vec<(String, String)> = Vec::new();
    assert(attrs_model(at10@) =~= Seq::<(Seq<char>, Seq<char>)>::empty());
    let n11 = XmlNode::element(owned("audio"), at10, cs9);
    assert(n11@ =~~= (XmlModel::Element {
        tag: "audio"@,
        attrs: seq![],
        children: seq![
            XmlModel::Element {
                tag: "ac4"@,
                attrs: seq![("version"@, "1"@)],
                children: seq![
                    XmlModel::Leaf { tag: "file_name"@, value: files },
                    storage_model("local"@, path),
                ],
            },
        ],
    }));
    let ghost g12 = n11@;
    let cs13 = vec![n11];
    assert(cs13@.map_values(|c: XmlNode| c@) =~= seq![g12]);
    let at14: Vec<(String, String)> = Vec::new();
    assert(attrs_model(at14@) =~= Seq::<(Seq<char>, Seq<char>)>::empty());
    let n15 = XmlNode::element(owned("input"), at14, cs13);
    assert(n15@ =~~= (XmlModel::Element {
        tag: "input"@,
        attrs: seq![],
        children: seq![
            XmlModel::Element {
                tag: "audio"@,
                attrs: seq![],
                children: seq![
                    XmlModel::Element {
                        tag: "ac4"@,
                        attrs: seq![("version"@, "1"@)],
                        children: seq![
                            XmlModel::Leaf { tag: "file_name"@, value: files },
                            storage_model("local"@, path),
                        ],
                    },
                ],
            },
        ],
    }));
    n15
}

/// The `output` element.
pub open spec fn ac4v1_output_model(path: Seq<char>, files: Seq<char>) -> XmlModel {
    XmlModel::Element {
        tag: "output"@,
        attrs: seq![],
        children: seq![
            XmlModel::Element {
                tag: "ac4"@,
                attrs: seq![("version"@, "1"@)],
                children: seq![
                    XmlModel::Leaf { tag: "file_name"@, value: files },
                    storage_model("local"@, path),
                ],
            },
        ],
    }
}

/// The `output` element.
pub fn output_node(path_s: &str, files_s: &str) -> (r: XmlNode)
    ensures
        r@ == ac4v1_output_model(path_s@, files_s@),
{
    let ghost path = path_s@;
    let ghost files = files_s@;
    let n1 = XmlNode::leaf(owned("file_name"), owned(files_s));
    let ghost g2 = n1@;
    let n3 = storage_node("local", path_s);
    let ghost g4 = n3@;
    let cs5 = vec![n1, n3];
    assert(cs5@.map_values(|c: XmlNode| c@) =~= seq![g2, g4]);
    let at6: Vec<(String, String)> = vec![(owned("version"), owned("1"))];
    assert(attrs_model(at6@) =~= seq![("version"@, "1"@)]);
    let n7 = XmlNode::element(owned("ac4"), at6, cs5);
    assert(n7@ =~~= (XmlModel::Element {
        tag: "ac4"@,
        attrs: seq![("version"@, "1"@)],
        children: seq![
            XmlModel::Leaf { tag: "file_name"@, value: files },
            storage_model("local"@, path),
        ],
    }));
    let ghost g8 = n7@;
    let cs9 = vec![n7];
    assert(cs9@.map_values(|c: XmlNode| c@) =~= seq![g8]);
    let at10: Vec<(String, String)> = Vec::new();
    assert(attrs_model(at10@) =~= Seq::<(Seq<char>, Seq<char>)>::empty());
    let n11 = XmlNode::element(owned("output"), at10, cs9);
    assert(n11@ =~~= (XmlModel::Element {
        tag: "output"@,
        attrs: seq![],
        children: seq![
            XmlModel::Element {
                tag: "ac4"@,
                attrs: seq![("version"@, "1"@)],
                children: seq![
                    XmlModel::Leaf { tag: "file_name"@, value: files },
                    storage_model("local"@, path),
                ],
            },
        ],
    }));
    n11
}

/// The `job_config` tree of a job.
pub open spec fn ac4v1_xml_model(j: JobModel) -> XmlModel {
    XmlModel::Element {
        tag: "job_config"@,
        attrs: seq![],
        children: seq![
            ac4v1_input_model(j.input.storage_path, file_list_text(j.input.file_names)),
            ac4v1_output_model(j.output.storage_path, file_list_text(j.output.file_names)),
            misc_model(j.temp_dir, j.clean_temp),
        ],
    }
}

/// The `job_config` tree of a job.
pub fn xml_structure(job: &crate::resolve::ResolvedJob) -> (r: XmlNode)
    ensures
        r@ == ac4v1_xml_model(job@),
{
    let input_files = render_file_name_list(&job.input.file_names);
    let output_files = render_file_name_list(&job.output.file_names);
    assert(strings_model(job.input.file_names@) =~= job@.input.file_names);
    assert(strings_model(job.output.file_names@) =~= job@.output.file_names);
    let a = input_node(job.input.storage_path.as_str(), input_files.as_str());
    let ghost ga = a@;
    let c = output_node(job.output.storage_path.as_str(), output_files.as_str());
    let ghost gc = c@;
    let d = misc_node(job.misc.temp_dir.as_str(), job.misc.clean_temp);
    let ghost gd = d@;
    let cs = vec![a, c, d];
    assert(cs@.map_values(|c: XmlNode| c@) =~= seq![ga, gc, gd]);
    let at: Vec<(String, String)> = Vec::new();
    assert(attrs_model(at@) =~= Seq::<(Seq<char>, Seq<char>)>::empty());
    let r = XmlNode::element(owned("job_config"), at, cs);
    assert(r@ =~~= ac4v1_xml_model(job@));
    r
}

} // verus!
