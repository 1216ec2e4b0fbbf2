//! The DEE XML tree of `thd_v1` jobs.
use vstd::prelude::*;

use crate::render::{
    attrs_model, file_list_text, render_file_name_list, strings_model, xml_in, xml_value, PredModel,
    Predicate, XmlModel, XmlNode,
};
use crate::resolve::JobModel;
use crate::template::thd_v1::{ThdV1Filter, ThdV1Model};
use crate::template::common::{
    misc_model, misc_node, storage_model, storage_node, storage_tag, storage_tag_spec,
};
use crate::text::{bool_str, bool_text, i64_text, int_text, nat_digits, owned, u64_text};

verus! {

/// The `input` element.
pub open spec fn thd_input_model(tag: Seq<char>, path: Seq<char>, files: Seq<char>, m: ThdV1Model) -> XmlModel {
    XmlModel::Element {
        tag: "input"@,
        attrs: seq![],
        children: seq![
            XmlModel::Element {
                tag: "audio"@,
                attrs: seq![],
                children: seq![
                    XmlModel::Element {
                        tag: "atmos_mezz"@,
                        attrs: seq![("version"@, "1"@)],
                        children: seq![
                            XmlModel::Leaf { tag: "file_name"@, value: files },
                            XmlModel::Leaf { tag: "timecode_frame_rate"@, value: m.timecode_frame_rate },
                            XmlModel::Leaf { tag: "offset"@, value: "auto"@ },
                            XmlModel::Leaf { tag: "ffoa"@, value: "auto"@ },
                            storage_model(tag, path),
                        ],
                    },
                ],
            },
        ],
    }
}

/// The `input` element.
pub fn input_node(tag_s: &str, path_s: &str, files_s: &str, f: &ThdV1Filter) -> (r: XmlNode)
    ensures
        r@ == thd_input_model(tag_s@, path_s@, files_s@, f@),
{
    let ghost tag = tag_s@;
    let ghost path = path_s@;
    let ghost files = files_s@;
    let ghost m = f@;
    let n1 = XmlNode::leaf(owned("file_name"), owned(files_s));
    let ghost g2 = n1@;
    let n3 = XmlNode::leaf(owned("timecode_frame_rate"), f.timecode_frame_rate.clone());
    let ghost g4 = n3@;
    let n5 = XmlNode::leaf(owned("offset"), owned("auto"));
    let ghost g6 = n5@;
    let n7 = XmlNode::leaf(owned("ffoa"), owned("auto"));
    let ghost g8 = n7@;
    let n9 = storage_node(tag_s, path_s);
    let ghost g10 = n9@;
    let cs11 = vec![n1, n3, n5, n7, n9];
    assert(cs11@.map_values(|c: XmlNode| c@) =~= seq![g2, g4, g6, g8, g10]);
    let at12: Vec<(String, String)> = vec![(owned("version"), owned("1"))];
    assert(attrs_model(at12@) =~= seq![("version"@, "1"@)]);
    let n13 = XmlNode::element(owned("atmos_mezz"), at12, cs11);
    assert(n13@ =~~= (XmlModel::Element {
        tag: "atmos_mezz"@,
        attrs: seq![("version"@, "1"@)],
        children: seq![
            XmlModel::Leaf { tag: "file_name"@, value: files },
            XmlModel::Leaf { tag: "timecode_frame_rate"@, value: m.timecode_frame_rate },
            XmlModel::Leaf { tag: "offset"@, value: "auto"@ },
            XmlModel::Leaf { tag: "ffoa"@, value: "auto"@ },
            storage_model(tag, path),
        ],
    }));
    let ghost g14 = n13@;
    let cs15 = vec![n13];
    assert(cs15@.map_values(|c: XmlNode| c@) =~= seq![g14]);
    let at16: Vec<(String, String)> = Vec::new();
    assert(attrs_model(at16@) =~= Seq::<(Seq<char>, Seq<char>)>::empty());
    let n17 = XmlNode::element(owned("audio"), at16, cs15);
    assert(n17@ =~~= (XmlModel::Element {
        tag: "audio"@,
        attrs: seq![],
        children: seq![
            XmlModel::Element {
                tag: "atmos_mezz"@,
                attrs: seq![("version"@, "1"@)],
                children: seq![
                    XmlModel::Leaf { tag: "file_name"@, value: files },
                    XmlModel::Leaf { tag: "timecode_frame_rate"@, value: m.timecode_frame_rate },
                    XmlModel::Leaf { tag: "offset"@, value: "auto"@ },
                    XmlModel::Leaf { tag: "ffoa"@, value: "auto"@ },
                    storage_model(tag, path),
                ],
            },
        ],
    }));
    let ghost g18 = n17@;
    let cs19 = vec![n17];
    assert(cs19@.map_values(|c: XmlNode| c@) =~= seq![g18]);
    let at20: Vec<(String, String)> = Vec::new();
    assert(attrs_model(at20@) =~= Seq::<(Seq<char>, Seq<char>)>::empty());
    let n21 = XmlNode::element(owned("input"), at20, cs19);
    assert(n21@ =~~= (XmlModel::Element {
        tag: "input"@,
        attrs: seq![],
        children: seq![
            XmlModel::Element {
                tag: "audio"@,
                attrs: seq![],
                children: seq![
                    XmlModel::Element {
                        tag: "atmos_mezz"@,
                        attrs: seq![("version"@, "1"@)],
                        children: seq![
                            XmlModel::Leaf { tag: "file_name"@, value: files },
                            XmlModel::Leaf { tag: "timecode_frame_rate"@, value: m.timecode_frame_rate },
                            XmlModel::Leaf { tag: "offset"@, value: "auto"@ },
                            XmlModel::Leaf { tag: "ffoa"@, value: "auto"@ },
                            storage_model(tag, path),
                        ],
                    },
                ],
            },
        ],
    }));
    n21
}

/// The `filter` element.
pub open spec fn thd_filter_model(m: ThdV1Model) -> XmlModel {
    XmlModel::Element {
        tag: "filter"@,
        attrs: seq![],
        children: seq![
            XmlModel::Element {
                tag: "audio"@,
                attrs: seq![],
                children: seq![
                    XmlModel::Element {
                        tag: "encode_to_dthd"@,
                        attrs: seq![("version"@, "1"@)],
                        children: seq![
                            XmlModel::Element {
                                tag: "loudness_measurement"@,
                                attrs: seq![],
                                children: seq![
                                    XmlModel::Leaf { tag: "metering_mode"@, value: m.metering_mode },
                                    XmlModel::Leaf { tag: "dialogue_intelligence"@, value: bool_text(m.dialogue_intelligence) },
                                    XmlModel::Leaf { tag: "speech_threshold"@, value: nat_digits(m.speech_threshold as nat) },
                                ],
                            },
                            XmlModel::Leaf { tag: "timecode_frame_rate"@, value: m.timecode_frame_rate },
                            XmlModel::Leaf { tag: "start"@, value: m.start },
                            XmlModel::Leaf { tag: "end"@, value: m.end },
                            XmlModel::Leaf { tag: "time_base"@, value: m.time_base },
                            XmlModel::Leaf { tag: "prepend_silence_duration"@, value: m.prepend_silence_duration },
                            XmlModel::Leaf { tag: "append_silence_duration"@, value: m.append_silence_duration },
                            XmlModel::Element {
                                tag: "atmos_presentation"@,
                                attrs: seq![],
                                children: seq![
                                    XmlModel::Leaf { tag: "drc_profile"@, value: m.atmos_presentation_drc_profile },
                                    XmlModel::Leaf { tag: "spatial_clusters"@, value: m.spatial_clusters },
                                    XmlModel::Leaf { tag: "legacy_authoring_compatibility"@, value: bool_text(m.legacy_authoring_compatibility) },
                                ],
                            },
                            XmlModel::Element {
                                tag: "presentation_8ch"@,
                                attrs: seq![],
                                children: seq![
                                    XmlModel::Leaf { tag: "drc_profile"@, value: m.presentation_8ch_drc_profile },
                                    XmlModel::Leaf { tag: "surround_3db_attenuation"@, value: "true"@ },
                                ],
                            },
                            XmlModel::Element {
                                tag: "presentation_6ch"@,
                                attrs: seq![],
                                children: seq![
                                    XmlModel::Leaf { tag: "drc_profile"@, value: m.presentation_6ch_drc_profile },
                                    XmlModel::Leaf { tag: "surround_3db_attenuation"@, value: "true"@ },
                                ],
                            },
                            XmlModel::Element {
                                tag: "presentation_2ch"@,
                                attrs: seq![],
                                children: seq![
                                    XmlModel::Leaf { tag: "drc_profile"@, value: m.presentation_2ch_drc_profile },
                                    XmlModel::Leaf { tag: "drc_default_on"@, value: "true"@ },
                                    XmlModel::Leaf { tag: "format"@, value: "stereo"@ },
                                ],
                            },
                            XmlModel::Leaf { tag: "optimize_data_rate"@, value: bool_text(m.optimize_data_rate) },
                            XmlModel::Element {
                                tag: "embedded_timecodes"@,
                                attrs: seq![],
                                children: seq![
                                    XmlModel::Leaf { tag: "starting_timecode"@, value: m.starting_timecode },
                                    XmlModel::Leaf { tag: "frame_rate"@, value: m.frame_rate },
                                ],
                            },
                            XmlModel::Leaf { tag: "log_format"@, value: "txt"@ },
                            XmlModel::Leaf { tag: "custom_dialnorm"@, value: int_text(m.custom_dialnorm as int) },
                        ],
                    },
                ],
            },
        ],
    }
}

/// The `filter` element.
pub fn filter_node(f: &ThdV1Filter) -> (r: XmlNode)
    ensures
        r@ == thd_filter_model(f@),
{
    let ghost m = f@;
    let n1 = XmlNode::leaf(owned("metering_mode"), f.metering_mode.clone());
    let ghost g2 = n1@;
    let n3 = XmlNode::leaf(owned("dialogue_intelligence"), owned(bool_str(f.dialogue_intelligence)));
    let ghost g4 = n3@;
    let n5 = XmlNode::leaf(owned("speech_threshold"), u64_text(f.speech_threshold as u64));
    let ghost g6 = n5@;
    let cs7 = vec![n1, n3, n5];
    assert(cs7@.map_values(|c: XmlNode| c@) =~= seq![g2, g4, g6]);
    let at8: Vec<(String, String)> = Vec::new();
    assert(attrs_model(at8@) =~= Seq::<(Seq<char>, Seq<char>)>::empty());
    let n9 = XmlNode::element(owned("loudness_measurement"), at8, cs7);
    assert(n9@ =~~= (XmlModel::Element {
        tag: "loudness_measurement"@,
        attrs: seq![],
        children: seq![
            XmlModel::Leaf { tag: "metering_mode"@, value: m.metering_mode },
            XmlModel::Leaf { tag: "dialogue_intelligence"@, value: bool_text(m.dialogue_intelligence) },
            XmlModel::Leaf { tag: "speech_threshold"@, value: nat_digits(m.speech_threshold as nat) },
        ],
    }));
    let ghost g10 = n9@;
    let n11 = XmlNode::leaf(owned("timecode_frame_rate"), f.timecode_frame_rate.clone());
    let ghost g12 = n11@;
    let n13 = XmlNode::leaf(owned("start"), f.start.clone());
    let ghost g14 = n13@;
    let n15 = XmlNode::leaf(owned("end"), f.end.clone());
    let ghost g16 = n15@;
    let n17 = XmlNode::leaf(owned("time_base"), f.time_base.clone());
    let ghost g18 = n17@;
    let n19 = XmlNode::leaf(owned("prepend_silence_duration"), f.prepend_silence_duration.clone());
    let ghost g20 = n19@;
    let n21 = XmlNode::leaf(owned("append_silence_duration"), f.append_silence_duration.clone());
    let ghost g22 = n21@;
    let n23 = XmlNode::leaf(owned("drc_profile"), f.atmos_presentation_drc_profile.clone());
    let ghost g24 = n23@;
    let n25 = XmlNode::leaf(owned("spatial_clusters"), f.spatial_clusters.clone());
    let ghost g26 = n25@;
    let n27 = XmlNode::leaf(owned("legacy_authoring_compatibility"), owned(bool_str(f.legacy_authoring_compatibility)));
    let ghost g28 = n27@;
    let cs29 = vec![n23, n25, n27];
    assert(cs29@.map_values(|c: XmlNode| c@) =~= seq![g24, g26, g28]);
    let at30: Vec<(String, String)> = Vec::new();
    assert(attrs_model(at30@) =~= Seq::<(Seq<char>, Seq<char>)>::empty());
    let n31 = XmlNode::element(owned("atmos_presentation"), at30, cs29);
    assert(n31@ =~~= (XmlModel::Element {
        tag: "atmos_presentation"@,
        attrs: seq![],
        children: seq![
            XmlModel::Leaf { tag: "drc_profile"@, value: m.atmos_presentation_drc_profile },
            XmlModel::Leaf { tag: "spatial_clusters"@, value: m.spatial_clusters },
            XmlModel::Leaf { tag: "legacy_authoring_compatibility"@, value: bool_text(m.legacy_authoring_compatibility) },
        ],
    }));
    let ghost g32 = n31@;
    let n33 = XmlNode::leaf(owned("drc_profile"), f.presentation_8ch_drc_profile.clone());
    let ghost g34 = n33@;
    let n35 = XmlNode::leaf(owned("surround_3db_attenuation"), owned("true"));
    let ghost g36 = n35@;
    let cs37 = vec![n33, n35];
    assert(cs37@.map_values(|c: XmlNode| c@) =~= seq![g34, g36]);
    let at38: Vec<(String, String)> = Vec::new();
    assert(attrs_model(at38@) =~= Seq::<(Seq<char>, Seq<char>)>::empty());
    let n39 = XmlNode::element(owned("presentation_8ch"), at38, cs37);
    assert(n39@ =~~= (XmlModel::Element {
        tag: "presentation_8ch"@,
        attrs: seq![],
        children: seq![
            XmlModel::Leaf { tag: "drc_profile"@, value: m.presentation_8ch_drc_profile },
            XmlModel::Leaf { tag: "surround_3db_attenuation"@, value: "true"@ },
        ],
    }));
    let ghost g40 = n39@;
    let n41 = XmlNode::leaf(owned("drc_profile"), f.presentation_6ch_drc_profile.clone());
    let ghost g42 = n41@;
    let n43 = XmlNode::leaf(owned("surround_3db_attenuation"), owned("true"));
    let ghost g44 = n43@;
    let cs45 = vec![n41, n43];
    assert(cs45@.map_values(|c: XmlNode| c@) =~= seq![g42, g44]);
    let at46: Vec<(String, String)> = Vec::new();
    assert(attrs_model(at46@) =~= Seq::<(Seq<char>, Seq<char>)>::empty());
    let n47 = XmlNode::element(owned("presentation_6ch"), at46, cs45);
    assert(n47@ =~~= (XmlModel::Element {
        tag: "presentation_6ch"@,
        attrs: seq![],
        children: seq![
            XmlModel::Leaf { tag: "drc_profile"@, value: m.presentation_6ch_drc_profile },
            XmlModel::Leaf { tag: "surround_3db_attenuation"@, value: "true"@ },
        ],
    }));
    let ghost g48 = n47@;
    let n49 = XmlNode::leaf(owned("drc_profile"), f.presentation_2ch_drc_profile.clone());
    let ghost g50 = n49@;
    let n51 = XmlNode::leaf(owned("drc_default_on"), owned("true"));
    let ghost g52 = n51@;
    let n53 = XmlNode::leaf(owned("format"), owned("stereo"));
    let ghost g54 = n53@;
    let cs55 = vec![n49, n51, n53];
    assert(cs55@.map_values(|c: XmlNode| c@) =~= seq![g50, g52, g54]);
    let at56: Vec<(String, String)> = Vec::new();
    assert(attrs_model(at56@) =~= Seq::<(Seq<char>, Seq<char>)>::empty());
    let n57 = XmlNode::element(owned("presentation_2ch"), at56, cs55);
    assert(n57@ =~~= (XmlModel::Element {
        tag: "presentation_2ch"@,
        attrs: seq![],
        children: seq![
            XmlModel::Leaf { tag: "drc_profile"@, value: m.presentation_2ch_drc_profile },
            XmlModel::Leaf { tag: "drc_default_on"@, value: "true"@ },
            XmlModel::Leaf { tag: "format"@, value: "stereo"@ },
        ],
    }));
    let ghost g58 = n57@;
    let n59 = XmlNode::leaf(owned("optimize_data_rate"), owned(bool_str(f.optimize_data_rate)));
    let ghost g60 = n59@;
    let n61 = XmlNode::leaf(owned("starting_timecode"), f.starting_timecode.clone());
    let ghost g62 = n61@;
    let n63 = XmlNode::leaf(owned("frame_rate"), f.frame_rate.clone());
    let ghost g64 = n63@;
    let cs65 = vec![n61, n63];
    assert(cs65@.map_values(|c: XmlNode| c@) =~= seq![g62, g64]);
    let at66: Vec<(String, String)> = Vec::new();
    assert(attrs_model(at66@) =~= Seq::<(Seq<char>, Seq<char>)>::empty());
    let n67 = XmlNode::element(owned("embedded_timecodes"), at66, cs65);
    assert(n67@ =~~= (XmlModel::Element {
        tag: "embedded_timecodes"@,
        attrs: seq![],
        children: seq![
            XmlModel::Leaf { tag: "starting_timecode"@, value: m.starting_timecode },
            XmlModel::Leaf { tag: "frame_rate"@, value: m.frame_rate },
        ],
    }));
    let ghost g68 = n67@;
    let n69 = XmlNode::leaf(owned("log_format"), owned("txt"));
    let ghost g70 = n69@;
    let n71 = XmlNode::leaf(owned("custom_dialnorm"), i64_text(f.custom_dialnorm as i64));
    let ghost g72 = n71@;
    let cs73 = vec![n9, n11, n13, n15, n17, n19, n21, n31, n39, n47, n57, n59, n67, n69, n71];
    assert(cs73@.map_values(|c: XmlNode| c@) =~= seq![g10, g12, g14, g16, g18, g20, g22, g32, g40, g48, g58, g60, g68, g70, g72]);
    let at74: Vec<(String, String)> = vec![(owned("version"), owned("1"))];
    assert(attrs_model(at74@) =~= seq![("version"@, "1"@)]);
    let n75 = XmlNode::element(owned("encode_to_dthd"), at74, cs73);
    assert(n75@ =~~= (XmlModel::Element {
        tag: "encode_to_dthd"@,
        attrs: seq![("version"@, "1"@)],
        children: seq![
            XmlModel::Element {
                tag: "loudness_measurement"@,
                attrs: seq![],
                children: seq![
                    XmlModel::Leaf { tag: "metering_mode"@, value: m.metering_mode },
                    XmlModel::Leaf { tag: "dialogue_intelligence"@, value: bool_text(m.dialogue_intelligence) },
                    XmlModel::Leaf { tag: "speech_threshold"@, value: nat_digits(m.speech_threshold as nat) },
                ],
            },
            XmlModel::Leaf { tag: "timecode_frame_rate"@, value: m.timecode_frame_rate },
            XmlModel::Leaf { tag: "start"@, value: m.start },
            XmlModel::Leaf { tag: "end"@, value: m.end },
            XmlModel::Leaf { tag: "time_base"@, value: m.time_base },
            XmlModel::Leaf { tag: "prepend_silence_duration"@, value: m.prepend_silence_duration },
            XmlModel::Leaf { tag: "append_silence_duration"@, value: m.append_silence_duration },
            XmlModel::Element {
                tag: "atmos_presentation"@,
                attrs: seq![],
                children: seq![
                    XmlModel::Leaf { tag: "drc_profile"@, value: m.atmos_presentation_drc_profile },
                    XmlModel::Leaf { tag: "spatial_clusters"@, value: m.spatial_clusters },
                    XmlModel::Leaf { tag: "legacy_authoring_compatibility"@, value: bool_text(m.legacy_authoring_compatibility) },
                ],
            },
            XmlModel::Element {
                tag: "presentation_8ch"@,
                attrs: seq![],
                children: seq![
                    XmlModel::Leaf { tag: "drc_profile"@, value: m.presentation_8ch_drc_profile },
                    XmlModel::Leaf { tag: "surround_3db_attenuation"@, value: "true"@ },
                ],
            },
            XmlModel::Element {
                tag: "presentation_6ch"@,
                attrs: seq![],
                children: seq![
                    XmlModel::Leaf { tag: "drc_profile"@, value: m.presentation_6ch_drc_profile },
                    XmlModel::Leaf { tag: "surround_3db_attenuation"@, value: "true"@ },
                ],
            },
            XmlModel::Element {
                tag: "presentation_2ch"@,
                attrs: seq![],
                children: seq![
                    XmlModel::Leaf { tag: "drc_profile"@, value: m.presentation_2ch_drc_profile },
                    XmlModel::Leaf { tag: "drc_default_on"@, value: "true"@ },
                    XmlModel::Leaf { tag: "format"@, value: "stereo"@ },
                ],
            },
            XmlModel::Leaf { tag: "optimize_data_rate"@, value: bool_text(m.optimize_data_rate) },
            XmlModel::Element {
                tag: "embedded_timecodes"@,
                attrs: seq![],
                children: seq![
                    XmlModel::Leaf { tag: "starting_timecode"@, value: m.starting_timecode },
                    XmlModel::Leaf { tag: "frame_rate"@, value: m.frame_rate },
                ],
            },
            XmlModel::Leaf { tag: "log_format"@, value: "txt"@ },
            XmlModel::Leaf { tag: "custom_dialnorm"@, value: int_text(m.custom_dialnorm as int) },
        ],
    }));
    let ghost g76 = n75@;
    let cs77 = vec![n75];
    assert(cs77@.map_values(|c: XmlNode| c@) =~= seq![g76]);
    let at78: Vec<(String, String)> = Vec::new();
    assert(attrs_model(at78@) =~= Seq::<(Seq<char>, Seq<char>)>::empty());
    let n79 = XmlNode::element(owned("audio"), at78, cs77);
    assert(n79@ =~~= (XmlModel::Element {
        tag: "audio"@,
        attrs: seq![],
        children: seq![
            XmlModel::Element {
                tag: "encode_to_dthd"@,
                attrs: seq![("version"@, "1"@)],
                children: seq![
                    XmlModel::Element {
                        tag: "loudness_measurement"@,
                        attrs: seq![],
                        children: seq![
                            XmlModel::Leaf { tag: "metering_mode"@, value: m.metering_mode },
                            XmlModel::Leaf { tag: "dialogue_intelligence"@, value: bool_text(m.dialogue_intelligence) },
                            XmlModel::Leaf { tag: "speech_threshold"@, value: nat_digits(m.speech_threshold as nat) },
                        ],
                    },
                    XmlModel::Leaf { tag: "timecode_frame_rate"@, value: m.timecode_frame_rate },
                    XmlModel::Leaf { tag: "start"@, value: m.start },
                    XmlModel::Leaf { tag: "end"@, value: m.end },
                    XmlModel::Leaf { tag: "time_base"@, value: m.time_base },
                    XmlModel::Leaf { tag: "prepend_silence_duration"@, value: m.prepend_silence_duration },
                    XmlModel::Leaf { tag: "append_silence_duration"@, value: m.append_silence_duration },
                    XmlModel::Element {
                        tag: "atmos_presentation"@,
                        attrs: seq![],
                        children: seq![
                            XmlModel::Leaf { tag: "drc_profile"@, value: m.atmos_presentation_drc_profile },
                            XmlModel::Leaf { tag: "spatial_clusters"@, value: m.spatial_clusters },
                            XmlModel::Leaf { tag: "legacy_authoring_compatibility"@, value: bool_text(m.legacy_authoring_compatibility) },
                        ],
                    },
                    XmlModel::Element {
                        tag: "presentation_8ch"@,
                        attrs: seq![],
                        children: seq![
                            XmlModel::Leaf { tag: "drc_profile"@, value: m.presentation_8ch_drc_profile },
                            XmlModel::Leaf { tag: "surround_3db_attenuation"@, value: "true"@ },
                        ],
                    },
                    XmlModel::Element {
                        tag: "presentation_6ch"@,
                        attrs: seq![],
                        children: seq![
                            XmlModel::Leaf { tag: "drc_profile"@, value: m.presentation_6ch_drc_profile },
                            XmlModel::Leaf { tag: "surround_3db_attenuation"@, value: "true"@ },
                        ],
                    },
                    XmlModel::Element {
                        tag: "presentation_2ch"@,
                        attrs: seq![],
                        children: seq![
                            XmlModel::Leaf { tag: "drc_profile"@, value: m.presentation_2ch_drc_profile },
                            XmlModel::Leaf { tag: "drc_default_on"@, value: "true"@ },
                            XmlModel::Leaf { tag: "format"@, value: "stereo"@ },
                        ],
                    },
                    XmlModel::Leaf { tag: "optimize_data_rate"@, value: bool_text(m.optimize_data_rate) },
                    XmlModel::Element {
                        tag: "embedded_timecodes"@,
                        attrs: seq![],
                        children: seq![
                            XmlModel::Leaf { tag: "starting_timecode"@, value: m.starting_timecode },
                            XmlModel::Leaf { tag: "frame_rate"@, value: m.frame_rate },
                        ],
                    },
                    XmlModel::Leaf { tag: "log_format"@, value: "txt"@ },
                    XmlModel::Leaf { tag: "custom_dialnorm"@, value: int_text(m.custom_dialnorm as int) },
                ],
            },
        ],
    }));
    let ghost g80 = n79@;
    let cs81 = vec![n79];
    assert(cs81@.map_values(|c: XmlNode| c@) =~= seq![g80]);
    let at82: Vec<(String, String)> = Vec::new();
    assert(attrs_model(at82@) =~= Seq::<(Seq<char>, Seq<char>)>::empty());
    let n83 = XmlNode::element(owned("filter"), at82, cs81);
    assert(n83@ =~~= (XmlModel::Element {
        tag: "filter"@,
        attrs: seq![],
        children: seq![
            XmlModel::Element {
                tag: "audio"@,
                attrs: seq![],
                children: seq![
                    XmlModel::Element {
                        tag: "encode_to_dthd"@,
                        attrs: seq![("version"@, "1"@)],
                        children: seq![
                            XmlModel::Element {
                                tag: "loudness_measurement"@,
                                attrs: seq![],
                                children: seq![
                                    XmlModel::Leaf { tag: "metering_mode"@, value: m.metering_mode },
                                    XmlModel::Leaf { tag: "dialogue_intelligence"@, value: bool_text(m.dialogue_intelligence) },
                                    XmlModel::Leaf { tag: "speech_threshold"@, value: nat_digits(m.speech_threshold as nat) },
                                ],
                            },
                            XmlModel::Leaf { tag: "timecode_frame_rate"@, value: m.timecode_frame_rate },
                            XmlModel::Leaf { tag: "start"@, value: m.start },
                            XmlModel::Leaf { tag: "end"@, value: m.end },
                            XmlModel::Leaf { tag: "time_base"@, value: m.time_base },
                            XmlModel::Leaf { tag: "prepend_silence_duration"@, value: m.prepend_silence_duration },
                            XmlModel::Leaf { tag: "append_silence_duration"@, value: m.append_silence_duration },
                            XmlModel::Element {
                                tag: "atmos_presentation"@,
                                attrs: seq![],
                                children: seq![
                                    XmlModel::Leaf { tag: "drc_profile"@, value: m.atmos_presentation_drc_profile },
                                    XmlModel::Leaf { tag: "spatial_clusters"@, value: m.spatial_clusters },
                                    XmlModel::Leaf { tag: "legacy_authoring_compatibility"@, value: bool_text(m.legacy_authoring_compatibility) },
                                ],
                            },
                            XmlModel::Element {
                                tag: "presentation_8ch"@,
                                attrs: seq![],
                                children: seq![
                                    XmlModel::Leaf { tag: "drc_profile"@, value: m.presentation_8ch_drc_profile },
                                    XmlModel::Leaf { tag: "surround_3db_attenuation"@, value: "true"@ },
                                ],
                            },
                            XmlModel::Element {
                                tag: "presentation_6ch"@,
                                attrs: seq![],
                                children: seq![
                                    XmlModel::Leaf { tag: "drc_profile"@, value: m.presentation_6ch_drc_profile },
                                    XmlModel::Leaf { tag: "surround_3db_attenuation"@, value: "true"@ },
                                ],
                            },
                            XmlModel::Element {
                                tag: "presentation_2ch"@,
                                attrs: seq![],
                                children: seq![
                                    XmlModel::Leaf { tag: "drc_profile"@, value: m.presentation_2ch_drc_profile },
                                    XmlModel::Leaf { tag: "drc_default_on"@, value: "true"@ },
                                    XmlModel::Leaf { tag: "format"@, value: "stereo"@ },
                                ],
                            },
                            XmlModel::Leaf { tag: "optimize_data_rate"@, value: bool_text(m.optimize_data_rate) },
                            XmlModel::Element {
                                tag: "embedded_timecodes"@,
                                attrs: seq![],
                                children: seq![
                                    XmlModel::Leaf { tag: "starting_timecode"@, value: m.starting_timecode },
                                    XmlModel::Leaf { tag: "frame_rate"@, value: m.frame_rate },
                                ],
                            },
                            XmlModel::Leaf { tag: "log_format"@, value: "txt"@ },
                            XmlModel::Leaf { tag: "custom_dialnorm"@, value: int_text(m.custom_dialnorm as int) },
                        ],
                    },
                ],
            },
        ],
    }));
    n83
}

/// The `output` element.
pub open spec fn thd_output_model(tag: Seq<char>, path: Seq<char>, files: Seq<char>) -> XmlModel {
    XmlModel::Element {
        tag: "output"@,
        attrs: seq![],
        children: seq![
            XmlModel::Element {
                tag: "mlp"@,
                attrs: seq![("version"@, "1"@)],
                children: seq![
                    XmlModel::Leaf { tag: "file_name"@, value: files },
                    storage_model(tag, path),
                ],
            },
        ],
    }
}

/// The `output` element.
pub fn output_node(tag_s: &str, path_s: &str, files_s: &str) -> (r: XmlNode)
    ensures
        r@ == thd_output_model(tag_s@, path_s@, files_s@),
{
    let ghost tag = tag_s@;
    let ghost path = path_s@;
    let ghost files = files_s@;
    let n1 = XmlNode::leaf(owned("file_name"), owned(files_s));
    let ghost g2 = n1@;
    let n3 = storage_node(tag_s, path_s);
    let ghost g4 = n3@;
    let cs5 = vec![n1, n3];
    assert(cs5@.map_values(|c: XmlNode| c@) =~= seq![g2, g4]);
    let at6: Vec<(String, String)> = vec![(owned("version"), owned("1"))];
    assert(attrs_model(at6@) =~= seq![("version"@, "1"@)]);
    let n7 = XmlNode::element(owned("mlp"), at6, cs5);
    assert(n7@ =~~= (XmlModel::Element {
        tag: "mlp"@,
        attrs: seq![("version"@, "1"@)],
        children: seq![
            XmlModel::Leaf { tag: "file_name"@, value: files },
            storage_model(tag, path),
        ],
    }));
    let ghost g8 = n7@;
    let cs9 = vec![n7];
    assert(cs9@.map_values(|c: XmlNode| c@) =~= seq![g8]);
    let at10: Vec<(String, String)> = Vec::new();
    assert(attrs_model(at10@) =~= Seq::<(Seq<char>, Seq<char>)>::empty());
    let n11 = XmlNode::element(owned("output"), at10, cs9);
    assert(n11@ =~~= (XmlModel::Element {
        tag: "output"@,
        attrs: seq![],
        children: seq![
            XmlModel::Element {
                tag: "mlp"@,
                attrs: seq![("version"@, "1"@)],
                children: seq![
                    XmlModel::Leaf { tag: "file_name"@, value: files },
                    storage_model(tag, path),
                ],
            },
        ],
    }));
    n11
}

/// The `job_config` tree of a job.
pub open spec fn thd_xml_model(j: JobModel, m: ThdV1Model) -> XmlModel {
    let tag = storage_tag_spec(j.job_mode);
    XmlModel::Element {
        tag: "job_config"@,
        attrs: seq![],
        children: seq![
            thd_input_model(tag, j.input.storage_path, file_list_text(j.input.file_names), m),
            thd_filter_model(m),
            thd_output_model(tag, j.output.storage_path, file_list_text(j.output.file_names)),
            misc_model(j.temp_dir, j.clean_temp),
        ],
    }
}

/// The `job_config` tree of a job.
pub fn xml_structure(job: &crate::resolve::ResolvedJob, f: &ThdV1Filter) -> (r: XmlNode)
    ensures
        r@ == thd_xml_model(job@, f@),
{
    let tag = storage_tag(job.job_mode);
    let input_files = render_file_name_list(&job.input.file_names);
    let output_files = render_file_name_list(&job.output.file_names);
    assert(strings_model(job.input.file_names@) =~= job@.input.file_names);
    assert(strings_model(job.output.file_names@) =~= job@.output.file_names);
    let a = input_node(tag, job.input.storage_path.as_str(), input_files.as_str(), f);
    let ghost ga = a@;
    let b = filter_node(f);
    let ghost gb = b@;
    let c = output_node(tag, job.output.storage_path.as_str(), output_files.as_str());
    let ghost gc = c@;
    let d = misc_node(job.misc.temp_dir.as_str(), job.misc.clean_temp);
    let ghost gd = d@;
    let cs = vec![a, b, c, d];
    assert(cs@.map_values(|c: XmlNode| c@) =~= seq![ga, gb, gc, gd]);
    let at: Vec<(String, String)> = Vec::new();
    assert(attrs_model(at@) =~= Seq::<(Seq<char>, Seq<char>)>::empty());
    let r = XmlNode::element(owned("job_config"), at, cs);
    assert(r@ =~~= thd_xml_model(job@, f@));
    r
}

/// The XML tree of a job reads its files where the job puts them: the
/// mezzanine's file list and directory are the job's input ones, the encoded
/// file's are the job's output ones, and the temporary directory is the
/// job's, each directory under the storage tag of the job mode (`local` for
/// one file, `local_multi_path` for an album).
pub proof fn law_thd_xml_paths(j: JobModel, m: ThdV1Model)
    ensures
        ({
            let t = Some(thd_xml_model(j, m));
            let tag = if j.job_mode == crate::spec::JobMode::Single {
                "local"@
            } else {
                "local_multi_path"@
            };
            let src = xml_in(xml_in(xml_in(t, "input"@), "audio"@), "atmos_mezz"@);
            let dst = xml_in(xml_in(t, "output"@), "mlp"@);
            &&& xml_value(xml_in(xml_in(xml_in(dst, "storage"@), tag), "path"@)) == Some(j.output.storage_path)
            &&& xml_value(xml_in(dst, "file_name"@)) == Some(file_list_text(j.output.file_names))
            &&& xml_value(xml_in(xml_in(xml_in(src, "storage"@), tag), "path"@)) == Some(j.input.storage_path)
            &&& xml_value(xml_in(src, "file_name"@)) == Some(file_list_text(j.input.file_names))
            &&& xml_value(xml_in(xml_in(xml_in(t, "misc"@), "temp_dir"@), "path"@)) == Some(j.temp_dir)
        }),
{
    reveal_strlit("job_config");
    reveal_strlit("input");
    reveal_strlit("filter");
    reveal_strlit("output");
    reveal_strlit("misc");
    reveal_strlit("audio");
    reveal_strlit("temp_dir");
    reveal_strlit("storage");
    reveal_strlit("file_name");
    reveal_strlit("-version");
    reveal_strlit("timecode_frame_rate");
    reveal_strlit("offset");
    reveal_strlit("ffoa");
    reveal_strlit("atmos_mezz");
    reveal_strlit("mlp");
    let tag = storage_tag_spec(j.job_mode);
    crate::template::common::lemma_storage_tag(j.job_mode);
    let t = thd_xml_model(j, m);
    let cs = t->Element_children;
    assert("input"@.len() != "output"@.len());
    assert("filter"@[0] != "output"@[0]);
    assert("input"@.len() != "misc"@.len());
    assert("filter"@.len() != "misc"@.len());
    assert("output"@.len() != "misc"@.len());
    crate::render::lemma_child_get_at(cs, "input"@, 0);
    crate::render::lemma_child_get_at(cs, "output"@, 2);
    crate::render::lemma_child_get_at(cs, "misc"@, 3);
    let ins = thd_input_model(tag, j.input.storage_path, file_list_text(j.input.file_names), m);
    reveal_with_fuel(crate::render::child_get, 2);
    assert(xml_in(xml_in(Some(ins), "audio"@), "atmos_mezz"@) == Some(ins->Element_children[0]->Element_children[0]));
    let mc = ins->Element_children[0]->Element_children[0]->Element_children;
    assert forall|k: int| 0 <= k < 4 implies crate::render::node_tag(mc[k]) != Some("storage"@) by {
        assert(crate::render::node_tag(mc[k])->0.len() != "storage"@.len());
    }
    crate::render::lemma_child_get_at(mc, "storage"@, 4);
    crate::render::lemma_child_get_at(mc, "file_name"@, 0);
    let outs = thd_output_model(tag, j.output.storage_path, file_list_text(j.output.file_names));
    let ec = outs->Element_children[0]->Element_children;
    assert("file_name"@.len() != "storage"@.len());
    crate::render::lemma_child_get_at(ec, "storage"@, 1);
    crate::render::lemma_child_get_at(ec, "file_name"@, 0);
    crate::template::common::lemma_storage_xml_path(tag, j.input.storage_path);
    crate::template::common::lemma_storage_xml_path(tag, j.output.storage_path);
    crate::template::common::lemma_misc_xml_path(j.temp_dir, j.clean_temp);
}

/// The filter element holds each parameter of the filter under the
/// parameter's own name: the leaf named after a parameter gives that
/// parameter's value (booleans as `true`/`false`, numbers in decimal), and
/// each setting that the template fixes has its fixed value.
pub proof fn law_thd_xml_filter_values(m: ThdV1Model)
    ensures
        ({
            let root = Some(thd_filter_model(m));
            let audio = xml_in(root, "audio"@);
            let encode_to_dthd = xml_in(audio, "encode_to_dthd"@);
            let loudness_measurement = xml_in(encode_to_dthd, "loudness_measurement"@);
            let atmos_presentation = xml_in(encode_to_dthd, "atmos_presentation"@);
            let presentation_8ch = xml_in(encode_to_dthd, "presentation_8ch"@);
            let presentation_6ch = xml_in(encode_to_dthd, "presentation_6ch"@);
            let presentation_2ch = xml_in(encode_to_dthd, "presentation_2ch"@);
            let embedded_timecodes = xml_in(encode_to_dthd, "embedded_timecodes"@);
            &&& xml_value(xml_in(loudness_measurement, "metering_mode"@)) == Some(m.metering_mode)
            &&& xml_value(xml_in(loudness_measurement, "dialogue_intelligence"@)) == Some(bool_text(m.dialogue_intelligence))
            &&& xml_value(xml_in(loudness_measurement, "speech_threshold"@)) == Some(nat_digits(m.speech_threshold as nat))
            &&& xml_value(xml_in(encode_to_dthd, "timecode_frame_rate"@)) == Some(m.timecode_frame_rate)
            &&& xml_value(xml_in(encode_to_dthd, "start"@)) == Some(m.start)
            &&& xml_value(xml_in(encode_to_dthd, "end"@)) == Some(m.end)
            &&& xml_value(xml_in(encode_to_dthd, "time_base"@)) == Some(m.time_base)
            &&& xml_value(xml_in(encode_to_dthd, "prepend_silence_duration"@)) == Some(m.prepend_silence_duration)
            &&& xml_value(xml_in(encode_to_dthd, "append_silence_duration"@)) == Some(m.append_silence_duration)
            &&& xml_value(xml_in(atmos_presentation, "drc_profile"@)) == Some(m.atmos_presentation_drc_profile)
            &&& xml_value(xml_in(atmos_presentation, "spatial_clusters"@)) == Some(m.spatial_clusters)
            &&& xml_value(xml_in(atmos_presentation, "legacy_authoring_compatibility"@)) == Some(bool_text(m.legacy_authoring_compatibility))
            &&& xml_value(xml_in(presentation_8ch, "drc_profile"@)) == Some(m.presentation_8ch_drc_profile)
            &&& xml_value(xml_in(presentation_8ch, "surround_3db_attenuation"@)) == Some("true"@)
            &&& xml_value(xml_in(presentation_6ch, "drc_profile"@)) == Some(m.presentation_6ch_drc_profile)
            &&& xml_value(xml_in(presentation_6ch, "surround_3db_attenuation"@)) == Some("true"@)
            &&& xml_value(xml_in(presentation_2ch, "drc_profile"@)) == Some(m.presentation_2ch_drc_profile)
            &&& xml_value(xml_in(presentation_2ch, "drc_default_on"@)) == Some("true"@)
            &&& xml_value(xml_in(presentation_2ch, "format"@)) == Some("stereo"@)
            &&& xml_value(xml_in(encode_to_dthd, "optimize_data_rate"@)) == Some(bool_text(m.optimize_data_rate))
            &&& xml_value(xml_in(embedded_timecodes, "starting_timecode"@)) == Some(m.starting_timecode)
            &&& xml_value(xml_in(embedded_timecodes, "frame_rate"@)) == Some(m.frame_rate)
            &&& xml_value(xml_in(encode_to_dthd, "log_format"@)) == Some("txt"@)
            &&& xml_value(xml_in(encode_to_dthd, "custom_dialnorm"@)) == Some(int_text(m.custom_dialnorm as int))
        }),
{
    reveal_strlit("append_silence_duration");
    reveal_strlit("atmos_presentation");
    reveal_strlit("audio");
    reveal_strlit("custom_dialnorm");
    reveal_strlit("dialogue_intelligence");
    reveal_strlit("drc_default_on");
    reveal_strlit("drc_profile");
    reveal_strlit("embedded_timecodes");
    reveal_strlit("encode_to_dthd");
    reveal_strlit("end");
    reveal_strlit("format");
    reveal_strlit("frame_rate");
    reveal_strlit("legacy_authoring_compatibility");
    reveal_strlit("log_format");
    reveal_strlit("loudness_measurement");
    reveal_strlit("metering_mode");
    reveal_strlit("optimize_data_rate");
    reveal_strlit("prepend_silence_duration");
    reveal_strlit("presentation_2ch");
    reveal_strlit("presentation_6ch");
    reveal_strlit("presentation_8ch");
    reveal_strlit("spatial_clusters");
    reveal_strlit("speech_threshold");
    reveal_strlit("start");
    reveal_strlit("starting_timecode");
    reveal_strlit("surround_3db_attenuation");
    reveal_strlit("time_base");
    reveal_strlit("timecode_frame_rate");
    reveal_with_fuel(crate::render::child_get, 1);
    crate::render::lemma_child_get_at(thd_filter_model(m)->Element_children, "audio"@, 0);
    crate::render::lemma_child_get_at(thd_filter_model(m)->Element_children[0]->Element_children, "encode_to_dthd"@, 0);
    crate::render::lemma_child_get_at(thd_filter_model(m)->Element_children[0]->Element_children[0]->Element_children, "loudness_measurement"@, 0);
    crate::render::lemma_child_get_at(thd_filter_model(m)->Element_children[0]->Element_children[0]->Element_children[0]->Element_children, "metering_mode"@, 0);
    assert("metering_mode"@.len() != "dialogue_intelligence"@.len());
    crate::render::lemma_child_get_at(thd_filter_model(m)->Element_children[0]->Element_children[0]->Element_children[0]->Element_children, "dialogue_intelligence"@, 1);
    assert("metering_mode"@.len() != "speech_threshold"@.len());
    assert("dialogue_intelligence"@.len() != "speech_threshold"@.len());
    crate::render::lemma_child_get_at(thd_filter_model(m)->Element_children[0]->Element_children[0]->Element_children[0]->Element_children, "speech_threshold"@, 2);
    assert("loudness_measurement"@.len() != "timecode_frame_rate"@.len());
    crate::render::lemma_child_get_at(thd_filter_model(m)->Element_children[0]->Element_children[0]->Element_children, "timecode_frame_rate"@, 1);
    assert("loudness_measurement"@.len() != "start"@.len());
    assert("timecode_frame_rate"@.len() != "start"@.len());
    crate::render::lemma_child_get_at(thd_filter_model(m)->Element_children[0]->Element_children[0]->Element_children, "start"@, 2);
    assert("loudness_measurement"@.len() != "end"@.len());
    assert("timecode_frame_rate"@.len() != "end"@.len());
    assert("start"@.len() != "end"@.len());
    crate::render::lemma_child_get_at(thd_filter_model(m)->Element_children[0]->Element_children[0]->Element_children, "end"@, 3);
    assert("loudness_measurement"@.len() != "time_base"@.len());
    assert("timecode_frame_rate"@.len() != "time_base"@.len());
    assert("start"@.len() != "time_base"@.len());
    assert("end"@.len() != "time_base"@.len());
    crate::render::lemma_child_get_at(thd_filter_model(m)->Element_children[0]->Element_children[0]->Element_children, "time_base"@, 4);
    assert("loudness_measurement"@.len() != "prepend_silence_duration"@.len());
    assert("timecode_frame_rate"@.len() != "prepend_silence_duration"@.len());
    assert("start"@.len() != "prepend_silence_duration"@.len());
    assert("end"@.len() != "prepend_silence_duration"@.len());
    assert("time_base"@.len() != "prepend_silence_duration"@.len());
    crate::render::lemma_child_get_at(thd_filter_model(m)->Element_children[0]->Element_children[0]->Element_children, "prepend_silence_duration"@, 5);
    assert("loudness_measurement"@.len() != "append_silence_duration"@.len());
    assert("timecode_frame_rate"@.len() != "append_silence_duration"@.len());
    assert("start"@.len() != "append_silence_duration"@.len());
    assert("end"@.len() != "append_silence_duration"@.len());
    assert("time_base"@.len() != "append_silence_duration"@.len());
    assert("prepend_silence_duration"@.len() != "append_silence_duration"@.len());
    crate::render::lemma_child_get_at(thd_filter_model(m)->Element_children[0]->Element_children[0]->Element_children, "append_silence_duration"@, 6);
    assert("loudness_measurement"@.len() != "atmos_presentation"@.len());
    assert("timecode_frame_rate"@.len() != "atmos_presentation"@.len());
    assert("start"@.len() != "atmos_presentation"@.len());
    assert("end"@.len() != "atmos_presentation"@.len());
    assert("time_base"@.len() != "atmos_presentation"@.len());
    assert("prepend_silence_duration"@.len() != "atmos_presentation"@.len());
    assert("append_silence_duration"@.len() != "atmos_presentation"@.len());
    crate::render::lemma_child_get_at(thd_filter_model(m)->Element_children[0]->Element_children[0]->Element_children, "atmos_presentation"@, 7);
    crate::render::lemma_child_get_at(thd_filter_model(m)->Element_children[0]->Element_children[0]->Element_children[7]->Element_children, "drc_profile"@, 0);
    assert("drc_profile"@.len() != "spatial_clusters"@.len());
    crate::render::lemma_child_get_at(thd_filter_model(m)->Element_children[0]->Element_children[0]->Element_children[7]->Element_children, "spatial_clusters"@, 1);
    assert("drc_profile"@.len() != "legacy_authoring_compatibility"@.len());
    assert("spatial_clusters"@.len() != "legacy_authoring_compatibility"@.len());
    crate::render::lemma_child_get_at(thd_filter_model(m)->Element_children[0]->Element_children[0]->Element_children[7]->Element_children, "legacy_authoring_compatibility"@, 2);
    assert("loudness_measurement"@.len() != "presentation_8ch"@.len());
    assert("timecode_frame_rate"@.len() != "presentation_8ch"@.len());
    assert("start"@.len() != "presentation_8ch"@.len());
    assert("end"@.len() != "presentation_8ch"@.len());
    assert("time_base"@.len() != "presentation_8ch"@.len());
    assert("prepend_silence_duration"@.len() != "presentation_8ch"@.len());
    assert("append_silence_duration"@.len() != "presentation_8ch"@.len());
    assert("atmos_presentation"@.len() != "presentation_8ch"@.len());
    crate::render::lemma_child_get_at(thd_filter_model(m)->Element_children[0]->Element_children[0]->Element_children, "presentation_8ch"@, 8);
    crate::render::lemma_child_get_at(thd_filter_model(m)->Element_children[0]->Element_children[0]->Element_children[8]->Element_children, "drc_profile"@, 0);
    assert("drc_profile"@.len() != "surround_3db_attenuation"@.len());
    crate::render::lemma_child_get_at(thd_filter_model(m)->Element_children[0]->Element_children[0]->Element_children[8]->Element_children, "surround_3db_attenuation"@, 1);
    assert("loudness_measurement"@.len() != "presentation_6ch"@.len());
    assert("timecode_frame_rate"@.len() != "presentation_6ch"@.len());
    assert("start"@.len() != "presentation_6ch"@.len());
    assert("end"@.len() != "presentation_6ch"@.len());
    assert("time_base"@.len() != "presentation_6ch"@.len());
    assert("prepend_silence_duration"@.len() != "presentation_6ch"@.len());
    assert("append_silence_duration"@.len() != "presentation_6ch"@.len());
    assert("atmos_presentation"@.len() != "presentation_6ch"@.len());
    assert("presentation_8ch"@[13] != "presentation_6ch"@[13]);
    crate::render::lemma_child_get_at(thd_filter_model(m)->Element_children[0]->Element_children[0]->Element_children, "presentation_6ch"@, 9);
    crate::render::lemma_child_get_at(thd_filter_model(m)->Element_children[0]->Element_children[0]->Element_children[9]->Element_children, "drc_profile"@, 0);
    assert("drc_profile"@.len() != "surround_3db_attenuation"@.len());
    crate::render::lemma_child_get_at(thd_filter_model(m)->Element_children[0]->Element_children[0]->Element_children[9]->Element_children, "surround_3db_attenuation"@, 1);
    assert("loudness_measurement"@.len() != "presentation_2ch"@.len());
    assert("timecode_frame_rate"@.len() != "presentation_2ch"@.len());
    assert("start"@.len() != "presentation_2ch"@.len());
    assert("end"@.len() != "presentation_2ch"@.len());
    assert("time_base"@.len() != "presentation_2ch"@.len());
    assert("prepend_silence_duration"@.len() != "presentation_2ch"@.len());
    assert("append_silence_duration"@.len() != "presentation_2ch"@.len());
    assert("atmos_presentation"@.len() != "presentation_2ch"@.len());
    assert("presentation_8ch"@[13] != "presentation_2ch"@[13]);
    assert("presentation_6ch"@[13] != "presentation_2ch"@[13]);
    crate::render::lemma_child_get_at(thd_filter_model(m)->Element_children[0]->Element_children[0]->Element_children, "presentation_2ch"@, 10);
    crate::render::lemma_child_get_at(thd_filter_model(m)->Element_children[0]->Element_children[0]->Element_children[10]->Element_children, "drc_profile"@, 0);
    assert("drc_profile"@.len() != "drc_default_on"@.len());
    crate::render::lemma_child_get_at(thd_filter_model(m)->Element_children[0]->Element_children[0]->Element_children[10]->Element_children, "drc_default_on"@, 1);
    assert("drc_profile"@.len() != "format"@.len());
    assert("drc_default_on"@.len() != "format"@.len());
    crate::render::lemma_child_get_at(thd_filter_model(m)->Element_children[0]->Element_children[0]->Element_children[10]->Element_children, "format"@, 2);
    assert("loudness_measurement"@.len() != "optimize_data_rate"@.len());
    assert("timecode_frame_rate"@.len() != "optimize_data_rate"@.len());
    assert("start"@.len() != "optimize_data_rate"@.len());
    assert("end"@.len() != "optimize_data_rate"@.len());
    assert("time_base"@.len() != "optimize_data_rate"@.len());
    assert("prepend_silence_duration"@.len() != "optimize_data_rate"@.len());
    assert("append_silence_duration"@.len() != "optimize_data_rate"@.len());
    assert("atmos_presentation"@[0] != "optimize_data_rate"@[0]);
    assert("presentation_8ch"@.len() != "optimize_data_rate"@.len());
    assert("presentation_6ch"@.len() != "optimize_data_rate"@.len());
    assert("presentation_2ch"@.len() != "optimize_data_rate"@.len());
    crate::render::lemma_child_get_at(thd_filter_model(m)->Element_children[0]->Element_children[0]->Element_children, "optimize_data_rate"@, 11);
    assert("loudness_measurement"@.len() != "embedded_timecodes"@.len());
    assert("timecode_frame_rate"@.len() != "embedded_timecodes"@.len());
    assert("start"@.len() != "embedded_timecodes"@.len());
    assert("end"@.len() != "embedded_timecodes"@.len());
    assert("time_base"@.len() != "embedded_timecodes"@.len());
    assert("prepend_silence_duration"@.len() != "embedded_timecodes"@.len());
    assert("append_silence_duration"@.len() != "embedded_timecodes"@.len());
    assert("atmos_presentation"@[0] != "embedded_timecodes"@[0]);
    assert("presentation_8ch"@.len() != "embedded_timecodes"@.len());
    assert("presentation_6ch"@.len() != "embedded_timecodes"@.len());
    assert("presentation_2ch"@.len() != "embedded_timecodes"@.len());
    assert("optimize_data_rate"@[0] != "embedded_timecodes"@[0]);
    crate::render::lemma_child_get_at(thd_filter_model(m)->Element_children[0]->Element_children[0]->Element_children, "embedded_timecodes"@, 12);
    crate::render::lemma_child_get_at(thd_filter_model(m)->Element_children[0]->Element_children[0]->Element_children[12]->Element_children, "starting_timecode"@, 0);
    assert("starting_timecode"@.len() != "frame_rate"@.len());
    crate::render::lemma_child_get_at(thd_filter_model(m)->Element_children[0]->Element_children[0]->Element_children[12]->Element_children, "frame_rate"@, 1);
    assert("loudness_measurement"@.len() != "log_format"@.len());
    assert("timecode_frame_rate"@.len() != "log_format"@.len());
    assert("start"@.len() != "log_format"@.len());
    assert("end"@.len() != "log_format"@.len());
    assert("time_base"@.len() != "log_format"@.len());
    assert("prepend_silence_duration"@.len() != "log_format"@.len());
    assert("append_silence_duration"@.len() != "log_format"@.len());
    assert("atmos_presentation"@.len() != "log_format"@.len());
    assert("presentation_8ch"@.len() != "log_format"@.len());
    assert("presentation_6ch"@.len() != "log_format"@.len());
    assert("presentation_2ch"@.len() != "log_format"@.len());
    assert("optimize_data_rate"@.len() != "log_format"@.len());
    assert("embedded_timecodes"@.len() != "log_format"@.len());
    crate::render::lemma_child_get_at(thd_filter_model(m)->Element_children[0]->Element_children[0]->Element_children, "log_format"@, 13);
    assert("loudness_measurement"@.len() != "custom_dialnorm"@.len());
    assert("timecode_frame_rate"@.len() != "custom_dialnorm"@.len());
    assert("start"@.len() != "custom_dialnorm"@.len());
    assert("end"@.len() != "custom_dialnorm"@.len());
    assert("time_base"@.len() != "custom_dialnorm"@.len());
    assert("prepend_silence_duration"@.len() != "custom_dialnorm"@.len());
    assert("append_silence_duration"@.len() != "custom_dialnorm"@.len());
    assert("atmos_presentation"@.len() != "custom_dialnorm"@.len());
    assert("presentation_8ch"@.len() != "custom_dialnorm"@.len());
    assert("presentation_6ch"@.len() != "custom_dialnorm"@.len());
    assert("presentation_2ch"@.len() != "custom_dialnorm"@.len());
    assert("optimize_data_rate"@.len() != "custom_dialnorm"@.len());
    assert("embedded_timecodes"@.len() != "custom_dialnorm"@.len());
    assert("log_format"@.len() != "custom_dialnorm"@.len());
    crate::render::lemma_child_get_at(thd_filter_model(m)->Element_children[0]->Element_children[0]->Element_children, "custom_dialnorm"@, 14);
}

} // verus!
