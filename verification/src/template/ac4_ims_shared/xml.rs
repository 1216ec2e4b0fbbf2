//! The DEE XML tree of the AC-4 IMS settings.
use vstd::prelude::*;

use crate::render::{attrs_model, PredModel, Predicate, XmlModel, XmlNode};
use crate::resolve::{IoModel, JobModel, ResolvedInputGroups, ResolvedIo, ResolvedJob, ResolvedOutput};
use crate::spec::OutputContainer;
use crate::template::ac4_ims_shared::{Ac4ImsFilter, Ac4ImsModel};
use crate::template::common::{
    misc_model, misc_node, storage_model, storage_node, storage_tag, storage_tag_spec,
};
use crate::text::{bool_str, bool_text, nat_digits, owned, u64_text};

verus! {

/// The `filter` element.
pub open spec fn ac4ims_filter_model(m: Ac4ImsModel) -> XmlModel {
    XmlModel::Element {
        tag: "filter"@,
        attrs: seq![],
        children: seq![
            XmlModel::Element {
                tag: "audio"@,
                attrs: seq![],
                children: seq![
                    XmlModel::Element {
                        tag: "encode_to_ims_ac4"@,
                        attrs: seq![("version"@, "1"@)],
                        children: seq![
                            XmlModel::Leaf { tag: "timecode_frame_rate"@, value: m.timecode_frame_rate },
                            XmlModel::Leaf { tag: "start"@, value: m.start },
                            XmlModel::Leaf { tag: "end"@, value: m.end },
                            XmlModel::Leaf { tag: "time_base"@, value: m.time_base },
                            XmlModel::Leaf { tag: "prepend_silence_duration"@, value: m.prepend_silence_duration },
                            XmlModel::Leaf { tag: "append_silence_duration"@, value: m.append_silence_duration },
                            XmlModel::Element {
                                tag: "loudness"@,
                                attrs: seq![],
                                children: seq![
                                    XmlModel::Element {
                                        tag: "measure_only"@,
                                        attrs: seq![],
                                        children: seq![
                                            XmlModel::Leaf { tag: "metering_mode"@, value: m.metering_mode },
                                            XmlModel::Leaf { tag: "dialogue_intelligence"@, value: bool_text(m.dialogue_intelligence) },
                                            XmlModel::Leaf { tag: "speech_threshold"@, value: nat_digits(m.speech_threshold as nat) },
                                        ],
                                    },
                                ],
                            },
                            XmlModel::Leaf { tag: "data_rate"@, value: nat_digits(m.data_rate as nat) },
                            XmlModel::Leaf { tag: "ac4_frame_rate"@, value: m.ac4_frame_rate },
                            XmlModel::Leaf { tag: "ims_legacy_presentation"@, value: bool_text(m.ims_legacy_presentation) },
                            XmlModel::Leaf { tag: "iframe_interval"@, value: nat_digits(m.iframe_interval as nat) },
                            XmlModel::Leaf { tag: "language"@, value: m.language },
                            XmlModel::Leaf { tag: "encoding_profile"@, value: m.encoding_profile },
                            XmlModel::Element {
                                tag: "drc"@,
                                attrs: seq![],
                                children: seq![
                                    XmlModel::Leaf { tag: "ddp_drc_profile"@, value: m.ddp_drc_profile },
                                    XmlModel::Leaf { tag: "flat_panel_drc_profile"@, value: m.flat_panel_drc_profile },
                                    XmlModel::Leaf { tag: "home_theatre_drc_profile"@, value: m.home_theatre_drc_profile },
                                    XmlModel::Leaf { tag: "portable_hp_drc_profile"@, value: m.portable_hp_drc_profile },
                                    XmlModel::Leaf { tag: "portable_spkr_drc_profile"@, value: m.portable_spkr_drc_profile },
                                ],
                            },
                        ],
                    },
                ],
            },
        ],
    }
}

/// The `filter` element.
pub fn filter_node(f: &Ac4ImsFilter) -> (r: XmlNode)
    ensures
        r@ == ac4ims_filter_model(f@),
{
    let ghost m = f@;
    let n1 = XmlNode::leaf(owned("timecode_frame_rate"), f.timecode_frame_rate.clone());
    let ghost g2 = n1@;
    let n3 = XmlNode::leaf(owned("start"), f.start.clone());
    let ghost g4 = n3@;
    let n5 = XmlNode::leaf(owned("end"), f.end.clone());
    let ghost g6 = n5@;
    let n7 = XmlNode::leaf(owned("time_base"), f.time_base.clone());
    let ghost g8 = n7@;
    let n9 = XmlNode::leaf(owned("prepend_silence_duration"), f.prepend_silence_duration.clone());
    let ghost g10 = n9@;
    let n11 = XmlNode::leaf(owned("append_silence_duration"), f.append_silence_duration.clone());
    let ghost g12 = n11@;
    let n13 = XmlNode::leaf(owned("metering_mode"), f.metering_mode.clone());
    let ghost g14 = n13@;
    let n15 = XmlNode::leaf(owned("dialogue_intelligence"), owned(bool_str(f.dialogue_intelligence)));
    let ghost g16 = n15@;
    let n17 = XmlNode::leaf(owned("speech_threshold"), u64_text(f.speech_threshold as u64));
    let ghost g18 = n17@;
    let cs19 = vec![n13, n15, n17];
    assert(cs19@.map_values(|c: XmlNode| c@) =~= seq![g14, g16, g18]);
    let at20: Vec<(String, String)> = Vec::new();
    assert(attrs_model(at20@) =~= Seq::<(Seq<char>, Seq<char>)>::empty());
    let n21 = XmlNode::element(owned("measure_only"), at20, cs19);
    assert(n21@ =~~= (XmlModel::Element {
        tag: "measure_only"@,
        attrs: seq![],
        children: seq![
            XmlModel::Leaf { tag: "metering_mode"@, value: m.metering_mode },
            XmlModel::Leaf { tag: "dialogue_intelligence"@, value: bool_text(m.dialogue_intelligence) },
            XmlModel::Leaf { tag: "speech_threshold"@, value: nat_digits(m.speech_threshold as nat) },
        ],
    }));
    let ghost g22 = n21@;
    let cs23 = vec![n21];
    assert(cs23@.map_values(|c: XmlNode| c@) =~= seq![g22]);
    let at24: Vec<(String, String)> = Vec::new();
    assert(attrs_model(at24@) =~= Seq::<(Seq<char>, Seq<char>)>::empty());
    let n25 = XmlNode::element(owned("loudness"), at24, cs23);
    assert(n25@ =~~= (XmlModel::Element {
        tag: "loudness"@,
        attrs: seq![],
        children: seq![
            XmlModel::Element {
                tag: "measure_only"@,
                attrs: seq![],
                children: seq![
                    XmlModel::Leaf { tag: "metering_mode"@, value: m.metering_mode },
                    XmlModel::Leaf { tag: "dialogue_intelligence"@, value: bool_text(m.dialogue_intelligence) },
                    XmlModel::Leaf { tag: "speech_threshold"@, value: nat_digits(m.speech_threshold as nat) },
                ],
            },
        ],
    }));
    let ghost g26 = n25@;
    let n27 = XmlNode::leaf(owned("data_rate"), u64_text(f.data_rate as u64));
    let ghost g28 = n27@;
    let n29 = XmlNode::leaf(owned("ac4_frame_rate"), f.ac4_frame_rate.clone());
    let ghost g30 = n29@;
    let n31 = XmlNode::leaf(owned("ims_legacy_presentation"), owned(bool_str(f.ims_legacy_presentation)));
    let ghost g32 = n31@;
    let n33 = XmlNode::leaf(owned("iframe_interval"), u64_text(f.iframe_interval as u64));
    let ghost g34 = n33@;
    let n35 = XmlNode::leaf(owned("language"), f.language.clone());
    let ghost g36 = n35@;
    let n37 = XmlNode::leaf(owned("encoding_profile"), f.encoding_profile.clone());
    let ghost g38 = n37@;
    let n39 = XmlNode::leaf(owned("ddp_drc_profile"), f.ddp_drc_profile.clone());
    let ghost g40 = n39@;
    let n41 = XmlNode::leaf(owned("flat_panel_drc_profile"), f.flat_panel_drc_profile.clone());
    let ghost g42 = n41@;
    let n43 = XmlNode::leaf(owned("home_theatre_drc_profile"), f.home_theatre_drc_profile.clone());
    let ghost g44 = n43@;
    let n45 = XmlNode::leaf(owned("portable_hp_drc_profile"), f.portable_hp_drc_profile.clone());
    let ghost g46 = n45@;
    let n47 = XmlNode::leaf(owned("portable_spkr_drc_profile"), f.portable_spkr_drc_profile.clone());
    let ghost g48 = n47@;
    let cs49 = vec![n39, n41, n43, n45, n47];
    assert(cs49@.map_values(|c: XmlNode| c@) =~= seq![g40, g42, g44, g46, g48]);
    let at50: Vec<(String, String)> = Vec::new();
    assert(attrs_model(at50@) =~= Seq::<(Seq<char>, Seq<char>)>::empty());
    let n51 = XmlNode::element(owned("drc"), at50, cs49);
    assert(n51@ =~~= (XmlModel::Element {
        tag: "drc"@,
        attrs: seq![],
        children: seq![
            XmlModel::Leaf { tag: "ddp_drc_profile"@, value: m.ddp_drc_profile },
            XmlModel::Leaf { tag: "flat_panel_drc_profile"@, value: m.flat_panel_drc_profile },
            XmlModel::Leaf { tag: "home_theatre_drc_profile"@, value: m.home_theatre_drc_profile },
            XmlModel::Leaf { tag: "portable_hp_drc_profile"@, value: m.portable_hp_drc_profile },
            XmlModel::Leaf { tag: "portable_spkr_drc_profile"@, value: m.portable_spkr_drc_profile },
        ],
    }));
    let ghost g52 = n51@;
    let cs53 = vec![n1, n3, n5, n7, n9, n11, n25, n27, n29, n31, n33, n35, n37, n51];
    assert(cs53@.map_values(|c: XmlNode| c@) =~= seq![g2, g4, g6, g8, g10, g12, g26, g28, g30, g32, g34, g36, g38, g52]);
    let at54: Vec<(String, String)> = vec![(owned("version"), owned("1"))];
    assert(attrs_model(at54@) =~= seq![("version"@, "1"@)]);
    let n55 = XmlNode::element(owned("encode_to_ims_ac4"), at54, cs53);
    assert(n55@ =~~= (XmlModel::Element {
        tag: "encode_to_ims_ac4"@,
        attrs: seq![("version"@, "1"@)],
        children: seq![
            XmlModel::Leaf { tag: "timecode_frame_rate"@, value: m.timecode_frame_rate },
            XmlModel::Leaf { tag: "start"@, value: m.start },
            XmlModel::Leaf { tag: "end"@, value: m.end },
            XmlModel::Leaf { tag: "time_base"@, value: m.time_base },
            XmlModel::Leaf { tag: "prepend_silence_duration"@, value: m.prepend_silence_duration },
            XmlModel::Leaf { tag: "append_silence_duration"@, value: m.append_silence_duration },
            XmlModel::Element {
                tag: "loudness"@,
                attrs: seq![],
                children: seq![
                    XmlModel::Element {
                        tag: "measure_only"@,
                        attrs: seq![],
                        children: seq![
                            XmlModel::Leaf { tag: "metering_mode"@, value: m.metering_mode },
                            XmlModel::Leaf { tag: "dialogue_intelligence"@, value: bool_text(m.dialogue_intelligence) },
                            XmlModel::Leaf { tag: "speech_threshold"@, value: nat_digits(m.speech_threshold as nat) },
                        ],
                    },
                ],
            },
            XmlModel::Leaf { tag: "data_rate"@, value: nat_digits(m.data_rate as nat) },
            XmlModel::Leaf { tag: "ac4_frame_rate"@, value: m.ac4_frame_rate },
            XmlModel::Leaf { tag: "ims_legacy_presentation"@, value: bool_text(m.ims_legacy_presentation) },
            XmlModel::Leaf { tag: "iframe_interval"@, value: nat_digits(m.iframe_interval as nat) },
            XmlModel::Leaf { tag: "language"@, value: m.language },
            XmlModel::Leaf { tag: "encoding_profile"@, value: m.encoding_profile },
            XmlModel::Element {
                tag: "drc"@,
                attrs: seq![],
                children: seq![
                    XmlModel::Leaf { tag: "ddp_drc_profile"@, value: m.ddp_drc_profile },
                    XmlModel::Leaf { tag: "flat_panel_drc_profile"@, value: m.flat_panel_drc_profile },
                    XmlModel::Leaf { tag: "home_theatre_drc_profile"@, value: m.home_theatre_drc_profile },
                    XmlModel::Leaf { tag: "portable_hp_drc_profile"@, value: m.portable_hp_drc_profile },
                    XmlModel::Leaf { tag: "portable_spkr_drc_profile"@, value: m.portable_spkr_drc_profile },
                ],
            },
        ],
    }));
    let ghost g56 = n55@;
    let cs57 = vec![n55];
    assert(cs57@.map_values(|c: XmlNode| c@) =~= seq![g56]);
    let at58: Vec<(String, String)> = Vec::new();
    assert(attrs_model(at58@) =~= Seq::<(Seq<char>, Seq<char>)>::empty());
    let n59 = XmlNode::element(owned("audio"), at58, cs57);
    assert(n59@ =~~= (XmlModel::Element {
        tag: "audio"@,
        attrs: seq![],
        children: seq![
            XmlModel::Element {
                tag: "encode_to_ims_ac4"@,
                attrs: seq![("version"@, "1"@)],
                children: seq![
                    XmlModel::Leaf { tag: "timecode_frame_rate"@, value: m.timecode_frame_rate },
                    XmlModel::Leaf { tag: "start"@, value: m.start },
                    XmlModel::Leaf { tag: "end"@, value: m.end },
                    XmlModel::Leaf { tag: "time_base"@, value: m.time_base },
                    XmlModel::Leaf { tag: "prepend_silence_duration"@, value: m.prepend_silence_duration },
                    XmlModel::Leaf { tag: "append_silence_duration"@, value: m.append_silence_duration },
                    XmlModel::Element {
                        tag: "loudness"@,
                        attrs: seq![],
                        children: seq![
                            XmlModel::Element {
                                tag: "measure_only"@,
                                attrs: seq![],
                                children: seq![
                                    XmlModel::Leaf { tag: "metering_mode"@, value: m.metering_mode },
                                    XmlModel::Leaf { tag: "dialogue_intelligence"@, value: bool_text(m.dialogue_intelligence) },
                                    XmlModel::Leaf { tag: "speech_threshold"@, value: nat_digits(m.speech_threshold as nat) },
                                ],
                            },
                        ],
                    },
                    XmlModel::Leaf { tag: "data_rate"@, value: nat_digits(m.data_rate as nat) },
                    XmlModel::Leaf { tag: "ac4_frame_rate"@, value: m.ac4_frame_rate },
                    XmlModel::Leaf { tag: "ims_legacy_presentation"@, value: bool_text(m.ims_legacy_presentation) },
                    XmlModel::Leaf { tag: "iframe_interval"@, value: nat_digits(m.iframe_interval as nat) },
                    XmlModel::Leaf { tag: "language"@, value: m.language },
                    XmlModel::Leaf { tag: "encoding_profile"@, value: m.encoding_profile },
                    XmlModel::Element {
                        tag: "drc"@,
                        attrs: seq![],
                        children: seq![
                            XmlModel::Leaf { tag: "ddp_drc_profile"@, value: m.ddp_drc_profile },
                            XmlModel::Leaf { tag: "flat_panel_drc_profile"@, value: m.flat_panel_drc_profile },
                            XmlModel::Leaf { tag: "home_theatre_drc_profile"@, value: m.home_theatre_drc_profile },
                            XmlModel::Leaf { tag: "portable_hp_drc_profile"@, value: m.portable_hp_drc_profile },
                            XmlModel::Leaf { tag: "portable_spkr_drc_profile"@, value: m.portable_spkr_drc_profile },
                        ],
                    },
                ],
            },
        ],
    }));
    let ghost g60 = n59@;
    let cs61 = vec![n59];
    assert(cs61@.map_values(|c: XmlNode| c@) =~= seq![g60]);
    let at62: Vec<(String, String)> = Vec::new();
    assert(attrs_model(at62@) =~= Seq::<(Seq<char>, Seq<char>)>::empty());
    let n63 = XmlNode::element(owned("filter"), at62, cs61);
    assert(n63@ =~~= (XmlModel::Element {
        tag: "filter"@,
        attrs: seq![],
        children: seq![
            XmlModel::Element {
                tag: "audio"@,
                attrs: seq![],
                children: seq![
                    XmlModel::Element {
                        tag: "encode_to_ims_ac4"@,
                        attrs: seq![("version"@, "1"@)],
                        children: seq![
                            XmlModel::Leaf { tag: "timecode_frame_rate"@, value: m.timecode_frame_rate },
                            XmlModel::Leaf { tag: "start"@, value: m.start },
                            XmlModel::Leaf { tag: "end"@, value: m.end },
                            XmlModel::Leaf { tag: "time_base"@, value: m.time_base },
                            XmlModel::Leaf { tag: "prepend_silence_duration"@, value: m.prepend_silence_duration },
                            XmlModel::Leaf { tag: "append_silence_duration"@, value: m.append_silence_duration },
                            XmlModel::Element {
                                tag: "loudness"@,
                                attrs: seq![],
                                children: seq![
                                    XmlModel::Element {
                                        tag: "measure_only"@,
                                        attrs: seq![],
                                        children: seq![
                                            XmlModel::Leaf { tag: "metering_mode"@, value: m.metering_mode },
                                            XmlModel::Leaf { tag: "dialogue_intelligence"@, value: bool_text(m.dialogue_intelligence) },
                                            XmlModel::Leaf { tag: "speech_threshold"@, value: nat_digits(m.speech_threshold as nat) },
                                        ],
                                    },
                                ],
                            },
                            XmlModel::Leaf { tag: "data_rate"@, value: nat_digits(m.data_rate as nat) },
                            XmlModel::Leaf { tag: "ac4_frame_rate"@, value: m.ac4_frame_rate },
                            XmlModel::Leaf { tag: "ims_legacy_presentation"@, value: bool_text(m.ims_legacy_presentation) },
                            XmlModel::Leaf { tag: "iframe_interval"@, value: nat_digits(m.iframe_interval as nat) },
                            XmlModel::Leaf { tag: "language"@, value: m.language },
                            XmlModel::Leaf { tag: "encoding_profile"@, value: m.encoding_profile },
                            XmlModel::Element {
                                tag: "drc"@,
                                attrs: seq![],
                                children: seq![
                                    XmlModel::Leaf { tag: "ddp_drc_profile"@, value: m.ddp_drc_profile },
                                    XmlModel::Leaf { tag: "flat_panel_drc_profile"@, value: m.flat_panel_drc_profile },
                                    XmlModel::Leaf { tag: "home_theatre_drc_profile"@, value: m.home_theatre_drc_profile },
                                    XmlModel::Leaf { tag: "portable_hp_drc_profile"@, value: m.portable_hp_drc_profile },
                                    XmlModel::Leaf { tag: "portable_spkr_drc_profile"@, value: m.portable_spkr_drc_profile },
                                ],
                            },
                        ],
                    },
                ],
            },
        ],
    }));
    n63
}

/// The `output` element of an AC-4 file.
pub open spec fn ac4ims_output_ac4_model(tag: Seq<char>, path: Seq<char>, file: Seq<char>) -> XmlModel {
    XmlModel::Element {
        tag: "output"@,
        attrs: seq![],
        children: seq![
            XmlModel::Element {
                tag: "ac4"@,
                attrs: seq![("version"@, "1"@)],
                children: seq![
                    XmlModel::Leaf { tag: "file_name"@, value: file },
                    storage_model(tag, path),
                ],
            },
        ],
    }
}

/// The `output` element of an AC-4 file.
pub fn output_ac4_node(tag_s: &str, path_s: &str, file_s: &str) -> (r: XmlNode)
    ensures
        r@ == ac4ims_output_ac4_model(tag_s@, path_s@, file_s@),
{
    let ghost tag = tag_s@;
    let ghost path = path_s@;
    let ghost file = file_s@;
    let n1 = XmlNode::leaf(owned("file_name"), owned(file_s));
    let ghost g2 = n1@;
    let n3 = storage_node(tag_s, path_s);
    let ghost g4 = n3@;
    let cs5 = vec![n1, n3];
    assert(cs5@.map_values(|c: XmlNode| c@) =~= seq![g2, g4]);
    let at6: Vec<(String, String)> = vec![(owned("version"), owned("1"))];
    assert(attrs_model(at6@) =~= seq![("version"@, "1"@)]);
    let n7 = XmlNode::element(owned("ac4"), at6, cs5);
    assert(n7@ =~~= (XmlModel::Element {
        tag: "ac4"@,
        attrs: seq![("version"@, "1"@)],
        children: seq![
            XmlModel::Leaf { tag: "file_name"@, value: file },
            storage_model(tag, path),
        ],
    }));
    let ghost g8 = n7@;
    let cs9 = vec![n7];
    assert(cs9@.map_values(|c: XmlNode| c@) =~= seq![g8]);
    let at10: Vec<(String, String)> = Vec::new();
    assert(attrs_model(at10@) =~= Seq::<(Seq<char>, Seq<char>)>::empty());
    let n11 = XmlNode::element(owned("output"), at10, cs9);
    assert(n11@ =~~= (XmlModel::Element {
        tag: "output"@,
        attrs: seq![],
        children: seq![
            XmlModel::Element {
                tag: "ac4"@,
                attrs: seq![("version"@, "1"@)],
                children: seq![
                    XmlModel::Leaf { tag: "file_name"@, value: file },
                    storage_model(tag, path),
                ],
            },
        ],
    }));
    n11
}

/// The `output` element of an MP4 file.
pub open spec fn ac4ims_output_mp4_model(tag: Seq<char>, path: Seq<char>, file: Seq<char>) -> XmlModel {
    XmlModel::Element {
        tag: "output"@,
        attrs: seq![],
        children: seq![
            XmlModel::Element {
                tag: "mp4"@,
                attrs: seq![("version"@, "1"@)],
                children: seq![
                    XmlModel::Leaf { tag: "file_name"@, value: file },
                    XmlModel::Leaf { tag: "output_format"@, value: "mp4"@ },
                    XmlModel::Leaf { tag: "override_frame_rate"@, value: "no"@ },
                    XmlModel::Leaf { tag: "fill_video"@, value: "false"@ },
                    storage_model(tag, path),
                ],
            },
        ],
    }
}

/// The `output` element of an MP4 file.
pub fn output_mp4_node(tag_s: &str, path_s: &str, file_s: &str) -> (r: XmlNode)
    ensures
        r@ == ac4ims_output_mp4_model(tag_s@, path_s@, file_s@),
{
    let ghost tag = tag_s@;
    let ghost path = path_s@;
    let ghost file = file_s@;
    let n1 = XmlNode::leaf(owned("file_name"), owned(file_s));
    let ghost g2 = n1@;
    let n3 = XmlNode::leaf(owned("output_format"), owned("mp4"));
    let ghost g4 = n3@;
    let n5 = XmlNode::leaf(owned("override_frame_rate"), owned("no"));
    let ghost g6 = n5@;
    let n7 = XmlNode::leaf(owned("fill_video"), owned("false"));
    let ghost g8 = n7@;
    let n9 = storage_node(tag_s, path_s);
    let ghost g10 = n9@;
    let cs11 = vec![n1, n3, n5, n7, n9];
    assert(cs11@.map_values(|c: XmlNode| c@) =~= seq![g2, g4, g6, g8, g10]);
    let at12: Vec<(String, String)> = vec![(owned("version"), owned("1"))];
    assert(attrs_model(at12@) =~= seq![("version"@, "1"@)]);
    let n13 = XmlNode::element(owned("mp4"), at12, cs11);
    assert(n13@ =~~= (XmlModel::Element {
        tag: "mp4"@,
        attrs: seq![("version"@, "1"@)],
        children: seq![
            XmlModel::Leaf { tag: "file_name"@, value: file },
            XmlModel::Leaf { tag: "output_format"@, value: "mp4"@ },
            XmlModel::Leaf { tag: "override_frame_rate"@, value: "no"@ },
            XmlModel::Leaf { tag: "fill_video"@, value: "false"@ },
            storage_model(tag, path),
        ],
    }));
    let ghost g14 = n13@;
    let cs15 = vec![n13];
    assert(cs15@.map_values(|c: XmlNode| c@) =~= seq![g14]);
    let at16: Vec<(String, String)> = Vec::new();
    assert(attrs_model(at16@) =~= Seq::<(Seq<char>, Seq<char>)>::empty());
    let n17 = XmlNode::element(owned("output"), at16, cs15);
    assert(n17@ =~~= (XmlModel::Element {
        tag: "output"@,
        attrs: seq![],
        children: seq![
            XmlModel::Element {
                tag: "mp4"@,
                attrs: seq![("version"@, "1"@)],
                children: seq![
                    XmlModel::Leaf { tag: "file_name"@, value: file },
                    XmlModel::Leaf { tag: "output_format"@, value: "mp4"@ },
                    XmlModel::Leaf { tag: "override_frame_rate"@, value: "no"@ },
                    XmlModel::Leaf { tag: "fill_video"@, value: "false"@ },
                    storage_model(tag, path),
                ],
            },
        ],
    }));
    n17
}

/// The `input` element of an Atmos mezzanine with its timecodes.
pub open spec fn ac4ims_atmos_input_model(tag: Seq<char>, path: Seq<char>, file: Seq<char>, tc: Seq<char>, off: Seq<char>, ffoa: Seq<char>) -> XmlModel {
    XmlModel::Element {
        tag: "input"@,
        attrs: seq![],
        children: seq![
            XmlModel::Element {
                tag: "audio"@,
                attrs: seq![],
                children: seq![
                    XmlModel::Element {
                        tag: "atmos_mezz"@,
                        attrs: seq![("version"@, "1"@)],
                        children: seq![
                            XmlModel::Leaf { tag: "file_name"@, value: file },
                            XmlModel::Leaf { tag: "timecode_frame_rate"@, value: tc },
                            XmlModel::Leaf { tag: "offset"@, value: off },
                            XmlModel::Leaf { tag: "ffoa"@, value: ffoa },
                            storage_model(tag, path),
                        ],
                    },
                ],
            },
        ],
    }
}

/// The `input` element of an Atmos mezzanine with its timecodes.
pub fn atmos_input_node(tag_s: &str, path_s: &str, file_s: &str, tc_s: &str, off_s: &str, ffoa_s: &str) -> (r: XmlNode)
    ensures
        r@ == ac4ims_atmos_input_model(tag_s@, path_s@, file_s@, tc_s@, off_s@, ffoa_s@),
{
    let ghost tag = tag_s@;
    let ghost path = path_s@;
    let ghost file = file_s@;
    let ghost tc = tc_s@;
    let ghost off = off_s@;
    let ghost ffoa = ffoa_s@;
    let n1 = XmlNode::leaf(owned("file_name"), owned(file_s));
    let ghost g2 = n1@;
    let n3 = XmlNode::leaf(owned("timecode_frame_rate"), owned(tc_s));
    let ghost g4 = n3@;
    let n5 = XmlNode::leaf(owned("offset"), owned(off_s));
    let ghost g6 = n5@;
    let n7 = XmlNode::leaf(owned("ffoa"), owned(ffoa_s));
    let ghost g8 = n7@;
    let n9 = storage_node(tag_s, path_s);
    let ghost g10 = n9@;
    let cs11 = vec![n1, n3, n5, n7, n9];
    assert(cs11@.map_values(|c: XmlNode| c@) =~= seq![g2, g4, g6, g8, g10]);
    let at12: Vec<(String, String)> = vec![(owned("version"), owned("1"))];
    assert(attrs_model(at12@) =~= seq![("version"@, "1"@)]);
    let n13 = XmlNode::element(owned("atmos_mezz"), at12, cs11);
    assert(n13@ =~~= (XmlModel::Element {
        tag: "atmos_mezz"@,
        attrs: seq![("version"@, "1"@)],
        children: seq![
            XmlModel::Leaf { tag: "file_name"@, value: file },
            XmlModel::Leaf { tag: "timecode_frame_rate"@, value: tc },
            XmlModel::Leaf { tag: "offset"@, value: off },
            XmlModel::Leaf { tag: "ffoa"@, value: ffoa },
            storage_model(tag, path),
        ],
    }));
    let ghost g14 = n13@;
    let cs15 = vec![n13];
    assert(cs15@.map_values(|c: XmlNode| c@) =~= seq![g14]);
    let at16: Vec<(String, String)> = Vec::new();
    assert(attrs_model(at16@) =~= Seq::<(Seq<char>, Seq<char>)>::empty());
    let n17 = XmlNode::element(owned("audio"), at16, cs15);
    assert(n17@ =~~= (XmlModel::Element {
        tag: "audio"@,
        attrs: seq![],
        children: seq![
            XmlModel::Element {
                tag: "atmos_mezz"@,
                attrs: seq![("version"@, "1"@)],
                children: seq![
                    XmlModel::Leaf { tag: "file_name"@, value: file },
                    XmlModel::Leaf { tag: "timecode_frame_rate"@, value: tc },
                    XmlModel::Leaf { tag: "offset"@, value: off },
                    XmlModel::Leaf { tag: "ffoa"@, value: ffoa },
                    storage_model(tag, path),
                ],
            },
        ],
    }));
    let ghost g18 = n17@;
    let cs19 = vec![n17];
    assert(cs19@.map_values(|c: XmlNode| c@) =~= seq![g18]);
    let at20: Vec<(String, String)> = Vec::new();
    assert(attrs_model(at20@) =~= Seq::<(Seq<char>, Seq<char>)>::empty());
    let n21 = XmlNode::element(owned("input"), at20, cs19);
    assert(n21@ =~~= (XmlModel::Element {
        tag: "input"@,
        attrs: seq![],
        children: seq![
            XmlModel::Element {
                tag: "audio"@,
                attrs: seq![],
                children: seq![
                    XmlModel::Element {
                        tag: "atmos_mezz"@,
                        attrs: seq![("version"@, "1"@)],
                        children: seq![
                            XmlModel::Leaf { tag: "file_name"@, value: file },
                            XmlModel::Leaf { tag: "timecode_frame_rate"@, value: tc },
                            XmlModel::Leaf { tag: "offset"@, value: off },
                            XmlModel::Leaf { tag: "ffoa"@, value: ffoa },
                            storage_model(tag, path),
                        ],
                    },
                ],
            },
        ],
    }));
    n21
}

/// The `wav` element of one WAV file with its timecodes.
pub open spec fn ac4ims_wav_model(tag: Seq<char>, path: Seq<char>, file: Seq<char>, tc: Seq<char>, off: Seq<char>, ffoa: Seq<char>) -> XmlModel {
    XmlModel::Element {
        tag: "wav"@,
        attrs: seq![("version"@, "1"@)],
        children: seq![
            XmlModel::Leaf { tag: "file_name"@, value: file },
            XmlModel::Leaf { tag: "timecode_frame_rate"@, value: tc },
            XmlModel::Leaf { tag: "offset"@, value: off },
            XmlModel::Leaf { tag: "ffoa"@, value: ffoa },
            storage_model(tag, path),
        ],
    }
}

/// The `wav` element of one WAV file with its timecodes.
pub fn wav_node(tag_s: &str, path_s: &str, file_s: &str, tc_s: &str, off_s: &str, ffoa_s: &str) -> (r: XmlNode)
    ensures
        r@ == ac4ims_wav_model(tag_s@, path_s@, file_s@, tc_s@, off_s@, ffoa_s@),
{
    let ghost tag = tag_s@;
    let ghost path = path_s@;
    let ghost file = file_s@;
    let ghost tc = tc_s@;
    let ghost off = off_s@;
    let ghost ffoa = ffoa_s@;
    let n1 = XmlNode::leaf(owned("file_name"), owned(file_s));
    let ghost g2 = n1@;
    let n3 = XmlNode::leaf(owned("timecode_frame_rate"), owned(tc_s));
    let ghost g4 = n3@;
    let n5 = XmlNode::leaf(owned("offset"), owned(off_s));
    let ghost g6 = n5@;
    let n7 = XmlNode::leaf(owned("ffoa"), owned(ffoa_s));
    let ghost g8 = n7@;
    let n9 = storage_node(tag_s, path_s);
    let ghost g10 = n9@;
    let cs11 = vec![n1, n3, n5, n7, n9];
    assert(cs11@.map_values(|c: XmlNode| c@) =~= seq![g2, g4, g6, g8, g10]);
    let at12: Vec<(String, String)> = vec![(owned("version"), owned("1"))];
    assert(attrs_model(at12@) =~= seq![("version"@, "1"@)]);
    let n13 = XmlNode::element(owned("wav"), at12, cs11);
    assert(n13@ =~~= (XmlModel::Element {
        tag: "wav"@,
        attrs: seq![("version"@, "1"@)],
        children: seq![
            XmlModel::Leaf { tag: "file_name"@, value: file },
            XmlModel::Leaf { tag: "timecode_frame_rate"@, value: tc },
            XmlModel::Leaf { tag: "offset"@, value: off },
            XmlModel::Leaf { tag: "ffoa"@, value: ffoa },
            storage_model(tag, path),
        ],
    }));
    n13
}

fn push_node(v: &mut Vec<XmlNode>, n: XmlNode)
    ensures
        final(v)@.map_values(|c: XmlNode| c@) == old(v)@.map_values(|c: XmlNode| c@).push(n@),
{
    let ghost g = n@;
    v.push(n);
    assert(final(v)@.map_values(|c: XmlNode| c@) =~= old(v)@.map_values(|c: XmlNode| c@).push(g));
}

/// The `output` element for the job's container and first file name.
pub open spec fn ac4ims_output_model(tag: Seq<char>, j: JobModel) -> XmlModel {
    match j.output.container {
        OutputContainer::Ac4 => ac4ims_output_ac4_model(tag, j.output.storage_path, j.output.file_names[0]),
        OutputContainer::Mp4 => ac4ims_output_mp4_model(tag, j.output.storage_path, j.output.file_names[0]),
    }
}

fn output_node(tag: &str, job: &ResolvedJob) -> (r: XmlNode)
    requires
        job.output.file_names@.len() > 0,
    ensures
        r@ == ac4ims_output_model(tag@, job@),
{
    let first = job.output.file_names[0].as_str();
    assert(job@.output.file_names[0] == first@);
    match job.output.container {
        OutputContainer::Ac4 => output_ac4_node(tag, job.output.storage_path.as_str(), first),
        OutputContainer::Mp4 => output_mp4_node(tag, job.output.storage_path.as_str(), first),
    }
}

/// The `job_config` tree of a job with its `input` element.
pub open spec fn ac4ims_xml_model(j: JobModel, m: Ac4ImsModel, input: XmlModel) -> XmlModel {
    XmlModel::Element {
        tag: "job_config"@,
        attrs: seq![],
        children: seq![
            input,
            ac4ims_filter_model(m),
            ac4ims_output_model(storage_tag_spec(j.job_mode), j),
            misc_model(j.temp_dir, j.clean_temp),
        ],
    }
}

/// The `job_config` tree of a job with its `input` element; the job has an
/// output file name.
pub fn xml_structure(job: &ResolvedJob, filter: &Ac4ImsFilter, input_node: XmlNode) -> (r: XmlNode)
    requires
        job.output.file_names@.len() > 0,
    ensures
        r@ == ac4ims_xml_model(job@, filter@, input_node@),
{
    let ghost ga = input_node@;
    let tag = storage_tag(job.job_mode);
    let b = filter_node(filter);
    let ghost gb = b@;
    let c = output_node(tag, job);
    let ghost gc = c@;
    let d = misc_node(job.misc.temp_dir.as_str(), job.misc.clean_temp);
    let ghost gd = d@;
    let cs = vec![input_node, b, c, d];
    assert(cs@.map_values(|c: XmlNode| c@) =~= seq![ga, gb, gc, gd]);
    let at: Vec<(String, String)> = Vec::new();
    assert(attrs_model(at@) =~= Seq::<(Seq<char>, Seq<char>)>::empty());
    let r = XmlNode::element(owned("job_config"), at, cs);
    assert(r@ =~~= ac4ims_xml_model(job@, filter@, ga));
    r
}

/// The `input` element of an Atmos mezzanine, its first file, with the
/// input timecodes.
pub fn atmos_input_node_with_timecodes(
    storage_tag: &str,
    atmos_mezz: &ResolvedIo,
    input_timecode_frame_rate: &str,
    offset: &str,
    ffoa: &str,
) -> (r: XmlNode)
    requires
        atmos_mezz.file_names@.len() > 0,
    ensures
        r@ == ac4ims_atmos_input_model(
            storage_tag@,
            atmos_mezz@.storage_path,
            atmos_mezz@.file_names[0],
            input_timecode_frame_rate@,
            offset@,
            ffoa@,
        ),
{
    let first = atmos_mezz.file_names[0].as_str();
    assert(atmos_mezz@.file_names[0] == first@);
    atmos_input_node(storage_tag, atmos_mezz.storage_path.as_str(), first, input_timecode_frame_rate, offset, ffoa)
}

/// The leaf tag of the `i`th channel file of a 5.1 WAV list.
pub open spec fn channel_tag(i: int) -> Seq<char> {
    if i == 0 {
        "file_name_L"@
    } else if i == 1 {
        "file_name_R"@
    } else if i == 2 {
        "file_name_C"@
    } else if i == 3 {
        "file_name_LFE"@
    } else if i == 4 {
        "file_name_LS"@
    } else {
        "file_name_RS"@
    }
}

/// One leaf per channel file, for at most six files.
pub open spec fn channel_leaves(names: Seq<Seq<char>>) -> Seq<XmlModel> {
    Seq::new(
        if names.len() < 6 { names.len() } else { 6 },
        |i: int| XmlModel::Leaf { tag: channel_tag(i), value: names[i] },
    )
}

/// The `wav_list` element of a 5.1 WAV list with the input timecodes.
pub open spec fn ac4ims_wav_list_model(tag: Seq<char>, wl: IoModel, tc: Seq<char>, off: Seq<char>, ffoa: Seq<char>) -> XmlModel {
    XmlModel::Element {
        tag: "wav_list"@,
        attrs: seq![("version"@, "1"@)],
        children: channel_leaves(wl.file_names) + seq![
            XmlModel::Leaf { tag: "channel_configuration"@, value: "5.1"@ },
            XmlModel::Leaf { tag: "timecode_frame_rate"@, value: tc },
            XmlModel::Leaf { tag: "offset"@, value: off },
            XmlModel::Leaf { tag: "ffoa"@, value: ffoa },
            storage_model(tag, wl.storage_path),
        ],
    }
}

fn wav_list_node(tag: &str, wl: &ResolvedIo, tc: &str, off: &str, ffoa: &str) -> (r: XmlNode)
    ensures
        r@ == ac4ims_wav_list_model(tag@, wl@, tc@, off@, ffoa@),
{
    let tags = vec!["file_name_L", "file_name_R", "file_name_C", "file_name_LFE", "file_name_LS", "file_name_RS"];
    let ghost names = wl@.file_names;
    let n: usize = if wl.file_names.len() < 6 { wl.file_names.len() } else { 6 };
    let mut cs: Vec<XmlNode> = Vec::new();
    let mut i: usize = 0;
    assert(cs@.map_values(|c: XmlNode| c@) =~= channel_leaves(names).take(0));
    while i < n
        invariant
            i <= n,
            n == channel_leaves(names).len(),
            n <= wl.file_names@.len(),
            names == wl@.file_names,
            tags@.len() == 6,
            forall|k: int| 0 <= k < 6 ==> (#[trigger] tags@[k])@ == channel_tag(k),
            cs@.map_values(|c: XmlNode| c@) == channel_leaves(names).take(i as int),
        decreases n - i,
    {
        proof {
            reveal_strlit("file_name_L");
        }
        let leaf = XmlNode::leaf(owned(tags[i]), wl.file_names[i].clone());
        assert(leaf@ == channel_leaves(names)[i as int]);
        push_node(&mut cs, leaf);
        assert(channel_leaves(names).take(i + 1) =~= channel_leaves(names).take(i as int).push(channel_leaves(names)[i as int]));
        i += 1;
    }
    assert(channel_leaves(names).take(n as int) =~= channel_leaves(names));
    push_node(&mut cs, XmlNode::leaf(owned("channel_configuration"), owned("5.1")));
    push_node(&mut cs, XmlNode::leaf(owned("timecode_frame_rate"), owned(tc)));
    push_node(&mut cs, XmlNode::leaf(owned("offset"), owned(off)));
    push_node(&mut cs, XmlNode::leaf(owned("ffoa"), owned(ffoa)));
    push_node(&mut cs, storage_node(tag, wl.storage_path.as_str()));
    assert(cs@.map_values(|c: XmlNode| c@) =~= channel_leaves(names) + seq![
        XmlModel::Leaf { tag: "channel_configuration"@, value: "5.1"@ },
        XmlModel::Leaf { tag: "timecode_frame_rate"@, value: tc@ },
        XmlModel::Leaf { tag: "offset"@, value: off@ },
        XmlModel::Leaf { tag: "ffoa"@, value: ffoa@ },
        storage_model(tag@, wl@.storage_path),
    ]);
    let at: Vec<(String, String)> = vec![(owned("version"), owned("1"))];
    assert(attrs_model(at@) =~= seq![("version"@, "1"@)]);
    let r = XmlNode::element(owned("wav_list"), at, cs);
    assert(r@ =~~= ac4ims_wav_list_model(tag@, wl@, tc@, off@, ffoa@));
    r
}

pub open spec fn opt_io(o: Option<ResolvedIo>) -> Option<IoModel> {
    match o {
        Some(x) => Some(x@),
        None => None,
    }
}

/// The `input` element of the WAV groups present, with the input
/// timecodes.
pub open spec fn ac4ims_pcm_input_model(
    tag: Seq<char>,
    wav: Option<IoModel>,
    wav_list: Option<IoModel>,
    tc: Seq<char>,
    off: Seq<char>,
    ffoa: Seq<char>,
) -> XmlModel {
    let a = match wav {
        Some(w) => seq![ac4ims_wav_model(tag, w.storage_path, w.file_names[0], tc, off, ffoa)],
        None => Seq::empty(),
    };
    let b = match wav_list {
        Some(wl) => seq![ac4ims_wav_list_model(tag, wl, tc, off, ffoa)],
        None => Seq::empty(),
    };
    XmlModel::Element {
        tag: "input"@,
        attrs: seq![],
        children: seq![XmlModel::Element { tag: "audio"@, attrs: seq![], children: a + b }],
    }
}

/// The `input` element of the WAV groups present (a single WAV by its first
/// file, a 5.1 WAV list), with the input timecodes.
pub fn pcm_input_node_with_timecodes(
    storage_tag: &str,
    groups: &ResolvedInputGroups,
    input_timecode_frame_rate: &str,
    offset: &str,
    ffoa: &str,
) -> (r: XmlNode)
    requires
        groups.wav matches Some(w) ==> w.file_names@.len() > 0,
    ensures
        r@ == ac4ims_pcm_input_model(
            storage_tag@,
            opt_io(groups.wav),
            opt_io(groups.wav_list),
            input_timecode_frame_rate@,
            offset@,
            ffoa@,
        ),
{
    let ghost (tc, off, ff) = (input_timecode_frame_rate@, offset@, ffoa@);
    let ghost a: Seq<XmlModel> = match opt_io(groups.wav) {
        Some(w) => seq![ac4ims_wav_model(storage_tag@, w.storage_path, w.file_names[0], tc, off, ff)],
        None => Seq::empty(),
    };
    let ghost b: Seq<XmlModel> = match opt_io(groups.wav_list) {
        Some(wl) => seq![ac4ims_wav_list_model(storage_tag@, wl, tc, off, ff)],
        None => Seq::empty(),
    };
    let mut children: Vec<XmlNode> = Vec::new();
    assert(children@.map_values(|c: XmlNode| c@) =~= Seq::<XmlModel>::empty());
    if let Some(wav) = &groups.wav {
        let first = wav.file_names[0].as_str();
        assert(wav@.file_names[0] == first@);
        push_node(
            &mut children,
            wav_node(storage_tag, wav.storage_path.as_str(), first, input_timecode_frame_rate, offset, ffoa),
        );
        assert(children@.map_values(|c: XmlNode| c@) =~= a);
    } else {
        assert(children@.map_values(|c: XmlNode| c@) =~= a);
    }
    if let Some(wl) = &groups.wav_list {
        push_node(&mut children, wav_list_node(storage_tag, wl, input_timecode_frame_rate, offset, ffoa));
        assert(children@.map_values(|c: XmlNode| c@) =~= a + b);
    } else {
        assert(children@.map_values(|c: XmlNode| c@) =~= a + b);
    }
    let ghost gc = children@.map_values(|c: XmlNode| c@);
    let a0: Vec<(String, String)> = Vec::new();
    assert(attrs_model(a0@) =~= Seq::<(Seq<char>, Seq<char>)>::empty());
    let audio = XmlNode::element(owned("audio"), a0, children);
    let ghost ga = audio@;
    let cs = vec![audio];
    assert(cs@.map_values(|c: XmlNode| c@) =~= seq![ga]);
    let a1: Vec<(String, String)> = Vec::new();
    assert(attrs_model(a1@) =~= Seq::<(Seq<char>, Seq<char>)>::empty());
    let r = XmlNode::element(owned("input"), a1, cs);
    assert(r@ =~~= ac4ims_pcm_input_model(
        storage_tag@,
        opt_io(groups.wav),
        opt_io(groups.wav_list),
        input_timecode_frame_rate@,
        offset@,
        ffoa@,
    ));
    r
}

} // verus!
