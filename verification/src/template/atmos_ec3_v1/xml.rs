//! The DEE XML tree of `atmos_ec3_v1` jobs.
use vstd::prelude::*;

use crate::render::{
    attrs_model, file_list_text, lemma_child_get_at, node_tag, render_file_name_list, strings_model, xml_in, xml_value,
    PredModel, Predicate, XmlModel, XmlNode,
};
use crate::resolve::JobModel;
use crate::template::atmos_ec3_v1::{AtmosEc3V1Filter, AtmosEc3V1Model};
use crate::template::common::{
    misc_model, misc_node, opt_model, opt_text, storage_model, storage_node, storage_tag,
    storage_tag_spec,
};
use crate::text::{bool_str, bool_text, i64_text, int_text, nat_digits, owned, u64_text};

verus! {

/// The `input` element.
pub open spec fn atmos_input_model(tag: Seq<char>, path: Seq<char>, files: Seq<char>, m: AtmosEc3V1Model) -> XmlModel {
    XmlModel::Element {
        tag: "input"@,
        attrs: seq![],
        children: seq![
            XmlModel::Element {
                tag: "audio"@,
                attrs: seq![],
                children: seq![
                    XmlModel::Element {
                        tag: "atmos_mezz"@,
                        attrs: seq![("version"@, "1"@)],
                        children: seq![
                            XmlModel::Leaf { tag: "file_name"@, value: files },
                            XmlModel::Leaf { tag: "timecode_frame_rate"@, value: m.timecode_frame_rate },
                            XmlModel::Leaf { tag: "offset"@, value: "auto"@ },
                            XmlModel::Leaf { tag: "ffoa"@, value: "auto"@ },
                            storage_model(tag, path),
                        ],
                    },
                ],
            },
        ],
    }
}

/// The `input` element.
pub fn input_node(tag_s: &str, path_s: &str, files_s: &str, f: &AtmosEc3V1Filter) -> (r: XmlNode)
    ensures
        r@ == atmos_input_model(tag_s@, path_s@, files_s@, f@),
{
    let ghost tag = tag_s@;
    let ghost path = path_s@;
    let ghost files = files_s@;
    let ghost m = f@;
    let n1 = XmlNode::leaf(owned("file_name"), owned(files_s));
    let ghost g2 = n1@;
    let n3 = XmlNode::leaf(owned("timecode_frame_rate"), f.timecode_frame_rate.clone());
    let ghost g4 = n3@;
    let n5 = XmlNode::leaf(owned("offset"), owned("auto"));
    let ghost g6 = n5@;
    let n7 = XmlNode::leaf(owned("ffoa"), owned("auto"));
    let ghost g8 = n7@;
    let n9 = storage_node(tag_s, path_s);
    let ghost g10 = n9@;
    let cs11 = vec![n1, n3, n5, n7, n9];
    assert(cs11@.map_values(|c: XmlNode| c@) =~= seq![g2, g4, g6, g8, g10]);
    let at12: Vec<(String, String)> = vec![(owned("version"), owned("1"))];
    assert(attrs_model(at12@) =~= seq![("version"@, "1"@)]);
    let n13 = XmlNode::element(owned("atmos_mezz"), at12, cs11);
    assert(n13@ =~~= (XmlModel::Element {
        tag: "atmos_mezz"@,
        attrs: seq![("version"@, "1"@)],
        children: seq![
            XmlModel::Leaf { tag: "file_name"@, value: files },
            XmlModel::Leaf { tag: "timecode_frame_rate"@, value: m.timecode_frame_rate },
            XmlModel::Leaf { tag: "offset"@, value: "auto"@ },
            XmlModel::Leaf { tag: "ffoa"@, value: "auto"@ },
            storage_model(tag, path),
        ],
    }));
    let ghost g14 = n13@;
    let cs15 = vec![n13];
    assert(cs15@.map_values(|c: XmlNode| c@) =~= seq![g14]);
    let at16: Vec<(String, String)> = Vec::new();
    assert(attrs_model(at16@) =~= Seq::<(Seq<char>, Seq<char>)>::empty());
    let n17 = XmlNode::element(owned("audio"), at16, cs15);
    assert(n17@ =~~= (XmlModel::Element {
        tag: "audio"@,
        attrs: seq![],
        children: seq![
            XmlModel::Element {
                tag: "atmos_mezz"@,
                attrs: seq![("version"@, "1"@)],
                children: seq![
                    XmlModel::Leaf { tag: "file_name"@, value: files },
                    XmlModel::Leaf { tag: "timecode_frame_rate"@, value: m.timecode_frame_rate },
                    XmlModel::Leaf { tag: "offset"@, value: "auto"@ },
                    XmlModel::Leaf { tag: "ffoa"@, value: "auto"@ },
                    storage_model(tag, path),
                ],
            },
        ],
    }));
    let ghost g18 = n17@;
    let cs19 = vec![n17];
    assert(cs19@.map_values(|c: XmlNode| c@) =~= seq![g18]);
    let at20: Vec<(String, String)> = Vec::new();
    assert(attrs_model(at20@) =~= Seq::<(Seq<char>, Seq<char>)>::empty());
    let n21 = XmlNode::element(owned("input"), at20, cs19);
    assert(n21@ =~~= (XmlModel::Element {
        tag: "input"@,
        attrs: seq![],
        children: seq![
            XmlModel::Element {
                tag: "audio"@,
                attrs: seq![],
                children: seq![
                    XmlModel::Element {
                        tag: "atmos_mezz"@,
                        attrs: seq![("version"@, "1"@)],
                        children: seq![
                            XmlModel::Leaf { tag: "file_name"@, value: files },
                            XmlModel::Leaf { tag: "timecode_frame_rate"@, value: m.timecode_frame_rate },
                            XmlModel::Leaf { tag: "offset"@, value: "auto"@ },
                            XmlModel::Leaf { tag: "ffoa"@, value: "auto"@ },
                            storage_model(tag, path),
                        ],
                    },
                ],
            },
        ],
    }));
    n21
}

/// The `filter` element.
pub open spec fn atmos_filter_model(m: AtmosEc3V1Model) -> XmlModel {
    XmlModel::Element {
        tag: "filter"@,
        attrs: seq![],
        children: seq![
            XmlModel::Element {
                tag: "audio"@,
                attrs: seq![],
                children: seq![
                    XmlModel::Element {
                        tag: "encode_to_atmos_ddp"@,
                        attrs: seq![("version"@, "1"@)],
                        children: seq![
                            XmlModel::Element {
                                tag: "loudness"@,
                                attrs: seq![],
                                children: seq![
                                    XmlModel::Element {
                                        tag: "measure_only"@,
                                        attrs: seq![],
                                        children: seq![
                                            XmlModel::Leaf { tag: "metering_mode"@, value: m.metering_mode },
                                            XmlModel::Leaf { tag: "dialogue_intelligence"@, value: bool_text(m.dialogue_intelligence) },
                                            XmlModel::Leaf { tag: "speech_threshold"@, value: nat_digits(m.speech_threshold as nat) },
                                        ],
                                    },
                                ],
                            },
                            XmlModel::Leaf { tag: "data_rate"@, value: nat_digits(m.data_rate as nat) },
                            XmlModel::Leaf { tag: "timecode_frame_rate"@, value: m.timecode_frame_rate },
                            XmlModel::Leaf { tag: "start"@, value: m.start },
                            XmlModel::Leaf { tag: "end"@, value: m.end },
                            XmlModel::Leaf { tag: "time_base"@, value: m.time_base },
                            XmlModel::Leaf { tag: "prepend_silence_duration"@, value: m.prepend_silence_duration },
                            XmlModel::Leaf { tag: "append_silence_duration"@, value: m.append_silence_duration },
                            XmlModel::Element {
                                tag: "drc"@,
                                attrs: seq![],
                                children: seq![
                                    XmlModel::Leaf { tag: "line_mode_drc_profile"@, value: m.line_mode_drc_profile },
                                    XmlModel::Leaf { tag: "rf_mode_drc_profile"@, value: m.rf_mode_drc_profile },
                                ],
                            },
                            XmlModel::Element {
                                tag: "downmix"@,
                                attrs: seq![],
                                children: seq![
                                    XmlModel::Leaf { tag: "loro_center_mix_level"@, value: m.loro_center_mix_level },
                                    XmlModel::Leaf { tag: "loro_surround_mix_level"@, value: m.loro_surround_mix_level },
                                    XmlModel::Leaf { tag: "ltrt_center_mix_level"@, value: m.ltrt_center_mix_level },
                                    XmlModel::Leaf { tag: "ltrt_surround_mix_level"@, value: m.ltrt_surround_mix_level },
                                    XmlModel::Leaf { tag: "preferred_downmix_mode"@, value: m.preferred_downmix_mode },
                                ],
                            },
                            XmlModel::Element {
                                tag: "custom_trims"@,
                                attrs: seq![],
                                children: seq![
                                    XmlModel::Leaf { tag: "surround_trim_5_1"@, value: m.surround_trim_5_1 },
                                    XmlModel::Leaf { tag: "height_trim_5_1"@, value: m.height_trim_5_1 },
                                ],
                            },
                            XmlModel::Leaf { tag: "custom_dialnorm"@, value: int_text(m.custom_dialnorm as int) },
                            XmlModel::When {
                                predicate: PredModel::ParamSome("encoding_backend"@),
                                children: seq![
                                    XmlModel::Leaf { tag: "encoding_backend"@, value: opt_model(m.encoding_backend) },
                                ],
                            },
                            XmlModel::When {
                                predicate: PredModel::ParamSome("encoder_mode"@),
                                children: seq![
                                    XmlModel::Leaf { tag: "encoder_mode"@, value: opt_model(m.encoder_mode) },
                                ],
                            },
                        ],
                    },
                ],
            },
        ],
    }
}

/// The `filter` element.
pub fn filter_node(f: &AtmosEc3V1Filter) -> (r: XmlNode)
    ensures
        r@ == atmos_filter_model(f@),
{
    let ghost m = f@;
    let n1 = XmlNode::leaf(owned("metering_mode"), f.metering_mode.clone());
    let ghost g2 = n1@;
    let n3 = XmlNode::leaf(owned("dialogue_intelligence"), owned(bool_str(f.dialogue_intelligence)));
    let ghost g4 = n3@;
    let n5 = XmlNode::leaf(owned("speech_threshold"), u64_text(f.speech_threshold as u64));
    let ghost g6 = n5@;
    let cs7 = vec![n1, n3, n5];
    assert(cs7@.map_values(|c: XmlNode| c@) =~= seq![g2, g4, g6]);
    let at8: Vec<(String, String)> = Vec::new();
    assert(attrs_model(at8@) =~= Seq::<(Seq<char>, Seq<char>)>::empty());
    let n9 = XmlNode::element(owned("measure_only"), at8, cs7);
    assert(n9@ =~~= (XmlModel::Element {
        tag: "measure_only"@,
        attrs: seq![],
        children: seq![
            XmlModel::Leaf { tag: "metering_mode"@, value: m.metering_mode },
            XmlModel::Leaf { tag: "dialogue_intelligence"@, value: bool_text(m.dialogue_intelligence) },
            XmlModel::Leaf { tag: "speech_threshold"@, value: nat_digits(m.speech_threshold as nat) },
        ],
    }));
    let ghost g10 = n9@;
    let cs11 = vec![n9];
    assert(cs11@.map_values(|c: XmlNode| c@) =~= seq![g10]);
    let at12: Vec<(String, String)> = Vec::new();
    assert(attrs_model(at12@) =~= Seq::<(Seq<char>, Seq<char>)>::empty());
    let n13 = XmlNode::element(owned("loudness"), at12, cs11);
    assert(n13@ =~~= (XmlModel::Element {
        tag: "loudness"@,
        attrs: seq![],
        children: seq![
            XmlModel::Element {
                tag: "measure_only"@,
                attrs: seq![],
                children: seq![
                    XmlModel::Leaf { tag: "metering_mode"@, value: m.metering_mode },
                    XmlModel::Leaf { tag: "dialogue_intelligence"@, value: bool_text(m.dialogue_intelligence) },
                    XmlModel::Leaf { tag: "speech_threshold"@, value: nat_digits(m.speech_threshold as nat) },
                ],
            },
        ],
    }));
    let ghost g14 = n13@;
    let n15 = XmlNode::leaf(owned("data_rate"), u64_text(f.data_rate as u64));
    let ghost g16 = n15@;
    let n17 = XmlNode::leaf(owned("timecode_frame_rate"), f.timecode_frame_rate.clone());
    let ghost g18 = n17@;
    let n19 = XmlNode::leaf(owned("start"), f.start.clone());
    let ghost g20 = n19@;
    let n21 = XmlNode::leaf(owned("end"), f.end.clone());
    let ghost g22 = n21@;
    let n23 = XmlNode::leaf(owned("time_base"), f.time_base.clone());
    let ghost g24 = n23@;
    let n25 = XmlNode::leaf(owned("prepend_silence_duration"), f.prepend_silence_duration.clone());
    let ghost g26 = n25@;
    let n27 = XmlNode::leaf(owned("append_silence_duration"), f.append_silence_duration.clone());
    let ghost g28 = n27@;
    let n29 = XmlNode::leaf(owned("line_mode_drc_profile"), f.line_mode_drc_profile.clone());
    let ghost g30 = n29@;
    let n31 = XmlNode::leaf(owned("rf_mode_drc_profile"), f.rf_mode_drc_profile.clone());
    let ghost g32 = n31@;
    let cs33 = vec![n29, n31];
    assert(cs33@.map_values(|c: XmlNode| c@) =~= seq![g30, g32]);
    let at34: Vec<(String, String)> = Vec::new();
    assert(attrs_model(at34@) =~= Seq::<(Seq<char>, Seq<char>)>::empty());
    let n35 = XmlNode::element(owned("drc"), at34, cs33);
    assert(n35@ =~~= (XmlModel::Element {
        tag: "drc"@,
        attrs: seq![],
        children: seq![
            XmlModel::Leaf { tag: "line_mode_drc_profile"@, value: m.line_mode_drc_profile },
            XmlModel::Leaf { tag: "rf_mode_drc_profile"@, value: m.rf_mode_drc_profile },
        ],
    }));
    let ghost g36 = n35@;
    let n37 = XmlNode::leaf(owned("loro_center_mix_level"), f.loro_center_mix_level.clone());
    let ghost g38 = n37@;
    let n39 = XmlNode::leaf(owned("loro_surround_mix_level"), f.loro_surround_mix_level.clone());
    let ghost g40 = n39@;
    let n41 = XmlNode::leaf(owned("ltrt_center_mix_level"), f.ltrt_center_mix_level.clone());
    let ghost g42 = n41@;
    let n43 = XmlNode::leaf(owned("ltrt_surround_mix_level"), f.ltrt_surround_mix_level.clone());
    let ghost g44 = n43@;
    let n45 = XmlNode::leaf(owned("preferred_downmix_mode"), f.preferred_downmix_mode.clone());
    let ghost g46 = n45@;
    let cs47 = vec![n37, n39, n41, n43, n45];
    assert(cs47@.map_values(|c: XmlNode| c@) =~= seq![g38, g40, g42, g44, g46]);
    let at48: Vec<(String, String)> = Vec::new();
    assert(attrs_model(at48@) =~= Seq::<(Seq<char>, Seq<char>)>::empty());
    let n49 = XmlNode::element(owned("downmix"), at48, cs47);
    assert(n49@ =~~= (XmlModel::Element {
        tag: "downmix"@,
        attrs: seq![],
        children: seq![
            XmlModel::Leaf { tag: "loro_center_mix_level"@, value: m.loro_center_mix_level },
            XmlModel::Leaf { tag: "loro_surround_mix_level"@, value: m.loro_surround_mix_level },
            XmlModel::Leaf { tag: "ltrt_center_mix_level"@, value: m.ltrt_center_mix_level },
            XmlModel::Leaf { tag: "ltrt_surround_mix_level"@, value: m.ltrt_surround_mix_level },
            XmlModel::Leaf { tag: "preferred_downmix_mode"@, value: m.preferred_downmix_mode },
        ],
    }));
    let ghost g50 = n49@;
    let n51 = XmlNode::leaf(owned("surround_trim_5_1"), f.surround_trim_5_1.clone());
    let ghost g52 = n51@;
    let n53 = XmlNode::leaf(owned("height_trim_5_1"), f.height_trim_5_1.clone());
    let ghost g54 = n53@;
    let cs55 = vec![n51, n53];
    assert(cs55@.map_values(|c: XmlNode| c@) =~= seq![g52, g54]);
    let at56: Vec<(String, String)> = Vec::new();
    assert(attrs_model(at56@) =~= Seq::<(Seq<char>, Seq<char>)>::empty());
    let n57 = XmlNode::element(owned("custom_trims"), at56, cs55);
    assert(n57@ =~~= (XmlModel::Element {
        tag: "custom_trims"@,
        attrs: seq![],
        children: seq![
            XmlModel::Leaf { tag: "surround_trim_5_1"@, value: m.surround_trim_5_1 },
            XmlModel::Leaf { tag: "height_trim_5_1"@, value: m.height_trim_5_1 },
        ],
    }));
    let ghost g58 = n57@;
    let n59 = XmlNode::leaf(owned("custom_dialnorm"), i64_text(f.custom_dialnorm as i64));
    let ghost g60 = n59@;
    let n61 = XmlNode::leaf(owned("encoding_backend"), opt_text(&f.encoding_backend));
    let ghost g62 = n61@;
    let cs63 = vec![n61];
    assert(cs63@.map_values(|c: XmlNode| c@) =~= seq![g62]);
    let n64 = XmlNode::when_node(Predicate::ParamSome(owned("encoding_backend")), cs63);
    assert(n64@ =~~= (XmlModel::When {
        predicate: PredModel::ParamSome("encoding_backend"@),
        children: seq![
            XmlModel::Leaf { tag: "encoding_backend"@, value: opt_model(m.encoding_backend) },
        ],
    }));
    let ghost g65 = n64@;
    let n66 = XmlNode::leaf(owned("encoder_mode"), opt_text(&f.encoder_mode));
    let ghost g67 = n66@;
    let cs68 = vec![n66];
    assert(cs68@.map_values(|c: XmlNode| c@) =~= seq![g67]);
    let n69 = XmlNode::when_node(Predicate::ParamSome(owned("encoder_mode")), cs68);
    assert(n69@ =~~= (XmlModel::When {
        predicate: PredModel::ParamSome("encoder_mode"@),
        children: seq![
            XmlModel::Leaf { tag: "encoder_mode"@, value: opt_model(m.encoder_mode) },
        ],
    }));
    let ghost g70 = n69@;
    let cs71 = vec![n13, n15, n17, n19, n21, n23, n25, n27, n35, n49, n57, n59, n64, n69];
    assert(cs71@.map_values(|c: XmlNode| c@) =~= seq![g14, g16, g18, g20, g22, g24, g26, g28, g36, g50, g58, g60, g65, g70]);
    let at72: Vec<(String, String)> = vec![(owned("version"), owned("1"))];
    assert(attrs_model(at72@) =~= seq![("version"@, "1"@)]);
    let n73 = XmlNode::element(owned("encode_to_atmos_ddp"), at72, cs71);
    assert(n73@ =~~= (XmlModel::Element {
        tag: "encode_to_atmos_ddp"@,
        attrs: seq![("version"@, "1"@)],
        children: seq![
            XmlModel::Element {
                tag: "loudness"@,
                attrs: seq![],
                children: seq![
                    XmlModel::Element {
                        tag: "measure_only"@,
                        attrs: seq![],
                        children: seq![
                            XmlModel::Leaf { tag: "metering_mode"@, value: m.metering_mode },
                            XmlModel::Leaf { tag: "dialogue_intelligence"@, value: bool_text(m.dialogue_intelligence) },
                            XmlModel::Leaf { tag: "speech_threshold"@, value: nat_digits(m.speech_threshold as nat) },
                        ],
                    },
                ],
            },
            XmlModel::Leaf { tag: "data_rate"@, value: nat_digits(m.data_rate as nat) },
            XmlModel::Leaf { tag: "timecode_frame_rate"@, value: m.timecode_frame_rate },
            XmlModel::Leaf { tag: "start"@, value: m.start },
            XmlModel::Leaf { tag: "end"@, value: m.end },
            XmlModel::Leaf { tag: "time_base"@, value: m.time_base },
            XmlModel::Leaf { tag: "prepend_silence_duration"@, value: m.prepend_silence_duration },
            XmlModel::Leaf { tag: "append_silence_duration"@, value: m.append_silence_duration },
            XmlModel::Element {
                tag: "drc"@,
                attrs: seq![],
                children: seq![
                    XmlModel::Leaf { tag: "line_mode_drc_profile"@, value: m.line_mode_drc_profile },
                    XmlModel::Leaf { tag: "rf_mode_drc_profile"@, value: m.rf_mode_drc_profile },
                ],
            },
            XmlModel::Element {
                tag: "downmix"@,
                attrs: seq![],
                children: seq![
                    XmlModel::Leaf { tag: "loro_center_mix_level"@, value: m.loro_center_mix_level },
                    XmlModel::Leaf { tag: "loro_surround_mix_level"@, value: m.loro_surround_mix_level },
                    XmlModel::Leaf { tag: "ltrt_center_mix_level"@, value: m.ltrt_center_mix_level },
                    XmlModel::Leaf { tag: "ltrt_surround_mix_level"@, value: m.ltrt_surround_mix_level },
                    XmlModel::Leaf { tag: "preferred_downmix_mode"@, value: m.preferred_downmix_mode },
                ],
            },
            XmlModel::Element {
                tag: "custom_trims"@,
                attrs: seq![],
                children: seq![
                    XmlModel::Leaf { tag: "surround_trim_5_1"@, value: m.surround_trim_5_1 },
                    XmlModel::Leaf { tag: "height_trim_5_1"@, value: m.height_trim_5_1 },
                ],
            },
            XmlModel::Leaf { tag: "custom_dialnorm"@, value: int_text(m.custom_dialnorm as int) },
            XmlModel::When {
                predicate: PredModel::ParamSome("encoding_backend"@),
                children: seq![
                    XmlModel::Leaf { tag: "encoding_backend"@, value: opt_model(m.encoding_backend) },
                ],
            },
            XmlModel::When {
                predicate: PredModel::ParamSome("encoder_mode"@),
                children: seq![
                    XmlModel::Leaf { tag: "encoder_mode"@, value: opt_model(m.encoder_mode) },
                ],
            },
        ],
    }));
    let ghost g74 = n73@;
    let cs75 = vec![n73];
    assert(cs75@.map_values(|c: XmlNode| c@) =~= seq![g74]);
    let at76: Vec<(String, String)> = Vec::new();
    assert(attrs_model(at76@) =~= Seq::<(Seq<char>, Seq<char>)>::empty());
    let n77 = XmlNode::element(owned("audio"), at76, cs75);
    assert(n77@ =~~= (XmlModel::Element {
        tag: "audio"@,
        attrs: seq![],
        children: seq![
            XmlModel::Element {
                tag: "encode_to_atmos_ddp"@,
                attrs: seq![("version"@, "1"@)],
                children: seq![
                    XmlModel::Element {
                        tag: "loudness"@,
                        attrs: seq![],
                        children: seq![
                            XmlModel::Element {
                                tag: "measure_only"@,
                                attrs: seq![],
                                children: seq![
                                    XmlModel::Leaf { tag: "metering_mode"@, value: m.metering_mode },
                                    XmlModel::Leaf { tag: "dialogue_intelligence"@, value: bool_text(m.dialogue_intelligence) },
                                    XmlModel::Leaf { tag: "speech_threshold"@, value: nat_digits(m.speech_threshold as nat) },
                                ],
                            },
                        ],
                    },
                    XmlModel::Leaf { tag: "data_rate"@, value: nat_digits(m.data_rate as nat) },
                    XmlModel::Leaf { tag: "timecode_frame_rate"@, value: m.timecode_frame_rate },
                    XmlModel::Leaf { tag: "start"@, value: m.start },
                    XmlModel::Leaf { tag: "end"@, value: m.end },
                    XmlModel::Leaf { tag: "time_base"@, value: m.time_base },
                    XmlModel::Leaf { tag: "prepend_silence_duration"@, value: m.prepend_silence_duration },
                    XmlModel::Leaf { tag: "append_silence_duration"@, value: m.append_silence_duration },
                    XmlModel::Element {
                        tag: "drc"@,
                        attrs: seq![],
                        children: seq![
                            XmlModel::Leaf { tag: "line_mode_drc_profile"@, value: m.line_mode_drc_profile },
                            XmlModel::Leaf { tag: "rf_mode_drc_profile"@, value: m.rf_mode_drc_profile },
                        ],
                    },
                    XmlModel::Element {
                        tag: "downmix"@,
                        attrs: seq![],
                        children: seq![
                            XmlModel::Leaf { tag: "loro_center_mix_level"@, value: m.loro_center_mix_level },
                            XmlModel::Leaf { tag: "loro_surround_mix_level"@, value: m.loro_surround_mix_level },
                            XmlModel::Leaf { tag: "ltrt_center_mix_level"@, value: m.ltrt_center_mix_level },
                            XmlModel::Leaf { tag: "ltrt_surround_mix_level"@, value: m.ltrt_surround_mix_level },
                            XmlModel::Leaf { tag: "preferred_downmix_mode"@, value: m.preferred_downmix_mode },
                        ],
                    },
                    XmlModel::Element {
                        tag: "custom_trims"@,
                        attrs: seq![],
                        children: seq![
                            XmlModel::Leaf { tag: "surround_trim_5_1"@, value: m.surround_trim_5_1 },
                            XmlModel::Leaf { tag: "height_trim_5_1"@, value: m.height_trim_5_1 },
                        ],
                    },
                    XmlModel::Leaf { tag: "custom_dialnorm"@, value: int_text(m.custom_dialnorm as int) },
                    XmlModel::When {
                        predicate: PredModel::ParamSome("encoding_backend"@),
                        children: seq![
                            XmlModel::Leaf { tag: "encoding_backend"@, value: opt_model(m.encoding_backend) },
                        ],
                    },
                    XmlModel::When {
                        predicate: PredModel::ParamSome("encoder_mode"@),
                        children: seq![
                            XmlModel::Leaf { tag: "encoder_mode"@, value: opt_model(m.encoder_mode) },
                        ],
                    },
                ],
            },
        ],
    }));
    let ghost g78 = n77@;
    let cs79 = vec![n77];
    assert(cs79@.map_values(|c: XmlNode| c@) =~= seq![g78]);
    let at80: Vec<(String, String)> = Vec::new();
    assert(attrs_model(at80@) =~= Seq::<(Seq<char>, Seq<char>)>::empty());
    let n81 = XmlNode::element(owned("filter"), at80, cs79);
    assert(n81@ =~~= (XmlModel::Element {
        tag: "filter"@,
        attrs: seq![],
        children: seq![
            XmlModel::Element {
                tag: "audio"@,
                attrs: seq![],
                children: seq![
                    XmlModel::Element {
                        tag: "encode_to_atmos_ddp"@,
                        attrs: seq![("version"@, "1"@)],
                        children: seq![
                            XmlModel::Element {
                                tag: "loudness"@,
                                attrs: seq![],
                                children: seq![
                                    XmlModel::Element {
                                        tag: "measure_only"@,
                                        attrs: seq![],
                                        children: seq![
                                            XmlModel::Leaf { tag: "metering_mode"@, value: m.metering_mode },
                                            XmlModel::Leaf { tag: "dialogue_intelligence"@, value: bool_text(m.dialogue_intelligence) },
                                            XmlModel::Leaf { tag: "speech_threshold"@, value: nat_digits(m.speech_threshold as nat) },
                                        ],
                                    },
                                ],
                            },
                            XmlModel::Leaf { tag: "data_rate"@, value: nat_digits(m.data_rate as nat) },
                            XmlModel::Leaf { tag: "timecode_frame_rate"@, value: m.timecode_frame_rate },
                            XmlModel::Leaf { tag: "start"@, value: m.start },
                            XmlModel::Leaf { tag: "end"@, value: m.end },
                            XmlModel::Leaf { tag: "time_base"@, value: m.time_base },
                            XmlModel::Leaf { tag: "prepend_silence_duration"@, value: m.prepend_silence_duration },
                            XmlModel::Leaf { tag: "append_silence_duration"@, value: m.append_silence_duration },
                            XmlModel::Element {
                                tag: "drc"@,
                                attrs: seq![],
                                children: seq![
                                    XmlModel::Leaf { tag: "line_mode_drc_profile"@, value: m.line_mode_drc_profile },
                                    XmlModel::Leaf { tag: "rf_mode_drc_profile"@, value: m.rf_mode_drc_profile },
                                ],
                            },
                            XmlModel::Element {
                                tag: "downmix"@,
                                attrs: seq![],
                                children: seq![
                                    XmlModel::Leaf { tag: "loro_center_mix_level"@, value: m.loro_center_mix_level },
                                    XmlModel::Leaf { tag: "loro_surround_mix_level"@, value: m.loro_surround_mix_level },
                                    XmlModel::Leaf { tag: "ltrt_center_mix_level"@, value: m.ltrt_center_mix_level },
                                    XmlModel::Leaf { tag: "ltrt_surround_mix_level"@, value: m.ltrt_surround_mix_level },
                                    XmlModel::Leaf { tag: "preferred_downmix_mode"@, value: m.preferred_downmix_mode },
                                ],
                            },
                            XmlModel::Element {
                                tag: "custom_trims"@,
                                attrs: seq![],
                                children: seq![
                                    XmlModel::Leaf { tag: "surround_trim_5_1"@, value: m.surround_trim_5_1 },
                                    XmlModel::Leaf { tag: "height_trim_5_1"@, value: m.height_trim_5_1 },
                                ],
                            },
                            XmlModel::Leaf { tag: "custom_dialnorm"@, value: int_text(m.custom_dialnorm as int) },
                            XmlModel::When {
                                predicate: PredModel::ParamSome("encoding_backend"@),
                                children: seq![
                                    XmlModel::Leaf { tag: "encoding_backend"@, value: opt_model(m.encoding_backend) },
                                ],
                            },
                            XmlModel::When {
                                predicate: PredModel::ParamSome("encoder_mode"@),
                                children: seq![
                                    XmlModel::Leaf { tag: "encoder_mode"@, value: opt_model(m.encoder_mode) },
                                ],
                            },
                        ],
                    },
                ],
            },
        ],
    }));
    n81
}

/// The `output` element.
pub open spec fn atmos_output_model(tag: Seq<char>, path: Seq<char>, files: Seq<char>) -> XmlModel {
    XmlModel::Element {
        tag: "output"@,
        attrs: seq![],
        children: seq![
            XmlModel::Element {
                tag: "ec3"@,
                attrs: seq![("version"@, "1"@)],
                children: seq![
                    XmlModel::Leaf { tag: "file_name"@, value: files },
                    storage_model(tag, path),
                ],
            },
        ],
    }
}

/// The `output` element.
pub fn output_node(tag_s: &str, path_s: &str, files_s: &str) -> (r: XmlNode)
    ensures
        r@ == atmos_output_model(tag_s@, path_s@, files_s@),
{
    let ghost tag = tag_s@;
    let ghost path = path_s@;
    let ghost files = files_s@;
    let n1 = XmlNode::leaf(owned("file_name"), owned(files_s));
    let ghost g2 = n1@;
    let n3 = storage_node(tag_s, path_s);
    let ghost g4 = n3@;
    let cs5 = vec![n1, n3];
    assert(cs5@.map_values(|c: XmlNode| c@) =~= seq![g2, g4]);
    let at6: Vec<(String, String)> = vec![(owned("version"), owned("1"))];
    assert(attrs_model(at6@) =~= seq![("version"@, "1"@)]);
    let n7 = XmlNode::element(owned("ec3"), at6, cs5);
    assert(n7@ =~~= (XmlModel::Element {
        tag: "ec3"@,
        attrs: seq![("version"@, "1"@)],
        children: seq![
            XmlModel::Leaf { tag: "file_name"@, value: files },
            storage_model(tag, path),
        ],
    }));
    let ghost g8 = n7@;
    let cs9 = vec![n7];
    assert(cs9@.map_values(|c: XmlNode| c@) =~= seq![g8]);
    let at10: Vec<(String, String)> = Vec::new();
    assert(attrs_model(at10@) =~= Seq::<(Seq<char>, Seq<char>)>::empty());
    let n11 = XmlNode::element(owned("output"), at10, cs9);
    assert(n11@ =~~= (XmlModel::Element {
        tag: "output"@,
        attrs: seq![],
        children: seq![
            XmlModel::Element {
                tag: "ec3"@,
                attrs: seq![("version"@, "1"@)],
                children: seq![
                    XmlModel::Leaf { tag: "file_name"@, value: files },
                    storage_model(tag, path),
                ],
            },
        ],
    }));
    n11
}

/// The `job_config` tree of a job.
pub open spec fn atmos_xml_model(j: JobModel, m: AtmosEc3V1Model) -> XmlModel {
    let tag = storage_tag_spec(j.job_mode);
    XmlModel::Element {
        tag: "job_config"@,
        attrs: seq![],
        children: seq![
            atmos_input_model(tag, j.input.storage_path, file_list_text(j.input.file_names), m),
            atmos_filter_model(m),
            atmos_output_model(tag, j.output.storage_path, file_list_text(j.output.file_names)),
            misc_model(j.temp_dir, j.clean_temp),
        ],
    }
}

/// The `job_config` tree of a job.
pub fn xml_structure(job: &crate::resolve::ResolvedJob, f: &AtmosEc3V1Filter) -> (r: XmlNode)
    ensures
        r@ == atmos_xml_model(job@, f@),
{
    let tag = storage_tag(job.job_mode);
    let input_files = render_file_name_list(&job.input.file_names);
    let output_files = render_file_name_list(&job.output.file_names);
    assert(strings_model(job.input.file_names@) =~= job@.input.file_names);
    assert(strings_model(job.output.file_names@) =~= job@.output.file_names);
    let a = input_node(tag, job.input.storage_path.as_str(), input_files.as_str(), f);
    let ghost ga = a@;
    let b = filter_node(f);
    let ghost gb = b@;
    let c = output_node(tag, job.output.storage_path.as_str(), output_files.as_str());
    let ghost gc = c@;
    let d = misc_node(job.misc.temp_dir.as_str(), job.misc.clean_temp);
    let ghost gd = d@;
    let cs = vec![a, b, c, d];
    assert(cs@.map_values(|c: XmlNode| c@) =~= seq![ga, gb, gc, gd]);
    let at: Vec<(String, String)> = Vec::new();
    assert(attrs_model(at@) =~= Seq::<(Seq<char>, Seq<char>)>::empty());
    let r = XmlNode::element(owned("job_config"), at, cs);
    assert(r@ =~~= atmos_xml_model(job@, f@));
    r
}

/// The XML tree of a job reads its files where the job puts them: the
/// mezzanine's file list and directory are the job's input ones, the encoded
/// file's are the job's output ones, and the temporary directory is the
/// job's, each directory under the storage tag of the job mode (`local` for
/// one file, `local_multi_path` for an album).
pub proof fn law_atmos_xml_paths(j: JobModel, m: AtmosEc3V1Model)
    ensures
        ({
            let t = Some(atmos_xml_model(j, m));
            let tag = if j.job_mode == crate::spec::JobMode::Single {
                "local"@
            } else {
                "local_multi_path"@
            };
            let mezz = xml_in(xml_in(xml_in(t, "input"@), "audio"@), "atmos_mezz"@);
            let ec3 = xml_in(xml_in(t, "output"@), "ec3"@);
            &&& xml_value(xml_in(xml_in(xml_in(ec3, "storage"@), tag), "path"@)) == Some(j.output.storage_path)
            &&& xml_value(xml_in(ec3, "file_name"@)) == Some(file_list_text(j.output.file_names))
            &&& xml_value(xml_in(xml_in(xml_in(mezz, "storage"@), tag), "path"@)) == Some(j.input.storage_path)
            &&& xml_value(xml_in(mezz, "file_name"@)) == Some(file_list_text(j.input.file_names))
            &&& xml_value(xml_in(xml_in(xml_in(t, "misc"@), "temp_dir"@), "path"@)) == Some(j.temp_dir)
        }),
{
    reveal_strlit("input");
    reveal_strlit("filter");
    reveal_strlit("output");
    reveal_strlit("misc");
    reveal_strlit("audio");
    reveal_strlit("atmos_mezz");
    reveal_strlit("ec3");
    reveal_strlit("storage");
    reveal_strlit("file_name");
    reveal_strlit("timecode_frame_rate");
    reveal_strlit("offset");
    reveal_strlit("ffoa");
    let tag = storage_tag_spec(j.job_mode);
    crate::template::common::lemma_storage_tag(j.job_mode);
    let t = atmos_xml_model(j, m);
    let cs = t->Element_children;
    assert("input"@.len() != "output"@.len());
    assert("filter"@[0] != "output"@[0]);
    assert("input"@.len() != "misc"@.len());
    assert("filter"@.len() != "misc"@.len());
    assert("output"@.len() != "misc"@.len());
    lemma_child_get_at(cs, "input"@, 0);
    lemma_child_get_at(cs, "output"@, 2);
    lemma_child_get_at(cs, "misc"@, 3);
    let ins = atmos_input_model(tag, j.input.storage_path, file_list_text(j.input.file_names), m);
    reveal_with_fuel(crate::render::child_get, 2);
    assert(xml_in(xml_in(Some(ins), "audio"@), "atmos_mezz"@) == Some(ins->Element_children[0]->Element_children[0]));
    let mc = ins->Element_children[0]->Element_children[0]->Element_children;
    assert forall|k: int| 0 <= k < 4 implies node_tag(mc[k]) != Some("storage"@) by {
        assert(node_tag(mc[k])->0.len() != "storage"@.len());
    }
    lemma_child_get_at(mc, "storage"@, 4);
    lemma_child_get_at(mc, "file_name"@, 0);
    let outs = atmos_output_model(tag, j.output.storage_path, file_list_text(j.output.file_names));
    let ec = outs->Element_children[0]->Element_children;
    assert("file_name"@.len() != "storage"@.len());
    lemma_child_get_at(ec, "storage"@, 1);
    lemma_child_get_at(ec, "file_name"@, 0);
    crate::template::common::lemma_storage_xml_path(tag, j.input.storage_path);
    crate::template::common::lemma_storage_xml_path(tag, j.output.storage_path);
    crate::template::common::lemma_misc_xml_path(j.temp_dir, j.clean_temp);
}

/// The filter element holds each parameter of the filter under the
/// parameter's own name: the leaf named after a parameter gives that
/// parameter's value (booleans as `true`/`false`, numbers in decimal).
pub proof fn law_atmos_xml_filter_values(m: AtmosEc3V1Model)
    ensures
        ({
            let root = Some(atmos_filter_model(m));
            let audio = xml_in(root, "audio"@);
            let encode_to_atmos_ddp = xml_in(audio, "encode_to_atmos_ddp"@);
            let loudness = xml_in(encode_to_atmos_ddp, "loudness"@);
            let measure_only = xml_in(loudness, "measure_only"@);
            let drc = xml_in(encode_to_atmos_ddp, "drc"@);
            let downmix = xml_in(encode_to_atmos_ddp, "downmix"@);
            let custom_trims = xml_in(encode_to_atmos_ddp, "custom_trims"@);
            &&& xml_value(xml_in(measure_only, "metering_mode"@)) == Some(m.metering_mode)
            &&& xml_value(xml_in(measure_only, "dialogue_intelligence"@)) == Some(bool_text(m.dialogue_intelligence))
            &&& xml_value(xml_in(measure_only, "speech_threshold"@)) == Some(nat_digits(m.speech_threshold as nat))
            &&& xml_value(xml_in(encode_to_atmos_ddp, "data_rate"@)) == Some(nat_digits(m.data_rate as nat))
            &&& xml_value(xml_in(encode_to_atmos_ddp, "timecode_frame_rate"@)) == Some(m.timecode_frame_rate)
            &&& xml_value(xml_in(encode_to_atmos_ddp, "start"@)) == Some(m.start)
            &&& xml_value(xml_in(encode_to_atmos_ddp, "end"@)) == Some(m.end)
            &&& xml_value(xml_in(encode_to_atmos_ddp, "time_base"@)) == Some(m.time_base)
            &&& xml_value(xml_in(encode_to_atmos_ddp, "prepend_silence_duration"@)) == Some(m.prepend_silence_duration)
            &&& xml_value(xml_in(encode_to_atmos_ddp, "append_silence_duration"@)) == Some(m.append_silence_duration)
            &&& xml_value(xml_in(drc, "line_mode_drc_profile"@)) == Some(m.line_mode_drc_profile)
            &&& xml_value(xml_in(drc, "rf_mode_drc_profile"@)) == Some(m.rf_mode_drc_profile)
            &&& xml_value(xml_in(downmix, "loro_center_mix_level"@)) == Some(m.loro_center_mix_level)
            &&& xml_value(xml_in(downmix, "loro_surround_mix_level"@)) == Some(m.loro_surround_mix_level)
            &&& xml_value(xml_in(downmix, "ltrt_center_mix_level"@)) == Some(m.ltrt_center_mix_level)
            &&& xml_value(xml_in(downmix, "ltrt_surround_mix_level"@)) == Some(m.ltrt_surround_mix_level)
            &&& xml_value(xml_in(downmix, "preferred_downmix_mode"@)) == Some(m.preferred_downmix_mode)
            &&& xml_value(xml_in(custom_trims, "surround_trim_5_1"@)) == Some(m.surround_trim_5_1)
            &&& xml_value(xml_in(custom_trims, "height_trim_5_1"@)) == Some(m.height_trim_5_1)
            &&& xml_value(xml_in(encode_to_atmos_ddp, "custom_dialnorm"@)) == Some(int_text(m.custom_dialnorm as int))
        }),
{
    reveal_strlit("append_silence_duration");
    reveal_strlit("audio");
    reveal_strlit("custom_dialnorm");
    reveal_strlit("custom_trims");
    reveal_strlit("data_rate");
    reveal_strlit("dialogue_intelligence");
    reveal_strlit("downmix");
    reveal_strlit("drc");
    reveal_strlit("encode_to_atmos_ddp");
    reveal_strlit("end");
    reveal_strlit("height_trim_5_1");
    reveal_strlit("line_mode_drc_profile");
    reveal_strlit("loro_center_mix_level");
    reveal_strlit("loro_surround_mix_level");
    reveal_strlit("loudness");
    reveal_strlit("ltrt_center_mix_level");
    reveal_strlit("ltrt_surround_mix_level");
    reveal_strlit("measure_only");
    reveal_strlit("metering_mode");
    reveal_strlit("preferred_downmix_mode");
    reveal_strlit("prepend_silence_duration");
    reveal_strlit("rf_mode_drc_profile");
    reveal_strlit("speech_threshold");
    reveal_strlit("start");
    reveal_strlit("surround_trim_5_1");
    reveal_strlit("time_base");
    reveal_strlit("timecode_frame_rate");
    reveal_with_fuel(crate::render::child_get, 1);
    crate::render::lemma_child_get_at(atmos_filter_model(m)->Element_children, "audio"@, 0);
    crate::render::lemma_child_get_at(atmos_filter_model(m)->Element_children[0]->Element_children, "encode_to_atmos_ddp"@, 0);
    crate::render::lemma_child_get_at(atmos_filter_model(m)->Element_children[0]->Element_children[0]->Element_children, "loudness"@, 0);
    crate::render::lemma_child_get_at(atmos_filter_model(m)->Element_children[0]->Element_children[0]->Element_children[0]->Element_children, "measure_only"@, 0);
    crate::render::lemma_child_get_at(atmos_filter_model(m)->Element_children[0]->Element_children[0]->Element_children[0]->Element_children[0]->Element_children, "metering_mode"@, 0);
    assert("metering_mode"@.len() != "dialogue_intelligence"@.len());
    crate::render::lemma_child_get_at(atmos_filter_model(m)->Element_children[0]->Element_children[0]->Element_children[0]->Element_children[0]->Element_children, "dialogue_intelligence"@, 1);
    assert("metering_mode"@.len() != "speech_threshold"@.len());
    assert("dialogue_intelligence"@.len() != "speech_threshold"@.len());
    crate::render::lemma_child_get_at(atmos_filter_model(m)->Element_children[0]->Element_children[0]->Element_children[0]->Element_children[0]->Element_children, "speech_threshold"@, 2);
    assert("loudness"@.len() != "data_rate"@.len());
    crate::render::lemma_child_get_at(atmos_filter_model(m)->Element_children[0]->Element_children[0]->Element_children, "data_rate"@, 1);
    assert("loudness"@.len() != "timecode_frame_rate"@.len());
    assert("data_rate"@.len() != "timecode_frame_rate"@.len());
    crate::render::lemma_child_get_at(atmos_filter_model(m)->Element_children[0]->Element_children[0]->Element_children, "timecode_frame_rate"@, 2);
    assert("loudness"@.len() != "start"@.len());
    assert("data_rate"@.len() != "start"@.len());
    assert("timecode_frame_rate"@.len() != "start"@.len());
    crate::render::lemma_child_get_at(atmos_filter_model(m)->Element_children[0]->Element_children[0]->Element_children, "start"@, 3);
    assert("loudness"@.len() != "end"@.len());
    assert("data_rate"@.len() != "end"@.len());
    assert("timecode_frame_rate"@.len() != "end"@.len());
    assert("start"@.len() != "end"@.len());
    crate::render::lemma_child_get_at(atmos_filter_model(m)->Element_children[0]->Element_children[0]->Element_children, "end"@, 4);
    assert("loudness"@.len() != "time_base"@.len());
    assert("data_rate"@[0] != "time_base"@[0]);
    assert("timecode_frame_rate"@.len() != "time_base"@.len());
    assert("start"@.len() != "time_base"@.len());
    assert("end"@.len() != "time_base"@.len());
    crate::render::lemma_child_get_at(atmos_filter_model(m)->Element_children[0]->Element_children[0]->Element_children, "time_base"@, 5);
    assert("loudness"@.len() != "prepend_silence_duration"@.len());
    assert("data_rate"@.len() != "prepend_silence_duration"@.len());
    assert("timecode_frame_rate"@.len() != "prepend_silence_duration"@.len());
    assert("start"@.len() != "prepend_silence_duration"@.len());
    assert("end"@.len() != "prepend_silence_duration"@.len());
    assert("time_base"@.len() != "prepend_silence_duration"@.len());
    crate::render::lemma_child_get_at(atmos_filter_model(m)->Element_children[0]->Element_children[0]->Element_children, "prepend_silence_duration"@, 6);
    assert("loudness"@.len() != "append_silence_duration"@.len());
    assert("data_rate"@.len() != "append_silence_duration"@.len());
    assert("timecode_frame_rate"@.len() != "append_silence_duration"@.len());
    assert("start"@.len() != "append_silence_duration"@.len());
    assert("end"@.len() != "append_silence_duration"@.len());
    assert("time_base"@.len() != "append_silence_duration"@.len());
    assert("prepend_silence_duration"@.len() != "append_silence_duration"@.len());
    crate::render::lemma_child_get_at(atmos_filter_model(m)->Element_children[0]->Element_children[0]->Element_children, "append_silence_duration"@, 7);
    assert("loudness"@.len() != "drc"@.len());
    assert("data_rate"@.len() != "drc"@.len());
    assert("timecode_frame_rate"@.len() != "drc"@.len());
    assert("start"@.len() != "drc"@.len());
    assert("end"@[0] != "drc"@[0]);
    assert("time_base"@.len() != "drc"@.len());
    assert("prepend_silence_duration"@.len() != "drc"@.len());
    assert("append_silence_duration"@.len() != "drc"@.len());
    crate::render::lemma_child_get_at(atmos_filter_model(m)->Element_children[0]->Element_children[0]->Element_children, "drc"@, 8);
    crate::render::lemma_child_get_at(atmos_filter_model(m)->Element_children[0]->Element_children[0]->Element_children[8]->Element_children, "line_mode_drc_profile"@, 0);
    assert("line_mode_drc_profile"@.len() != "rf_mode_drc_profile"@.len());
    crate::render::lemma_child_get_at(atmos_filter_model(m)->Element_children[0]->Element_children[0]->Element_children[8]->Element_children, "rf_mode_drc_profile"@, 1);
    assert("loudness"@.len() != "downmix"@.len());
    assert("data_rate"@.len() != "downmix"@.len());
    assert("timecode_frame_rate"@.len() != "downmix"@.len());
    assert("start"@.len() != "downmix"@.len());
    assert("end"@.len() != "downmix"@.len());
    assert("time_base"@.len() != "downmix"@.len());
    assert("prepend_silence_duration"@.len() != "downmix"@.len());
    assert("append_silence_duration"@.len() != "downmix"@.len());
    assert("drc"@.len() != "downmix"@.len());
    crate::render::lemma_child_get_at(atmos_filter_model(m)->Element_children[0]->Element_children[0]->Element_children, "downmix"@, 9);
    crate::render::lemma_child_get_at(atmos_filter_model(m)->Element_children[0]->Element_children[0]->Element_children[9]->Element_children, "loro_center_mix_level"@, 0);
    assert("loro_center_mix_level"@.len() != "loro_surround_mix_level"@.len());
    crate::render::lemma_child_get_at(atmos_filter_model(m)->Element_children[0]->Element_children[0]->Element_children[9]->Element_children, "loro_surround_mix_level"@, 1);
    assert("loro_center_mix_level"@[1] != "ltrt_center_mix_level"@[1]);
    assert("loro_surround_mix_level"@.len() != "ltrt_center_mix_level"@.len());
    crate::render::lemma_child_get_at(atmos_filter_model(m)->Element_children[0]->Element_children[0]->Element_children[9]->Element_children, "ltrt_center_mix_level"@, 2);
    assert("loro_center_mix_level"@.len() != "ltrt_surround_mix_level"@.len());
    assert("loro_surround_mix_level"@[1] != "ltrt_surround_mix_level"@[1]);
    assert("ltrt_center_mix_level"@.len() != "ltrt_surround_mix_level"@.len());
    crate::render::lemma_child_get_at(atmos_filter_model(m)->Element_children[0]->Element_children[0]->Element_children[9]->Element_children, "ltrt_surround_mix_level"@, 3);
    assert("loro_center_mix_level"@.len() != "preferred_downmix_mode"@.len());
    assert("loro_surround_mix_level"@.len() != "preferred_downmix_mode"@.len());
    assert("ltrt_center_mix_level"@.len() != "preferred_downmix_mode"@.len());
    assert("ltrt_surround_mix_level"@.len() != "preferred_downmix_mode"@.len());
    crate::render::lemma_child_get_at(atmos_filter_model(m)->Element_children[0]->Element_children[0]->Element_children[9]->Element_children, "preferred_downmix_mode"@, 4);
    assert("loudness"@.len() != "custom_trims"@.len());
    assert("data_rate"@.len() != "custom_trims"@.len());
    assert("timecode_frame_rate"@.len() != "custom_trims"@.len());
    assert("start"@.len() != "custom_trims"@.len());
    assert("end"@.len() != "custom_trims"@.len());
    assert("time_base"@.len() != "custom_trims"@.len());
    assert("prepend_silence_duration"@.len() != "custom_trims"@.len());
    assert("append_silence_duration"@.len() != "custom_trims"@.len());
    assert("drc"@.len() != "custom_trims"@.len());
    assert("downmix"@.len() != "custom_trims"@.len());
    crate::render::lemma_child_get_at(atmos_filter_model(m)->Element_children[0]->Element_children[0]->Element_children, "custom_trims"@, 10);
    crate::render::lemma_child_get_at(atmos_filter_model(m)->Element_children[0]->Element_children[0]->Element_children[10]->Element_children, "surround_trim_5_1"@, 0);
    assert("surround_trim_5_1"@.len() != "height_trim_5_1"@.len());
    crate::render::lemma_child_get_at(atmos_filter_model(m)->Element_children[0]->Element_children[0]->Element_children[10]->Element_children, "height_trim_5_1"@, 1);
    assert("loudness"@.len() != "custom_dialnorm"@.len());
    assert("data_rate"@.len() != "custom_dialnorm"@.len());
    assert("timecode_frame_rate"@.len() != "custom_dialnorm"@.len());
    assert("start"@.len() != "custom_dialnorm"@.len());
    assert("end"@.len() != "custom_dialnorm"@.len());
    assert("time_base"@.len() != "custom_dialnorm"@.len());
    assert("prepend_silence_duration"@.len() != "custom_dialnorm"@.len());
    assert("append_silence_duration"@.len() != "custom_dialnorm"@.len());
    assert("drc"@.len() != "custom_dialnorm"@.len());
    assert("downmix"@.len() != "custom_dialnorm"@.len());
    assert("custom_trims"@.len() != "custom_dialnorm"@.len());
    crate::render::lemma_child_get_at(atmos_filter_model(m)->Element_children[0]->Element_children[0]->Element_children, "custom_dialnorm"@, 11);
}

} // verus!
