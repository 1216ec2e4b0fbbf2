//! The DEE XML tree of `pcm_ddp_v1` jobs.
use vstd::prelude::*;

use crate::render::{
    attrs_model, file_list_text, render_file_name_list, strings_model, xml_in, xml_value, PredModel,
    Predicate, XmlModel, XmlNode,
};
use crate::resolve::JobModel;
use crate::template::pcm_ddp_v1::{PcmDdpV1Filter, PcmDdpV1Model};
use crate::template::common::{
    misc_model, misc_node, storage_model, storage_node, storage_tag, storage_tag_spec,
};
use crate::text::{bool_str, bool_text, i64_text, int_text, nat_digits, owned, u64_text};

verus! {

/// The `input` element.
pub open spec fn pcm_input_model(tag: Seq<char>, path: Seq<char>, files: Seq<char>) -> XmlModel {
    XmlModel::Element {
        tag: "input"@,
        attrs: seq![],
        children: seq![
            XmlModel::Element {
                tag: "audio"@,
                attrs: seq![],
                children: seq![
                    XmlModel::Element {
                        tag: "wav"@,
                        attrs: seq![("version"@, "1"@)],
                        children: seq![
                            XmlModel::Leaf { tag: "file_name"@, value: files },
                            XmlModel::Leaf { tag: "timecode_frame_rate"@, value: "not_indicated"@ },
                            XmlModel::Leaf { tag: "offset"@, value: "auto"@ },
                            XmlModel::Leaf { tag: "ffoa"@, value: "auto"@ },
                            storage_model(tag, path),
                        ],
                    },
                ],
            },
        ],
    }
}

/// The `input` element.
pub fn input_node(tag_s: &str, path_s: &str, files_s: &str) -> (r: XmlNode)
    ensures
        r@ == pcm_input_model(tag_s@, path_s@, files_s@),
{
    let ghost tag = tag_s@;
    let ghost path = path_s@;
    let ghost files = files_s@;
    let n1 = XmlNode::leaf(owned("file_name"), owned(files_s));
    let ghost g2 = n1@;
    let n3 = XmlNode::leaf(owned("timecode_frame_rate"), owned("not_indicated"));
    let ghost g4 = n3@;
    let n5 = XmlNode::leaf(owned("offset"), owned("auto"));
    let ghost g6 = n5@;
    let n7 = XmlNode::leaf(owned("ffoa"), owned("auto"));
    let ghost g8 = n7@;
    let n9 = storage_node(tag_s, path_s);
    let ghost g10 = n9@;
    let cs11 = vec![n1, n3, n5, n7, n9];
    assert(cs11@.map_values(|c: XmlNode| c@) =~= seq![g2, g4, g6, g8, g10]);
    let at12: Vec<(String, String)> = vec![(owned("version"), owned("1"))];
    assert(attrs_model(at12@) =~= seq![("version"@, "1"@)]);
    let n13 = XmlNode::element(owned("wav"), at12, cs11);
    assert(n13@ =~~= (XmlModel::Element {
        tag: "wav"@,
        attrs: seq![("version"@, "1"@)],
        children: seq![
            XmlModel::Leaf { tag: "file_name"@, value: files },
            XmlModel::Leaf { tag: "timecode_frame_rate"@, value: "not_indicated"@ },
            XmlModel::Leaf { tag: "offset"@, value: "auto"@ },
            XmlModel::Leaf { tag: "ffoa"@, value: "auto"@ },
            storage_model(tag, path),
        ],
    }));
    let ghost g14 = n13@;
    let cs15 = vec![n13];
    assert(cs15@.map_values(|c: XmlNode| c@) =~= seq![g14]);
    let at16: Vec<(String, String)> = Vec::new();
    assert(attrs_model(at16@) =~= Seq::<(Seq<char>, Seq<char>)>::empty());
    let n17 = XmlNode::element(owned("audio"), at16, cs15);
    assert(n17@ =~~= (XmlModel::Element {
        tag: "audio"@,
        attrs: seq![],
        children: seq![
            XmlModel::Element {
                tag: "wav"@,
                attrs: seq![("version"@, "1"@)],
                children: seq![
                    XmlModel::Leaf { tag: "file_name"@, value: files },
                    XmlModel::Leaf { tag: "timecode_frame_rate"@, value: "not_indicated"@ },
                    XmlModel::Leaf { tag: "offset"@, value: "auto"@ },
                    XmlModel::Leaf { tag: "ffoa"@, value: "auto"@ },
                    storage_model(tag, path),
                ],
            },
        ],
    }));
    let ghost g18 = n17@;
    let cs19 = vec![n17];
    assert(cs19@.map_values(|c: XmlNode| c@) =~= seq![g18]);
    let at20: Vec<(String, String)> = Vec::new();
    assert(attrs_model(at20@) =~= Seq::<(Seq<char>, Seq<char>)>::empty());
    let n21 = XmlNode::element(owned("input"), at20, cs19);
    assert(n21@ =~~= (XmlModel::Element {
        tag: "input"@,
        attrs: seq![],
        children: seq![
            XmlModel::Element {
                tag: "audio"@,
                attrs: seq![],
                children: seq![
                    XmlModel::Element {
                        tag: "wav"@,
                        attrs: seq![("version"@, "1"@)],
                        children: seq![
                            XmlModel::Leaf { tag: "file_name"@, value: files },
                            XmlModel::Leaf { tag: "timecode_frame_rate"@, value: "not_indicated"@ },
                            XmlModel::Leaf { tag: "offset"@, value: "auto"@ },
                            XmlModel::Leaf { tag: "ffoa"@, value: "auto"@ },
                            storage_model(tag, path),
                        ],
                    },
                ],
            },
        ],
    }));
    n21
}

/// The `filter` element.
pub open spec fn pcm_filter_model(m: PcmDdpV1Model) -> XmlModel {
    XmlModel::Element {
        tag: "filter"@,
        attrs: seq![],
        children: seq![
            XmlModel::Element {
                tag: "audio"@,
                attrs: seq![],
                children: seq![
                    XmlModel::Element {
                        tag: "pcm_to_ddp"@,
                        attrs: seq![("version"@, "3"@)],
                        children: seq![
                            XmlModel::Element {
                                tag: "loudness"@,
                                attrs: seq![],
                                children: seq![
                                    XmlModel::Element {
                                        tag: "measure_only"@,
                                        attrs: seq![],
                                        children: seq![
                                            XmlModel::Leaf { tag: "metering_mode"@, value: m.metering_mode },
                                            XmlModel::Leaf { tag: "dialogue_intelligence"@, value: bool_text(m.dialogue_intelligence) },
                                            XmlModel::Leaf { tag: "speech_threshold"@, value: nat_digits(m.speech_threshold as nat) },
                                        ],
                                    },
                                ],
                            },
                            XmlModel::Leaf { tag: "encoder_mode"@, value: m.encoder_mode },
                            XmlModel::Leaf { tag: "bitstream_mode"@, value: "complete_main"@ },
                            XmlModel::Leaf { tag: "downmix_config"@, value: "off"@ },
                            XmlModel::Leaf { tag: "data_rate"@, value: nat_digits(m.data_rate as nat) },
                            XmlModel::Leaf { tag: "timecode_frame_rate"@, value: m.timecode_frame_rate },
                            XmlModel::Leaf { tag: "start"@, value: m.start },
                            XmlModel::Leaf { tag: "end"@, value: m.end },
                            XmlModel::Leaf { tag: "time_base"@, value: m.time_base },
                            XmlModel::Leaf { tag: "prepend_silence_duration"@, value: m.prepend_silence_duration },
                            XmlModel::Leaf { tag: "append_silence_duration"@, value: m.append_silence_duration },
                            XmlModel::Leaf { tag: "lfe_on"@, value: "true"@ },
                            XmlModel::Leaf { tag: "dolby_surround_mode"@, value: "not_indicated"@ },
                            XmlModel::Leaf { tag: "dolby_surround_ex_mode"@, value: "no"@ },
                            XmlModel::Leaf { tag: "user_data"@, value: "-1"@ },
                            XmlModel::Element {
                                tag: "drc"@,
                                attrs: seq![],
                                children: seq![
                                    XmlModel::Leaf { tag: "line_mode_drc_profile"@, value: m.line_mode_drc_profile },
                                    XmlModel::Leaf { tag: "rf_mode_drc_profile"@, value: m.rf_mode_drc_profile },
                                ],
                            },
                            XmlModel::Leaf { tag: "lfe_lowpass_filter"@, value: "true"@ },
                            XmlModel::Leaf { tag: "surround_90_degree_phase_shift"@, value: "true"@ },
                            XmlModel::Leaf { tag: "surround_3db_attenuation"@, value: "true"@ },
                            XmlModel::Element {
                                tag: "downmix"@,
                                attrs: seq![],
                                children: seq![
                                    XmlModel::Leaf { tag: "loro_center_mix_level"@, value: m.loro_center_mix_level },
                                    XmlModel::Leaf { tag: "loro_surround_mix_level"@, value: m.loro_surround_mix_level },
                                    XmlModel::Leaf { tag: "ltrt_center_mix_level"@, value: m.ltrt_center_mix_level },
                                    XmlModel::Leaf { tag: "ltrt_surround_mix_level"@, value: m.ltrt_surround_mix_level },
                                    XmlModel::Leaf { tag: "preferred_downmix_mode"@, value: m.preferred_downmix_mode },
                                ],
                            },
                            XmlModel::Leaf { tag: "allow_hybrid_downmix"@, value: "false"@ },
                            XmlModel::Element {
                                tag: "embedded_timecodes"@,
                                attrs: seq![],
                                children: seq![
                                    XmlModel::Leaf { tag: "starting_timecode"@, value: "off"@ },
                                    XmlModel::Leaf { tag: "frame_rate"@, value: "auto"@ },
                                ],
                            },
                            XmlModel::Leaf { tag: "custom_dialnorm"@, value: int_text(m.custom_dialnorm as int) },
                        ],
                    },
                ],
            },
        ],
    }
}

/// The `filter` element.
pub fn filter_node(f: &PcmDdpV1Filter) -> (r: XmlNode)
    ensures
        r@ == pcm_filter_model(f@),
{
    let ghost m = f@;
    let n1 = XmlNode::leaf(owned("metering_mode"), f.metering_mode.clone());
    let ghost g2 = n1@;
    let n3 = XmlNode::leaf(owned("dialogue_intelligence"), owned(bool_str(f.dialogue_intelligence)));
    let ghost g4 = n3@;
    let n5 = XmlNode::leaf(owned("speech_threshold"), u64_text(f.speech_threshold as u64));
    let ghost g6 = n5@;
    let cs7 = vec![n1, n3, n5];
    assert(cs7@.map_values(|c: XmlNode| c@) =~= seq![g2, g4, g6]);
    let at8: Vec<(String, String)> = Vec::new();
    assert(attrs_model(at8@) =~= Seq::<(Seq<char>, Seq<char>)>::empty());
    let n9 = XmlNode::element(owned("measure_only"), at8, cs7);
    assert(n9@ =~~= (XmlModel::Element {
        tag: "measure_only"@,
        attrs: seq![],
        children: seq![
            XmlModel::Leaf { tag: "metering_mode"@, value: m.metering_mode },
            XmlModel::Leaf { tag: "dialogue_intelligence"@, value: bool_text(m.dialogue_intelligence) },
            XmlModel::Leaf { tag: "speech_threshold"@, value: nat_digits(m.speech_threshold as nat) },
        ],
    }));
    let ghost g10 = n9@;
    let cs11 = vec![n9];
    assert(cs11@.map_values(|c: XmlNode| c@) =~= seq![g10]);
    let at12: Vec<(String, String)> = Vec::new();
    assert(attrs_model(at12@) =~= Seq::<(Seq<char>, Seq<char>)>::empty());
    let n13 = XmlNode::element(owned("loudness"), at12, cs11);
    assert(n13@ =~~= (XmlModel::Element {
        tag: "loudness"@,
        attrs: seq![],
        children: seq![
            XmlModel::Element {
                tag: "measure_only"@,
                attrs: seq![],
                children: seq![
                    XmlModel::Leaf { tag: "metering_mode"@, value: m.metering_mode },
                    XmlModel::Leaf { tag: "dialogue_intelligence"@, value: bool_text(m.dialogue_intelligence) },
                    XmlModel::Leaf { tag: "speech_threshold"@, value: nat_digits(m.speech_threshold as nat) },
                ],
            },
        ],
    }));
    let ghost g14 = n13@;
    let n15 = XmlNode::leaf(owned("encoder_mode"), f.encoder_mode.clone());
    let ghost g16 = n15@;
    let n17 = XmlNode::leaf(owned("bitstream_mode"), owned("complete_main"));
    let ghost g18 = n17@;
    let n19 = XmlNode::leaf(owned("downmix_config"), owned("off"));
    let ghost g20 = n19@;
    let n21 = XmlNode::leaf(owned("data_rate"), u64_text(f.data_rate as u64));
    let ghost g22 = n21@;
    let n23 = XmlNode::leaf(owned("timecode_frame_rate"), f.timecode_frame_rate.clone());
    let ghost g24 = n23@;
    let n25 = XmlNode::leaf(owned("start"), f.start.clone());
    let ghost g26 = n25@;
    let n27 = XmlNode::leaf(owned("end"), f.end.clone());
    let ghost g28 = n27@;
    let n29 = XmlNode::leaf(owned("time_base"), f.time_base.clone());
    let ghost g30 = n29@;
    let n31 = XmlNode::leaf(owned("prepend_silence_duration"), f.prepend_silence_duration.clone());
    let ghost g32 = n31@;
    let n33 = XmlNode::leaf(owned("append_silence_duration"), f.append_silence_duration.clone());
    let ghost g34 = n33@;
    let n35 = XmlNode::leaf(owned("lfe_on"), owned("true"));
    let ghost g36 = n35@;
    let n37 = XmlNode::leaf(owned("dolby_surround_mode"), owned("not_indicated"));
    let ghost g38 = n37@;
    let n39 = XmlNode::leaf(owned("dolby_surround_ex_mode"), owned("no"));
    let ghost g40 = n39@;
    let n41 = XmlNode::leaf(owned("user_data"), owned("-1"));
    let ghost g42 = n41@;
    let n43 = XmlNode::leaf(owned("line_mode_drc_profile"), f.line_mode_drc_profile.clone());
    let ghost g44 = n43@;
    let n45 = XmlNode::leaf(owned("rf_mode_drc_profile"), f.rf_mode_drc_profile.clone());
    let ghost g46 = n45@;
    let cs47 = vec![n43, n45];
    assert(cs47@.map_values(|c: XmlNode| c@) =~= seq![g44, g46]);
    let at48: Vec<(String, String)> = Vec::new();
    assert(attrs_model(at48@) =~= Seq::<(Seq<char>, Seq<char>)>::empty());
    let n49 = XmlNode::element(owned("drc"), at48, cs47);
    assert(n49@ =~~= (XmlModel::Element {
        tag: "drc"@,
        attrs: seq![],
        children: seq![
            XmlModel::Leaf { tag: "line_mode_drc_profile"@, value: m.line_mode_drc_profile },
            XmlModel::Leaf { tag: "rf_mode_drc_profile"@, value: m.rf_mode_drc_profile },
        ],
    }));
    let ghost g50 = n49@;
    let n51 = XmlNode::leaf(owned("lfe_lowpass_filter"), owned("true"));
    let ghost g52 = n51@;
    let n53 = XmlNode::leaf(owned("surround_90_degree_phase_shift"), owned("true"));
    let ghost g54 = n53@;
    let n55 = XmlNode::leaf(owned("surround_3db_attenuation"), owned("true"));
    let ghost g56 = n55@;
    let n57 = XmlNode::leaf(owned("loro_center_mix_level"), f.loro_center_mix_level.clone());
    let ghost g58 = n57@;
    let n59 = XmlNode::leaf(owned("loro_surround_mix_level"), f.loro_surround_mix_level.clone());
    let ghost g60 = n59@;
    let n61 = XmlNode::leaf(owned("ltrt_center_mix_level"), f.ltrt_center_mix_level.clone());
    let ghost g62 = n61@;
    let n63 = XmlNode::leaf(owned("ltrt_surround_mix_level"), f.ltrt_surround_mix_level.clone());
    let ghost g64 = n63@;
    let n65 = XmlNode::leaf(owned("preferred_downmix_mode"), f.preferred_downmix_mode.clone());
    let ghost g66 = n65@;
    let cs67 = vec![n57, n59, n61, n63, n65];
    assert(cs67@.map_values(|c: XmlNode| c@) =~= seq![g58, g60, g62, g64, g66]);
    let at68: Vec<(String, String)> = Vec::new();
    assert(attrs_model(at68@) =~= Seq::<(Seq<char>, Seq<char>)>::empty());
    let n69 = XmlNode::element(owned("downmix"), at68, cs67);
    assert(n69@ =~~= (XmlModel::Element {
        tag: "downmix"@,
        attrs: seq![],
        children: seq![
            XmlModel::Leaf { tag: "loro_center_mix_level"@, value: m.loro_center_mix_level },
            XmlModel::Leaf { tag: "loro_surround_mix_level"@, value: m.loro_surround_mix_level },
            XmlModel::Leaf { tag: "ltrt_center_mix_level"@, value: m.ltrt_center_mix_level },
            XmlModel::Leaf { tag: "ltrt_surround_mix_level"@, value: m.ltrt_surround_mix_level },
            XmlModel::Leaf { tag: "preferred_downmix_mode"@, value: m.preferred_downmix_mode },
        ],
    }));
    let ghost g70 = n69@;
    let n71 = XmlNode::leaf(owned("allow_hybrid_downmix"), owned("false"));
    let ghost g72 = n71@;
    let n73 = XmlNode::leaf(owned("starting_timecode"), owned("off"));
    let ghost g74 = n73@;
    let n75 = XmlNode::leaf(owned("frame_rate"), owned("auto"));
    let ghost g76 = n75@;
    let cs77 = vec![n73, n75];
    assert(cs77@.map_values(|c: XmlNode| c@) =~= seq![g74, g76]);
    let at78: Vec<(String, String)> = Vec::new();
    assert(attrs_model(at78@) =~= Seq::<(Seq<char>, Seq<char>)>::empty());
    let n79 = XmlNode::element(owned("embedded_timecodes"), at78, cs77);
    assert(n79@ =~~= (XmlModel::Element {
        tag: "embedded_timecodes"@,
        attrs: seq![],
        children: seq![
            XmlModel::Leaf { tag: "starting_timecode"@, value: "off"@ },
            XmlModel::Leaf { tag: "frame_rate"@, value: "auto"@ },
        ],
    }));
    let ghost g80 = n79@;
    let n81 = XmlNode::leaf(owned("custom_dialnorm"), i64_text(f.custom_dialnorm as i64));
    let ghost g82 = n81@;
    let cs83 = vec![n13, n15, n17, n19, n21, n23, n25, n27, n29, n31, n33, n35, n37, n39, n41, n49, n51, n53, n55, n69, n71, n79, n81];
    assert(cs83@.map_values(|c: XmlNode| c@) =~= seq![g14, g16, g18, g20, g22, g24, g26, g28, g30, g32, g34, g36, g38, g40, g42, g50, g52, g54, g56, g70, g72, g80, g82]);
    let at84: Vec<(String, String)> = vec![(owned("version"), owned("3"))];
    assert(attrs_model(at84@) =~= seq![("version"@, "3"@)]);
    let n85 = XmlNode::element(owned("pcm_to_ddp"), at84, cs83);
    assert(n85@ =~~= (XmlModel::Element {
        tag: "pcm_to_ddp"@,
        attrs: seq![("version"@, "3"@)],
        children: seq![
            XmlModel::Element {
                tag: "loudness"@,
                attrs: seq![],
                children: seq![
                    XmlModel::Element {
                        tag: "measure_only"@,
                        attrs: seq![],
                        children: seq![
                            XmlModel::Leaf { tag: "metering_mode"@, value: m.metering_mode },
                            XmlModel::Leaf { tag: "dialogue_intelligence"@, value: bool_text(m.dialogue_intelligence) },
                            XmlModel::Leaf { tag: "speech_threshold"@, value: nat_digits(m.speech_threshold as nat) },
                        ],
                    },
                ],
            },
            XmlModel::Leaf { tag: "encoder_mode"@, value: m.encoder_mode },
            XmlModel::Leaf { tag: "bitstream_mode"@, value: "complete_main"@ },
            XmlModel::Leaf { tag: "downmix_config"@, value: "off"@ },
            XmlModel::Leaf { tag: "data_rate"@, value: nat_digits(m.data_rate as nat) },
            XmlModel::Leaf { tag: "timecode_frame_rate"@, value: m.timecode_frame_rate },
            XmlModel::Leaf { tag: "start"@, value: m.start },
            XmlModel::Leaf { tag: "end"@, value: m.end },
            XmlModel::Leaf { tag: "time_base"@, value: m.time_base },
            XmlModel::Leaf { tag: "prepend_silence_duration"@, value: m.prepend_silence_duration },
            XmlModel::Leaf { tag: "append_silence_duration"@, value: m.append_silence_duration },
            XmlModel::Leaf { tag: "lfe_on"@, value: "true"@ },
            XmlModel::Leaf { tag: "dolby_surround_mode"@, value: "not_indicated"@ },
            XmlModel::Leaf { tag: "dolby_surround_ex_mode"@, value: "no"@ },
            XmlModel::Leaf { tag: "user_data"@, value: "-1"@ },
            XmlModel::Element {
                tag: "drc"@,
                attrs: seq![],
                children: seq![
                    XmlModel::Leaf { tag: "line_mode_drc_profile"@, value: m.line_mode_drc_profile },
                    XmlModel::Leaf { tag: "rf_mode_drc_profile"@, value: m.rf_mode_drc_profile },
                ],
            },
            XmlModel::Leaf { tag: "lfe_lowpass_filter"@, value: "true"@ },
            XmlModel::Leaf { tag: "surround_90_degree_phase_shift"@, value: "true"@ },
            XmlModel::Leaf { tag: "surround_3db_attenuation"@, value: "true"@ },
            XmlModel::Element {
                tag: "downmix"@,
                attrs: seq![],
                children: seq![
                    XmlModel::Leaf { tag: "loro_center_mix_level"@, value: m.loro_center_mix_level },
                    XmlModel::Leaf { tag: "loro_surround_mix_level"@, value: m.loro_surround_mix_level },
                    XmlModel::Leaf { tag: "ltrt_center_mix_level"@, value: m.ltrt_center_mix_level },
                    XmlModel::Leaf { tag: "ltrt_surround_mix_level"@, value: m.ltrt_surround_mix_level },
                    XmlModel::Leaf { tag: "preferred_downmix_mode"@, value: m.preferred_downmix_mode },
                ],
            },
            XmlModel::Leaf { tag: "allow_hybrid_downmix"@, value: "false"@ },
            XmlModel::Element {
                tag: "embedded_timecodes"@,
                attrs: seq![],
                children: seq![
                    XmlModel::Leaf { tag: "starting_timecode"@, value: "off"@ },
                    XmlModel::Leaf { tag: "frame_rate"@, value: "auto"@ },
                ],
            },
            XmlModel::Leaf { tag: "custom_dialnorm"@, value: int_text(m.custom_dialnorm as int) },
        ],
    }));
    let ghost g86 = n85@;
    let cs87 = vec![n85];
    assert(cs87@.map_values(|c: XmlNode| c@) =~= seq![g86]);
    let at88: Vec<(String, String)> = Vec::new();
    assert(attrs_model(at88@) =~= Seq::<(Seq<char>, Seq<char>)>::empty());
    let n89 = XmlNode::element(owned("audio"), at88, cs87);
    assert(n89@ =~~= (XmlModel::Element {
        tag: "audio"@,
        attrs: seq![],
        children: seq![
            XmlModel::Element {
                tag: "pcm_to_ddp"@,
                attrs: seq![("version"@, "3"@)],
                children: seq![
                    XmlModel::Element {
                        tag: "loudness"@,
                        attrs: seq![],
                        children: seq![
                            XmlModel::Element {
                                tag: "measure_only"@,
                                attrs: seq![],
                                children: seq![
                                    XmlModel::Leaf { tag: "metering_mode"@, value: m.metering_mode },
                                    XmlModel::Leaf { tag: "dialogue_intelligence"@, value: bool_text(m.dialogue_intelligence) },
                                    XmlModel::Leaf { tag: "speech_threshold"@, value: nat_digits(m.speech_threshold as nat) },
                                ],
                            },
                        ],
                    },
                    XmlModel::Leaf { tag: "encoder_mode"@, value: m.encoder_mode },
                    XmlModel::Leaf { tag: "bitstream_mode"@, value: "complete_main"@ },
                    XmlModel::Leaf { tag: "downmix_config"@, value: "off"@ },
                    XmlModel::Leaf { tag: "data_rate"@, value: nat_digits(m.data_rate as nat) },
                    XmlModel::Leaf { tag: "timecode_frame_rate"@, value: m.timecode_frame_rate },
                    XmlModel::Leaf { tag: "start"@, value: m.start },
                    XmlModel::Leaf { tag: "end"@, value: m.end },
                    XmlModel::Leaf { tag: "time_base"@, value: m.time_base },
                    XmlModel::Leaf { tag: "prepend_silence_duration"@, value: m.prepend_silence_duration },
                    XmlModel::Leaf { tag: "append_silence_duration"@, value: m.append_silence_duration },
                    XmlModel::Leaf { tag: "lfe_on"@, value: "true"@ },
                    XmlModel::Leaf { tag: "dolby_surround_mode"@, value: "not_indicated"@ },
                    XmlModel::Leaf { tag: "dolby_surround_ex_mode"@, value: "no"@ },
                    XmlModel::Leaf { tag: "user_data"@, value: "-1"@ },
                    XmlModel::Element {
                        tag: "drc"@,
                        attrs: seq![],
                        children: seq![
                            XmlModel::Leaf { tag: "line_mode_drc_profile"@, value: m.line_mode_drc_profile },
                            XmlModel::Leaf { tag: "rf_mode_drc_profile"@, value: m.rf_mode_drc_profile },
                        ],
                    },
                    XmlModel::Leaf { tag: "lfe_lowpass_filter"@, value: "true"@ },
                    XmlModel::Leaf { tag: "surround_90_degree_phase_shift"@, value: "true"@ },
                    XmlModel::Leaf { tag: "surround_3db_attenuation"@, value: "true"@ },
                    XmlModel::Element {
                        tag: "downmix"@,
                        attrs: seq![],
                        children: seq![
                            XmlModel::Leaf { tag: "loro_center_mix_level"@, value: m.loro_center_mix_level },
                            XmlModel::Leaf { tag: "loro_surround_mix_level"@, value: m.loro_surround_mix_level },
                            XmlModel::Leaf { tag: "ltrt_center_mix_level"@, value: m.ltrt_center_mix_level },
                            XmlModel::Leaf { tag: "ltrt_surround_mix_level"@, value: m.ltrt_surround_mix_level },
                            XmlModel::Leaf { tag: "preferred_downmix_mode"@, value: m.preferred_downmix_mode },
                        ],
                    },
                    XmlModel::Leaf { tag: "allow_hybrid_downmix"@, value: "false"@ },
                    XmlModel::Element {
                        tag: "embedded_timecodes"@,
                        attrs: seq![],
                        children: seq![
                            XmlModel::Leaf { tag: "starting_timecode"@, value: "off"@ },
                            XmlModel::Leaf { tag: "frame_rate"@, value: "auto"@ },
                        ],
                    },
                    XmlModel::Leaf { tag: "custom_dialnorm"@, value: int_text(m.custom_dialnorm as int) },
                ],
            },
        ],
    }));
    let ghost g90 = n89@;
    let cs91 = vec![n89];
    assert(cs91@.map_values(|c: XmlNode| c@) =~= seq![g90]);
    let at92: Vec<(String, String)> = Vec::new();
    assert(attrs_model(at92@) =~= Seq::<(Seq<char>, Seq<char>)>::empty());
    let n93 = XmlNode::element(owned("filter"), at92, cs91);
    assert(n93@ =~~= (XmlModel::Element {
        tag: "filter"@,
        attrs: seq![],
        children: seq![
            XmlModel::Element {
                tag: "audio"@,
                attrs: seq![],
                children: seq![
                    XmlModel::Element {
                        tag: "pcm_to_ddp"@,
                        attrs: seq![("version"@, "3"@)],
                        children: seq![
                            XmlModel::Element {
                                tag: "loudness"@,
                                attrs: seq![],
                                children: seq![
                                    XmlModel::Element {
                                        tag: "measure_only"@,
                                        attrs: seq![],
                                        children: seq![
                                            XmlModel::Leaf { tag: "metering_mode"@, value: m.metering_mode },
                                            XmlModel::Leaf { tag: "dialogue_intelligence"@, value: bool_text(m.dialogue_intelligence) },
                                            XmlModel::Leaf { tag: "speech_threshold"@, value: nat_digits(m.speech_threshold as nat) },
                                        ],
                                    },
                                ],
                            },
                            XmlModel::Leaf { tag: "encoder_mode"@, value: m.encoder_mode },
                            XmlModel::Leaf { tag: "bitstream_mode"@, value: "complete_main"@ },
                            XmlModel::Leaf { tag: "downmix_config"@, value: "off"@ },
                            XmlModel::Leaf { tag: "data_rate"@, value: nat_digits(m.data_rate as nat) },
                            XmlModel::Leaf { tag: "timecode_frame_rate"@, value: m.timecode_frame_rate },
                            XmlModel::Leaf { tag: "start"@, value: m.start },
                            XmlModel::Leaf { tag: "end"@, value: m.end },
                            XmlModel::Leaf { tag: "time_base"@, value: m.time_base },
                            XmlModel::Leaf { tag: "prepend_silence_duration"@, value: m.prepend_silence_duration },
                            XmlModel::Leaf { tag: "append_silence_duration"@, value: m.append_silence_duration },
                            XmlModel::Leaf { tag: "lfe_on"@, value: "true"@ },
                            XmlModel::Leaf { tag: "dolby_surround_mode"@, value: "not_indicated"@ },
                            XmlModel::Leaf { tag: "dolby_surround_ex_mode"@, value: "no"@ },
                            XmlModel::Leaf { tag: "user_data"@, value: "-1"@ },
                            XmlModel::Element {
                                tag: "drc"@,
                                attrs: seq![],
                                children: seq![
                                    XmlModel::Leaf { tag: "line_mode_drc_profile"@, value: m.line_mode_drc_profile },
                                    XmlModel::Leaf { tag: "rf_mode_drc_profile"@, value: m.rf_mode_drc_profile },
                                ],
                            },
                            XmlModel::Leaf { tag: "lfe_lowpass_filter"@, value: "true"@ },
                            XmlModel::Leaf { tag: "surround_90_degree_phase_shift"@, value: "true"@ },
                            XmlModel::Leaf { tag: "surround_3db_attenuation"@, value: "true"@ },
                            XmlModel::Element {
                                tag: "downmix"@,
                                attrs: seq![],
                                children: seq![
                                    XmlModel::Leaf { tag: "loro_center_mix_level"@, value: m.loro_center_mix_level },
                                    XmlModel::Leaf { tag: "loro_surround_mix_level"@, value: m.loro_surround_mix_level },
                                    XmlModel::Leaf { tag: "ltrt_center_mix_level"@, value: m.ltrt_center_mix_level },
                                    XmlModel::Leaf { tag: "ltrt_surround_mix_level"@, value: m.ltrt_surround_mix_level },
                                    XmlModel::Leaf { tag: "preferred_downmix_mode"@, value: m.preferred_downmix_mode },
                                ],
                            },
                            XmlModel::Leaf { tag: "allow_hybrid_downmix"@, value: "false"@ },
                            XmlModel::Element {
                                tag: "embedded_timecodes"@,
                                attrs: seq![],
                                children: seq![
                                    XmlModel::Leaf { tag: "starting_timecode"@, value: "off"@ },
                                    XmlModel::Leaf { tag: "frame_rate"@, value: "auto"@ },
                                ],
                            },
                            XmlModel::Leaf { tag: "custom_dialnorm"@, value: int_text(m.custom_dialnorm as int) },
                        ],
                    },
                ],
            },
        ],
    }));
    n93
}

/// The `output` element.
pub open spec fn pcm_output_model(tag: Seq<char>, path: Seq<char>, files: Seq<char>) -> XmlModel {
    XmlModel::Element {
        tag: "output"@,
        attrs: seq![],
        children: seq![
            XmlModel::Element {
                tag: "ec3"@,
                attrs: seq![("version"@, "1"@)],
                children: seq![
                    XmlModel::Leaf { tag: "file_name"@, value: files },
                    storage_model(tag, path),
                ],
            },
        ],
    }
}

/// The `output` element.
pub fn output_node(tag_s: &str, path_s: &str, files_s: &str) -> (r: XmlNode)
    ensures
        r@ == pcm_output_model(tag_s@, path_s@, files_s@),
{
    let ghost tag = tag_s@;
    let ghost path = path_s@;
    let ghost files = files_s@;
    let n1 = XmlNode::leaf(owned("file_name"), owned(files_s));
    let ghost g2 = n1@;
    let n3 = storage_node(tag_s, path_s);
    let ghost g4 = n3@;
    let cs5 = vec![n1, n3];
    assert(cs5@.map_values(|c: XmlNode| c@) =~= seq![g2, g4]);
    let at6: Vec<(String, String)> = vec![(owned("version"), owned("1"))];
    assert(attrs_model(at6@) =~= seq![("version"@, "1"@)]);
    let n7 = XmlNode::element(owned("ec3"), at6, cs5);
    assert(n7@ =~~= (XmlModel::Element {
        tag: "ec3"@,
        attrs: seq![("version"@, "1"@)],
        children: seq![
            XmlModel::Leaf { tag: "file_name"@, value: files },
            storage_model(tag, path),
        ],
    }));
    let ghost g8 = n7@;
    let cs9 = vec![n7];
    assert(cs9@.map_values(|c: XmlNode| c@) =~= seq![g8]);
    let at10: Vec<(String, String)> = Vec::new();
    assert(attrs_model(at10@) =~= Seq::<(Seq<char>, Seq<char>)>::empty());
    let n11 = XmlNode::element(owned("output"), at10, cs9);
    assert(n11@ =~~= (XmlModel::Element {
        tag: "output"@,
        attrs: seq![],
        children: seq![
            XmlModel::Element {
                tag: "ec3"@,
                attrs: seq![("version"@, "1"@)],
                children: seq![
                    XmlModel::Leaf { tag: "file_name"@, value: files },
                    storage_model(tag, path),
                ],
            },
        ],
    }));
    n11
}

/// The `job_config` tree of a job.
pub open spec fn pcm_xml_model(j: JobModel, m: PcmDdpV1Model) -> XmlModel {
    let tag = storage_tag_spec(j.job_mode);
    XmlModel::Element {
        tag: "job_config"@,
        attrs: seq![],
        children: seq![
            pcm_input_model(tag, j.input.storage_path, file_list_text(j.input.file_names)),
            pcm_filter_model(m),
            pcm_output_model(tag, j.output.storage_path, file_list_text(j.output.file_names)),
            misc_model(j.temp_dir, j.clean_temp),
        ],
    }
}

/// The `job_config` tree of a job.
pub fn xml_structure(job: &crate::resolve::ResolvedJob, f: &PcmDdpV1Filter) -> (r: XmlNode)
    ensures
        r@ == pcm_xml_model(job@, f@),
{
    let tag = storage_tag(job.job_mode);
    let input_files = render_file_name_list(&job.input.file_names);
    let output_files = render_file_name_list(&job.output.file_names);
    assert(strings_model(job.input.file_names@) =~= job@.input.file_names);
    assert(strings_model(job.output.file_names@) =~= job@.output.file_names);
    let a = input_node(tag, job.input.storage_path.as_str(), input_files.as_str());
    let ghost ga = a@;
    let b = filter_node(f);
    let ghost gb = b@;
    let c = output_node(tag, job.output.storage_path.as_str(), output_files.as_str());
    let ghost gc = c@;
    let d = misc_node(job.misc.temp_dir.as_str(), job.misc.clean_temp);
    let ghost gd = d@;
    let cs = vec![a, b, c, d];
    assert(cs@.map_values(|c: XmlNode| c@) =~= seq![ga, gb, gc, gd]);
    let at: Vec<(String, String)> = Vec::new();
    assert(attrs_model(at@) =~= Seq::<(Seq<char>, Seq<char>)>::empty());
    let r = XmlNode::element(owned("job_config"), at, cs);
    assert(r@ =~~= pcm_xml_model(job@, f@));
    r
}

/// The XML tree of a job reads its files where the job puts them: the
/// WAV input's file list and directory are the job's input ones, the encoded
/// file's are the job's output ones, and the temporary directory is the
/// job's, each directory under the storage tag of the job mode (`local` for
/// one file, `local_multi_path` for an album).
pub proof fn law_pcm_xml_paths(j: JobModel, m: PcmDdpV1Model)
    ensures
        ({
            let t = Some(pcm_xml_model(j, m));
            let tag = if j.job_mode == crate::spec::JobMode::Single {
                "local"@
            } else {
                "local_multi_path"@
            };
            let src = xml_in(xml_in(xml_in(t, "input"@), "audio"@), "wav"@);
            let dst = xml_in(xml_in(t, "output"@), "ec3"@);
            &&& xml_value(xml_in(xml_in(xml_in(dst, "storage"@), tag), "path"@)) == Some(j.output.storage_path)
            &&& xml_value(xml_in(dst, "file_name"@)) == Some(file_list_text(j.output.file_names))
            &&& xml_value(xml_in(xml_in(xml_in(src, "storage"@), tag), "path"@)) == Some(j.input.storage_path)
            &&& xml_value(xml_in(src, "file_name"@)) == Some(file_list_text(j.input.file_names))
            &&& xml_value(xml_in(xml_in(xml_in(t, "misc"@), "temp_dir"@), "path"@)) == Some(j.temp_dir)
        }),
{
    reveal_strlit("job_config");
    reveal_strlit("input");
    reveal_strlit("filter");
    reveal_strlit("output");
    reveal_strlit("misc");
    reveal_strlit("audio");
    reveal_strlit("temp_dir");
    reveal_strlit("storage");
    reveal_strlit("file_name");
    reveal_strlit("-version");
    reveal_strlit("timecode_frame_rate");
    reveal_strlit("offset");
    reveal_strlit("ffoa");
    reveal_strlit("wav");
    reveal_strlit("ec3");
    let tag = storage_tag_spec(j.job_mode);
    crate::template::common::lemma_storage_tag(j.job_mode);
    let t = pcm_xml_model(j, m);
    let cs = t->Element_children;
    assert("input"@.len() != "output"@.len());
    assert("filter"@[0] != "output"@[0]);
    assert("input"@.len() != "misc"@.len());
    assert("filter"@.len() != "misc"@.len());
    assert("output"@.len() != "misc"@.len());
    crate::render::lemma_child_get_at(cs, "input"@, 0);
    crate::render::lemma_child_get_at(cs, "output"@, 2);
    crate::render::lemma_child_get_at(cs, "misc"@, 3);
    let ins = pcm_input_model(tag, j.input.storage_path, file_list_text(j.input.file_names));
    reveal_with_fuel(crate::render::child_get, 2);
    assert(xml_in(xml_in(Some(ins), "audio"@), "wav"@) == Some(ins->Element_children[0]->Element_children[0]));
    let mc = ins->Element_children[0]->Element_children[0]->Element_children;
    assert forall|k: int| 0 <= k < 4 implies crate::render::node_tag(mc[k]) != Some("storage"@) by {
        assert(crate::render::node_tag(mc[k])->0.len() != "storage"@.len());
    }
    crate::render::lemma_child_get_at(mc, "storage"@, 4);
    crate::render::lemma_child_get_at(mc, "file_name"@, 0);
    let outs = pcm_output_model(tag, j.output.storage_path, file_list_text(j.output.file_names));
    let ec = outs->Element_children[0]->Element_children;
    assert("file_name"@.len() != "storage"@.len());
    crate::render::lemma_child_get_at(ec, "storage"@, 1);
    crate::render::lemma_child_get_at(ec, "file_name"@, 0);
    crate::template::common::lemma_storage_xml_path(tag, j.input.storage_path);
    crate::template::common::lemma_storage_xml_path(tag, j.output.storage_path);
    crate::template::common::lemma_misc_xml_path(j.temp_dir, j.clean_temp);
}

/// The filter element holds each parameter of the filter under the
/// parameter's own name: the leaf named after a parameter gives that
/// parameter's value (booleans as `true`/`false`, numbers in decimal), and
/// each setting that the template fixes has its fixed value.
pub proof fn law_pcm_xml_filter_values(m: PcmDdpV1Model)
    ensures
        ({
            let root = Some(pcm_filter_model(m));
            let audio = xml_in(root, "audio"@);
            let pcm_to_ddp = xml_in(audio, "pcm_to_ddp"@);
            let loudness = xml_in(pcm_to_ddp, "loudness"@);
            let measure_only = xml_in(loudness, "measure_only"@);
            let drc = xml_in(pcm_to_ddp, "drc"@);
            let downmix = xml_in(pcm_to_ddp, "downmix"@);
            let embedded_timecodes = xml_in(pcm_to_ddp, "embedded_timecodes"@);
            &&& xml_value(xml_in(measure_only, "metering_mode"@)) == Some(m.metering_mode)
            &&& xml_value(xml_in(measure_only, "dialogue_intelligence"@)) == Some(bool_text(m.dialogue_intelligence))
            &&& xml_value(xml_in(measure_only, "speech_threshold"@)) == Some(nat_digits(m.speech_threshold as nat))
            &&& xml_value(xml_in(pcm_to_ddp, "encoder_mode"@)) == Some(m.encoder_mode)
            &&& xml_value(xml_in(pcm_to_ddp, "bitstream_mode"@)) == Some("complete_main"@)
            &&& xml_value(xml_in(pcm_to_ddp, "downmix_config"@)) == Some("off"@)
            &&& xml_value(xml_in(pcm_to_ddp, "data_rate"@)) == Some(nat_digits(m.data_rate as nat))
            &&& xml_value(xml_in(pcm_to_ddp, "timecode_frame_rate"@)) == Some(m.timecode_frame_rate)
            &&& xml_value(xml_in(pcm_to_ddp, "start"@)) == Some(m.start)
            &&& xml_value(xml_in(pcm_to_ddp, "end"@)) == Some(m.end)
            &&& xml_value(xml_in(pcm_to_ddp, "time_base"@)) == Some(m.time_base)
            &&& xml_value(xml_in(pcm_to_ddp, "prepend_silence_duration"@)) == Some(m.prepend_silence_duration)
            &&& xml_value(xml_in(pcm_to_ddp, "append_silence_duration"@)) == Some(m.append_silence_duration)
            &&& xml_value(xml_in(pcm_to_ddp, "lfe_on"@)) == Some("true"@)
            &&& xml_value(xml_in(pcm_to_ddp, "dolby_surround_mode"@)) == Some("not_indicated"@)
            &&& xml_value(xml_in(pcm_to_ddp, "dolby_surround_ex_mode"@)) == Some("no"@)
            &&& xml_value(xml_in(pcm_to_ddp, "user_data"@)) == Some("-1"@)
            &&& xml_value(xml_in(drc, "line_mode_drc_profile"@)) == Some(m.line_mode_drc_profile)
            &&& xml_value(xml_in(drc, "rf_mode_drc_profile"@)) == Some(m.rf_mode_drc_profile)
            &&& xml_value(xml_in(pcm_to_ddp, "lfe_lowpass_filter"@)) == Some("true"@)
            &&& xml_value(xml_in(pcm_to_ddp, "surround_90_degree_phase_shift"@)) == Some("true"@)
            &&& xml_value(xml_in(pcm_to_ddp, "surround_3db_attenuation"@)) == Some("true"@)
            &&& xml_value(xml_in(downmix, "loro_center_mix_level"@)) == Some(m.loro_center_mix_level)
            &&& xml_value(xml_in(downmix, "loro_surround_mix_level"@)) == Some(m.loro_surround_mix_level)
            &&& xml_value(xml_in(downmix, "ltrt_center_mix_level"@)) == Some(m.ltrt_center_mix_level)
            &&& xml_value(xml_in(downmix, "ltrt_surround_mix_level"@)) == Some(m.ltrt_surround_mix_level)
            &&& xml_value(xml_in(downmix, "preferred_downmix_mode"@)) == Some(m.preferred_downmix_mode)
            &&& xml_value(xml_in(pcm_to_ddp, "allow_hybrid_downmix"@)) == Some("false"@)
            &&& xml_value(xml_in(embedded_timecodes, "starting_timecode"@)) == Some("off"@)
            &&& xml_value(xml_in(embedded_timecodes, "frame_rate"@)) == Some("auto"@)
            &&& xml_value(xml_in(pcm_to_ddp, "custom_dialnorm"@)) == Some(int_text(m.custom_dialnorm as int))
        }),
{
    reveal_strlit("allow_hybrid_downmix");
    reveal_strlit("append_silence_duration");
    reveal_strlit("audio");
    reveal_strlit("bitstream_mode");
    reveal_strlit("custom_dialnorm");
    reveal_strlit("data_rate");
    reveal_strlit("dialogue_intelligence");
    reveal_strlit("dolby_surround_ex_mode");
    reveal_strlit("dolby_surround_mode");
    reveal_strlit("downmix");
    reveal_strlit("downmix_config");
    reveal_strlit("drc");
    reveal_strlit("embedded_timecodes");
    reveal_strlit("encoder_mode");
    reveal_strlit("end");
    reveal_strlit("frame_rate");
    reveal_strlit("lfe_lowpass_filter");
    reveal_strlit("lfe_on");
    reveal_strlit("line_mode_drc_profile");
    reveal_strlit("loro_center_mix_level");
    reveal_strlit("loro_surround_mix_level");
    reveal_strlit("loudness");
    reveal_strlit("ltrt_center_mix_level");
    reveal_strlit("ltrt_surround_mix_level");
    reveal_strlit("measure_only");
    reveal_strlit("metering_mode");
    reveal_strlit("pcm_to_ddp");
    reveal_strlit("preferred_downmix_mode");
    reveal_strlit("prepend_silence_duration");
    reveal_strlit("rf_mode_drc_profile");
    reveal_strlit("speech_threshold");
    reveal_strlit("start");
    reveal_strlit("starting_timecode");
    reveal_strlit("surround_3db_attenuation");
    reveal_strlit("surround_90_degree_phase_shift");
    reveal_strlit("time_base");
    reveal_strlit("timecode_frame_rate");
    reveal_strlit("user_data");
    reveal_with_fuel(crate::render::child_get, 1);
    crate::render::lemma_child_get_at(pcm_filter_model(m)->Element_children, "audio"@, 0);
    crate::render::lemma_child_get_at(pcm_filter_model(m)->Element_children[0]->Element_children, "pcm_to_ddp"@, 0);
    crate::render::lemma_child_get_at(pcm_filter_model(m)->Element_children[0]->Element_children[0]->Element_children, "loudness"@, 0);
    crate::render::lemma_child_get_at(pcm_filter_model(m)->Element_children[0]->Element_children[0]->Element_children[0]->Element_children, "measure_only"@, 0);
    crate::render::lemma_child_get_at(pcm_filter_model(m)->Element_children[0]->Element_children[0]->Element_children[0]->Element_children[0]->Element_children, "metering_mode"@, 0);
    assert("metering_mode"@.len() != "dialogue_intelligence"@.len());
    crate::render::lemma_child_get_at(pcm_filter_model(m)->Element_children[0]->Element_children[0]->Element_children[0]->Element_children[0]->Element_children, "dialogue_intelligence"@, 1);
    assert("metering_mode"@.len() != "speech_threshold"@.len());
    assert("dialogue_intelligence"@.len() != "speech_threshold"@.len());
    crate::render::lemma_child_get_at(pcm_filter_model(m)->Element_children[0]->Element_children[0]->Element_children[0]->Element_children[0]->Element_children, "speech_threshold"@, 2);
    assert("loudness"@.len() != "encoder_mode"@.len());
    crate::render::lemma_child_get_at(pcm_filter_model(m)->Element_children[0]->Element_children[0]->Element_children, "encoder_mode"@, 1);
    assert("loudness"@.len() != "bitstream_mode"@.len());
    assert("encoder_mode"@.len() != "bitstream_mode"@.len());
    crate::render::lemma_child_get_at(pcm_filter_model(m)->Element_children[0]->Element_children[0]->Element_children, "bitstream_mode"@, 2);
    assert("loudness"@.len() != "downmix_config"@.len());
    assert("encoder_mode"@.len() != "downmix_config"@.len());
    assert("bitstream_mode"@[0] != "downmix_config"@[0]);
    crate::render::lemma_child_get_at(pcm_filter_model(m)->Element_children[0]->Element_children[0]->Element_children, "downmix_config"@, 3);
    assert("loudness"@.len() != "data_rate"@.len());
    assert("encoder_mode"@.len() != "data_rate"@.len());
    assert("bitstream_mode"@.len() != "data_rate"@.len());
    assert("downmix_config"@.len() != "data_rate"@.len());
    crate::render::lemma_child_get_at(pcm_filter_model(m)->Element_children[0]->Element_children[0]->Element_children, "data_rate"@, 4);
    assert("loudness"@.len() != "timecode_frame_rate"@.len());
    assert("encoder_mode"@.len() != "timecode_frame_rate"@.len());
    assert("bitstream_mode"@.len() != "timecode_frame_rate"@.len());
    assert("downmix_config"@.len() != "timecode_frame_rate"@.len());
    assert("data_rate"@.len() != "timecode_frame_rate"@.len());
    crate::render::lemma_child_get_at(pcm_filter_model(m)->Element_children[0]->Element_children[0]->Element_children, "timecode_frame_rate"@, 5);
    assert("loudness"@.len() != "start"@.len());
    assert("encoder_mode"@.len() != "start"@.len());
    assert("bitstream_mode"@.len() != "start"@.len());
    assert("downmix_config"@.len() != "start"@.len());
    assert("data_rate"@.len() != "start"@.len());
    assert("timecode_frame_rate"@.len() != "start"@.len());
    crate::render::lemma_child_get_at(pcm_filter_model(m)->Element_children[0]->Element_children[0]->Element_children, "start"@, 6);
    assert("loudness"@.len() != "end"@.len());
    assert("encoder_mode"@.len() != "end"@.len());
    assert("bitstream_mode"@.len() != "end"@.len());
    assert("downmix_config"@.len() != "end"@.len());
    assert("data_rate"@.len() != "end"@.len());
    assert("timecode_frame_rate"@.len() != "end"@.len());
    assert("start"@.len() != "end"@.len());
    crate::render::lemma_child_get_at(pcm_filter_model(m)->Element_children[0]->Element_children[0]->Element_children, "end"@, 7);
    assert("loudness"@.len() != "time_base"@.len());
    assert("encoder_mode"@.len() != "time_base"@.len());
    assert("bitstream_mode"@.len() != "time_base"@.len());
    assert("downmix_config"@.len() != "time_base"@.len());
    assert("data_rate"@[0] != "time_base"@[0]);
    assert("timecode_frame_rate"@.len() != "time_base"@.len());
    assert("start"@.len() != "time_base"@.len());
    assert("end"@.len() != "time_base"@.len());
    crate::render::lemma_child_get_at(pcm_filter_model(m)->Element_children[0]->Element_children[0]->Element_children, "time_base"@, 8);
    assert("loudness"@.len() != "prepend_silence_duration"@.len());
    assert("encoder_mode"@.len() != "prepend_silence_duration"@.len());
    assert("bitstream_mode"@.len() != "prepend_silence_duration"@.len());
    assert("downmix_config"@.len() != "prepend_silence_duration"@.len());
    assert("data_rate"@.len() != "prepend_silence_duration"@.len());
    assert("timecode_frame_rate"@.len() != "prepend_silence_duration"@.len());
    assert("start"@.len() != "prepend_silence_duration"@.len());
    assert("end"@.len() != "prepend_silence_duration"@.len());
    assert("time_base"@.len() != "prepend_silence_duration"@.len());
    crate::render::lemma_child_get_at(pcm_filter_model(m)->Element_children[0]->Element_children[0]->Element_children, "prepend_silence_duration"@, 9);
    assert("loudness"@.len() != "append_silence_duration"@.len());
    assert("encoder_mode"@.len() != "append_silence_duration"@.len());
    assert("bitstream_mode"@.len() != "append_silence_duration"@.len());
    assert("downmix_config"@.len() != "append_silence_duration"@.len());
    assert("data_rate"@.len() != "append_silence_duration"@.len());
    assert("timecode_frame_rate"@.len() != "append_silence_duration"@.len());
    assert("start"@.len() != "append_silence_duration"@.len());
    assert("end"@.len() != "append_silence_duration"@.len());
    assert("time_base"@.len() != "append_silence_duration"@.len());
    assert("prepend_silence_duration"@.len() != "append_silence_duration"@.len());
    crate::render::lemma_child_get_at(pcm_filter_model(m)->Element_children[0]->Element_children[0]->Element_children, "append_silence_duration"@, 10);
    assert("loudness"@.len() != "lfe_on"@.len());
    assert("encoder_mode"@.len() != "lfe_on"@.len());
    assert("bitstream_mode"@.len() != "lfe_on"@.len());
    assert("downmix_config"@.len() != "lfe_on"@.len());
    assert("data_rate"@.len() != "lfe_on"@.len());
    assert("timecode_frame_rate"@.len() != "lfe_on"@.len());
    assert("start"@.len() != "lfe_on"@.len());
    assert("end"@.len() != "lfe_on"@.len());
    assert("time_base"@.len() != "lfe_on"@.len());
    assert("prepend_silence_duration"@.len() != "lfe_on"@.len());
    assert("append_silence_duration"@.len() != "lfe_on"@.len());
    crate::render::lemma_child_get_at(pcm_filter_model(m)->Element_children[0]->Element_children[0]->Element_children, "lfe_on"@, 11);
    assert("loudness"@.len() != "dolby_surround_mode"@.len());
    assert("encoder_mode"@.len() != "dolby_surround_mode"@.len());
    assert("bitstream_mode"@.len() != "dolby_surround_mode"@.len());
    assert("downmix_config"@.len() != "dolby_surround_mode"@.len());
    assert("data_rate"@.len() != "dolby_surround_mode"@.len());
    assert("timecode_frame_rate"@[0] != "dolby_surround_mode"@[0]);
    assert("start"@.len() != "dolby_surround_mode"@.len());
    assert("end"@.len() != "dolby_surround_mode"@.len());
    assert("time_base"@.len() != "dolby_surround_mode"@.len());
    assert("prepend_silence_duration"@.len() != "dolby_surround_mode"@.len());
    assert("append_silence_duration"@.len() != "dolby_surround_mode"@.len());
    assert("lfe_on"@.len() != "dolby_surround_mode"@.len());
    crate::render::lemma_child_get_at(pcm_filter_model(m)->Element_children[0]->Element_children[0]->Element_children, "dolby_surround_mode"@, 12);
    assert("loudness"@.len() != "dolby_surround_ex_mode"@.len());
    assert("encoder_mode"@.len() != "dolby_surround_ex_mode"@.len());
    assert("bitstream_mode"@.len() != "dolby_surround_ex_mode"@.len());
    assert("downmix_config"@.len() != "dolby_surround_ex_mode"@.len());
    assert("data_rate"@.len() != "dolby_surround_ex_mode"@.len());
    assert("timecode_frame_rate"@.len() != "dolby_surround_ex_mode"@.len());
    assert("start"@.len() != "dolby_surround_ex_mode"@.len());
    assert("end"@.len() != "dolby_surround_ex_mode"@.len());
    assert("time_base"@.len() != "dolby_surround_ex_mode"@.len());
    assert("prepend_silence_duration"@.len() != "dolby_surround_ex_mode"@.len());
    assert("append_silence_duration"@.len() != "dolby_surround_ex_mode"@.len());
    assert("lfe_on"@.len() != "dolby_surround_ex_mode"@.len());
    assert("dolby_surround_mode"@.len() != "dolby_surround_ex_mode"@.len());
    crate::render::lemma_child_get_at(pcm_filter_model(m)->Element_children[0]->Element_children[0]->Element_children, "dolby_surround_ex_mode"@, 13);
    assert("loudness"@.len() != "user_data"@.len());
    assert("encoder_mode"@.len() != "user_data"@.len());
    assert("bitstream_mode"@.len() != "user_data"@.len());
    assert("downmix_config"@.len() != "user_data"@.len());
    assert("data_rate"@[0] != "user_data"@[0]);
    assert("timecode_frame_rate"@.len() != "user_data"@.len());
    assert("start"@.len() != "user_data"@.len());
    assert("end"@.len() != "user_data"@.len());
    assert("time_base"@[0] != "user_data"@[0]);
    assert("prepend_silence_duration"@.len() != "user_data"@.len());
    assert("append_silence_duration"@.len() != "user_data"@.len());
    assert("lfe_on"@.len() != "user_data"@.len());
    assert("dolby_surround_mode"@.len() != "user_data"@.len());
    assert("dolby_surround_ex_mode"@.len() != "user_data"@.len());
    crate::render::lemma_child_get_at(pcm_filter_model(m)->Element_children[0]->Element_children[0]->Element_children, "user_data"@, 14);
    assert("loudness"@.len() != "drc"@.len());
    assert("encoder_mode"@.len() != "drc"@.len());
    assert("bitstream_mode"@.len() != "drc"@.len());
    assert("downmix_config"@.len() != "drc"@.len());
    assert("data_rate"@.len() != "drc"@.len());
    assert("timecode_frame_rate"@.len() != "drc"@.len());
    assert("start"@.len() != "drc"@.len());
    assert("end"@[0] != "drc"@[0]);
    assert("time_base"@.len() != "drc"@.len());
    assert("prepend_silence_duration"@.len() != "drc"@.len());
    assert("append_silence_duration"@.len() != "drc"@.len());
    assert("lfe_on"@.len() != "drc"@.len());
    assert("dolby_surround_mode"@.len() != "drc"@.len());
    assert("dolby_surround_ex_mode"@.len() != "drc"@.len());
    assert("user_data"@.len() != "drc"@.len());
    crate::render::lemma_child_get_at(pcm_filter_model(m)->Element_children[0]->Element_children[0]->Element_children, "drc"@, 15);
    crate::render::lemma_child_get_at(pcm_filter_model(m)->Element_children[0]->Element_children[0]->Element_children[15]->Element_children, "line_mode_drc_profile"@, 0);
    assert("line_mode_drc_profile"@.len() != "rf_mode_drc_profile"@.len());
    crate::render::lemma_child_get_at(pcm_filter_model(m)->Element_children[0]->Element_children[0]->Element_children[15]->Element_children, "rf_mode_drc_profile"@, 1);
    assert("loudness"@.len() != "lfe_lowpass_filter"@.len());
    assert("encoder_mode"@.len() != "lfe_lowpass_filter"@.len());
    assert("bitstream_mode"@.len() != "lfe_lowpass_filter"@.len());
    assert("downmix_config"@.len() != "lfe_lowpass_filter"@.len());
    assert("data_rate"@.len() != "lfe_lowpass_filter"@.len());
    assert("timecode_frame_rate"@.len() != "lfe_lowpass_filter"@.len());
    assert("start"@.len() != "lfe_lowpass_filter"@.len());
    assert("end"@.len() != "lfe_lowpass_filter"@.len());
    assert("time_base"@.len() != "lfe_lowpass_filter"@.len());
    assert("prepend_silence_duration"@.len() != "lfe_lowpass_filter"@.len());
    assert("append_silence_duration"@.len() != "lfe_lowpass_filter"@.len());
    assert("lfe_on"@.len() != "lfe_lowpass_filter"@.len());
    assert("dolby_surround_mode"@.len() != "lfe_lowpass_filter"@.len());
    assert("dolby_surround_ex_mode"@.len() != "lfe_lowpass_filter"@.len());
    assert("user_data"@.len() != "lfe_lowpass_filter"@.len());
    assert("drc"@.len() != "lfe_lowpass_filter"@.len());
    crate::render::lemma_child_get_at(pcm_filter_model(m)->Element_children[0]->Element_children[0]->Element_children, "lfe_lowpass_filter"@, 16);
    assert("loudness"@.len() != "surround_90_degree_phase_shift"@.len());
    assert("encoder_mode"@.len() != "surround_90_degree_phase_shift"@.len());
    assert("bitstream_mode"@.len() != "surround_90_degree_phase_shift"@.len());
    assert("downmix_config"@.len() != "surround_90_degree_phase_shift"@.len());
    assert("data_rate"@.len() != "surround_90_degree_phase_shift"@.len());
    assert("timecode_frame_rate"@.len() != "surround_90_degree_phase_shift"@.len());
    assert("start"@.len() != "surround_90_degree_phase_shift"@.len());
    assert("end"@.len() != "surround_90_degree_phase_shift"@.len());
    assert("time_base"@.len() != "surround_90_degree_phase_shift"@.len());
    assert("prepend_silence_duration"@.len() != "surround_90_degree_phase_shift"@.len());
    assert("append_silence_duration"@.len() != "surround_90_degree_phase_shift"@.len());
    assert("lfe_on"@.len() != "surround_90_degree_phase_shift"@.len());
    assert("dolby_surround_mode"@.len() != "surround_90_degree_phase_shift"@.len());
    assert("dolby_surround_ex_mode"@.len() != "surround_90_degree_phase_shift"@.len());
    assert("user_data"@.len() != "surround_90_degree_phase_shift"@.len());
    assert("drc"@.len() != "surround_90_degree_phase_shift"@.len());
    assert("lfe_lowpass_filter"@.len() != "surround_90_degree_phase_shift"@.len());
    crate::render::lemma_child_get_at(pcm_filter_model(m)->Element_children[0]->Element_children[0]->Element_children, "surround_90_degree_phase_shift"@, 17);
    assert("loudness"@.len() != "surround_3db_attenuation"@.len());
    assert("encoder_mode"@.len() != "surround_3db_attenuation"@.len());
    assert("bitstream_mode"@.len() != "surround_3db_attenuation"@.len());
    assert("downmix_config"@.len() != "surround_3db_attenuation"@.len());
    assert("data_rate"@.len() != "surround_3db_attenuation"@.len());
    assert("timecode_frame_rate"@.len() != "surround_3db_attenuation"@.len());
    assert("start"@.len() != "surround_3db_attenuation"@.len());
    assert("end"@.len() != "surround_3db_attenuation"@.len());
    assert("time_base"@.len() != "surround_3db_attenuation"@.len());
    assert("prepend_silence_duration"@[0] != "surround_3db_attenuation"@[0]);
    assert("append_silence_duration"@.len() != "surround_3db_attenuation"@.len());
    assert("lfe_on"@.len() != "surround_3db_attenuation"@.len());
    assert("dolby_surround_mode"@.len() != "surround_3db_attenuation"@.len());
    assert("dolby_surround_ex_mode"@.len() != "surround_3db_attenuation"@.len());
    assert("user_data"@.len() != "surround_3db_attenuation"@.len());
    assert("drc"@.len() != "surround_3db_attenuation"@.len());
    assert("lfe_lowpass_filter"@.len() != "surround_3db_attenuation"@.len());
    assert("surround_90_degree_phase_shift"@.len() != "surround_3db_attenuation"@.len());
    crate::render::lemma_child_get_at(pcm_filter_model(m)->Element_children[0]->Element_children[0]->Element_children, "surround_3db_attenuation"@, 18);
    assert("loudness"@.len() != "downmix"@.len());
    assert("encoder_mode"@.len() != "downmix"@.len());
    assert("bitstream_mode"@.len() != "downmix"@.len());
    assert("downmix_config"@.len() != "downmix"@.len());
    assert("data_rate"@.len() != "downmix"@.len());
    assert("timecode_frame_rate"@.len() != "downmix"@.len());
    assert("start"@.len() != "downmix"@.len());
    assert("end"@.len() != "downmix"@.len());
    assert("time_base"@.len() != "downmix"@.len());
    assert("prepend_silence_duration"@.len() != "downmix"@.len());
    assert("append_silence_duration"@.len() != "downmix"@.len());
    assert("lfe_on"@.len() != "downmix"@.len());
    assert("dolby_surround_mode"@.len() != "downmix"@.len());
    assert("dolby_surround_ex_mode"@.len() != "downmix"@.len());
    assert("user_data"@.len() != "downmix"@.len());
    assert("drc"@.len() != "downmix"@.len());
    assert("lfe_lowpass_filter"@.len() != "downmix"@.len());
    assert("surround_90_degree_phase_shift"@.len() != "downmix"@.len());
    assert("surround_3db_attenuation"@.len() != "downmix"@.len());
    crate::render::lemma_child_get_at(pcm_filter_model(m)->Element_children[0]->Element_children[0]->Element_children, "downmix"@, 19);
    crate::render::lemma_child_get_at(pcm_filter_model(m)->Element_children[0]->Element_children[0]->Element_children[19]->Element_children, "loro_center_mix_level"@, 0);
    assert("loro_center_mix_level"@.len() != "loro_surround_mix_level"@.len());
    crate::render::lemma_child_get_at(pcm_filter_model(m)->Element_children[0]->Element_children[0]->Element_children[19]->Element_children, "loro_surround_mix_level"@, 1);
    assert("loro_center_mix_level"@[1] != "ltrt_center_mix_level"@[1]);
    assert("loro_surround_mix_level"@.len() != "ltrt_center_mix_level"@.len());
    crate::render::lemma_child_get_at(pcm_filter_model(m)->Element_children[0]->Element_children[0]->Element_children[19]->Element_children, "ltrt_center_mix_level"@, 2);
    assert("loro_center_mix_level"@.len() != "ltrt_surround_mix_level"@.len());
    assert("loro_surround_mix_level"@[1] != "ltrt_surround_mix_level"@[1]);
    assert("ltrt_center_mix_level"@.len() != "ltrt_surround_mix_level"@.len());
    crate::render::lemma_child_get_at(pcm_filter_model(m)->Element_children[0]->Element_children[0]->Element_children[19]->Element_children, "ltrt_surround_mix_level"@, 3);
    assert("loro_center_mix_level"@.len() != "preferred_downmix_mode"@.len());
    assert("loro_surround_mix_level"@.len() != "preferred_downmix_mode"@.len());
    assert("ltrt_center_mix_level"@.len() != "preferred_downmix_mode"@.len());
    assert("ltrt_surround_mix_level"@.len() != "preferred_downmix_mode"@.len());
    crate::render::lemma_child_get_at(pcm_filter_model(m)->Element_children[0]->Element_children[0]->Element_children[19]->Element_children, "preferred_downmix_mode"@, 4);
    assert("loudness"@.len() != "allow_hybrid_downmix"@.len());
    assert("encoder_mode"@.len() != "allow_hybrid_downmix"@.len());
    assert("bitstream_mode"@.len() != "allow_hybrid_downmix"@.len());
    assert("downmix_config"@.len() != "allow_hybrid_downmix"@.len());
    assert("data_rate"@.len() != "allow_hybrid_downmix"@.len());
    assert("timecode_frame_rate"@.len() != "allow_hybrid_downmix"@.len());
    assert("start"@.len() != "allow_hybrid_downmix"@.len());
    assert("end"@.len() != "allow_hybrid_downmix"@.len());
    assert("time_base"@.len() != "allow_hybrid_downmix"@.len());
    assert("prepend_silence_duration"@.len() != "allow_hybrid_downmix"@.len());
    assert("append_silence_duration"@.len() != "allow_hybrid_downmix"@.len());
    assert("lfe_on"@.len() != "allow_hybrid_downmix"@.len());
    assert("dolby_surround_mode"@.len() != "allow_hybrid_downmix"@.len());
    assert("dolby_surround_ex_mode"@.len() != "allow_hybrid_downmix"@.len());
    assert("user_data"@.len() != "allow_hybrid_downmix"@.len());
    assert("drc"@.len() != "allow_hybrid_downmix"@.len());
    assert("lfe_lowpass_filter"@.len() != "allow_hybrid_downmix"@.len());
    assert("surround_90_degree_phase_shift"@.len() != "allow_hybrid_downmix"@.len());
    assert("surround_3db_attenuation"@.len() != "allow_hybrid_downmix"@.len());
    assert("downmix"@.len() != "allow_hybrid_downmix"@.len());
    crate::render::lemma_child_get_at(pcm_filter_model(m)->Element_children[0]->Element_children[0]->Element_children, "allow_hybrid_downmix"@, 20);
    assert("loudness"@.len() != "embedded_timecodes"@.len());
    assert("encoder_mode"@.len() != "embedded_timecodes"@.len());
    assert("bitstream_mode"@.len() != "embedded_timecodes"@.len());
    assert("downmix_config"@.len() != "embedded_timecodes"@.len());
    assert("data_rate"@.len() != "embedded_timecodes"@.len());
    assert("timecode_frame_rate"@.len() != "embedded_timecodes"@.len());
    assert("start"@.len() != "embedded_timecodes"@.len());
    assert("end"@.len() != "embedded_timecodes"@.len());
    assert("time_base"@.len() != "embedded_timecodes"@.len());
    assert("prepend_silence_duration"@.len() != "embedded_timecodes"@.len());
    assert("append_silence_duration"@.len() != "embedded_timecodes"@.len());
    assert("lfe_on"@.len() != "embedded_timecodes"@.len());
    assert("dolby_surround_mode"@.len() != "embedded_timecodes"@.len());
    assert("dolby_surround_ex_mode"@.len() != "embedded_timecodes"@.len());
    assert("user_data"@.len() != "embedded_timecodes"@.len());
    assert("drc"@.len() != "embedded_timecodes"@.len());
    assert("lfe_lowpass_filter"@[0] != "embedded_timecodes"@[0]);
    assert("surround_90_degree_phase_shift"@.len() != "embedded_timecodes"@.len());
    assert("surround_3db_attenuation"@.len() != "embedded_timecodes"@.len());
    assert("downmix"@.len() != "embedded_timecodes"@.len());
    assert("allow_hybrid_downmix"@.len() != "embedded_timecodes"@.len());
    crate::render::lemma_child_get_at(pcm_filter_model(m)->Element_children[0]->Element_children[0]->Element_children, "embedded_timecodes"@, 21);
    crate::render::lemma_child_get_at(pcm_filter_model(m)->Element_children[0]->Element_children[0]->Element_children[21]->Element_children, "starting_timecode"@, 0);
    assert("starting_timecode"@.len() != "frame_rate"@.len());
    crate::render::lemma_child_get_at(pcm_filter_model(m)->Element_children[0]->Element_children[0]->Element_children[21]->Element_children, "frame_rate"@, 1);
    assert("loudness"@.len() != "custom_dialnorm"@.len());
    assert("encoder_mode"@.len() != "custom_dialnorm"@.len());
    assert("bitstream_mode"@.len() != "custom_dialnorm"@.len());
    assert("downmix_config"@.len() != "custom_dialnorm"@.len());
    assert("data_rate"@.len() != "custom_dialnorm"@.len());
    assert("timecode_frame_rate"@.len() != "custom_dialnorm"@.len());
    assert("start"@.len() != "custom_dialnorm"@.len());
    assert("end"@.len() != "custom_dialnorm"@.len());
    assert("time_base"@.len() != "custom_dialnorm"@.len());
    assert("prepend_silence_duration"@.len() != "custom_dialnorm"@.len());
    assert("append_silence_duration"@.len() != "custom_dialnorm"@.len());
    assert("lfe_on"@.len() != "custom_dialnorm"@.len());
    assert("dolby_surround_mode"@.len() != "custom_dialnorm"@.len());
    assert("dolby_surround_ex_mode"@.len() != "custom_dialnorm"@.len());
    assert("user_data"@.len() != "custom_dialnorm"@.len());
    assert("drc"@.len() != "custom_dialnorm"@.len());
    assert("lfe_lowpass_filter"@.len() != "custom_dialnorm"@.len());
    assert("surround_90_degree_phase_shift"@.len() != "custom_dialnorm"@.len());
    assert("surround_3db_attenuation"@.len() != "custom_dialnorm"@.len());
    assert("downmix"@.len() != "custom_dialnorm"@.len());
    assert("allow_hybrid_downmix"@.len() != "custom_dialnorm"@.len());
    assert("embedded_timecodes"@.len() != "custom_dialnorm"@.len());
    crate::render::lemma_child_get_at(pcm_filter_model(m)->Element_children[0]->Element_children[0]->Element_children, "custom_dialnorm"@, 22);
}

} // verus!
