//! XML building blocks shared by the templates.
use vstd::prelude::*;

use crate::json::{entries_model, push_entry, JsonModel, JsonValue};
use crate::render::{attrs_model, xml_in, xml_value, XmlModel, XmlNode};
use crate::spec::JobMode;
use crate::text::{bool_str, bool_text, cat3, owned};

verus! {

/// Storage element name for a job mode.
pub open spec fn storage_tag_spec(mode: JobMode) -> Seq<char> {
    match mode {
        JobMode::Single => "local"@,
        JobMode::Album => "local_multi_path"@,
    }
}

/// Storage element name for a job mode.
pub fn storage_tag(mode: JobMode) -> (r: &'static str)
    ensures
        r@ == storage_tag_spec(mode),
{
    match mode {
        JobMode::Single => "local",
        JobMode::Album => "local_multi_path",
    }
}

/// `<storage><tag><path>…</path></tag></storage>`.
pub open spec fn storage_model(tag: Seq<char>, path: Seq<char>) -> XmlModel {
    XmlModel::Element {
        tag: "storage"@,
        attrs: seq![],
        children: seq![
            XmlModel::Element {
                tag: tag,
                attrs: seq![],
                children: seq![XmlModel::Leaf { tag: "path"@, value: path }],
            },
        ],
    }
}

/// `<storage><tag><path>…</path></tag></storage>`.
pub fn storage_node(tag: &str, path: &str) -> (r: XmlNode)
    ensures
        r@ == storage_model(tag@, path@),
{
    let leaf = XmlNode::leaf(owned("path"), owned(path));
    let ghost gl = leaf;
    let cs = vec![leaf];
    assert(cs@ == seq![gl]);
    assert(cs@.map_values(|c: XmlNode| c@) =~= seq![gl@]);
    let inner = XmlNode::element(owned(tag), vec![], cs);
    assert(attrs_model(Seq::empty()) =~= Seq::empty());
    assert(inner@ =~~= storage_model(tag@, path@)->Element_children[0]);
    let ghost gi = inner@;
    let cs2 = vec![inner];
    assert(cs2@.map_values(|c: XmlNode| c@) =~= seq![gi]);
    let r = XmlNode::element(owned("storage"), vec![], cs2);
    assert(r@ =~~= storage_model(tag@, path@));
    r
}

/// `<misc><temp_dir><clean_temp/><path/></temp_dir></misc>`.
pub open spec fn misc_model(temp_dir: Seq<char>, clean_temp: bool) -> XmlModel {
    XmlModel::Element {
        tag: "misc"@,
        attrs: seq![],
        children: seq![
            XmlModel::Element {
                tag: "temp_dir"@,
                attrs: seq![],
                children: seq![
                    XmlModel::Leaf { tag: "clean_temp"@, value: bool_text(clean_temp) },
                    XmlModel::Leaf { tag: "path"@, value: temp_dir },
                ],
            },
        ],
    }
}

/// `<misc><temp_dir><clean_temp/><path/></temp_dir></misc>`.
pub fn misc_node(temp_dir: &str, clean_temp: bool) -> (r: XmlNode)
    ensures
        r@ == misc_model(temp_dir@, clean_temp),
{
    let a = XmlNode::leaf(owned("clean_temp"), owned(bool_str(clean_temp)));
    let ghost ga = a@;
    let b = XmlNode::leaf(owned("path"), owned(temp_dir));
    let ghost gb = b@;
    let cs = vec![a, b];
    assert(cs@.map_values(|c: XmlNode| c@) =~= seq![ga, gb]);
    assert(attrs_model(Seq::empty()) =~= Seq::empty());
    let inner = XmlNode::element(owned("temp_dir"), vec![], cs);
    let ghost gi = inner@;
    let cs2 = vec![inner];
    assert(cs2@.map_values(|c: XmlNode| c@) =~= seq![gi]);
    let r = XmlNode::element(owned("misc"), vec![], cs2);
    assert(r@ =~~= misc_model(temp_dir@, clean_temp));
    r
}

/// Text of an optional value (empty when unset).
pub open spec fn opt_model(o: Option<Seq<char>>) -> Seq<char> {
    match o {
        Some(s) => s,
        None => Seq::empty(),
    }
}

/// Text of an optional value (empty when unset).
pub fn opt_text(o: &Option<String>) -> (r: String)
    ensures
        r@ == opt_model(
            match o {
                Some(s) => Some(s@),
                None => None,
            },
        ),
{
    match o {
        Some(s) => s.clone(),
        None => String::new(),
    }
}

/// A path in double quotes, as the JSON configurations carry it.
pub open spec fn quoted(p: Seq<char>) -> Seq<char> {
    "\""@ + p + "\""@
}

/// An entry for an optional string value: none when unset.
pub open spec fn opt_entry(key: Seq<char>, o: Option<Seq<char>>) -> Seq<(Seq<char>, JsonModel)> {
    match o {
        Some(v) => seq![(key, JsonModel::Str(v))],
        None => Seq::empty(),
    }
}

/// `{tag: {"path": "\"path\""}}`.
pub open spec fn storage_json_model(tag: Seq<char>, path: Seq<char>) -> JsonModel {
    JsonModel::Object(seq![(tag, JsonModel::Object(seq![("path"@, JsonModel::Str(quoted(path)))]))])
}

/// `{tag: {"path": "\"path\""}}`.
pub fn storage_json(tag: &str, path: &str) -> (r: JsonValue)
    ensures
        r@ == storage_json_model(tag@, path@),
{
    let mut inner: Vec<(String, JsonValue)> = Vec::new();
    push_entry(&mut inner, owned("path"), JsonValue::Str(cat3("\"", path, "\"")));
    let a = JsonValue::Object(inner);
    assert(a@ =~~= JsonModel::Object(seq![("path"@, JsonModel::Str(quoted(path@)))]));
    let mut outer: Vec<(String, JsonValue)> = Vec::new();
    push_entry(&mut outer, owned(tag), a);
    let r = JsonValue::Object(outer);
    assert(r@ =~~= storage_json_model(tag@, path@));
    r
}

/// `{"clean_temp": "true"|"false", "path": "\"temp_dir\""}`.
pub open spec fn misc_json_model(temp_dir: Seq<char>, clean_temp: bool) -> JsonModel {
    JsonModel::Object(
        seq![
            ("clean_temp"@, JsonModel::Str(bool_text(clean_temp))),
            ("path"@, JsonModel::Str(quoted(temp_dir))),
        ],
    )
}

/// `{"clean_temp": "true"|"false", "path": "\"temp_dir\""}`.
pub fn misc_json(temp_dir: &str, clean_temp: bool) -> (r: JsonValue)
    ensures
        r@ == misc_json_model(temp_dir@, clean_temp),
{
    let mut es: Vec<(String, JsonValue)> = Vec::new();
    assert(entries_model(es@) =~~= Seq::<(Seq<char>, JsonModel)>::empty());
    push_entry(&mut es, owned("clean_temp"), JsonValue::Str(owned(bool_str(clean_temp))));
    assert(entries_model(es@) =~~= seq![("clean_temp"@, JsonModel::Str(bool_text(clean_temp)))]);
    let p = cat3("\"", temp_dir, "\"");
    assert(p@ == quoted(temp_dir@));
    push_entry(&mut es, owned("path"), JsonValue::Str(p));
    assert(entries_model(es@) =~~= seq![
        ("clean_temp"@, JsonModel::Str(bool_text(clean_temp))),
        ("path"@, JsonModel::Str(quoted(temp_dir@))),
    ]);
    let r = JsonValue::Object(es);
    assert(r@ =~~= misc_json_model(temp_dir@, clean_temp));
    r
}


/// The directory under the storage tag of a storage object, in double
/// quotes.
pub proof fn lemma_storage_json_path(tag: Seq<char>, path: Seq<char>)
    ensures
        crate::json::json_in(crate::json::json_in(Some(storage_json_model(tag, path)), tag), "path"@) == Some(
            JsonModel::Str(seq!['"'] + path + seq!['"']),
        ),
{
    reveal_strlit("\"");
    reveal_with_fuel(crate::json::entry_get, 2);
    assert("\""@ =~= seq!['"']);
}

/// The temporary directory of a misc object, in double quotes.
pub proof fn lemma_misc_json_path(temp_dir: Seq<char>, clean_temp: bool)
    ensures
        crate::json::json_in(Some(misc_json_model(temp_dir, clean_temp)), "path"@) == Some(
            JsonModel::Str(seq!['"'] + temp_dir + seq!['"']),
        ),
{
    reveal_strlit("\"");
    reveal_strlit("path");
    reveal_strlit("clean_temp");
    reveal_with_fuel(crate::json::entry_get, 3);
    assert("\""@ =~= seq!['"']);
    assert("path"@.len() != "clean_temp"@.len());
}

/// The storage tag of a job mode.
pub proof fn lemma_storage_tag(mode: JobMode)
    ensures
        storage_tag_spec(mode) == (if mode == JobMode::Single {
            "local"@
        } else {
            "local_multi_path"@
        }),
{
}

/// The directory under the storage tag of a storage element.
pub proof fn lemma_storage_xml_path(tag: Seq<char>, path: Seq<char>)
    ensures
        xml_value(xml_in(xml_in(Some(storage_model(tag, path)), tag), "path"@)) == Some(path),
{
    reveal_with_fuel(crate::render::child_get, 2);
}

/// The temporary directory of a misc element.
pub proof fn lemma_misc_xml_path(temp_dir: Seq<char>, clean_temp: bool)
    ensures
        xml_value(xml_in(xml_in(Some(misc_model(temp_dir, clean_temp)), "temp_dir"@), "path"@)) == Some(temp_dir),
{
    reveal_strlit("path");
    reveal_strlit("clean_temp");
    reveal_with_fuel(crate::render::child_get, 3);
    assert("path"@.len() != "clean_temp"@.len());
}

} // verus!
