//! JSON configuration trees and their text.
use vstd::prelude::*;

use serde_json::Value as SerdeJson;

verus! {

/// A JSON value of a configuration tree.
#[derive(Debug)]
pub enum JsonValue {
    Str(String),
    Bool(bool),
    Int(i64),
    Object(Vec<(String, JsonValue)>),
}

/// Mathematical model of a JSON value; an object keeps its entries in the
/// order they were added.
#[verifier::ext_equal]
pub enum JsonModel {
    Str(Seq<char>),
    Bool(bool),
    Int(int),
    Object(Seq<(Seq<char>, JsonModel)>),
}

pub open spec fn json_model(v: JsonValue) -> JsonModel
    decreases v, 0nat,
{
    match v {
        JsonValue::Str(s) => JsonModel::Str(s@),
        JsonValue::Bool(b) => JsonModel::Bool(b),
        JsonValue::Int(n) => JsonModel::Int(n as int),
        JsonValue::Object(es) => JsonModel::Object(entries_model(es@)),
    }
}

pub open spec fn entries_model(es: Seq<(String, JsonValue)>) -> Seq<(Seq<char>, JsonModel)>
    decreases es, es.len(),
{
    if es.len() == 0 {
        Seq::empty()
    } else {
        entries_model(es.drop_last()).push((es.last().0@, json_model(es.last().1)))
    }
}

impl View for JsonValue {
    type V = JsonModel;

    open spec fn view(&self) -> JsonModel {
        json_model(*self)
    }
}

/// Appends an entry to the entries of an object under construction.
pub fn push_entry(es: &mut Vec<(String, JsonValue)>, key: String, v: JsonValue)
    ensures
        entries_model(final(es)@) == entries_model(old(es)@).push((key@, v@)),
{
    es.push((key, v));
    assert(final(es)@.drop_last() == old(es)@);
}

/// The pretty-printed text of a tree as `serde_json` writes it (with the keys
/// of each object in its sorted order), or the message of its error.
pub uninterp spec fn json_text(v: JsonModel) -> Result<Seq<char>, Seq<char>>;

#[verifier::external_type_specification]
#[verifier::external_body]
pub struct ExSerdeJson(SerdeJson);

/// Converts a tree to `serde_json`'s value, entry by entry.
#[verifier::external_body]
fn to_serde(v: &JsonValue) -> SerdeJson {
    match v {
        JsonValue::Str(s) => SerdeJson::String(s.clone()),
        JsonValue::Bool(b) => SerdeJson::Bool(*b),
        JsonValue::Int(n) => SerdeJson::from(*n),
        JsonValue::Object(es) => SerdeJson::Object(
            es.iter().map(|e| (e.0.clone(), to_serde(&e.1))).collect(),
        ),
    }
}

/// Pretty-printed JSON text of a tree, by `serde_json::to_string_pretty` on
/// the tree converted to a `serde_json::Value`. Its result, the text or the
/// error's message, is a function of the tree alone: `json_text`.
#[verifier::external_body]
pub(crate) fn render_json_value(v: &JsonValue) -> (r: Result<String, String>)
    ensures
        match r {
            Ok(s) => json_text(v@) == Ok::<Seq<char>, Seq<char>>(s@),
            Err(e) => json_text(v@) == Err::<Seq<char>, Seq<char>>(e@),
        },
{
    serde_json::to_string_pretty(&to_serde(v)).map_err(|e| e.to_string())
}


/// The value of the first entry with the key.
pub open spec fn entry_get(es: Seq<(Seq<char>, JsonModel)>, key: Seq<char>) -> Option<JsonModel>
    decreases es.len(),
{
    if es.len() == 0 {
        None
    } else if es[0].0 == key {
        Some(es[0].1)
    } else {
        entry_get(es.drop_first(), key)
    }
}

/// The value of the first entry with the key, found at `i`.
pub proof fn lemma_entry_get_at(es: Seq<(Seq<char>, JsonModel)>, key: Seq<char>, i: int)
    requires
        0 <= i < es.len(),
        es[i].0 == key,
        forall|j: int| 0 <= j < i ==> es[j].0 != key,
    ensures
        entry_get(es, key) == Some(es[i].1),
    decreases i,
{
    if i > 0 {
        assert(es[0].0 != key);
        lemma_entry_get_at(es.drop_first(), key, i - 1);
    }
}

/// The value under a key of an object.
pub open spec fn json_get(v: JsonModel, key: Seq<char>) -> Option<JsonModel> {
    match v {
        JsonModel::Object(es) => entry_get(es, key),
        _ => None,
    }
}

/// The value under a key of a value, if there is a value.
pub open spec fn json_in(v: Option<JsonModel>, key: Seq<char>) -> Option<JsonModel> {
    match v {
        Some(x) => json_get(x, key),
        None => None,
    }
}

} // verus!
