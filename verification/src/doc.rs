//! Parsed YAML or JSON documents and the typed reading of their values.
use vstd::prelude::*;

use serde_json::Value as SerdeJson;
use serde_yaml::Value as YamlText;

use crate::text::{bool_str, bool_text, i64_text, int_text, owned, str_eq};

verus! {

/// A parsed YAML or JSON value.
#[derive(Debug)]
pub enum Doc {
    Null,
    Bool(bool),
    Int(i64),
    /// A number outside `i64` or with a fraction, by its text.
    Num(String),
    Str(String),
    List(Vec<Doc>),
    /// Entries in document order; a key that is not a scalar is `None`.
    Dict(Vec<(Option<String>, Doc)>),
    /// A tagged YAML value.
    Other,
}

/// Mathematical model of a document value.
#[verifier::ext_equal]
pub enum DocModel {
    Null,
    Bool(bool),
    Int(int),
    Num(Seq<char>),
    Str(Seq<char>),
    List(Seq<DocModel>),
    Dict(Seq<(Option<Seq<char>>, DocModel)>),
    Other,
}

pub open spec fn doc_model(d: Doc) -> DocModel
    decreases d, 0nat,
{
    match d {
        Doc::Null => DocModel::Null,
        Doc::Bool(b) => DocModel::Bool(b),
        Doc::Int(n) => DocModel::Int(n as int),
        Doc::Num(t) => DocModel::Num(t@),
        Doc::Str(s) => DocModel::Str(s@),
        Doc::List(xs) => DocModel::List(doc_models(xs@)),
        Doc::Dict(es) => DocModel::Dict(dict_model(es@)),
        Doc::Other => DocModel::Other,
    }
}

pub open spec fn doc_models(xs: Seq<Doc>) -> Seq<DocModel>
    decreases xs, xs.len(),
{
    if xs.len() == 0 {
        Seq::empty()
    } else {
        doc_models(xs.drop_last()).push(doc_model(xs.last()))
    }
}

pub open spec fn key_model(k: Option<String>) -> Option<Seq<char>> {
    match k {
        Some(s) => Some(s@),
        None => None,
    }
}

pub open spec fn dict_model(es: Seq<(Option<String>, Doc)>) -> Seq<(Option<Seq<char>>, DocModel)>
    decreases es, es.len(),
{
    if es.len() == 0 {
        Seq::empty()
    } else {
        dict_model(es.drop_last()).push((key_model(es.last().0), doc_model(es.last().1)))
    }
}

impl View for Doc {
    type V = DocModel;

    open spec fn view(&self) -> DocModel {
        doc_model(*self)
    }
}

proof fn lemma_doc_models(xs: Seq<Doc>)
    ensures
        doc_models(xs).len() == xs.len(),
        forall|i: int| 0 <= i < xs.len() ==> #[trigger] doc_models(xs)[i] == xs[i]@,
    decreases xs.len(),
{
    if xs.len() > 0 {
        lemma_doc_models(xs.drop_last());
        assert forall|i: int| 0 <= i < xs.len() implies #[trigger] doc_models(xs)[i] == xs[i]@ by {
            if i < xs.len() - 1 {
                assert(xs.drop_last()[i] == xs[i]);
            }
        }
    }
}

proof fn lemma_dict_model(es: Seq<(Option<String>, Doc)>)
    ensures
        dict_model(es).len() == es.len(),
        forall|i: int|
            0 <= i < es.len() ==> #[trigger] dict_model(es)[i] == (key_model(es[i].0), es[i].1@),
    decreases es.len(),
{
    if es.len() > 0 {
        lemma_dict_model(es.drop_last());
        assert forall|i: int| 0 <= i < es.len() implies #[trigger] dict_model(es)[i] == (
            key_model(es[i].0),
            es[i].1@,
        ) by {
            if i < es.len() - 1 {
                assert(es.drop_last()[i] == es[i]);
            }
        }
    }
}

/// Whether an entry's key is one of the names of a field.
pub open spec fn key_is(k: Option<Seq<char>>, names: Seq<Seq<char>>) -> bool {
    match k {
        Some(s) => names.contains(s),
        None => false,
    }
}

/// The values of the entries whose key is one of the names, in order.
pub open spec fn hits(es: Seq<(Option<Seq<char>>, DocModel)>, names: Seq<Seq<char>>) -> Seq<DocModel>
    decreases es.len(),
{
    if es.len() == 0 {
        Seq::empty()
    } else if key_is(es.last().0, names) {
        hits(es.drop_last(), names).push(es.last().1)
    } else {
        hits(es.drop_last(), names)
    }
}

/// A field of a mapping: `None` when it is given more than once, else
/// whether it is given and its value.
pub open spec fn field(es: Seq<(Option<Seq<char>>, DocModel)>, names: Seq<Seq<char>>) -> Option<
    Option<DocModel>,
> {
    let h = hits(es, names);
    if h.len() == 0 {
        Some(None)
    } else if h.len() == 1 {
        Some(Some(h[0]))
    } else {
        None
    }
}

pub open spec fn names_view(names: Seq<&str>) -> Seq<Seq<char>> {
    names.map_values(|n: &str| n@)
}

pub fn key_matches(k: &Option<String>, names: &Vec<&str>) -> (r: bool)
    ensures
        r == key_is(key_model(*k), names_view(names@)),
{
    match k {
        None => false,
        Some(s) => {
            let mut i: usize = 0;
            while i < names.len()
                invariant
                    i <= names.len(),
                    key_model(*k) == Some(s@),
                    forall|j: int| 0 <= j < i ==> names@[j]@ != s@,
                decreases names.len() - i,
            {
                if str_eq(s.as_str(), names[i]) {
                    assert(names_view(names@)[i as int] == s@);
                    assert(names_view(names@).contains(s@));
                    return true;
                }
                i += 1;
            }
            assert(!names_view(names@).contains(s@)) by {
                if names_view(names@).contains(s@) {
                    let j = choose|j: int| 0 <= j < names_view(names@).len() && names_view(names@)[j] == s@;
                    assert(names@[j]@ == s@);
                }
            }
            false
        },
    }
}

/// Finds a field: `None` when it is given more than once, else the index of
/// its entry, if it is given.
pub fn find_field(es: &Vec<(Option<String>, Doc)>, names: &Vec<&str>) -> (r: Option<Option<usize>>)
    ensures
        match r {
            None => field(dict_model(es@), names_view(names@)) is None,
            Some(None) => field(dict_model(es@), names_view(names@)) == Some(None::<DocModel>),
            Some(Some(i)) => i < es@.len() && field(dict_model(es@), names_view(names@)) == Some(
                Some(es@[i as int].1@),
            ),
        },
{
    let ghost nv = names_view(names@);
    let mut found: Option<usize> = None;
    let mut i: usize = 0;
    proof {
        lemma_dict_model(es@);
    }
    while i < es.len()
        invariant
            i <= es.len(),
            nv == names_view(names@),
            dict_model(es@).len() == es@.len(),
            forall|j: int|
                0 <= j < es@.len() ==> #[trigger] dict_model(es@)[j] == (key_model(es@[j].0), es@[j].1@),
            match found {
                None => hits(dict_model(es@).take(i as int), nv).len() == 0,
                Some(k) => k < i && hits(dict_model(es@).take(i as int), nv) == seq![es@[k as int].1@],
            },
        decreases es.len() - i,
    {
        let ghost dm = dict_model(es@);
        assert(dm.take(i + 1).drop_last() == dm.take(i as int));
        assert(dm.take(i + 1).last() == dm[i as int]);
        if key_matches(&es[i].0, names) {
            match found {
                Some(_) => {
                    assert(hits(dm.take(i + 1), nv).len() == 2);
                    proof {
                        lemma_hits_grow(dm, nv, i + 1);
                    }
                    return None;
                },
                None => {
                    found = Some(i);
                    assert(hits(dm.take(i + 1), nv) =~= seq![es@[i as int].1@]);
                },
            }
        }
        i += 1;
    }
    assert(dict_model(es@).take(es.len() as int) == dict_model(es@));
    match found {
        None => Some(None),
        Some(k) => Some(Some(k)),
    }
}

proof fn lemma_hits_grow(es: Seq<(Option<Seq<char>>, DocModel)>, names: Seq<Seq<char>>, k: int)
    requires
        0 <= k <= es.len(),
    ensures
        hits(es.take(k), names).len() <= hits(es, names).len(),
    decreases es.len() - k,
{
    if k < es.len() {
        lemma_hits_grow(es, names, k + 1);
        assert(es.take(k + 1).drop_last() == es.take(k));
    } else {
        assert(es.take(k) == es);
    }
}

/// The text of a scalar where a string is expected. YAML reads any scalar
/// as text there; JSON only a string.
pub open spec fn text_of(d: DocModel, lenient: bool) -> Option<Seq<char>> {
    match d {
        DocModel::Str(s) => Some(s),
        DocModel::Bool(b) => if lenient {
            Some(bool_text(b))
        } else {
            None
        },
        DocModel::Int(n) => if lenient {
            Some(int_text(n))
        } else {
            None
        },
        DocModel::Num(t) => if lenient {
            Some(t)
        } else {
            None
        },
        _ => None,
    }
}

/// Reads a string.
pub fn read_text(d: &Doc, lenient: bool) -> (r: Option<String>)
    ensures
        match r {
            Some(s) => text_of(d@, lenient) == Some(s@),
            None => text_of(d@, lenient) is None,
        },
{
    match d {
        Doc::Str(s) => Some(s.clone()),
        Doc::Bool(b) => if lenient {
            Some(owned(bool_str(*b)))
        } else {
            None
        },
        Doc::Int(n) => if lenient {
            Some(i64_text(*n))
        } else {
            None
        },
        Doc::Num(t) => if lenient {
            Some(t.clone())
        } else {
            None
        },
        _ => None,
    }
}

/// An optional string: null reads as unset.
pub open spec fn opt_text_of(d: DocModel, lenient: bool) -> Option<Option<Seq<char>>> {
    match d {
        DocModel::Null => Some(None),
        _ => match text_of(d, lenient) {
            Some(s) => Some(Some(s)),
            None => None,
        },
    }
}

/// A flag.
pub open spec fn bool_of(d: DocModel) -> Option<bool> {
    match d {
        DocModel::Bool(b) => Some(b),
        _ => None,
    }
}

/// An integer in `lo..=hi`.
pub open spec fn int_of(d: DocModel, lo: int, hi: int) -> Option<int> {
    match d {
        DocModel::Int(n) => if lo <= n <= hi {
            Some(n)
        } else {
            None
        },
        _ => None,
    }
}

/// A list of file names: one string, or a list of strings.
pub open spec fn names_of(d: DocModel) -> Option<Seq<Seq<char>>> {
    match d {
        DocModel::Str(s) => Some(seq![s]),
        DocModel::List(xs) => if forall|i: int| 0 <= i < xs.len() ==> #[trigger] xs[i] is Str {
            Some(xs.map_values(|x: DocModel| x->Str_0))
        } else {
            None
        },
        _ => None,
    }
}

/// Reads a list of file names.
pub fn read_names(d: &Doc) -> (r: Option<Vec<String>>)
    ensures
        match r {
            Some(v) => names_of(d@) == Some(v@.map_values(|s: String| s@)),
            None => names_of(d@) is None,
        },
{
    match d {
        Doc::Str(s) => {
            assert(d@ == DocModel::Str(s@));
            let v = vec![s.clone()];
            assert(v@.map_values(|s: String| s@) =~= seq![s@]);
            Some(v)
        },
        Doc::List(xs) => {
            proof {
                lemma_doc_models(xs@);
            }
            let ghost m = doc_models(xs@);
            let mut out: Vec<String> = Vec::new();
            let mut i: usize = 0;
            while i < xs.len()
                invariant
                    i <= xs.len(),
                    d@ == DocModel::List(m),
                    m == doc_models(xs@),
                    m.len() == xs@.len(),
                    forall|j: int| 0 <= j < xs@.len() ==> #[trigger] m[j] == xs@[j]@,
                    out@.len() == i,
                    forall|j: int| 0 <= j < i ==> #[trigger] m[j] is Str,
                    forall|j: int| 0 <= j < i ==> (#[trigger] out@[j])@ == m[j]->Str_0,
                decreases xs.len() - i,
            {
                assert(m[i as int] == xs@[i as int]@);
                match &xs[i] {
                    Doc::Str(s) => {
                        assert(xs@[i as int]@ == DocModel::Str(s@));
                        out.push(s.clone());
                    },
                    _ => {
                        assert(!(m[i as int] is Str));
                        return None;
                    },
                }
                i += 1;
            }
            assert(out@.map_values(|s: String| s@) =~= m.map_values(|x: DocModel| x->Str_0));
            Some(out)
        },
        _ => None,
    }
}

/// A list of strings read as `text_of` reads them.
pub open spec fn texts_of(d: DocModel, lenient: bool) -> Option<Seq<Seq<char>>> {
    match d {
        DocModel::List(xs) => if forall|i: int| 0 <= i < xs.len() ==> #[trigger] text_of(xs[i], lenient) is Some {
            Some(xs.map_values(|x: DocModel| text_of(x, lenient)->0))
        } else {
            None
        },
        _ => None,
    }
}

/// Reads a list of strings.
pub fn read_texts(d: &Doc, lenient: bool) -> (r: Option<Vec<String>>)
    ensures
        match r {
            Some(v) => texts_of(d@, lenient) == Some(v@.map_values(|s: String| s@)),
            None => texts_of(d@, lenient) is None,
        },
{
    match d {
        Doc::List(xs) => {
            proof {
                lemma_doc_models(xs@);
            }
            let ghost m = doc_models(xs@);
            let mut out: Vec<String> = Vec::new();
            let mut i: usize = 0;
            while i < xs.len()
                invariant
                    i <= xs.len(),
                    d@ == DocModel::List(m),
                    m == doc_models(xs@),
                    m.len() == xs@.len(),
                    forall|j: int| 0 <= j < xs@.len() ==> #[trigger] m[j] == xs@[j]@,
                    out@.len() == i,
                    forall|j: int| 0 <= j < i ==> #[trigger] text_of(m[j], lenient) is Some,
                    forall|j: int|
                        0 <= j < i ==> text_of(m[j], lenient) == Some((#[trigger] out@[j])@),
                decreases xs.len() - i,
            {
                assert(m[i as int] == xs@[i as int]@);
                match read_text(&xs[i], lenient) {
                    Some(s) => {
                        out.push(s);
                    },
                    None => {
                        assert(text_of(m[i as int], lenient) is None);
                        return None;
                    },
                }
                i += 1;
            }
            assert(out@.map_values(|s: String| s@) =~= m.map_values(
                |x: DocModel| text_of(x, lenient)->0,
            ));
            Some(out)
        },
        _ => None,
    }
}

/// Sets `k` to `v` in a list of unique keys: a key already there keeps its
/// place and takes the new value, a new key goes last.
pub open spec fn env_set(acc: Seq<(Seq<char>, Seq<char>)>, k: Seq<char>, v: Seq<char>) -> Seq<
    (Seq<char>, Seq<char>),
> {
    if exists|i: int| 0 <= i < acc.len() && #[trigger] acc[i].0 == k {
        let i = choose|i: int| 0 <= i < acc.len() && #[trigger] acc[i].0 == k;
        acc.update(i, (k, v))
    } else {
        acc.push((k, v))
    }
}

/// The entries of a string-to-string mapping read as `text_of` reads them,
/// each key once, with the last value given for it.
pub open spec fn env_entries(es: Seq<(Option<Seq<char>>, DocModel)>, lenient: bool) -> Option<
    Seq<(Seq<char>, Seq<char>)>,
>
    decreases es.len(),
{
    if es.len() == 0 {
        Some(Seq::empty())
    } else {
        match env_entries(es.drop_last(), lenient) {
            None => None,
            Some(acc) => match (es.last().0, text_of(es.last().1, lenient)) {
                (Some(k), Some(v)) => Some(env_set(acc, k, v)),
                _ => None,
            },
        }
    }
}

pub open spec fn env_of(d: DocModel, lenient: bool) -> Option<Seq<(Seq<char>, Seq<char>)>> {
    match d {
        DocModel::Dict(es) => env_entries(es, lenient),
        _ => None,
    }
}

pub open spec fn pairs_view(v: Seq<(String, String)>) -> Seq<(Seq<char>, Seq<char>)> {
    v.map_values(|p: (String, String)| (p.0@, p.1@))
}

pub open spec fn unique_keys(v: Seq<(Seq<char>, Seq<char>)>) -> bool {
    forall|i: int, j: int| 0 <= i < j < v.len() ==> v[i].0 != v[j].0
}

fn env_insert(acc: &mut Vec<(String, String)>, k: String, v: String)
    requires
        unique_keys(pairs_view(old(acc)@)),
    ensures
        pairs_view(final(acc)@) == env_set(pairs_view(old(acc)@), k@, v@),
        unique_keys(pairs_view(final(acc)@)),
{
    let ghost pv = pairs_view(acc@);
    let mut i: usize = 0;
    while i < acc.len()
        invariant
            i <= acc.len(),
            pv == pairs_view(acc@),
            acc@ == old(acc)@,
            unique_keys(pv),
            forall|j: int| 0 <= j < i ==> pv[j].0 != k@,
        decreases acc.len() - i,
    {
        if str_eq(acc[i].0.as_str(), k.as_str()) {
            assert(pv[i as int].0 == k@);
            proof {
                let c = choose|j: int| 0 <= j < pv.len() && #[trigger] pv[j].0 == k@;
                assert(c == i) by {
                    if c != i {
                        if c < i {
                        } else {
                            assert(pv[i as int].0 == pv[c].0);
                        }
                    }
                }
            }
            acc.set(i, (k, v));
            assert(pairs_view(acc@) =~= pv.update(i as int, (k@, v@)));
            return;
        }
        i += 1;
    }
    acc.push((k, v));
    assert(pairs_view(acc@) =~= pv.push((k@, v@)));
}

/// Reads a string-to-string mapping.
pub fn read_env(d: &Doc, lenient: bool) -> (r: Option<Vec<(String, String)>>)
    ensures
        match r {
            Some(v) => env_of(d@, lenient) == Some(pairs_view(v@)) && unique_keys(pairs_view(v@)),
            None => env_of(d@, lenient) is None,
        },
{
    match d {
        Doc::Dict(es) => {
            proof {
                lemma_dict_model(es@);
            }
            let ghost dm = dict_model(es@);
            let mut out: Vec<(String, String)> = Vec::new();
            let mut i: usize = 0;
            assert(pairs_view(out@) =~= Seq::<(Seq<char>, Seq<char>)>::empty());
            while i < es.len()
                invariant
                    i <= es.len(),
                    d@ == DocModel::Dict(dm),
                    dm == dict_model(es@),
                    dm.len() == es@.len(),
                    forall|j: int| 0 <= j < es@.len() ==> #[trigger] dm[j] == (key_model(es@[j].0), es@[j].1@),
                    env_entries(dm.take(i as int), lenient) == Some(pairs_view(out@)),
                    unique_keys(pairs_view(out@)),
                decreases es.len() - i,
            {
                assert(dm.take(i + 1).drop_last() == dm.take(i as int));
                assert(dm.take(i + 1).last() == dm[i as int]);
                let k = match &es[i].0 {
                    Some(k) => k.clone(),
                    None => {
                        proof {
                            lemma_env_prefix(dm, lenient, i + 1);
                        }
                        return None;
                    },
                };
                let v = match read_text(&es[i].1, lenient) {
                    Some(v) => v,
                    None => {
                        proof {
                            lemma_env_prefix(dm, lenient, i + 1);
                        }
                        return None;
                    },
                };
                env_insert(&mut out, k, v);
                i += 1;
            }
            assert(dm.take(es.len() as int) == dm);
            Some(out)
        },
        _ => None,
    }
}

proof fn lemma_env_prefix(es: Seq<(Option<Seq<char>>, DocModel)>, lenient: bool, k: int)
    requires
        0 <= k <= es.len(),
        env_entries(es.take(k), lenient) is None,
    ensures
        env_entries(es, lenient) is None,
    decreases es.len() - k,
{
    if k < es.len() {
        assert(es.take(k + 1).drop_last() == es.take(k));
        lemma_env_prefix(es, lenient, k + 1);
    } else {
        assert(es.take(k) == es);
    }
}

/// The YAML document of a text, if it parses.
pub uninterp spec fn yaml_doc(text: Seq<char>) -> Option<DocModel>;

/// The JSON document of a text, if it parses.
pub uninterp spec fn json_doc(text: Seq<char>) -> Option<DocModel>;

pub open spec fn opt_doc(d: Option<Doc>) -> Option<DocModel> {
    match d {
        Some(x) => Some(x@),
        None => None,
    }
}

#[verifier::external_type_specification]
#[verifier::external_body]
pub struct ExYamlText(YamlText);

/// Converts a `serde_yaml` value, entry by entry.
#[verifier::external_body]
fn from_yaml(v: &YamlText) -> Doc {
    match v {
        YamlText::Null => Doc::Null,
        YamlText::Bool(b) => Doc::Bool(*b),
        YamlText::Number(n) => match n.as_i64() {
            Some(i) => Doc::Int(i),
            None => Doc::Num(n.to_string()),
        },
        YamlText::String(s) => Doc::Str(s.clone()),
        YamlText::Sequence(xs) => Doc::List(xs.iter().map(from_yaml).collect()),
        YamlText::Mapping(m) => Doc::Dict(m.iter().map(|(k, x)| (yaml_key(k), from_yaml(x))).collect()),
        YamlText::Tagged(_) => Doc::Other,
    }
}

/// The text of a scalar key, as a field name reads it.
#[verifier::external_body]
fn yaml_key(k: &YamlText) -> Option<String> {
    match k {
        YamlText::String(s) => Some(s.clone()),
        YamlText::Bool(b) => Some(b.to_string()),
        YamlText::Number(n) => Some(n.to_string()),
        _ => None,
    }
}

/// Converts a `serde_json` value, entry by entry.
#[verifier::external_body]
fn from_json(v: &SerdeJson) -> Doc {
    match v {
        SerdeJson::Null => Doc::Null,
        SerdeJson::Bool(b) => Doc::Bool(*b),
        SerdeJson::Number(n) => match n.as_i64() {
            Some(i) => Doc::Int(i),
            None => Doc::Num(n.to_string()),
        },
        SerdeJson::String(s) => Doc::Str(s.clone()),
        SerdeJson::Array(xs) => Doc::List(xs.iter().map(from_json).collect()),
        SerdeJson::Object(m) => Doc::Dict(m.iter().map(|(k, x)| (Some(k.clone()), from_json(x))).collect()),
    }
}

/// Parses YAML text with `serde_yaml::from_str` into a `serde_yaml::Value`
/// (`None` where it fails). What it gives is a function of the text alone:
/// `yaml_doc`.
#[verifier::external_body]
pub(crate) fn parse_yaml(text: &str) -> (r: Option<Doc>)
    ensures
        opt_doc(r) == yaml_doc(text@),
{
    serde_yaml::from_str::<YamlText>(text).ok().map(|v| from_yaml(&v))
}

/// Parses JSON text with `serde_json::from_str` into a `serde_json::Value`
/// (`None` where it fails). What it gives is a function of the text alone:
/// `json_doc`.
#[verifier::external_body]
pub(crate) fn parse_json(text: &str) -> (r: Option<Doc>)
    ensures
        opt_doc(r) == json_doc(text@),
{
    serde_json::from_str::<SerdeJson>(text).ok().map(|v| from_json(&v))
}

} // verus!
