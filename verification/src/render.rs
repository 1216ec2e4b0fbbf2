//! Rendering of resolved jobs to DEE XML (and JSON) configuration text.
use vstd::prelude::*;

use crate::json::{json_text, render_json_value};
use crate::resolve::{filter_param_some, FilterModel, JobModel, ResolvedJob};
use crate::template::{
    kind_has_json, kind_json, kind_mode_fits, kind_owns, kind_xml, no_json_error, template_of,
    unsupported_template_error, TemplateRegistry,
};
use crate::spec::{spec_encode_mode_name, EncodeMode};
use crate::text::{chars_of, contains_char, join, owned, str_eq, string_of};

verus! {

/// Output format of a generated configuration.
#[derive(Debug, Clone, Copy, PartialEq, Eq, Structural)]
pub enum RenderFormat {
    Xml,
    Json,
}

pub open spec fn format_name(f: RenderFormat) -> Seq<char> {
    match f {
        RenderFormat::Xml => "xml"@,
        RenderFormat::Json => "json"@,
    }
}

pub open spec fn format_flag(f: RenderFormat) -> Seq<char> {
    match f {
        RenderFormat::Xml => "--xml"@,
        RenderFormat::Json => "--json"@,
    }
}

pub open spec fn format_short_flag(f: RenderFormat) -> Seq<char> {
    match f {
        RenderFormat::Xml => "-x"@,
        RenderFormat::Json => "-j"@,
    }
}

impl RenderFormat {
    /// File extension and name of the format.
    pub fn as_str(self) -> (r: &'static str)
        ensures
            r@ == format_name(self),
    {
        match self {
            RenderFormat::Xml => "xml",
            RenderFormat::Json => "json",
        }
    }

    /// The runner's flag that passes a configuration of this format.
    pub fn cli_flag(self) -> (r: &'static str)
        ensures
            r@ == format_flag(self),
    {
        match self {
            RenderFormat::Xml => "--xml",
            RenderFormat::Json => "--json",
        }
    }

    /// The runner's short flag for this format.
    pub fn short_cli_flag(self) -> (r: &'static str)
        ensures
            r@ == format_short_flag(self),
    {
        match self {
            RenderFormat::Xml => "-x",
            RenderFormat::Json => "-j",
        }
    }
}

/// A node of the XML configuration tree.
#[derive(Debug)]
pub enum XmlNode {
    Element { tag: String, attrs: Vec<(String, String)>, children: Vec<XmlNode> },
    Leaf { tag: String, value: String },
    When { predicate: Predicate, children: Vec<XmlNode> },
}

/// A condition on the job under which a `When` node renders its children.
#[derive(Debug)]
pub enum Predicate {
    Always,
    Mode(&'static str),
    ModeNot(&'static str),
    ParamSome(String),
    And(Vec<Predicate>),
}

/// Mathematical model of an XML tree.
#[verifier::ext_equal]
pub enum XmlModel {
    Element { tag: Seq<char>, attrs: Seq<(Seq<char>, Seq<char>)>, children: Seq<XmlModel> },
    Leaf { tag: Seq<char>, value: Seq<char> },
    When { predicate: PredModel, children: Seq<XmlModel> },
}

/// Mathematical model of a predicate.
#[verifier::ext_equal]
pub enum PredModel {
    Always,
    Mode(Seq<char>),
    ModeNot(Seq<char>),
    ParamSome(Seq<char>),
    And(Seq<PredModel>),
}

pub open spec fn attrs_model(attrs: Seq<(String, String)>) -> Seq<(Seq<char>, Seq<char>)> {
    attrs.map_values(|p: (String, String)| (p.0@, p.1@))
}

pub open spec fn pred_model(p: Predicate) -> PredModel
    decreases p, 0nat,
{
    match p {
        Predicate::Always => PredModel::Always,
        Predicate::Mode(m) => PredModel::Mode(m@),
        Predicate::ModeNot(m) => PredModel::ModeNot(m@),
        Predicate::ParamSome(k) => PredModel::ParamSome(k@),
        Predicate::And(all) => PredModel::And(pred_models(all@)),
    }
}

pub open spec fn pred_models(ps: Seq<Predicate>) -> Seq<PredModel>
    decreases ps, ps.len(),
{
    if ps.len() == 0 {
        Seq::empty()
    } else {
        pred_models(ps.drop_last()).push(pred_model(ps.last()))
    }
}

pub open spec fn node_model(n: XmlNode) -> XmlModel
    decreases n, 0nat,
{
    match n {
        XmlNode::Element { tag, attrs, children } => XmlModel::Element {
            tag: tag@,
            attrs: attrs_model(attrs@),
            children: node_models(children@),
        },
        XmlNode::Leaf { tag, value } => XmlModel::Leaf { tag: tag@, value: value@ },
        XmlNode::When { predicate, children } => XmlModel::When {
            predicate: pred_model(predicate),
            children: node_models(children@),
        },
    }
}

pub open spec fn node_models(cs: Seq<XmlNode>) -> Seq<XmlModel>
    decreases cs, cs.len(),
{
    if cs.len() == 0 {
        Seq::empty()
    } else {
        node_models(cs.drop_last()).push(node_model(cs.last()))
    }
}

impl View for XmlNode {
    type V = XmlModel;

    open spec fn view(&self) -> XmlModel {
        node_model(*self)
    }
}

impl View for Predicate {
    type V = PredModel;

    open spec fn view(&self) -> PredModel {
        pred_model(*self)
    }
}

proof fn lemma_node_models(cs: Seq<XmlNode>)
    ensures
        node_models(cs) == cs.map_values(|c: XmlNode| c@),
    decreases cs.len(),
{
    if cs.len() > 0 {
        lemma_node_models(cs.drop_last());
        assert(cs.map_values(|c: XmlNode| c@) =~= cs.drop_last().map_values(|c: XmlNode| c@).push(
            node_model(cs.last()),
        ));
    } else {
        assert(cs.map_values(|c: XmlNode| c@) =~= Seq::<XmlModel>::empty());
    }
}

proof fn lemma_pred_models(ps: Seq<Predicate>)
    ensures
        pred_models(ps) == ps.map_values(|c: Predicate| c@),
    decreases ps.len(),
{
    if ps.len() > 0 {
        lemma_pred_models(ps.drop_last());
        assert(ps.map_values(|c: Predicate| c@) =~= ps.drop_last().map_values(|c: Predicate| c@).push(
            pred_model(ps.last()),
        ));
    } else {
        assert(ps.map_values(|c: Predicate| c@) =~= Seq::<PredModel>::empty());
    }
}

impl XmlNode {
    /// An element with attributes and children.
    pub fn element(tag: String, attrs: Vec<(String, String)>, children: Vec<XmlNode>) -> (r:
        XmlNode)
        ensures
            r@ == (XmlModel::Element {
                tag: tag@,
                attrs: attrs_model(attrs@),
                children: children@.map_values(|c: XmlNode| c@),
            }),
    {
        proof {
            lemma_node_models(children@);
        }
        XmlNode::Element { tag, attrs, children }
    }

    /// An element holding text.
    pub fn leaf(tag: String, value: String) -> (r: XmlNode)
        ensures
            r@ == (XmlModel::Leaf { tag: tag@, value: value@ }),
    {
        XmlNode::Leaf { tag, value }
    }

    /// Children that render only where the predicate holds of the job.
    pub fn when_node(predicate: Predicate, children: Vec<XmlNode>) -> (r: XmlNode)
        ensures
            r@ == (XmlModel::When {
                predicate: predicate@,
                children: children@.map_values(|c: XmlNode| c@),
            }),
    {
        proof {
            lemma_node_models(children@);
        }
        XmlNode::When { predicate, children }
    }
}

/// Whether the predicate holds of a job in `mode` with `filter`.
pub open spec fn eval_pred(p: PredModel, mode: Seq<char>, filter: FilterModel) -> bool
    decreases p, 0nat,
{
    match p {
        PredModel::Always => true,
        PredModel::Mode(m) => mode == m,
        PredModel::ModeNot(m) => mode != m,
        PredModel::ParamSome(k) => filter_param_some(filter, k),
        PredModel::And(all) => eval_all(all, mode, filter),
    }
}

pub open spec fn eval_all(ps: Seq<PredModel>, mode: Seq<char>, filter: FilterModel) -> bool
    decreases ps, ps.len(),
{
    if ps.len() == 0 {
        true
    } else {
        eval_all(ps.drop_last(), mode, filter) && eval_pred(ps.last(), mode, filter)
    }
}

/// XML escaping of one character.
pub open spec fn escape_char(c: char) -> Seq<char> {
    if c == '&' {
        "&amp;"@
    } else if c == '<' {
        "&lt;"@
    } else if c == '>' {
        "&gt;"@
    } else if c == '"' {
        "&quot;"@
    } else if c == '\'' {
        "&apos;"@
    } else {
        seq![c]
    }
}

/// XML escaping of a text.
pub open spec fn escape(s: Seq<char>) -> Seq<char>
    decreases s.len(),
{
    if s.len() == 0 {
        Seq::empty()
    } else {
        escape(s.drop_last()) + escape_char(s.last())
    }
}

/// `n` levels of two-space indentation.
pub open spec fn indentation(n: nat) -> Seq<char>
    decreases n,
{
    if n == 0 {
        Seq::empty()
    } else {
        indentation((n - 1) as nat) + "  "@
    }
}

/// One output line.
pub open spec fn line(indent: nat, s: Seq<char>) -> Seq<char> {
    indentation(indent) + s + "\n"@
}

/// ` k="v"` attribute text of an element (empty without attributes).
pub open spec fn attrs_text(attrs: Seq<(Seq<char>, Seq<char>)>) -> Seq<char> {
    if attrs.len() == 0 {
        Seq::empty()
    } else {
        " "@ + join(
            attrs.map_values(|p: (Seq<char>, Seq<char>)| p.0 + "=\""@ + escape(p.1) + "\""@),
            " "@,
        )
    }
}

/// Text of a node at an indentation level.
pub open spec fn render_model(n: XmlModel, indent: nat, mode: Seq<char>, filter: FilterModel) -> Seq<
    char,
>
    decreases n, 0nat,
{
    match n {
        XmlModel::Element { tag, attrs, children } => line(
            indent,
            "<"@ + tag + attrs_text(attrs) + ">"@,
        ) + render_models(children, indent + 1, mode, filter) + line(indent, "</"@ + tag + ">"@),
        XmlModel::Leaf { tag, value } => line(
            indent,
            "<"@ + tag + ">"@ + escape(value) + "</"@ + tag + ">"@,
        ),
        XmlModel::When { predicate, children } => if eval_pred(predicate, mode, filter) {
            render_models(children, indent, mode, filter)
        } else {
            Seq::empty()
        },
    }
}

pub open spec fn render_models(
    cs: Seq<XmlModel>,
    indent: nat,
    mode: Seq<char>,
    filter: FilterModel,
) -> Seq<char>
    decreases cs, cs.len(),
{
    if cs.len() == 0 {
        Seq::empty()
    } else {
        render_models(cs.drop_last(), indent, mode, filter) + render_model(
            cs.last(),
            indent,
            mode,
            filter,
        )
    }
}

/// The full XML document of a tree for a job.
pub open spec fn xml_document(root: XmlModel, mode: Seq<char>, filter: FilterModel) -> Seq<char> {
    line(0, "<?xml version=\"1.0\"?>"@) + render_model(root, 0, mode, filter)
}

fn push_str(buf: &mut Vec<char>, s: &str)
    ensures
        final(buf)@ == old(buf)@ + s@,
{
    let v = chars_of(s);
    let mut i: usize = 0;
    while i < v.len()
        invariant
            i <= v.len(),
            buf@ == old(buf)@ + v@.take(i as int),
        decreases v.len() - i,
    {
        buf.push(v[i]);
        assert(v@.take(i + 1) == v@.take(i as int).push(v@[i as int]));
        i += 1;
    }
    assert(v@.take(v.len() as int) == v@);
}

/// Appends the XML-escaped text.
fn push_escaped(buf: &mut Vec<char>, s: &str)
    ensures
        final(buf)@ == old(buf)@ + escape(s@),
{
    let v = chars_of(s);
    let mut i: usize = 0;
    while i < v.len()
        invariant
            i <= v.len(),
            buf@ == old(buf)@ + escape(v@.take(i as int)),
        decreases v.len() - i,
    {
        let c = v[i];
        let ghost before = buf@;
        if c == '&' {
            push_str(buf, "&amp;");
        } else if c == '<' {
            push_str(buf, "&lt;");
        } else if c == '>' {
            push_str(buf, "&gt;");
        } else if c == '"' {
            push_str(buf, "&quot;");
        } else if c == '\'' {
            push_str(buf, "&apos;");
        } else {
            buf.push(c);
            assert(buf@ == before + seq![c]);
        }
        assert(v@.take(i + 1).drop_last() == v@.take(i as int));
        assert(buf@ == old(buf)@ + escape(v@.take(i as int)) + escape_char(c));
        i += 1;
    }
    assert(v@.take(v.len() as int) == v@);
}

/// XML escaping of a text.
pub fn xml_escape(input: &str) -> (r: String)
    ensures
        r@ == escape(input@),
{
    let mut buf: Vec<char> = Vec::new();
    push_escaped(&mut buf, input);
    string_of(&buf)
}

fn push_attr(buf: &mut Vec<char>, k: &str, v: &str)
    ensures
        final(buf)@ == old(buf)@ + (k@ + "=\""@ + escape(v@) + "\""@),
{
    push_str(buf, k);
    push_str(buf, "=\"");
    push_escaped(buf, v);
    push_str(buf, "\"");
}

pub open spec fn attr_text(p: (Seq<char>, Seq<char>)) -> Seq<char> {
    p.0 + "=\""@ + escape(p.1) + "\""@
}

fn push_attrs(buf: &mut Vec<char>, attrs: &Vec<(String, String)>)
    ensures
        final(buf)@ == old(buf)@ + attrs_text(attrs_model(attrs@)),
{
    let ghost items = attrs_model(attrs@).map_values(|p: (Seq<char>, Seq<char>)| attr_text(p));
    assert(items =~= attrs_model(attrs@).map_values(
        |p: (Seq<char>, Seq<char>)| p.0 + "=\""@ + escape(p.1) + "\""@,
    ));
    if attrs.len() == 0 {
        return ;
    }
    push_str(buf, " ");
    let ghost start = buf@;
    let mut i: usize = 0;
    while i < attrs.len()
        invariant
            i <= attrs.len(),
            items.len() == attrs.len(),
            forall|j: int| 0 <= j < attrs.len() ==> #[trigger] items[j] == attr_text((attrs@[j].0@, attrs@[j].1@)),
            buf@ == start + join(items.take(i as int), " "@),
        decreases attrs.len() - i,
    {
        if i > 0 {
            push_str(buf, " ");
        }
        push_attr(buf, attrs[i].0.as_str(), attrs[i].1.as_str());
        assert(items.take(i + 1).drop_last() == items.take(i as int));
        assert(items.take(i + 1).last() == items[i as int]);
        i += 1;
    }
    assert(items.take(attrs.len() as int) == items);
}

fn push_chars(buf: &mut Vec<char>, pad: &Vec<char>)
    ensures
        final(buf)@ == old(buf)@ + pad@,
{
    let mut i: usize = 0;
    while i < pad.len()
        invariant
            i <= pad.len(),
            buf@ == old(buf)@ + pad@.take(i as int),
        decreases pad.len() - i,
    {
        buf.push(pad[i]);
        assert(pad@.take(i + 1) == pad@.take(i as int).push(pad@[i as int]));
        i += 1;
    }
    assert(pad@.take(pad.len() as int) == pad@);
}

/// The indentation of the next level.
fn deeper(pad: &Vec<char>, Ghost(level): Ghost<nat>) -> (r: Vec<char>)
    requires
        pad@ == indentation(level),
    ensures
        r@ == indentation(level + 1),
{
    let mut r: Vec<char> = Vec::new();
    push_chars(&mut r, pad);
    r.push(' ');
    r.push(' ');
    proof {
        reveal_strlit("  ");
        assert(indentation(level + 1) == indentation(level) + "  "@);
        assert("  "@ =~= seq![' ', ' ']);
        assert(r@ =~= pad@ + "  "@);
    }
    r
}

/// Whether the predicate holds of the job.
pub fn eval_predicate(predicate: &Predicate, job: &ResolvedJob) -> (r: bool)
    ensures
        r == eval_pred(predicate@, spec_encode_mode_name(job.encode_mode), job.filter@),
    decreases predicate, 0nat,
{
    match predicate {
        Predicate::Always => true,
        Predicate::Mode(mode) => str_eq(job.encode_mode.as_str(), mode),
        Predicate::ModeNot(mode) => !str_eq(job.encode_mode.as_str(), mode),
        Predicate::ParamSome(param) => job.filter.param_some(param.as_str()),
        Predicate::And(all) => eval_all_exec(all, job),
    }
}

fn eval_all_exec(all: &Vec<Predicate>, job: &ResolvedJob) -> (r: bool)
    ensures
        r == eval_all(pred_models(all@), spec_encode_mode_name(job.encode_mode), job.filter@),
    decreases all, all@.len(),
{
    let ghost mode = spec_encode_mode_name(job.encode_mode);
    let mut i: usize = 0;
    while i < all.len()
        invariant
            i <= all.len(),
            mode == spec_encode_mode_name(job.encode_mode),
            eval_all(pred_models(all@.take(i as int)), mode, job.filter@),
        decreases all.len() - i,
    {
        assert(all@.take(i + 1).drop_last() == all@.take(i as int));
        assert(all@.take(i + 1).last() == all@[i as int]);
        let p = &all[i];
        assert(*p == all@[i as int]);
        let b = eval_predicate(p, job);
        assert(b == eval_pred(pred_model(all@[i as int]), mode, job.filter@));
        if !b {
            proof {
                lemma_eval_all_prefix(all@, i as int, mode, job.filter@);
            }
            return false;
        }
        proof {
            let ms = pred_models(all@.take(i + 1));
            assert(ms.drop_last() == pred_models(all@.take(i as int)));
            assert(ms.last() == pred_model(all@[i as int]));
        }
        i += 1;
    }
    assert(all@.take(all.len() as int) == all@);
    true
}

proof fn lemma_eval_all_prefix(ps: Seq<Predicate>, i: int, mode: Seq<char>, filter: FilterModel)
    requires
        0 <= i < ps.len(),
        !eval_pred(pred_model(ps[i]), mode, filter),
    ensures
        !eval_all(pred_models(ps), mode, filter),
    decreases ps.len(),
{
    let pm = pred_models(ps);
    assert(pm.drop_last() == pred_models(ps.drop_last()));
    assert(pm.last() == pred_model(ps.last()));
    if i == ps.len() - 1 {
    } else {
        assert(ps.drop_last()[i] == ps[i]);
        lemma_eval_all_prefix(ps.drop_last(), i, mode, filter);
    }
}

fn render_element(
    buf: &mut Vec<char>,
    pad: &Vec<char>,
    Ghost(level): Ghost<nat>,
    tag: &String,
    attrs: &Vec<(String, String)>,
    children: &Vec<XmlNode>,
    job: &ResolvedJob,
)
    requires
        pad@ == indentation(level),
    ensures
        final(buf)@ == old(buf)@ + line(level, "<"@ + tag@ + attrs_text(attrs_model(attrs@)) + ">"@)
            + render_models(
            node_models(children@),
            level + 1,
            spec_encode_mode_name(job.encode_mode),
            job.filter@,
        ) + line(level, "</"@ + tag@ + ">"@),
    decreases children, children@.len() + 1,
{
    let ghost b0 = buf@;
    push_chars(buf, pad);
    push_str(buf, "<");
    push_str(buf, tag.as_str());
    push_attrs(buf, attrs);
    push_str(buf, ">");
    push_str(buf, "\n");
    assert(buf@ == b0 + line(level, "<"@ + tag@ + attrs_text(attrs_model(attrs@)) + ">"@));
    let inner = deeper(pad, Ghost(level));
    render_children(buf, &inner, Ghost(level + 1), children, job);
    let ghost b2 = buf@;
    push_chars(buf, pad);
    push_str(buf, "</");
    push_str(buf, tag.as_str());
    push_str(buf, ">");
    push_str(buf, "\n");
    assert(buf@ == b2 + line(level, "</"@ + tag@ + ">"@));
}

fn render_leaf(buf: &mut Vec<char>, pad: &Vec<char>, Ghost(level): Ghost<nat>, tag: &String, value: &String)
    requires
        pad@ == indentation(level),
    ensures
        final(buf)@ == old(buf)@ + line(level, "<"@ + tag@ + ">"@ + escape(value@) + "</"@ + tag@ + ">"@),
{
    let ghost b0 = buf@;
    push_chars(buf, pad);
    push_str(buf, "<");
    push_str(buf, tag.as_str());
    push_str(buf, ">");
    push_escaped(buf, value.as_str());
    push_str(buf, "</");
    push_str(buf, tag.as_str());
    push_str(buf, ">");
    push_str(buf, "\n");
    assert(buf@ == b0 + line(level, "<"@ + tag@ + ">"@ + escape(value@) + "</"@ + tag@ + ">"@));
}

fn render_node(buf: &mut Vec<char>, pad: &Vec<char>, Ghost(level): Ghost<nat>, node: &XmlNode, job: &ResolvedJob)
    requires
        pad@ == indentation(level),
    ensures
        final(buf)@ == old(buf)@ + render_model(
            node@,
            level,
            spec_encode_mode_name(job.encode_mode),
            job.filter@,
        ),
    decreases node, 0nat,
{
    match node {
        XmlNode::Element { tag, attrs, children } => {
            render_element(buf, pad, Ghost(level), tag, attrs, children, job);
        },
        XmlNode::Leaf { tag, value } => {
            render_leaf(buf, pad, Ghost(level), tag, value);
        },
        XmlNode::When { predicate, children } => {
            if eval_predicate(predicate, job) {
                render_children(buf, pad, Ghost(level), children, job);
            }
        },
    }
}

fn render_children(
    buf: &mut Vec<char>,
    pad: &Vec<char>,
    Ghost(level): Ghost<nat>,
    children: &Vec<XmlNode>,
    job: &ResolvedJob,
)
    requires
        pad@ == indentation(level),
    ensures
        final(buf)@ == old(buf)@ + render_models(
            node_models(children@),
            level,
            spec_encode_mode_name(job.encode_mode),
            job.filter@,
        ),
    decreases children, children@.len(),
{
    proof {
        lemma_node_models(children@);
    }
    let mut i: usize = 0;
    while i < children.len()
        invariant
            i <= children.len(),
            pad@ == indentation(level),
            buf@ == old(buf)@ + render_models(
                node_models(children@.take(i as int)),
                level,
                spec_encode_mode_name(job.encode_mode),
                job.filter@,
            ),
        decreases children.len() - i,
    {
        assert(children@.take(i + 1).drop_last() == children@.take(i as int));
        proof {
            lemma_node_models(children@.take(i + 1));
            assert(node_models(children@.take(i + 1)).last() == children@[i as int]@);
            assert(node_models(children@.take(i + 1)).drop_last() == node_models(children@.take(i as int)));
        }
        render_node(buf, pad, Ghost(level), &children[i], job);
        proof {
            let ms = node_models(children@.take(i + 1));
            assert(render_models(ms, level, spec_encode_mode_name(job.encode_mode), job.filter@)
                == render_models(ms.drop_last(), level, spec_encode_mode_name(job.encode_mode), job.filter@)
                + render_model(ms.last(), level, spec_encode_mode_name(job.encode_mode), job.filter@));
        }
        i += 1;
    }
    assert(children@.take(children.len() as int) == children@);
}

/// Renders a tree as an XML document for the job.
pub fn render_xml_tree(root: &XmlNode, job: &ResolvedJob) -> (r: String)
    ensures
        r@ == xml_document(root@, spec_encode_mode_name(job.encode_mode), job.filter@),
{
    let mut buf: Vec<char> = Vec::new();
    let pad: Vec<char> = Vec::new();
    assert(pad@ =~= indentation(0));
    push_str(&mut buf, "<?xml version=\"1.0\"?>");
    push_str(&mut buf, "\n");
    assert(buf@ =~= line(0, "<?xml version=\"1.0\"?>"@));
    render_node(&mut buf, &pad, Ghost(0), root, job);
    string_of(&buf)
}

/// A file name list as DEE reads it: names with spaces are quoted, and the
/// names are separated by single spaces.
pub open spec fn file_list_text(files: Seq<Seq<char>>) -> Seq<char> {
    join(
        files.map_values(
            |f: Seq<char>|
                if f.contains(' ') {
                    "\""@ + f + "\""@
                } else {
                    f
                },
        ),
        " "@,
    )
}

/// A file list grows by one name at a time: the first name stands alone,
/// and each further name follows the list so far after one space. A name
/// with a space in it is wrapped in double quotes; any other name stands as
/// it is, so the list of such names splits on its spaces into the names, in
/// order.
pub proof fn law_file_list_joins_names_by_spaces(names: Seq<Seq<char>>, n: Seq<char>)
    ensures
        file_list_text(Seq::empty()) == Seq::<char>::empty(),
        ({
            let item = if n.contains(' ') {
                seq!['"'] + n + seq!['"']
            } else {
                n
            };
            file_list_text(names.push(n)) == if names.len() == 0 {
                item
            } else {
                file_list_text(names) + seq![' '] + item
            }
        }),
{
    reveal_strlit(" ");
    reveal_strlit("\"");
    let f = |f: Seq<char>|
        if f.contains(' ') {
            "\""@ + f + "\""@
        } else {
            f
        };
    let ws = names.push(n).map_values(f);
    assert(ws.drop_last() =~= names.map_values(f));
    assert(ws.last() == f(n));
    assert(" "@ =~= seq![' ']);
    assert("\""@ =~= seq!['"']);
    if names.len() == 0 {
        assert(ws =~= seq![f(n)]);
    }
}

pub open spec fn strings_model(v: Seq<String>) -> Seq<Seq<char>> {
    v.map_values(|s: String| s@)
}

/// Renders a list of file names for a `file_name` element.
pub fn render_file_name_list(files: &Vec<String>) -> (r: String)
    ensures
        r@ == file_list_text(strings_model(files@)),
{
    let mut words: Vec<String> = Vec::new();
    let mut i: usize = 0;
    while i < files.len()
        invariant
            i <= files.len(),
            words@.len() == i,
            forall|j: int|
                0 <= j < i ==> (#[trigger] words@[j])@ == (if files@[j]@.contains(' ') {
                    "\""@ + files@[j]@ + "\""@
                } else {
                    files@[j]@
                }),
        decreases files.len() - i,
    {
        let f = &files[i];
        let cs = chars_of(f.as_str());
        if contains_char(&cs, ' ') {
            words.push(crate::text::cat3("\"", f.as_str(), "\""));
        } else {
            words.push(f.clone());
        }
        i += 1;
    }
    assert(words@.map_values(|w: String| w@) =~= strings_model(files@).map_values(
        |f: Seq<char>|
            if f.contains(' ') {
                "\""@ + f + "\""@
            } else {
                f
            },
    ));
    crate::text::join_strings(&words, " ")
}

/// Outcome of rendering a job: the XML document of its template's tree, or
/// the JSON text of its template's JSON tree.
pub open spec fn render_outcome(j: JobModel, format: RenderFormat) -> Result<Seq<char>, Seq<char>> {
    match template_of(j.template_id) {
        None => Err(unsupported_template_error(j.template_id)),
        Some(k) => match format {
            RenderFormat::Xml => Ok(
                xml_document(kind_xml(k, j)->0, spec_encode_mode_name(j.encode_mode), j.filter),
            ),
            RenderFormat::Json => if kind_has_json(k) {
                json_text(kind_json(k, j)->0)
            } else {
                Err(no_json_error(k))
            },
        },
    }
}

/// Whether the job's filter belongs to its template, and the job has what
/// its template's trees read, where it names a template.
pub open spec fn filter_fits(job: ResolvedJob) -> bool {
    template_of(job.template_id@) matches Some(k) ==> kind_owns(k, job.filter@)
        && crate::template::kind_job_fits(k, job@)
}

/// Whether the job's encode mode is one its template renders, where it
/// names one.
pub open spec fn mode_fits(job: ResolvedJob) -> bool {
    template_of(job.template_id@) matches Some(k) ==> kind_mode_fits(k, job.encode_mode)
}

/// What rendering in a format needs of a job: a filter of its template,
/// and, for JSON, an encode mode the template renders.
pub open spec fn render_fits(job: ResolvedJob, format: RenderFormat) -> bool {
    filter_fits(job) && (format == RenderFormat::Json ==> mode_fits(job))
}

/// Renders a resolved job in the format.
pub fn render_config(job: &ResolvedJob, format: RenderFormat) -> (r: Result<String, String>)
    requires
        render_fits(*job, format),
    ensures
        match r {
            Ok(s) => render_outcome(job@, format) == Ok::<Seq<char>, Seq<char>>(s@),
            Err(e) => render_outcome(job@, format) == Err::<Seq<char>, Seq<char>>(e@),
        },
{
    let template = match TemplateRegistry::get(job.template_id.as_str()) {
        Ok(t) => t,
        Err(e) => {
            return Err(e);
        },
    };
    match format {
        RenderFormat::Xml => {
            let tree = template.xml_structure(job);
            Ok(render_xml_tree(&tree, job))
        },
        RenderFormat::Json => {
            let value = match template.json_structure(job) {
                Ok(v) => v,
                Err(e) => {
                    return Err(e);
                },
            };
            render_json_value(&value)
        },
    }
}

/// Renders a resolved job as XML; the job's template must exist.
pub fn render_xml(job: &ResolvedJob) -> (r: String)
    requires
        template_of(job.template_id@) is Some,
        filter_fits(*job),
    ensures
        render_outcome(job@, RenderFormat::Xml) == Ok::<Seq<char>, Seq<char>>(r@),
{
    match render_config(job, RenderFormat::Xml) {
        Ok(s) => s,
        Err(_) => {
            assert(false);
            String::new()
        },
    }
}

/// Whether a character has a meaning in XML markup.
pub open spec fn is_markup_char(c: char) -> bool {
    c == '<' || c == '>' || c == '"' || c == '\''
}

/// Escaped text holds no markup character, so a value can neither end its
/// element nor its attribute.
pub proof fn law_escape_has_no_markup(s: Seq<char>)
    ensures
        forall|i: int| 0 <= i < escape(s).len() ==> !is_markup_char(#[trigger] escape(s)[i]),
    decreases s.len(),
{
    if s.len() > 0 {
        law_escape_has_no_markup(s.drop_last());
        let a = escape(s.drop_last());
        let b = escape_char(s.last());
        reveal_strlit("&amp;");
        reveal_strlit("&lt;");
        reveal_strlit("&gt;");
        reveal_strlit("&quot;");
        reveal_strlit("&apos;");
        assert(forall|j: int| 0 <= j < b.len() ==> !is_markup_char(#[trigger] b[j]));
        assert forall|i: int| 0 <= i < escape(s).len() implies !is_markup_char(#[trigger] escape(s)[i]) by {
            if i < a.len() {
                assert(escape(s)[i] == a[i]);
            } else {
                assert(escape(s)[i] == b[i - a.len()]);
            }
        }
    }
}

/// The first line of every XML configuration.
pub open spec fn xml_declaration() -> Seq<char> {
    line(0, "<?xml version=\"1.0\"?>"@)
}

/// XML rendering never fails for a job of a known template, and the text
/// starts with the XML declaration.
pub proof fn law_xml_always_renders(j: JobModel)
    requires
        template_of(j.template_id) is Some,
    ensures
        render_outcome(j, RenderFormat::Xml) matches Ok(t) && t.take(xml_declaration().len() as int)
            == xml_declaration(),
{
    let k = template_of(j.template_id)->0;
    let t = xml_document(kind_xml(k, j)->0, spec_encode_mode_name(j.encode_mode), j.filter);
    assert(t.take(xml_declaration().len() as int) =~= xml_declaration());
}

/// The tag of a node; a `When` node has none.
pub open spec fn node_tag(n: XmlModel) -> Option<Seq<char>> {
    match n {
        XmlModel::Element { tag, .. } => Some(tag),
        XmlModel::Leaf { tag, .. } => Some(tag),
        XmlModel::When { .. } => None,
    }
}

/// The first of the nodes with the tag.
pub open spec fn child_get(cs: Seq<XmlModel>, tag: Seq<char>) -> Option<XmlModel>
    decreases cs.len(),
{
    if cs.len() == 0 {
        None
    } else if node_tag(cs[0]) == Some(tag) {
        Some(cs[0])
    } else {
        child_get(cs.drop_first(), tag)
    }
}

/// The first node with the tag, found at `i`.
pub proof fn lemma_child_get_at(cs: Seq<XmlModel>, tag: Seq<char>, i: int)
    requires
        0 <= i < cs.len(),
        node_tag(cs[i]) == Some(tag),
        forall|j: int| 0 <= j < i ==> node_tag(cs[j]) != Some(tag),
    ensures
        child_get(cs, tag) == Some(cs[i]),
    decreases i,
{
    if i > 0 {
        assert(node_tag(cs[0]) != Some(tag));
        lemma_child_get_at(cs.drop_first(), tag, i - 1);
    }
}

/// The first child element or leaf with the tag, if there is an element.
pub open spec fn xml_in(n: Option<XmlModel>, tag: Seq<char>) -> Option<XmlModel> {
    match n {
        Some(XmlModel::Element { children, .. }) => child_get(children, tag),
        _ => None,
    }
}

/// The text of a leaf.
pub open spec fn xml_value(n: Option<XmlModel>) -> Option<Seq<char>> {
    match n {
        Some(XmlModel::Leaf { value, .. }) => Some(value),
        _ => None,
    }
}

/// The words of a text between its spaces, empty ones included.
pub open spec fn split_spaces(s: Seq<char>) -> Seq<Seq<char>>
    decreases s.len(),
{
    if s.len() == 0 {
        seq![Seq::empty()]
    } else {
        let rest = split_spaces(s.drop_last());
        if s.last() == ' ' {
            rest.push(Seq::empty())
        } else {
            rest.update(rest.len() - 1, rest.last().push(s.last()))
        }
    }
}

proof fn lemma_split_word(w: Seq<char>)
    requires
        !w.contains(' '),
    ensures
        split_spaces(w) == seq![w],
    decreases w.len(),
{
    if w.len() == 0 {
        assert(w =~= Seq::<char>::empty());
    } else {
        let v = w.drop_last();
        assert(!v.contains(' ')) by {
            if v.contains(' ') {
                let i = choose|i: int| 0 <= i < v.len() && v[i] == ' ';
                assert(w[i] == ' ');
            }
        }
        lemma_split_word(v);
        assert(w.last() != ' ') by {
            assert(w[w.len() - 1] == w.last());
        }
        assert(w.drop_last() == v);
        assert(v.push(w.last()) =~= w);
        assert(split_spaces(w) == split_spaces(v).update(0, v.push(w.last())));
        assert(seq![v].update(0, v.push(w.last())) =~= seq![w]);
    }
}

proof fn lemma_split_after_space(a: Seq<char>, b: Seq<char>)
    requires
        !b.contains(' '),
    ensures
        split_spaces(a + seq![' '] + b) == split_spaces(a).push(b),
    decreases b.len(),
{
    let s = a + seq![' '] + b;
    if b.len() == 0 {
        assert(b =~= Seq::<char>::empty());
        assert(s.drop_last() =~= a);
        assert(s.last() == ' ');
        assert(split_spaces(s) == split_spaces(a).push(Seq::<char>::empty()));
    } else {
        let c = b.last();
        let b2 = b.drop_last();
        assert(!b2.contains(' ')) by {
            if b2.contains(' ') {
                let i = choose|i: int| 0 <= i < b2.len() && b2[i] == ' ';
                assert(b[i] == ' ');
            }
        }
        assert(c != ' ') by {
            assert(b[b.len() - 1] == c);
        }
        lemma_split_after_space(a, b2);
        assert(s.drop_last() =~= a + seq![' '] + b2);
        assert(s.last() == c);
        let r = split_spaces(a).push(b2);
        assert(split_spaces(a + seq![' '] + b2) == r);
        assert(split_spaces(s) == r.update(r.len() - 1, r.last().push(c)));
        assert(r.last() == b2);
        assert(b2.push(c) =~= b);
        assert(r.update(r.len() - 1, r.last().push(c)) =~= split_spaces(a).push(b));
    }
}

/// A list of names without spaces splits on its spaces into the names, in
/// order: the list names every file once, and no name runs into another.
pub proof fn law_file_list_splits_into_names(names: Seq<Seq<char>>)
    requires
        names.len() > 0,
        forall|i: int| 0 <= i < names.len() ==> !(#[trigger] names[i]).contains(' '),
    ensures
        split_spaces(file_list_text(names)) == names,
    decreases names.len(),
{
    let init = names.drop_last();
    let n = names.last();
    assert(names =~= init.push(n));
    assert(!n.contains(' ')) by {
        assert(names[names.len() - 1] == n);
    }
    law_file_list_joins_names_by_spaces(init, n);
    if init.len() == 0 {
        lemma_split_word(n);
        assert(seq![n] =~= names);
    } else {
        assert forall|i: int| 0 <= i < init.len() implies !(#[trigger] init[i]).contains(' ') by {
            assert(init[i] == names[i]);
        }
        law_file_list_splits_into_names(init);
        lemma_split_after_space(file_list_text(init), n);
    }
}

} // verus!
