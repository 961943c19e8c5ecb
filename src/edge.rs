use vstd::prelude::*;

use crate::arrow::{arrow_text, Arrow, ArrowShape};
use crate::attrs::{
    assignment, group, groups, make_assignment, nonempty_group, opt_str, opt_string,
    optional_group, push_groups, push_nonempty_group, push_optional_group, push_quoted_group,
    push_style_group, quoted_group, style_group, to_owned_opt, views_of,
};
use crate::quote::{quote, quoted};
use crate::style::Style;

verus! {

/// What an edge holds, as characters; `start` and `end` are its two arrows.
pub struct EdgeView {
    pub from: Seq<char>,
    pub to: Seq<char>,
    pub label: Seq<char>,
    pub attribs: Seq<Seq<char>>,
    pub label_url: Seq<char>,
    pub url: Seq<char>,
    pub style: Style,
    pub color: Option<Seq<char>>,
    pub start: Seq<ArrowShape>,
    pub end: Seq<ArrowShape>,
}

/// The arrow settings of an edge inside its one group: `arrowhead` for the end
/// arrow, `arrowtail` for the start arrow, and `dir="both"` when both are set.
pub open spec fn arrow_items(start: Seq<ArrowShape>, end: Seq<ArrowShape>) -> Seq<char> {
    if start.len() == 0 {
        assignment("arrowhead"@, quoted(arrow_text(end)))
    } else if end.len() == 0 {
        assignment("arrowtail"@, quoted(arrow_text(start)))
    } else {
        assignment("arrowhead"@, quoted(arrow_text(end))) + " "@ + assignment(
            "arrowtail"@,
            quoted(arrow_text(start)),
        ) + " "@ + "dir=\"both\""@
    }
}

/// The arrow group, left out when both arrows are the default.
pub open spec fn arrow_group(start: Seq<ArrowShape>, end: Seq<ArrowShape>) -> Seq<char> {
    if start.len() == 0 && end.len() == 0 {
        Seq::empty()
    } else {
        group(arrow_items(start, end))
    }
}

impl EdgeView {
    pub open spec fn fresh(from: Seq<char>, to: Seq<char>, label: Seq<char>) -> EdgeView {
        EdgeView {
            from,
            to,
            label,
            attribs: Seq::empty(),
            label_url: Seq::empty(),
            url: Seq::empty(),
            style: Style::NoStyle,
            color: None,
            start: Seq::empty(),
            end: Seq::empty(),
        }
    }

    pub open spec fn with_label(self, label: Seq<char>) -> EdgeView {
        EdgeView { label, ..self }
    }

    pub open spec fn with_style(self, style: Style) -> EdgeView {
        EdgeView { style, ..self }
    }

    pub open spec fn with_color(self, color: Option<Seq<char>>) -> EdgeView {
        EdgeView { color, ..self }
    }

    pub open spec fn with_label_url(self, label_url: Seq<char>) -> EdgeView {
        EdgeView { label_url, ..self }
    }

    pub open spec fn with_url(self, url: Seq<char>) -> EdgeView {
        EdgeView { url, ..self }
    }

    pub open spec fn with_start(self, start: Seq<ArrowShape>) -> EdgeView {
        EdgeView { start, ..self }
    }

    pub open spec fn with_end(self, end: Seq<ArrowShape>) -> EdgeView {
        EdgeView { end, ..self }
    }

    pub open spec fn with_attrib(self, name: Seq<char>, value: Seq<char>) -> EdgeView {
        EdgeView { attribs: self.attribs.push(assignment(name, value)), ..self }
    }

    /// The edge statement with edge operator `op`: the quoted endpoints around
    /// the operator, then one group per attribute in the order label, free-form
    /// attributes, label URL, URL, style, color, and last the arrow group.
    pub open spec fn text(self, op: Seq<char>) -> Seq<char> {
        quoted(self.from) + " "@ + op + " "@ + quoted(self.to) + quoted_group("label"@, self.label)
            + groups(self.attribs) + nonempty_group("labelURL"@, self.label_url)
            + nonempty_group("URL"@, self.url) + style_group(self.style) + optional_group(
            "color"@,
            self.color,
        ) + arrow_group(self.start, self.end) + ";"@
    }
}

/// A connection from one node name to another, with its drawing attributes.
#[derive(Clone, Debug)]
pub struct Edge {
    from: String,
    to: String,
    label: String,
    attribs: Vec<String>,
    label_url: String,
    url: String,
    style: Style,
    color: Option<String>,
    start_arrow: Arrow,
    end_arrow: Arrow,
}

impl View for Edge {
    type V = EdgeView;

    closed spec fn view(&self) -> EdgeView {
        EdgeView {
            from: self.from@,
            to: self.to@,
            label: self.label@,
            attribs: views_of(self.attribs@),
            label_url: self.label_url@,
            url: self.url@,
            style: self.style,
            color: opt_string(self.color),
            start: self.start_arrow@,
            end: self.end_arrow@,
        }
    }
}

/// Appends the arrow group of `start` and `end` to `out`.
fn push_arrow_group(out: &mut String, start: &Arrow, end: &Arrow)
    ensures
        final(out)@ == old(out)@ + arrow_group(start@, end@),
{
    let s_default = start.is_default();
    let e_default = end.is_default();
    if s_default && e_default {
        assert(old(out)@ + arrow_group(start@, end@) =~= old(out)@);
        return ;
    }
    out.append("[");
    if !e_default {
        let t = quote(end.to_dot_string().as_str());
        out.append("arrowhead");
        out.append("=");
        out.append(t.as_str());
    }
    if !e_default && !s_default {
        out.append(" ");
    }
    if !s_default {
        let t = quote(start.to_dot_string().as_str());
        out.append("arrowtail");
        out.append("=");
        out.append(t.as_str());
    }
    if !e_default && !s_default {
        out.append(" ");
        out.append("dir=\"both\"");
    }
    out.append("]");
    assert(final(out)@ =~= old(out)@ + arrow_group(start@, end@));
}

impl Edge {
    /// An edge from `from` to `to` labelled `label`, with default arrows.
    pub fn new(from: &str, to: &str, label: &str) -> (r: Edge)
        ensures
            r@ == EdgeView::fresh(from@, to@, label@),
    {
        let r = Edge {
            from: from.to_owned(),
            to: to.to_owned(),
            label: label.to_owned(),
            attribs: Vec::new(),
            label_url: String::new(),
            url: String::new(),
            style: Style::NoStyle,
            color: None,
            start_arrow: Arrow::default(),
            end_arrow: Arrow::default(),
        };
        assert(r@.attribs =~= Seq::<Seq<char>>::empty());
        r
    }

    pub fn from(&self) -> (r: &String)
        ensures
            r@ == self@.from,
    {
        &self.from
    }

    pub fn to(&self) -> (r: &String)
        ensures
            r@ == self@.to,
    {
        &self.to
    }

    pub fn label(self, label: &str) -> (r: Edge)
        ensures
            r@ == self@.with_label(label@),
    {
        Edge { label: label.to_owned(), ..self }
    }

    pub fn style(self, style: Style) -> (r: Edge)
        ensures
            r@ == self@.with_style(style),
    {
        Edge { style, ..self }
    }

    pub fn color(self, color: Option<&str>) -> (r: Edge)
        ensures
            r@ == self@.with_color(opt_str(color)),
    {
        Edge { color: to_owned_opt(color), ..self }
    }

    /// Adds the free-form attribute `name=value`; the value is emitted as given.
    pub fn attrib(self, name: &str, value: &str) -> (r: Edge)
        ensures
            r@ == self@.with_attrib(name@, value@),
    {
        let mut edge = self;
        let a = make_assignment(name, value);
        edge.attribs.push(a);
        assert(views_of(edge.attribs@) =~= views_of(self.attribs@).push(assignment(name@, value@)));
        edge
    }

    /// Sets the arrow drawn where the edge starts.
    pub fn start_arrow(self, arrow: Arrow) -> (r: Edge)
        ensures
            r@ == self@.with_start(arrow@),
    {
        Edge { start_arrow: arrow, ..self }
    }

    /// Sets the arrow drawn where the edge ends.
    pub fn end_arrow(self, arrow: Arrow) -> (r: Edge)
        ensures
            r@ == self@.with_end(arrow@),
    {
        Edge { end_arrow: arrow, ..self }
    }

    pub fn label_url(self, url: &str) -> (r: Edge)
        ensures
            r@ == self@.with_label_url(url@),
    {
        Edge { label_url: url.to_owned(), ..self }
    }

    pub fn url(self, url: &str) -> (r: Edge)
        ensures
            r@ == self@.with_url(url@),
    {
        Edge { url: url.to_owned(), ..self }
    }

    /// The edge statement in DOT, joined by `edge_symbol`.
    pub fn to_dot_string(&self, edge_symbol: &str) -> (r: String)
        ensures
            r@ == self@.text(edge_symbol@),
    {
        let mut r = quote(self.from.as_str());
        r.append(" ");
        r.append(edge_symbol);
        r.append(" ");
        let t = quote(self.to.as_str());
        r.append(t.as_str());
        push_quoted_group(&mut r, "label", self.label.as_str());
        push_groups(&mut r, &self.attribs);
        push_nonempty_group(&mut r, "labelURL", &self.label_url);
        push_nonempty_group(&mut r, "URL", &self.url);
        push_style_group(&mut r, self.style);
        push_optional_group(&mut r, "color", &self.color);
        push_arrow_group(&mut r, &self.start_arrow, &self.end_arrow);
        r.append(";");
        r
    }
}

/// The views of a sequence of edges.
pub open spec fn edge_views(v: Seq<Edge>) -> Seq<EdgeView> {
    v.map_values(|e: Edge| e@)
}

/// One line per edge, in order: the indent, the edge statement with operator
/// `op`, a line break.
pub open spec fn edge_lines(edges: Seq<EdgeView>, op: Seq<char>, indent: Seq<char>) -> Seq<char>
    decreases edges.len(),
{
    if edges.len() == 0 {
        Seq::empty()
    } else {
        edge_lines(edges.drop_last(), op, indent) + indent + edges.last().text(op) + "\n"@
    }
}

pub(crate) fn push_edge_lines(out: &mut String, edges: &Vec<Edge>, op: &str, indent: &str)
    ensures
        final(out)@ == old(out)@ + edge_lines(edge_views(edges@), op@, indent@),
{
    let ghost start = out@;
    let mut i: usize = 0;
    while i < edges.len()
        invariant
            i <= edges@.len(),
            out@ == start + edge_lines(edge_views(edges@.take(i as int)), op@, indent@),
        decreases edges.len() - i,
    {
        let t = edges[i].to_dot_string(op);
        out.append(indent);
        out.append(t.as_str());
        out.append("\n");
        assert(edge_views(edges@.take(i + 1)).drop_last() =~= edge_views(edges@.take(i as int)));
        assert(out@ =~= start + edge_lines(edge_views(edges@.take(i + 1)), op@, indent@));
        i = i + 1;
    }
    assert(edges@.take(i as int) =~= edges@);
}

/// Setting an edge's attributes in any order gives the same edge, so the same
/// statement: each closed attribute has its one place in the output.
/// Free-form attributes come out in the order they were added.
pub proof fn lemma_edge_attribute_order(
    e: EdgeView,
    label: Seq<char>,
    style: Style,
    color: Option<Seq<char>>,
    label_url: Seq<char>,
    url: Seq<char>,
    start: Seq<ArrowShape>,
    end: Seq<ArrowShape>,
    name: Seq<char>,
    value: Seq<char>,
    name2: Seq<char>,
    value2: Seq<char>,
)
    ensures
        e.with_label(label).with_style(style) == e.with_style(style).with_label(label),
        e.with_label(label).with_color(color) == e.with_color(color).with_label(label),
        e.with_label(label).with_label_url(label_url) == e.with_label_url(label_url).with_label(label),
        e.with_label(label).with_url(url) == e.with_url(url).with_label(label),
        e.with_label(label).with_start(start) == e.with_start(start).with_label(label),
        e.with_label(label).with_end(end) == e.with_end(end).with_label(label),
        e.with_label(label).with_attrib(name, value) == e.with_attrib(name, value).with_label(label),
        e.with_style(style).with_color(color) == e.with_color(color).with_style(style),
        e.with_style(style).with_label_url(label_url) == e.with_label_url(label_url).with_style(style),
        e.with_style(style).with_url(url) == e.with_url(url).with_style(style),
        e.with_style(style).with_start(start) == e.with_start(start).with_style(style),
        e.with_style(style).with_end(end) == e.with_end(end).with_style(style),
        e.with_style(style).with_attrib(name, value) == e.with_attrib(name, value).with_style(style),
        e.with_color(color).with_label_url(label_url) == e.with_label_url(label_url).with_color(color),
        e.with_color(color).with_url(url) == e.with_url(url).with_color(color),
        e.with_color(color).with_start(start) == e.with_start(start).with_color(color),
        e.with_color(color).with_end(end) == e.with_end(end).with_color(color),
        e.with_color(color).with_attrib(name, value) == e.with_attrib(name, value).with_color(color),
        e.with_label_url(label_url).with_url(url) == e.with_url(url).with_label_url(label_url),
        e.with_label_url(label_url).with_start(start) == e.with_start(start).with_label_url(label_url),
        e.with_label_url(label_url).with_end(end) == e.with_end(end).with_label_url(label_url),
        e.with_label_url(label_url).with_attrib(name, value) == e.with_attrib(name, value).with_label_url(label_url),
        e.with_url(url).with_start(start) == e.with_start(start).with_url(url),
        e.with_url(url).with_end(end) == e.with_end(end).with_url(url),
        e.with_url(url).with_attrib(name, value) == e.with_attrib(name, value).with_url(url),
        e.with_start(start).with_end(end) == e.with_end(end).with_start(start),
        e.with_start(start).with_attrib(name, value) == e.with_attrib(name, value).with_start(start),
        e.with_end(end).with_attrib(name, value) == e.with_attrib(name, value).with_end(end),
        groups(e.with_attrib(name, value).with_attrib(name2, value2).attribs) == groups(e.attribs)
            + group(assignment(name, value)) + group(assignment(name2, value2)),
{
    let a = e.with_attrib(name, value).with_attrib(name2, value2).attribs;
    assert(a.drop_last() =~= e.attribs.push(assignment(name, value)));
    assert(a.drop_last().drop_last() =~= e.attribs);
    assert(a.last() == assignment(name2, value2));
    assert(a.drop_last().last() == assignment(name, value));
    assert(groups(a) == groups(a.drop_last()) + group(assignment(name2, value2)));
    assert(groups(a.drop_last()) == groups(e.attribs) + group(assignment(name, value)));
}

/// The arrows of an edge add one group at the end of its statement, and only
/// when one of them is set: two default arrows add nothing, a set end arrow
/// alone adds `[arrowhead=...]`, a set start arrow alone adds `[arrowtail=...]`,
/// and two set arrows add `arrowhead`, `arrowtail` and `dir="both"`, in that
/// order, inside one group.
pub proof fn lemma_arrow_group(e: EdgeView, op: Seq<char>)
    ensures
        e.text(op) == e.with_start(Seq::empty()).with_end(Seq::empty()).text(op).drop_last()
            + arrow_group(e.start, e.end) + ";"@,
        e.start.len() == 0 && e.end.len() == 0 ==> arrow_group(e.start, e.end) == Seq::<
            char,
        >::empty(),
        e.start.len() == 0 && e.end.len() > 0 ==> arrow_group(e.start, e.end) == group(
            assignment("arrowhead"@, quoted(arrow_text(e.end))),
        ),
        e.start.len() > 0 && e.end.len() == 0 ==> arrow_group(e.start, e.end) == group(
            assignment("arrowtail"@, quoted(arrow_text(e.start))),
        ),
        e.start.len() > 0 && e.end.len() > 0 ==> arrow_group(e.start, e.end) == group(
            assignment("arrowhead"@, quoted(arrow_text(e.end))) + " "@ + assignment(
                "arrowtail"@,
                quoted(arrow_text(e.start)),
            ) + " "@ + "dir=\"both\""@,
        ),
{
    reveal_strlit(";");
    let plain = e.with_start(Seq::empty()).with_end(Seq::empty());
    assert(arrow_group(plain.start, plain.end) =~= Seq::<char>::empty());
    let body = quoted(e.from) + " "@ + op + " "@ + quoted(e.to) + quoted_group("label"@, e.label)
        + groups(e.attribs) + nonempty_group("labelURL"@, e.label_url) + nonempty_group(
        "URL"@,
        e.url,
    ) + style_group(e.style) + optional_group("color"@, e.color);
    assert(plain.text(op) =~= body + ";"@);
    assert((body + ";"@).drop_last() =~= body);
    assert(e.text(op) =~= body + arrow_group(e.start, e.end) + ";"@);
}

} // verus!
