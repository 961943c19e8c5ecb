use vstd::prelude::*;

use crate::attrs::{
    assignment, group, groups, make_assignment, nonempty_group, opt_str, opt_string, optional_group,
    push_groups, push_nonempty_group, push_optional_group, push_quoted_group, push_style_group,
    quoted_group, style_group, to_owned_opt, views_of,
};
use crate::ident::{is_node_name, validate_node_name, IdentifierError};
use crate::quote::{quote, quoted};
use crate::style::Style;

verus! {

/// What a node holds, as characters.
pub struct NodeView {
    pub name: Seq<char>,
    pub label: Seq<char>,
    pub attribs: Seq<Seq<char>>,
    pub url: Seq<char>,
    pub style: Style,
    pub color: Option<Seq<char>>,
    pub shape: Option<Seq<char>>,
}

impl NodeView {
    /// A fresh node: labelled with its own name, with no other attribute.
    pub open spec fn fresh(name: Seq<char>) -> NodeView {
        NodeView {
            name,
            label: name,
            attribs: Seq::empty(),
            url: Seq::empty(),
            style: Style::NoStyle,
            color: None,
            shape: None,
        }
    }

    pub open spec fn wf(self) -> bool {
        is_node_name(self.name)
    }

    pub open spec fn with_label(self, label: Seq<char>) -> NodeView {
        NodeView { label, ..self }
    }

    pub open spec fn with_style(self, style: Style) -> NodeView {
        NodeView { style, ..self }
    }

    pub open spec fn with_color(self, color: Option<Seq<char>>) -> NodeView {
        NodeView { color, ..self }
    }

    pub open spec fn with_shape(self, shape: Option<Seq<char>>) -> NodeView {
        NodeView { shape, ..self }
    }

    pub open spec fn with_url(self, url: Seq<char>) -> NodeView {
        NodeView { url, ..self }
    }

    pub open spec fn with_attrib(self, name: Seq<char>, value: Seq<char>) -> NodeView {
        NodeView { attribs: self.attribs.push(assignment(name, value)), ..self }
    }

    /// The node statement: the quoted name, then one group per attribute in the
    /// order label, free-form attributes, URL, style, color, shape.
    pub open spec fn text(self) -> Seq<char> {
        quoted(self.name) + quoted_group("label"@, self.label) + groups(self.attribs)
            + nonempty_group("URL"@, self.url) + style_group(self.style) + optional_group(
            "color"@,
            self.color,
        ) + optional_group("shape"@, self.shape) + ";"@
    }
}

/// A vertex of a graph: a name and its drawing attributes.
#[derive(Clone, Debug)]
pub struct Node {
    name: String,
    label: String,
    attribs: Vec<String>,
    url: String,
    style: Style,
    color: Option<String>,
    shape: Option<String>,
}

impl View for Node {
    type V = NodeView;

    closed spec fn view(&self) -> NodeView {
        NodeView {
            name: self.name@,
            label: self.label@,
            attribs: views_of(self.attribs@),
            url: self.url@,
            style: self.style,
            color: opt_string(self.color),
            shape: opt_string(self.shape),
        }
    }
}

impl Node {
    /// A node named `name`, labelled with its name.
    pub fn new(name: &str) -> (r: Node)
        requires
            is_node_name(name@),
        ensures
            r@ == NodeView::fresh(name@),
            r@.wf(),
    {
        let r = Node {
            name: name.to_owned(),
            label: name.to_owned(),
            attribs: Vec::new(),
            url: String::new(),
            style: Style::NoStyle,
            color: None,
            shape: None,
        };
        assert(r@.attribs =~= Seq::<Seq<char>>::empty());
        r
    }

    /// A node named `name`, or the reason the name is refused.
    pub fn try_new(name: &str) -> (r: Result<Node, IdentifierError>)
        ensures
            is_node_name(name@) ==> r is Ok && r->Ok_0@ == NodeView::fresh(name@),
            !is_node_name(name@) ==> r == Err::<Node, IdentifierError>(IdentifierError::Malformed),
    {
        match validate_node_name(name) {
            Ok(_) => Ok(Node::new(name)),
            Err(e) => Err(e),
        }
    }

    pub fn name(&self) -> (r: &str)
        ensures
            r@ == self@.name,
    {
        self.name.as_str()
    }

    /// Whether this node is named `x`.
    pub fn is_named(&self, x: &String) -> (r: bool)
        ensures
            r == (self@.name == x@),
    {
        self.name == *x
    }

    pub fn label(self, label: &str) -> (r: Node)
        ensures
            r@ == self@.with_label(label@),
    {
        Node { label: label.to_owned(), ..self }
    }

    pub fn style(self, style: Style) -> (r: Node)
        ensures
            r@ == self@.with_style(style),
    {
        Node { style, ..self }
    }

    pub fn shape(self, shape: Option<&str>) -> (r: Node)
        ensures
            r@ == self@.with_shape(opt_str(shape)),
    {
        Node { shape: to_owned_opt(shape), ..self }
    }

    pub fn color(self, color: Option<&str>) -> (r: Node)
        ensures
            r@ == self@.with_color(opt_str(color)),
    {
        Node { color: to_owned_opt(color), ..self }
    }

    pub fn url(self, url: String) -> (r: Node)
        ensures
            r@ == self@.with_url(url@),
    {
        Node { url, ..self }
    }

    /// Adds the free-form attribute `name=value`; the value is emitted as given.
    pub fn attrib(self, name: &str, value: &str) -> (r: Node)
        ensures
            r@ == self@.with_attrib(name@, value@),
    {
        let mut node = self;
        let a = make_assignment(name, value);
        node.attribs.push(a);
        assert(views_of(node.attribs@) =~= views_of(self.attribs@).push(assignment(name@, value@)));
        node
    }

    /// The node statement in DOT.
    pub fn to_dot_string(&self) -> (r: String)
        ensures
            r@ == self@.text(),
    {
        let mut r = quote(self.name.as_str());
        push_quoted_group(&mut r, "label", self.label.as_str());
        push_groups(&mut r, &self.attribs);
        push_nonempty_group(&mut r, "URL", &self.url);
        push_style_group(&mut r, self.style);
        push_optional_group(&mut r, "color", &self.color);
        push_optional_group(&mut r, "shape", &self.shape);
        r.append(";");
        r
    }
}

/// The views of a sequence of nodes.
pub open spec fn node_views(v: Seq<Node>) -> Seq<NodeView> {
    v.map_values(|n: Node| n@)
}

/// One line per node, in order: the indent, the node statement, a line break.
pub open spec fn node_lines(nodes: Seq<NodeView>, indent: Seq<char>) -> Seq<char>
    decreases nodes.len(),
{
    if nodes.len() == 0 {
        Seq::empty()
    } else {
        node_lines(nodes.drop_last(), indent) + indent + nodes.last().text() + "\n"@
    }
}

pub(crate) fn push_node_lines(out: &mut String, nodes: &Vec<Node>, indent: &str)
    ensures
        final(out)@ == old(out)@ + node_lines(node_views(nodes@), indent@),
{
    let ghost start = out@;
    let mut i: usize = 0;
    while i < nodes.len()
        invariant
            i <= nodes@.len(),
            out@ == start + node_lines(node_views(nodes@.take(i as int)), indent@),
        decreases nodes.len() - i,
    {
        let t = nodes[i].to_dot_string();
        out.append(indent);
        out.append(t.as_str());
        out.append("\n");
        assert(node_views(nodes@.take(i + 1)).drop_last() =~= node_views(nodes@.take(i as int)));
        assert(out@ =~= start + node_lines(node_views(nodes@.take(i + 1)), indent@));
        i = i + 1;
    }
    assert(nodes@.take(i as int) =~= nodes@);
}

/// Setting a node's attributes in any order gives the same node, so the same
/// statement: each closed attribute has its one place in the output.
/// Free-form attributes come out in the order they were added.
pub proof fn lemma_node_attribute_order(
    n: NodeView,
    label: Seq<char>,
    style: Style,
    color: Option<Seq<char>>,
    shape: Option<Seq<char>>,
    url: Seq<char>,
    name: Seq<char>,
    value: Seq<char>,
    name2: Seq<char>,
    value2: Seq<char>,
)
    ensures
        n.with_label(label).with_style(style) == n.with_style(style).with_label(label),
        n.with_label(label).with_color(color) == n.with_color(color).with_label(label),
        n.with_label(label).with_shape(shape) == n.with_shape(shape).with_label(label),
        n.with_label(label).with_url(url) == n.with_url(url).with_label(label),
        n.with_label(label).with_attrib(name, value) == n.with_attrib(name, value).with_label(label),
        n.with_style(style).with_color(color) == n.with_color(color).with_style(style),
        n.with_style(style).with_shape(shape) == n.with_shape(shape).with_style(style),
        n.with_style(style).with_url(url) == n.with_url(url).with_style(style),
        n.with_style(style).with_attrib(name, value) == n.with_attrib(name, value).with_style(style),
        n.with_color(color).with_shape(shape) == n.with_shape(shape).with_color(color),
        n.with_color(color).with_url(url) == n.with_url(url).with_color(color),
        n.with_color(color).with_attrib(name, value) == n.with_attrib(name, value).with_color(color),
        n.with_shape(shape).with_url(url) == n.with_url(url).with_shape(shape),
        n.with_shape(shape).with_attrib(name, value) == n.with_attrib(name, value).with_shape(shape),
        n.with_url(url).with_attrib(name, value) == n.with_attrib(name, value).with_url(url),
        groups(n.with_attrib(name, value).with_attrib(name2, value2).attribs) == groups(n.attribs)
            + group(assignment(name, value)) + group(assignment(name2, value2)),
{
    let a = n.with_attrib(name, value).with_attrib(name2, value2).attribs;
    assert(a.drop_last() =~= n.attribs.push(assignment(name, value)));
    assert(a.drop_last().drop_last() =~= n.attribs);
    assert(a.last() == assignment(name2, value2));
    assert(a.drop_last().last() == assignment(name, value));
    assert(groups(a) == groups(a.drop_last()) + group(assignment(name2, value2)));
    assert(groups(a.drop_last()) == groups(n.attribs) + group(assignment(name, value)));
}

} // verus!
