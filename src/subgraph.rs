use vstd::prelude::*;

use crate::attrs::{opt_str, opt_string, push_statement, statement, to_owned_opt};
use crate::edge::{edge_lines, edge_views, push_edge_lines, Edge, EdgeView};
use crate::ident::{cluster_prefix, is_cluster_name, is_identifier, validate_cluster_name, IdentifierError};
use crate::node::{node_lines, node_views, push_node_lines, Node, NodeView};
use crate::style::{style_keyword, Style};

verus! {

/// What a subgraph holds, as characters.
pub struct SubgraphView {
    pub name: Seq<char>,
    pub nodes: Seq<NodeView>,
    pub edges: Seq<EdgeView>,
    pub label: Seq<char>,
    pub style: Style,
    pub color: Option<Seq<char>>,
    pub edgeop: Seq<char>,
    pub url: Seq<char>,
}

/// The edge operator of directed graphs, which a subgraph uses until told otherwise.
pub open spec fn directed_edgeop() -> Seq<char> {
    "->"@
}

impl SubgraphView {
    /// A fresh cluster: empty, with an empty label and the directed operator.
    pub open spec fn fresh(name: Seq<char>) -> SubgraphView {
        SubgraphView {
            name,
            nodes: Seq::empty(),
            edges: Seq::empty(),
            label: Seq::empty(),
            style: Style::NoStyle,
            color: None,
            edgeop: directed_edgeop(),
            url: Seq::empty(),
        }
    }

    pub open spec fn wf(self) -> bool {
        is_cluster_name(self.name)
    }

    pub open spec fn with_nodes(self, nodes: Seq<NodeView>) -> SubgraphView {
        SubgraphView { nodes, ..self }
    }

    pub open spec fn with_edges(self, edges: Seq<EdgeView>) -> SubgraphView {
        SubgraphView { edges, ..self }
    }

    pub open spec fn with_label(self, label: Seq<char>) -> SubgraphView {
        SubgraphView { label, ..self }
    }

    pub open spec fn with_style(self, style: Style) -> SubgraphView {
        SubgraphView { style, ..self }
    }

    pub open spec fn with_color(self, color: Option<Seq<char>>) -> SubgraphView {
        SubgraphView { color, ..self }
    }

    pub open spec fn with_edgeop(self, edgeop: Seq<char>) -> SubgraphView {
        SubgraphView { edgeop, ..self }
    }

    pub open spec fn with_url(self, url: Seq<char>) -> SubgraphView {
        SubgraphView { url, ..self }
    }

    /// The subgraph block: its header, then at one indent deeper than the
    /// enclosing graph its URL if set, its label, its style if set, its color if
    /// set, its nodes and its edges, and last the closing brace at the graph's
    /// indent, with no line break after it.
    pub open spec fn text(self) -> Seq<char> {
        "subgraph "@ + self.name + " {\n"@ + (if self.url.len() == 0 {
            Seq::empty()
        } else {
            statement("        "@, "URL"@, self.url)
        }) + statement("        "@, "label"@, self.label) + (if self.style == Style::NoStyle {
            Seq::empty()
        } else {
            statement("        "@, "style"@, style_keyword(self.style))
        }) + (match self.color {
            Some(c) => statement("        "@, "color"@, c),
            None => Seq::empty(),
        }) + node_lines(self.nodes, "        "@) + edge_lines(self.edges, self.edgeop, "        "@)
            + "    }"@
    }
}

/// A named cluster of nodes and edges, drawn as one group.
#[derive(Clone, Debug)]
pub struct Subgraph {
    name: String,
    nodes: Vec<Node>,
    edges: Vec<Edge>,
    label: String,
    style: Style,
    color: Option<String>,
    edgeop: String,
    url: String,
}

impl View for Subgraph {
    type V = SubgraphView;

    closed spec fn view(&self) -> SubgraphView {
        SubgraphView {
            name: self.name@,
            nodes: node_views(self.nodes@),
            edges: edge_views(self.edges@),
            label: self.label@,
            style: self.style,
            color: opt_string(self.color),
            edgeop: self.edgeop@,
            url: self.url@,
        }
    }
}

impl Subgraph {
    /// An empty cluster named `name`.
    pub fn new(name: &str) -> (r: Subgraph)
        requires
            is_cluster_name(name@),
        ensures
            r@ == SubgraphView::fresh(name@),
            r@.wf(),
    {
        let r = Subgraph {
            name: name.to_owned(),
            nodes: Vec::new(),
            edges: Vec::new(),
            label: String::new(),
            style: Style::NoStyle,
            color: None,
            edgeop: "->".to_owned(),
            url: String::new(),
        };
        assert(r@.nodes =~= Seq::<NodeView>::empty());
        assert(r@.edges =~= Seq::<EdgeView>::empty());
        r
    }

    /// An empty cluster named `name`, or the reason the name is refused.
    pub fn try_new(name: &str) -> (r: Result<Subgraph, IdentifierError>)
        ensures
            is_cluster_name(name@) ==> r is Ok && r->Ok_0@ == SubgraphView::fresh(name@),
            !is_identifier(name@, false) ==> r == Err::<Subgraph, IdentifierError>(
                IdentifierError::Malformed,
            ),
            is_identifier(name@, false) && !cluster_prefix().is_prefix_of(name@) ==> r == Err::<
                Subgraph,
                IdentifierError,
            >(IdentifierError::MissingClusterPrefix),
    {
        match validate_cluster_name(name) {
            Ok(_) => Ok(Subgraph::new(name)),
            Err(e) => Err(e),
        }
    }

    pub fn name(&self) -> (r: &str)
        ensures
            r@ == self@.name,
    {
        self.name.as_str()
    }

    /// The nodes of this subgraph, in the order they were added.
    pub fn nodes(&self) -> (r: &Vec<Node>)
        ensures
            node_views(r@) == self@.nodes,
    {
        &self.nodes
    }

    /// The edges of this subgraph, in the order they were added.
    pub fn edges(&self) -> (r: &Vec<Edge>)
        ensures
            edge_views(r@) == self@.edges,
    {
        &self.edges
    }

    pub fn add_node(&mut self, node: Node)
        ensures
            final(self)@ == old(self)@.with_nodes(old(self)@.nodes.push(node@)),
    {
        self.nodes.push(node);
        assert(node_views(self.nodes@) =~= node_views(old(self).nodes@).push(node@));
    }

    pub fn add_nodes(&mut self, nodes: Vec<Node>)
        ensures
            final(self)@ == old(self)@.with_nodes(old(self)@.nodes + node_views(nodes@)),
    {
        let mut nodes = nodes;
        let ghost added = nodes@;
        self.nodes.append(&mut nodes);
        assert(node_views(self.nodes@) =~= node_views(old(self).nodes@) + node_views(added));
    }

    pub fn add_edge(&mut self, edge: Edge)
        ensures
            final(self)@ == old(self)@.with_edges(old(self)@.edges.push(edge@)),
    {
        self.edges.push(edge);
        assert(edge_views(self.edges@) =~= edge_views(old(self).edges@).push(edge@));
    }

    pub fn label(self, label: &str) -> (r: Subgraph)
        ensures
            r@ == self@.with_label(label@),
    {
        Subgraph { label: label.to_owned(), ..self }
    }

    pub fn style(self, style: Style) -> (r: Subgraph)
        ensures
            r@ == self@.with_style(style),
    {
        Subgraph { style, ..self }
    }

    pub fn color(self, color: Option<&str>) -> (r: Subgraph)
        ensures
            r@ == self@.with_color(opt_str(color)),
    {
        Subgraph { color: to_owned_opt(color), ..self }
    }

    /// Sets the operator that joins the endpoints of this subgraph's edges.
    pub fn edgeop(self, edgeop: &str) -> (r: Subgraph)
        ensures
            r@ == self@.with_edgeop(edgeop@),
    {
        Subgraph { edgeop: edgeop.to_owned(), ..self }
    }

    pub fn url(self, url: String) -> (r: Subgraph)
        ensures
            r@ == self@.with_url(url@),
    {
        Subgraph { url, ..self }
    }

    /// The subgraph block in DOT.
    pub fn to_dot_string(&self) -> (r: String)
        ensures
            r@ == self@.text(),
    {
        proof {
            reveal(SubgraphView::text);
        }
        let mut r = "subgraph ".to_owned();
        r.append(self.name.as_str());
        r.append(" {\n");
        if !self.url.as_str().is_empty() {
            push_statement(&mut r, "        ", "URL", self.url.as_str());
        }
        push_statement(&mut r, "        ", "label", self.label.as_str());
        if self.style != Style::NoStyle {
            push_statement(&mut r, "        ", "style", self.style.as_keyword());
        }
        match &self.color {
            Some(c) => push_statement(&mut r, "        ", "color", c.as_str()),
            None => {},
        }
        push_node_lines(&mut r, &self.nodes, "        ");
        push_edge_lines(&mut r, &self.edges, self.edgeop.as_str(), "        ");
        r.append("    }");
        assert(r@ =~= self@.text());
        r
    }
}

/// One indented block per subgraph, in order.
pub open spec fn subgraph_lines(subgraphs: Seq<SubgraphView>) -> Seq<char>
    decreases subgraphs.len(),
{
    if subgraphs.len() == 0 {
        Seq::empty()
    } else {
        subgraph_lines(subgraphs.drop_last()) + "    "@ + subgraphs.last().text() + "\n"@
    }
}

pub open spec fn subgraph_views(v: Seq<Subgraph>) -> Seq<SubgraphView> {
    v.map_values(|s: Subgraph| s@)
}

} // verus!
