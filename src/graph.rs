use vstd::prelude::*;

use crate::attrs::{
    assignment, lemma_take_all, lemma_take_step, make_assignment, push_statement, statement,
    views_of,
};
use crate::edge::{edge_lines, edge_views, push_edge_lines, Edge, EdgeView};
use crate::node::{node_lines, node_views, push_node_lines, Node, NodeView};
use crate::subgraph::{subgraph_lines, subgraph_views, Subgraph, SubgraphView};

verus! {

/// Whether a graph is directed, which fixes its keyword and its edge operator.
#[derive(Clone, Copy, Debug, PartialEq, Eq, Structural)]
pub enum Kind {
    Digraph,
    Graph,
}

pub open spec fn kind_keyword(k: Kind) -> Seq<char> {
    match k {
        Kind::Digraph => "digraph"@,
        Kind::Graph => "graph"@,
    }
}

pub open spec fn kind_edgeop(k: Kind) -> Seq<char> {
    match k {
        Kind::Digraph => "->"@,
        Kind::Graph => "--"@,
    }
}

impl Kind {
    /// The keyword that introduces the graph.
    pub fn keyword(&self) -> (r: &'static str)
        ensures
            r@ == kind_keyword(*self),
    {
        match self {
            Kind::Digraph => "digraph",
            Kind::Graph => "graph",
        }
    }

    /// The operator that joins the endpoints of an edge.
    pub fn edgeop(&self) -> (r: &'static str)
        ensures
            r@ == kind_edgeop(*self),
    {
        match self {
            Kind::Digraph => "->",
            Kind::Graph => "--",
        }
    }
}

/// Why a graph could not be rendered.
#[derive(Clone, Copy, Debug, PartialEq, Eq, Structural)]
pub enum RenderError {
    /// An edge names an endpoint that is no node of the graph or of its subgraphs.
    DanglingEdge,
}

/// What a graph holds, as characters.
pub struct GraphView {
    pub name: Seq<char>,
    pub kind: Kind,
    pub url: Seq<char>,
    pub nodes: Seq<NodeView>,
    pub edges: Seq<EdgeView>,
    pub subgraphs: Seq<SubgraphView>,
    pub attribs: Seq<Seq<char>>,
}

/// One line per top-level attribute, in the order they were added.
pub open spec fn attrib_lines(attribs: Seq<Seq<char>>) -> Seq<char>
    decreases attribs.len(),
{
    if attribs.len() == 0 {
        Seq::empty()
    } else {
        attrib_lines(attribs.drop_last()) + "    "@ + attribs.last() + ";\n"@
    }
}

impl GraphView {
    pub open spec fn fresh(name: Seq<char>, kind: Kind) -> GraphView {
        GraphView {
            name,
            kind,
            url: Seq::empty(),
            nodes: Seq::empty(),
            edges: Seq::empty(),
            subgraphs: Seq::empty(),
            attribs: Seq::empty(),
        }
    }

    pub open spec fn with_nodes(self, nodes: Seq<NodeView>) -> GraphView {
        GraphView { nodes, ..self }
    }

    pub open spec fn with_edges(self, edges: Seq<EdgeView>) -> GraphView {
        GraphView { edges, ..self }
    }

    pub open spec fn with_subgraphs(self, subgraphs: Seq<SubgraphView>) -> GraphView {
        GraphView { subgraphs, ..self }
    }

    pub open spec fn with_url(self, url: Seq<char>) -> GraphView {
        GraphView { url, ..self }
    }

    pub open spec fn with_attrib(self, name: Seq<char>, value: Seq<char>) -> GraphView {
        GraphView { attribs: self.attribs.push(assignment(name, value)), ..self }
    }

    /// `x` is the name of a node of the graph or of one of its subgraphs.
    pub open spec fn declares(self, x: Seq<char>) -> bool {
        (exists|i: int| 0 <= i < self.nodes.len() && #[trigger] self.nodes[i].name == x) || (
        exists|j: int, k: int|
            0 <= j < self.subgraphs.len() && 0 <= k < self.subgraphs[j].nodes.len()
                && #[trigger] self.subgraphs[j].nodes[k].name == x)
    }

    pub open spec fn resolves(self, e: EdgeView) -> bool {
        self.declares(e.from) && self.declares(e.to)
    }

    /// Every edge, at the top level and in the subgraphs, joins declared nodes.
    pub open spec fn edges_resolved(self) -> bool {
        &&& forall|i: int| 0 <= i < self.edges.len() ==> self.resolves(#[trigger] self.edges[i])
        &&& forall|j: int, k: int|
            0 <= j < self.subgraphs.len() && 0 <= k < self.subgraphs[j].edges.len()
                ==> self.resolves(#[trigger] self.subgraphs[j].edges[k])
    }

    /// The whole DOT document: the header, one line per attribute, the URL line
    /// if set, the subgraph blocks, the node lines and the edge lines, each one
    /// indent deep, then the closing brace and a line break.
    pub open spec fn text(self) -> Seq<char> {
        kind_keyword(self.kind) + " "@ + self.name + " {\n"@ + attrib_lines(self.attribs) + (
        if self.url.len() == 0 {
            Seq::empty()
        } else {
            statement("    "@, "URL"@, self.url)
        }) + subgraph_lines(self.subgraphs) + node_lines(self.nodes, "    "@) + edge_lines(
            self.edges,
            kind_edgeop(self.kind),
            "    "@,
        ) + "}\n"@
    }

    /// What rendering gives: the document, or the failure for a dangling edge.
    pub open spec fn rendered(self) -> Result<Seq<char>, RenderError> {
        if self.edges_resolved() {
            Ok(self.text())
        } else {
            Err(RenderError::DanglingEdge)
        }
    }
}

/// A whole graph: its kind and name, its subgraphs, nodes and edges, and its
/// top-level attributes.
#[derive(Clone, Debug)]
pub struct Graph {
    name: String,
    kind: Kind,
    url: String,
    nodes: Vec<Node>,
    edges: Vec<Edge>,
    subgraph: Vec<Subgraph>,
    attribs: Vec<String>,
}

impl View for Graph {
    type V = GraphView;

    closed spec fn view(&self) -> GraphView {
        GraphView {
            name: self.name@,
            kind: self.kind,
            url: self.url@,
            nodes: node_views(self.nodes@),
            edges: edge_views(self.edges@),
            subgraphs: subgraph_views(self.subgraph@),
            attribs: views_of(self.attribs@),
        }
    }
}

/// One subgraph block on its own line.
fn subgraph_line(s: &Subgraph) -> (r: String)
    ensures
        r@ == "    "@ + s@.text() + "\n"@,
{
    let t = s.to_dot_string();
    let mut r = "    ".to_owned();
    r.append(t.as_str());
    r.append("\n");
    r
}

fn push_subgraph_lines(out: &mut String, subgraphs: &Vec<Subgraph>)
    ensures
        final(out)@ == old(out)@ + subgraph_lines(subgraph_views(subgraphs@)),
{
    let ghost start = out@;
    let ghost views = subgraph_views(subgraphs@);
    let mut i: usize = 0;
    while i < subgraphs.len()
        invariant
            i <= subgraphs@.len(),
            views == subgraph_views(subgraphs@),
            out@ == start + subgraph_lines(views.take(i as int)),
        decreases subgraphs.len() - i,
    {
        let line = subgraph_line(&subgraphs[i]);
        proof {
            lemma_take_step(views, i as int);
            let lines = subgraph_lines(views.take(i as int));
            assert(subgraph_lines(views.take(i + 1)) == lines + line@);
            assert((start + lines) + line@ =~= start + (lines + line@));
        }
        out.append(line.as_str());
        i = i + 1;
    }
    proof {
        lemma_take_all(views);
    }
}

/// The rendered result with its text as characters.
pub open spec fn result_view(r: Result<String, RenderError>) -> Result<Seq<char>, RenderError> {
    match r {
        Ok(s) => Ok(s@),
        Err(e) => Err(e),
    }
}

impl Graph {
    /// An empty graph of the given kind.
    pub fn new(name: &str, kind: Kind) -> (r: Graph)
        ensures
            r@ == GraphView::fresh(name@, kind),
    {
        let r = Graph {
            name: name.to_owned(),
            kind,
            url: String::new(),
            nodes: Vec::new(),
            edges: Vec::new(),
            subgraph: Vec::new(),
            attribs: Vec::new(),
        };
        assert(r@.nodes =~= Seq::<NodeView>::empty());
        assert(r@.edges =~= Seq::<EdgeView>::empty());
        assert(r@.subgraphs =~= Seq::<SubgraphView>::empty());
        assert(r@.attribs =~= Seq::<Seq<char>>::empty());
        r
    }

    pub fn name(&self) -> (r: &str)
        ensures
            r@ == self@.name,
    {
        self.name.as_str()
    }

    pub fn kind(&self) -> (r: Kind)
        ensures
            r == self@.kind,
    {
        self.kind
    }

    pub fn add_node(&mut self, node: Node)
        ensures
            final(self)@ == old(self)@.with_nodes(old(self)@.nodes.push(node@)),
    {
        self.nodes.push(node);
        assert(node_views(self.nodes@) =~= node_views(old(self).nodes@).push(node@));
    }

    pub fn add_edge(&mut self, edge: Edge)
        ensures
            final(self)@ == old(self)@.with_edges(old(self)@.edges.push(edge@)),
    {
        self.edges.push(edge);
        assert(edge_views(self.edges@) =~= edge_views(old(self).edges@).push(edge@));
    }

    /// Adds a subgraph, which from now on joins its edges with this graph's operator.
    pub fn add_subgraph(&mut self, subgraph: Subgraph)
        ensures
            final(self)@ == old(self)@.with_subgraphs(
                old(self)@.subgraphs.push(subgraph@.with_edgeop(kind_edgeop(old(self)@.kind))),
            ),
    {
        let s = subgraph.edgeop(self.kind.edgeop());
        let ghost sv = s@;
        self.subgraph.push(s);
        assert(subgraph_views(self.subgraph@) =~= subgraph_views(old(self).subgraph@).push(sv));
    }

    pub fn url(self, url: String) -> (r: Graph)
        ensures
            r@ == self@.with_url(url@),
    {
        Graph { url, ..self }
    }

    /// Adds the top-level attribute `name=value`; the value is emitted as given.
    pub fn attrib(self, name: &str, value: &str) -> (r: Graph)
        ensures
            r@ == self@.with_attrib(name@, value@),
    {
        let mut graph = self;
        let a = make_assignment(name, value);
        graph.attribs.push(a);
        assert(views_of(graph.attribs@) =~= views_of(self.attribs@).push(assignment(name@, value@)));
        graph
    }

    /// The graph in DOT, or `DanglingEdge` when an edge names an undeclared node.
    pub fn to_dot_string(&self) -> (r: Result<String, RenderError>)
        ensures
            result_view(r) == self@.rendered(),
    {
        if self.edges_declared() {
            Ok(self.render_opts())
        } else {
            Err(RenderError::DanglingEdge)
        }
    }

    fn declares(&self, x: &String) -> (r: bool)
        ensures
            r == self@.declares(x@),
    {
        let ghost g = self@;
        let mut i: usize = 0;
        while i < self.nodes.len()
            invariant
                g == self@,
                i <= self.nodes@.len(),
                forall|m: int| 0 <= m < i ==> g.nodes[m].name != x@,
            decreases self.nodes.len() - i,
        {
            if self.nodes[i].is_named(x) {
                assert(g.nodes[i as int].name == x@);
                return true;
            }
            i = i + 1;
        }
        let mut j: usize = 0;
        while j < self.subgraph.len()
            invariant
                g == self@,
                j <= self.subgraph@.len(),
                forall|m: int| 0 <= m < g.nodes.len() ==> g.nodes[m].name != x@,
                forall|a: int, b: int|
                    0 <= a < j && 0 <= b < g.subgraphs[a].nodes.len()
                        ==> g.subgraphs[a].nodes[b].name != x@,
            decreases self.subgraph.len() - j,
        {
            let nodes = self.subgraph[j].nodes();
            assert(g.subgraphs[j as int].nodes == node_views(nodes@));
            let mut k: usize = 0;
            while k < nodes.len()
                invariant
                    g == self@,
                    j < self.subgraph@.len(),
                    g.subgraphs[j as int].nodes == node_views(nodes@),
                    k <= nodes@.len(),
                    forall|b: int| 0 <= b < k ==> g.subgraphs[j as int].nodes[b].name != x@,
                decreases nodes.len() - k,
            {
                if nodes[k].is_named(x) {
                    assert(g.subgraphs[j as int].nodes[k as int].name == x@);
                    return true;
                }
                k = k + 1;
            }
            j = j + 1;
        }
        false
    }

    fn edges_declared(&self) -> (r: bool)
        ensures
            r == self@.edges_resolved(),
    {
        let ghost g = self@;
        let mut i: usize = 0;
        while i < self.edges.len()
            invariant
                g == self@,
                i <= self.edges@.len(),
                forall|m: int| 0 <= m < i ==> g.resolves(#[trigger] g.edges[m]),
            decreases self.edges.len() - i,
        {
            let e = &self.edges[i];
            if !self.declares(e.from()) || !self.declares(e.to()) {
                assert(!g.resolves(g.edges[i as int]));
                return false;
            }
            i = i + 1;
        }
        let mut j: usize = 0;
        while j < self.subgraph.len()
            invariant
                g == self@,
                j <= self.subgraph@.len(),
                forall|m: int| 0 <= m < g.edges.len() ==> g.resolves(#[trigger] g.edges[m]),
                forall|a: int, b: int|
                    0 <= a < j && 0 <= b < g.subgraphs[a].edges.len() ==> g.resolves(
                        #[trigger] g.subgraphs[a].edges[b],
                    ),
            decreases self.subgraph.len() - j,
        {
            let edges = self.subgraph[j].edges();
            assert(g.subgraphs[j as int].edges == edge_views(edges@));
            let mut k: usize = 0;
            while k < edges.len()
                invariant
                    g == self@,
                    j < self.subgraph@.len(),
                    g.subgraphs[j as int].edges == edge_views(edges@),
                    k <= edges@.len(),
                    forall|b: int|
                        0 <= b < k ==> g.resolves(#[trigger] g.subgraphs[j as int].edges[b]),
                decreases edges.len() - k,
            {
                let e = &edges[k];
                if !self.declares(e.from()) || !self.declares(e.to()) {
                    assert(!g.resolves(g.subgraphs[j as int].edges[k as int]));
                    return false;
                }
                k = k + 1;
            }
            j = j + 1;
        }
        true
    }

    /// The DOT document of this graph, whether or not its edges resolve.
    fn render_opts(&self) -> (r: String)
        ensures
            r@ == self@.text(),
    {
        let mut r = self.kind.keyword().to_owned();
        r.append(" ");
        r.append(self.name.as_str());
        r.append(" {\n");
        let ghost head = r@;
        let mut i: usize = 0;
        while i < self.attribs.len()
            invariant
                i <= self.attribs@.len(),
                r@ == head + attrib_lines(views_of(self.attribs@.take(i as int))),
            decreases self.attribs.len() - i,
        {
            r.append("    ");
            r.append(self.attribs[i].as_str());
            r.append(";\n");
            assert(views_of(self.attribs@.take(i + 1)).drop_last() =~= views_of(
                self.attribs@.take(i as int),
            ));
            assert(r@ =~= head + attrib_lines(views_of(self.attribs@.take(i + 1))));
            i = i + 1;
        }
        assert(self.attribs@.take(i as int) =~= self.attribs@);
        if !self.url.as_str().is_empty() {
            push_statement(&mut r, "    ", "URL", self.url.as_str());
        }
        push_subgraph_lines(&mut r, &self.subgraph);
        push_node_lines(&mut r, &self.nodes, "    ");
        push_edge_lines(&mut r, &self.edges, self.kind.edgeop(), "    ");
        r.append("}\n");
        assert(r@ =~= self@.text());
        r
    }
}

/// Rendering has no hidden state: two renderings of one unchanged graph give
/// the same result, byte for byte.
pub proof fn lemma_render_repeatable(
    g: GraphView,
    first: Result<String, RenderError>,
    second: Result<String, RenderError>,
)
    requires
        result_view(first) == g.rendered(),
        result_view(second) == g.rendered(),
    ensures
        result_view(first) == result_view(second),
        first is Ok <==> second is Ok,
        first is Ok ==> first->Ok_0@ == second->Ok_0@,
{
}

} // verus!
