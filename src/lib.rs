//! Generation of Graphviz DOT text from graphs built in memory.
//!
//! A [`Graph`] is built from [`Node`]s, [`Edge`]s and [`Subgraph`]s, each
//! carrying its drawing attributes, and rendered with
//! [`Graph::to_dot_string`]. Every type has a view that describes its content
//! as characters, and each rendering routine is specified by a spec function
//! over that view.
//!
//! Node and cluster names are checked when the value is made. Rendering checks
//! that every edge joins names declared as nodes somewhere in the graph, and
//! fails with [`RenderError::DanglingEdge`] otherwise: an edge may be added
//! before its nodes, so the check waits until the whole graph is known.
mod arrow;
mod attrs;
mod edge;
mod graph;
mod ident;
mod node;
mod quote;
mod style;
mod subgraph;

pub use arrow::{Arrow, ArrowShape, Fill, Side};
pub use edge::{Edge, EdgeView};
pub use graph::{Graph, GraphView, Kind, RenderError};
pub use ident::{validate_cluster_name, validate_node_name, IdentifierError};
pub use node::{Node, NodeView};
pub use quote::quote;
pub use style::Style;
pub use subgraph::{Subgraph, SubgraphView};
