//! Instance queries: node, edge and set-operation expressions and what to
//! select from their results.

use vstd::prelude::*;

use std::collections::HashMap;

use crate::filter::{AdvancedFilter, RawValue};
use crate::models::common::{PropertySort, TaggedViewReference};
use crate::models::instances::NodeOrEdge;

verus! {

/// Reference to a property on a view.
pub struct ViewPropertyReference {
    /// View reference
    pub view: TaggedViewReference,
    /// Property identifier.
    pub identifier: String,
}

/// Query for nodes.
pub struct NodesQuery {
    /// Chain result starting from this query.
    pub from: Option<String>,
    /// Chain result through this direct relation property in the query
    /// referenced by `from`.
    pub through: Option<ViewPropertyReference>,
    /// Filter on nodes to retrieve.
    pub filter: Option<AdvancedFilter>,
    /// The direction to use when traversing direct relations.
    pub direction: Option<QueryDirection>,
    /// Control which side of the edge to chain from.
    pub chain_to: Option<QueryChainSide>,
}

/// Expression for querying nodes.
pub struct QueryNodeTableExpression {
    /// Sort result set by a list of properties. The order is significant.
    pub sort: Option<Vec<PropertySort>>,
    /// Maximum number of nodes to retrieve.
    pub limit: Option<i32>,
    /// Node query.
    pub nodes: NodesQuery,
}

/// Direction to query edges or direct relations.
#[derive(Clone, Copy, PartialEq, Eq, Structural)]
pub enum QueryDirection {
    /// Query edges or direct relations outwards.
    Outwards,
    /// Query edges or direct relations inwards.
    Inwards,
}

impl Default for QueryDirection {
    /// Outwards.
    fn default() -> (r: Self)
        ensures
            r == QueryDirection::Outwards,
    {
        QueryDirection::Outwards
    }
}

/// Which side of edge to chain from.
#[derive(Clone, Copy, PartialEq, Eq, Structural)]
pub enum QueryChainSide {
    /// Chain to `start` if `direction = outwards`, or `end` if `direction = inwards`
    Source,
    /// Chain to `end` if `direction = outwards`, or `start` if direction `inwards`.
    Destination,
}

impl Default for QueryChainSide {
    /// The destination.
    fn default() -> (r: Self)
        ensures
            r == QueryChainSide::Destination,
    {
        QueryChainSide::Destination
    }
}

/// Query for edges
pub struct EdgesQuery {
    /// Chain result starting from this query.
    pub from: Option<String>,
    /// Maximum number of levels to traverse.
    pub max_distance: Option<i32>,
    /// The direction to use when traversing. Defaults to `outwards`.
    pub direction: Option<QueryDirection>,
    /// Filter on edges.
    pub filter: Option<AdvancedFilter>,
    /// Filter on nodes along the path.
    pub node_filter: Option<AdvancedFilter>,
    /// Termination filter: an edge that matches is included, and the query
    /// goes no deeper.
    pub termination_filter: Option<AdvancedFilter>,
    /// Limit the number of returned edges for each of the source nodes in the result set.
    pub limit_each: Option<i32>,
}

/// Expression for querying edges.
pub struct QueryEdgeTableExpression {
    /// Sort result set by a list of properties. The order is significant.
    pub sort: Option<Vec<PropertySort>>,
    /// Sort result set when using recursive graph traversal. The order is significant.
    pub post_sort: Option<Vec<PropertySort>>,
    /// Maximum number of edges to retrieve.
    pub limit: Option<i32>,
    /// Query for edges.
    pub edges: EdgesQuery,
}

/// Composite query performing operations on other result sets.
pub enum QuerySetOperationTableExpression {
    /// Return the union of the specified result sets. May return duplicate results.
    UnionAll {
        /// List of query sets or references to other queries.
        union_all: Vec<QuerySetOrString>,
        /// Exclude matching results.
        except: Option<Vec<String>>,
        /// Maximum number of results in result set.
        limit: Option<i32>,
    },
    /// Return the union of the specified result sets, without duplicates.
    Union {
        /// List of query sets or references to other queries.
        union: Vec<QuerySetOrString>,
        /// Exclude matching results.
        except: Option<Vec<String>>,
        /// Maximum number of results in result set.
        limit: Option<i32>,
    },
    /// Find the common elements in the returned result set.
    Intersection {
        /// List of query sets or references to other queries.
        intersection: Vec<QuerySetOrString>,
        /// Exclude matching results.
        except: Option<Vec<String>>,
        /// Maximum number of results in result set.
        limit: Option<i32>,
    },
}

/// Element of a query set operation: another query set, or a reference to
/// a different query.
pub enum QuerySetOrString {
    /// Nested query set.
    QuerySet(Box<QuerySetOperationTableExpression>),
    /// Reference to a query.
    String(String),
}

/// Expression for querying instances.
pub enum QueryTableExpression {
    /// Query nodes.
    Node(QueryNodeTableExpression),
    /// Query edges.
    Edge(QueryEdgeTableExpression),
    /// Perform complex operations on other query results.
    SetOperation(QuerySetOperationTableExpression),
}

/// Select a set of properties from a view.
pub struct SourceSelector {
    /// View identifier.
    pub source: TaggedViewReference,
    /// List of property identifiers.
    pub properties: Vec<String>,
}

/// Expression for selecting properties from a list of views.
pub struct SelectExpression {
    /// List of views to retrieve from.
    pub sources: Vec<SourceSelector>,
    /// Optional sort on returned values.
    pub sort: Option<Vec<PropertySort>>,
    /// Maximum number of values to return.
    pub limit: Option<i32>,
}

/// Request for querying instances.
pub struct QueryInstancesRequest {
    /// Collection of queries, indexed by their ID.
    pub with: HashMap<String, QueryTableExpression>,
    /// Map of cursors, keyed like the expressions in `with`.
    pub cursors: Option<HashMap<String, String>>,
    /// Define which properties to return for each query.
    pub select: HashMap<String, SelectExpression>,
    /// Values of the parameters that filters reference.
    pub parameters: Option<HashMap<String, RawValue>>,
}

/// Response for querying instances.
pub struct QueryInstancesResponse<TProperties> {
    /// Retrieved instances, grouped by query.
    pub items: HashMap<String, Vec<NodeOrEdge<TProperties>>>,
    /// Set of cursors for pagination.
    pub next_cursor: Option<HashMap<String, String>>,
}

} // verus!
