//! Nodes and edges in data modeling.

use vstd::prelude::*;

use crate::filter::{AdvancedFilter, RawValue};
use crate::filter_types::SetCursor;
use crate::json::{json_string, write_json_string};
use crate::models::common::{ItemId, PropertySort, SourceReference, TaggedViewReference};
use crate::models::views::ViewCorePropertyType;
use crate::text::{push_str, str_equal};

verus! {

/// Direct reference to a node: its space and external ID.
pub struct InstanceId {
    /// Node space.
    pub space: String,
    /// Node external ID.
    pub external_id: String,
}

/// The value an [`InstanceId`] stands for.
pub struct InstanceIdModel {
    /// Node space.
    pub space: Seq<char>,
    /// Node external ID.
    pub external_id: Seq<char>,
}

impl View for InstanceId {
    type V = InstanceIdModel;

    open spec fn view(&self) -> InstanceIdModel {
        InstanceIdModel { space: self.space@, external_id: self.external_id@ }
    }
}

impl Clone for InstanceId {
    fn clone(&self) -> (r: Self)
        ensures
            r == *self,
    {
        InstanceId { space: self.space.clone(), external_id: self.external_id.clone() }
    }
}

impl InstanceId {
    /// Create an instance ID from a space and an external ID.
    pub fn new(space: &str, external_id: &str) -> (r: Self)
        ensures
            r@ == (InstanceIdModel { space: space@, external_id: external_id@ }),
    {
        InstanceId { space: space.to_owned(), external_id: external_id.to_owned() }
    }

    /// Whether two instance IDs name the same node.
    pub fn same_as(&self, other: &InstanceId) -> (r: bool)
        ensures
            r == (self@ == other@),
    {
        self.space == other.space && self.external_id == other.external_id
    }
}

/// JSON object for an instance ID: `{"space":...,"externalId":...}`.
pub open spec fn instance_id_json(i: InstanceIdModel) -> Seq<char> {
    "{\"space\":"@ + json_string(i.space) + ",\"externalId\":"@ + json_string(i.external_id)
        + "}"@
}

/// Appends the JSON object for `i` to `s`.
pub fn write_instance_id_json(s: &mut String, i: &InstanceId)
    ensures
        final(s)@ == old(s)@ + instance_id_json(i@),
        final(s)@ == old(s)@ + "{\"space\":"@ + json_string(i.space@) + ",\"externalId\":"@ + json_string(
            i.external_id@,
        ) + "}"@,
{
    push_str(s, "{\"space\":");
    write_json_string(s, i.space.as_str());
    push_str(s, ",\"externalId\":");
    write_json_string(s, i.external_id.as_str());
    push_str(s, "}");
    assert(s@ =~= old(s)@ + instance_id_json(i@));
}

/// A list of nodes and edges to create, with the options of the ingestion.
pub struct NodeAndEdgeCreateCollection<TProperties> {
    /// Nodes and edges to create.
    pub items: Vec<NodeOrEdgeCreate<TProperties>>,
    /// Whether to auto create direct relations that do not exist.
    pub auto_create_direct_relations: Option<bool>,
    /// Whether to auto create start nodes that do not exist.
    pub auto_create_start_nodes: Option<bool>,
    /// Whether to auto create end nodes that do not exist.
    pub auto_create_end_nodes: Option<bool>,
    /// Skip items with version conflicts instead of failing the ingestion.
    pub skip_on_version_conflict: Option<bool>,
    /// Replace existing property values (true) or merge new values into them (false).
    pub replace: Option<bool>,
}

impl<TProperties> Default for NodeAndEdgeCreateCollection<TProperties> {
    /// No items, and every option unset.
    fn default() -> (r: Self)
        ensures
            r.items@.len() == 0,
            r.auto_create_direct_relations.is_none(),
            r.auto_create_start_nodes.is_none(),
            r.auto_create_end_nodes.is_none(),
            r.skip_on_version_conflict.is_none(),
            r.replace.is_none(),
    {
        Self {
            items: Vec::new(),
            auto_create_direct_relations: None,
            auto_create_start_nodes: None,
            auto_create_end_nodes: None,
            skip_on_version_conflict: None,
            replace: None,
        }
    }
}

/// Enum of instance types being created.
pub enum NodeOrEdgeCreate<TProperties> {
    /// Create a node.
    Node(NodeWrite<TProperties>),
    /// Create an edge.
    Edge(EdgeWrite<TProperties>),
}

/// Node to create.
pub struct NodeWrite<TProperties> {
    /// Node space.
    pub space: String,
    /// Node external ID.
    pub external_id: String,
    /// List of properties in various containers or views.
    pub sources: Option<Vec<EdgeOrNodeData<TProperties>>>,
    /// Fail the ingestion request if the node's version is greater than or
    /// equal to this value.
    pub existing_version: Option<i32>,
    /// Node type (direct relation).
    pub node_type: Option<InstanceId>,
}

/// Edge to create.
pub struct EdgeWrite<TProperties> {
    /// Edge space.
    pub space: String,
    /// Edge type (direct relation).
    pub edge_type: InstanceId,
    /// Edge external ID.
    pub external_id: String,
    /// Edge start node.
    pub start_node: InstanceId,
    /// Edge end node.
    pub end_node: InstanceId,
    /// List of properties in various containers or views.
    pub sources: Option<Vec<EdgeOrNodeData<TProperties>>>,
    /// Fail the ingestion request if the edge's version is greater than or
    /// equal to this value.
    pub existing_version: Option<i32>,
}

/// Data in a single container or view for an edge or a node.
pub struct EdgeOrNodeData<TProperties> {
    /// Reference to the container or view this data belongs to.
    pub source: SourceReference,
    /// Property values on the form `{ property_name: value, ... }`
    pub properties: TProperties,
}

/// Minimal representation of a node or edge.
pub enum SlimNodeOrEdge {
    /// Slim node
    Node(SlimNodeDefinition),
    /// Slim edge
    Edge(SlimEdgeDefinition),
}

/// Minimal representation of a node.
pub struct SlimNodeDefinition {
    /// Node space.
    pub space: String,
    /// Node version.
    pub version: i32,
    /// Whether the node was modified by this ingestion.
    pub was_modified: bool,
    /// Node external ID.
    pub external_id: String,
    /// Time this node was created, in milliseconds since epoch.
    pub created_time: Option<i64>,
    /// Time this node was last modified, in milliseconds since epoch.
    pub last_updated_time: Option<i64>,
}

/// Minimal representation of an edge.
pub struct SlimEdgeDefinition {
    /// Edge space.
    pub space: String,
    /// Edge version.
    pub version: i32,
    /// Whether the edge was modified by this ingestion.
    pub was_modified: bool,
    /// Edge external ID.
    pub external_id: String,
    /// Time this edge was created, in milliseconds since epoch.
    pub created_time: Option<i64>,
    /// Time this edge was last modified, in milliseconds since epoch.
    pub last_updated_time: Option<i64>,
}

/// Node or edge with properties.
pub enum NodeOrEdge<TProperties> {
    /// Full node.
    Node(NodeDefinition<TProperties>),
    /// Full edge.
    Edge(EdgeDefinition<TProperties>),
}

/// Representation of a node with properties.
pub struct NodeDefinition<TProperties> {
    /// Node space.
    pub space: String,
    /// Node version.
    pub version: i32,
    /// Node external ID.
    pub external_id: String,
    /// Node type.
    pub node_type: Option<InstanceId>,
    /// Time this node was created, in milliseconds since epoch.
    pub created_time: i64,
    /// Time this node was last modified, in milliseconds since epoch.
    pub last_updated_time: i64,
    /// Timestamp when the node was soft deleted; present in sync results only.
    pub deleted_time: Option<i64>,
    /// Node properties, by space and then by view or container; no key
    /// occurs twice at either level (see [`nested_distinct_keys`]).
    pub properties: Option<Vec<(String, Vec<(String, TProperties)>)>>,
}

/// Representation of an edge with properties.
pub struct EdgeDefinition<TProperties> {
    /// Edge space.
    pub space: String,
    /// Edge type.
    pub edge_type: InstanceId,
    /// Edge version.
    pub version: String,
    /// Edge external ID.
    pub external_id: String,
    /// Time this edge was created, in milliseconds since epoch.
    pub created_time: i64,
    /// Time this edge was last modified, in milliseconds since epoch.
    pub last_updated_time: i64,
    /// Edge start node.
    pub start_node: InstanceId,
    /// Edge end node.
    pub end_node: InstanceId,
    /// Timestamp when the edge was soft deleted; present in sync results only.
    pub deleted_time: Option<i64>,
    /// Edge properties, by space and then by view or container; no key
    /// occurs twice at either level (see [`nested_distinct_keys`]).
    pub properties: Option<Vec<(String, Vec<(String, TProperties)>)>>,
}

/// Request for retrieving nodes or edges by ID.
pub struct NodeAndEdgeRetrieveRequest {
    /// List of sources to include properties from.
    pub sources: Option<Vec<SourceReferenceInternal>>,
    /// List of node or edge IDs to retrieve.
    pub items: Vec<NodeOrEdgeSpecification>,
    /// Whether to include type information in the response.
    pub include_typing: Option<bool>,
}

/// Wrapped reference to a view.
pub struct SourceReferenceInternal {
    /// View ID.
    pub source: TaggedViewReference,
}

/// Response for retrieving nodes and edges.
pub struct NodeAndEdgeRetrieveResponse<TProperties> {
    /// Retrieved nodes and edges.
    pub items: Vec<NodeOrEdge<TProperties>>,
    /// Type information if requested.
    pub typing: Option<TypeInformation>,
}

/// ID of a node or an edge.
pub enum NodeOrEdgeSpecification {
    /// Node ID.
    Node(ItemId),
    /// Edge ID.
    Edge(ItemId),
}

/// Enum over instance types.
#[derive(Clone, Copy, PartialEq, Eq, Structural)]
pub enum InstanceType {
    /// Node instances.
    Node,
    /// Edge instances.
    Edge,
}

impl Default for InstanceType {
    /// Nodes.
    fn default() -> (r: Self)
        ensures
            r == InstanceType::Node,
    {
        InstanceType::Node
    }
}

/// Request for filtering instances.
pub struct FilterInstancesRequest {
    /// Whether to include type information in the response.
    pub include_typing: Option<bool>,
    /// List of sources to retrieve data from.
    pub sources: Option<Vec<SourceReferenceInternal>>,
    /// Type of instances to filter.
    pub instance_type: InstanceType,
    /// Optional cursor for pagination.
    pub cursor: Option<String>,
    /// Maximum number of instances to retrieve. Default 1000, maximum 1000.
    pub limit: Option<i32>,
    /// Optional list of properties to sort the result by.
    pub sort: Option<Vec<PropertySort>>,
    /// Optional filter.
    pub filter: Option<AdvancedFilter>,
}

impl SetCursor for FilterInstancesRequest {
    open spec fn with_cursor_spec(self, cursor: Option<String>) -> Self {
        FilterInstancesRequest { cursor, ..self }
    }

    fn set_cursor(&mut self, cursor: Option<String>) {
        self.cursor = cursor;
    }
}

/// Defintion of a property in type information.
pub struct TypePropertyDefinition {
    /// Whether the property is nullable.
    pub nullable: Option<bool>,
    /// Whether the property auto increments.
    pub auto_increment: Option<bool>,
    /// Property default value.
    pub default_value: Option<RawValue>,
    /// Description of the content and suggested use for this property.
    pub description: Option<String>,
    /// Readable property name.
    pub name: Option<String>,
    /// The data-type to use when storing the property.
    pub property_type: ViewCorePropertyType,
}

/// Type information: by space, by view or container, by property. Each
/// list stands for a map, in which no key occurs twice (see
/// [`distinct_keys`]).
pub struct TypeInformation(pub Vec<(String, Vec<(String, Vec<(String, TypePropertyDefinition)>)>)>);

/// The value of the first entry with key `key`, if any.
pub open spec fn lookup<T>(entries: Seq<(String, T)>, key: Seq<char>) -> Option<T>
    decreases entries.len(),
{
    if entries.len() == 0 {
        None
    } else if entries[0].0@ == key {
        Some(entries[0].1)
    } else {
        lookup(entries.drop_first(), key)
    }
}

/// Whether no key occurs twice in `entries`, as in a map.
pub open spec fn distinct_keys<T>(entries: Seq<(String, T)>) -> bool {
    forall|i: int, j: int|
        0 <= i < j < entries.len() ==> (#[trigger] entries[i]).0@ != (#[trigger] entries[j]).0@
}

/// Whether a list of lists holds no key twice, at either level: the
/// properties of an instance or a record, by space and then by view or
/// container, as the maps the API sends them in.
pub open spec fn nested_distinct_keys<T>(props: Seq<(String, Vec<(String, T)>)>) -> bool {
    &&& distinct_keys(props)
    &&& forall|i: int| 0 <= i < props.len() ==> distinct_keys((#[trigger] props[i]).1@)
}

/// Whether the properties of a node or an edge hold no key twice.
pub open spec fn instance_properties_wf<T>(value: NodeOrEdge<T>) -> bool {
    let properties = match value {
        NodeOrEdge::Node(n) => n.properties,
        NodeOrEdge::Edge(e) => e.properties,
    };
    match properties {
        Some(p) => nested_distinct_keys(p@),
        None => true,
    }
}

/// On a list whose keys are distinct, reading a key gives the one value
/// stored under it, and nothing where no entry has the key: the list is
/// read as the map it stands for, whatever the order of its entries.
pub proof fn lemma_lookup_distinct<T>(entries: Seq<(String, T)>, key: Seq<char>)
    requires
        distinct_keys(entries),
    ensures
        forall|i: int| 0 <= i < entries.len() && (#[trigger] entries[i]).0@ == key ==> lookup(entries, key) == Some(entries[i].1),
        lookup(entries, key).is_none() <==> forall|i: int| 0 <= i < entries.len() ==> (#[trigger] entries[i]).0@ != key,
    decreases entries.len(),
{
    if entries.len() > 0 {
        let rest = entries.drop_first();
        assert(distinct_keys(rest)) by {
            assert forall|i: int, j: int| 0 <= i < j < rest.len() implies (#[trigger] rest[i]).0@ != (#[trigger] rest[j]).0@ by {
                assert(rest[i] == entries[i + 1] && rest[j] == entries[j + 1]);
            }
        }
        lemma_lookup_distinct(rest, key);
        assert forall|i: int| 0 <= i < entries.len() && (#[trigger] entries[i]).0@ == key implies lookup(entries, key) == Some(entries[i].1) by {
            if i > 0 {
                assert(entries[0].0@ != entries[i].0@);
                assert(rest[i - 1] == entries[i]);
            }
        }
        if lookup(entries, key).is_none() {
            assert forall|i: int| 0 <= i < entries.len() implies (#[trigger] entries[i]).0@ != key by {
                if i > 0 {
                    assert(rest[i - 1] == entries[i]);
                }
            }
        }
        if forall|i: int| 0 <= i < entries.len() ==> (#[trigger] entries[i]).0@ != key {
            assert forall|i: int| 0 <= i < rest.len() implies (#[trigger] rest[i]).0@ != key by {
                assert(rest[i] == entries[i + 1]);
            }
        }
    }
}

pub(crate) fn lookup_entry<'a, T>(entries: &'a [(String, T)], key: &str) -> (r: Option<&'a T>)
    ensures
        match r {
            Some(v) => lookup(entries@, key@) == Some(*v),
            None => lookup(entries@, key@).is_none(),
        },
{
    let mut i: usize = 0;
    assert(entries@.skip(0) =~= entries@);
    while i < entries.len()
        invariant
            i <= entries@.len(),
            lookup(entries@, key@) == lookup(entries@.skip(i as int), key@),
        decreases entries@.len() - i,
    {
        assert(entries@.skip(i as int)[0] == entries@[i as int]);
        assert(entries@.skip(i as int).drop_first() =~= entries@.skip(i + 1));
        if str_equal(entries[i].0.as_str(), key) {
            return Some(&entries[i].1);
        }
        i = i + 1;
    }
    assert(entries@.skip(i as int).len() == 0);
    None
}

/// The definition of `property` of `view_or_container` in `space`, if any.
pub open spec fn property_info_of(
    info: Seq<(String, Vec<(String, Vec<(String, TypePropertyDefinition)>)>)>,
    space: Seq<char>,
    view_or_container: Seq<char>,
    property: Seq<char>,
) -> Option<TypePropertyDefinition> {
    match lookup(info, space) {
        Some(views) => match lookup(views@, view_or_container) {
            Some(props) => lookup(props@, property),
            None => None,
        },
        None => None,
    }
}

impl TypeInformation {
    /// No key occurs twice at any of the three levels.
    pub open spec fn wf(&self) -> bool {
        &&& distinct_keys(self.0@)
        &&& forall|i: int|
            0 <= i < self.0@.len() ==> nested_distinct_keys((#[trigger] self.0@[i]).1@)
    }

    /// The definition of `property` of `view_or_container` in `space`, or
    /// `None` where any of the three is not there.
    pub fn get_property_info(&self, space: &str, view_or_container: &str, property: &str) -> (r: Option<
        &TypePropertyDefinition,
    >)
        requires
            self.wf(),
        ensures
            match r {
                Some(d) => property_info_of(self.0@, space@, view_or_container@, property@) == Some(*d),
                None => property_info_of(self.0@, space@, view_or_container@, property@).is_none(),
            },
    {
        match lookup_entry(self.0.as_slice(), space) {
            Some(views) => match lookup_entry(views.as_slice(), view_or_container) {
                Some(props) => lookup_entry(props.as_slice(), property),
                None => None,
            },
            None => None,
        }
    }
}


/// Response when filtering instances.
pub struct InstancesFilterResponse<TProperties> {
    /// List of retrieved nodes and edges.
    pub items: Vec<NodeOrEdge<TProperties>>,
    /// Type information if requested.
    pub typing: Option<TypeInformation>,
    /// Cursor for pagination.
    pub next_cursor: Option<String>,
}

/// Requested aggregate on instances.
pub enum InstancesAggregate {
    /// Average of values of specified property.
    Avg {
        /// Numerical property to compute average of.
        property: String,
    },
    /// Number of items, or of non-null values of a property.
    Count {
        /// The property to count. If specified, counts non-null values.
        property: Option<String>,
    },
    /// Calculate the lowest value for a numerical property.
    Min {
        /// Numerical property to compute minimum value for.
        property: String,
    },
    /// Calculate the highest value for a numerical property.
    Max {
        /// Numerical proeprty to compute maximum value for.
        property: String,
    },
    /// Calculate the sum of values for a numerical property.
    Sum {
        /// Numerical property to compute sum for.
        property: String,
    },
    /// A histogram of the values of a property.
    Histogram {
        /// Numerical property to compute histogram for.
        property: String,
        /// Interval between each bucket, as the bits of an `f64`.
        interval: u64,
    },
}

/// Request for aggregating accross instances.
pub struct AggregateInstancesRequest {
    /// Optional query string, matched against text properties.
    pub query: Option<String>,
    /// Optional list of properties to apply the `query` to.
    pub properties: Option<Vec<String>>,
    /// Maximum number of results to return. The default is 100, maximum is 1000.
    pub limit: Option<i32>,
    /// List of aggregates to calculate.
    pub aggregates: Option<Vec<InstancesAggregate>>,
    /// The selection of fields to group the results by.
    pub group_by: Option<Vec<String>>,
    /// Optional filter on nodes or edges.
    pub filter: Option<AdvancedFilter>,
    /// Instance type to aggregate accross.
    pub instance_type: InstanceType,
    /// Reference to a view to query.
    pub view: TaggedViewReference,
}

/// Value of a group in an aggregate; a number is held as the bits of an
/// `f64`.
pub enum AggregateGroupValue {
    /// String value.
    String(String),
    /// Numerical value, as the bits of an `f64`.
    Number(u64),
    /// Boolean value.
    Boolean(bool),
}

/// Result of a numerical aggregate.
pub struct NumericAggregateResult {
    /// Aggregated property.
    pub property: String,
    /// Aggregate value, as the bits of an `f64`.
    pub value: u64,
}

/// Result of a count aggregate.
pub struct CountAggregateResult {
    /// Aggregated property.
    pub property: Option<String>,
    /// Aggregate value, as the bits of an `f64`.
    pub value: u64,
}

/// A single bucket in a histogram aggregate.
pub struct HistogramBucket {
    /// Start value of bucket, as the bits of an `f64`.
    pub start: u64,
    /// Number of values in bucket.
    pub count: u64,
}

/// Result item in instances aggregate response.
pub enum AggregateResult {
    /// Result of average aggregate.
    Avg(NumericAggregateResult),
    /// Result of min aggregate.
    Min(NumericAggregateResult),
    /// Result of max aggregate.
    Max(NumericAggregateResult),
    /// Result of count aggregate.
    Count(CountAggregateResult),
    /// Result of sum aggregate.
    Sum(NumericAggregateResult),
    /// Result of histogram aggregate.
    Histogram {
        /// Histogram interval, as the bits of an `f64`.
        interval: u64,
        /// Aggregate property.
        property: String,
        /// List of buckets with start and count.
        buckets: Vec<HistogramBucket>,
    },
}

/// Result item in instances aggregate response.
pub struct AggregateResultItem {
    /// Type of instance aggregated.
    pub instance_type: InstanceType,
    /// Value of group in aggregate, by property.
    pub group: Option<Vec<(String, AggregateGroupValue)>>,
    /// List of computed aggregates for this group.
    pub aggregates: Vec<AggregateResult>,
}

/// Result when aggregating instances.
pub struct AggregateInstancesResponse {
    /// Computed aggregates.
    pub items: Vec<AggregateResultItem>,
    /// Type information if requested.
    pub typing: Option<TypeInformation>,
}

/// Query for searching text fields for nodes or edges.
pub struct SearchInstancesRequest {
    /// View to search in.
    pub view: TaggedViewReference,
    /// Query string that will be parsed for search.
    pub query: Option<String>,
    /// Instance type to search.
    pub instance_type: InstanceType,
    /// List of properties to search through; all text fields when absent.
    pub properties: Option<Vec<String>>,
    /// Optional advanced filter.
    pub filter: Option<AdvancedFilter>,
    /// Maximum number of results to return. Default 1000, maximum 1000.
    pub limit: Option<i32>,
}

/// A node or edge named by its space and external ID.
pub struct SpaceExternalId {
    /// Space.
    pub space: String,
    /// External ID.
    pub external_id: String,
}

/// Request for one node or edge, by its type, external ID and space.
pub struct RetrieveInstancesRequest {
    /// Instance type, `node` or `edge`.
    pub instance_type: String,
    /// External ID.
    pub external_id: String,
    /// Space.
    pub space: String,
}

impl From<(String, String, String)> for RetrieveInstancesRequest {
    /// A request from the instance type, external ID and space, in that order.
    fn from(value: (String, String, String)) -> (r: Self)
        ensures
            r.instance_type == value.0,
            r.external_id == value.1,
            r.space == value.2,
    {
        let (instance_type, external_id, space) = value;
        RetrieveInstancesRequest { instance_type, external_id, space }
    }
}

impl vstd::std_specs::convert::FromSpecImpl<(String, String, String)> for RetrieveInstancesRequest {
    open spec fn obeys_from_spec() -> bool {
        true
    }

    open spec fn from_spec(value: (String, String, String)) -> RetrieveInstancesRequest {
        RetrieveInstancesRequest { instance_type: value.0, external_id: value.1, space: value.2 }
    }
}

} // verus!
