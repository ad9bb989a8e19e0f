//! Views: named, versioned projections of container properties.
//!
//! The properties of a view are held as a list of `(identifier, property)`
//! pairs, in which no identifier occurs twice; a view is turned into its
//! creation form property by property.

use vstd::prelude::*;

use crate::filter::{AdvancedFilter, RawValue};
use crate::filter_types::SetCursor;
use crate::models::common::{
    CDFExternalIdReference, PrimitiveProperty, SourceReference, TaggedContainerReference,
    TaggedViewReference, TextProperty, UsedFor,
};
use crate::models::instances::InstanceId;
use crate::models::query::{QueryDirection, ViewPropertyReference};
use crate::params::{
    lemma_named_values_add, lemma_named_values_param, named_values, opt_text, param, present,
    to_query, IntoParams,
};

verus! {

/// Reference to a view.
pub struct ViewReference {
    /// Space ID.
    pub space: String,
    /// View external ID.
    pub external_id: String,
    /// View version.
    pub version: String,
}

impl Clone for ViewReference {
    fn clone(&self) -> (r: Self)
        ensures
            r == *self,
    {
        ViewReference {
            space: self.space.clone(),
            external_id: self.external_id.clone(),
            version: self.version.clone(),
        }
    }
}

/// Query for listing views.
pub struct ViewQuery {
    /// Maximum number of views to return. Default 10, maximum 1000.
    pub limit: Option<i32>,
    /// Optional cursor for pagination.
    pub cursor: Option<String>,
    /// Filter on view space.
    pub space: Option<String>,
    /// Include properties inherited from views each view implements.
    pub include_inherited_properties: Option<bool>,
    /// Whether to include all versions of the view, or just the latest.
    pub all_versions: Option<bool>,
    /// Whether to include global views.
    pub include_global: Option<bool>,
}

impl IntoParams for ViewQuery {
    /// Limit, cursor, space, whether to include inherited properties,
    /// whether to include all versions and whether to include global views,
    /// each when set.
    open spec fn params_spec(self) -> Seq<(Seq<char>, Seq<char>)> {
        param("limit"@, opt_text(self.limit)) + param("cursor"@, opt_text(self.cursor)) + param(
            "space"@,
            opt_text(self.space),
        ) + param("includeInheritedProperties"@, opt_text(self.include_inherited_properties))
            + param("allVersions"@, opt_text(self.all_versions)) + param(
            "includeGlobal"@,
            opt_text(self.include_global),
        )
    }

    fn into_params(self) -> (r: Vec<(String, String)>) {
        let mut params: Vec<(String, String)> = Vec::new();
        assert(params.deep_view() =~= Seq::<(Seq<char>, Seq<char>)>::empty());
        to_query("limit", &self.limit, &mut params);
        to_query("cursor", &self.cursor, &mut params);
        to_query("space", &self.space, &mut params);
        to_query("includeInheritedProperties", &self.include_inherited_properties, &mut params);
        to_query("allVersions", &self.all_versions, &mut params);
        to_query("includeGlobal", &self.include_global, &mut params);
        assert(params.deep_view() =~= self.params_spec());
        params
    }
}

/// Each query parameter of a view query carries the text of the field it is
/// named after: a field that is set gives exactly one pair under its own
/// name, holding the field's text, and a field that is not set gives none.
pub proof fn lemma_view_query_params(q: ViewQuery)
    ensures
        named_values(q.params_spec(), "limit"@) == present(opt_text(q.limit)),
        named_values(q.params_spec(), "cursor"@) == present(opt_text(q.cursor)),
        named_values(q.params_spec(), "space"@) == present(opt_text(q.space)),
        named_values(q.params_spec(), "includeInheritedProperties"@) == present(opt_text(q.include_inherited_properties)),
        named_values(q.params_spec(), "allVersions"@) == present(opt_text(q.all_versions)),
        named_values(q.params_spec(), "includeGlobal"@) == present(opt_text(q.include_global)),
{
    broadcast use lemma_named_values_add, lemma_named_values_param, Seq::add_empty_left, Seq::add_empty_right;

    reveal_strlit("limit");
    reveal_strlit("cursor");
    reveal_strlit("space");
    reveal_strlit("includeInheritedProperties");
    reveal_strlit("allVersions");
    reveal_strlit("includeGlobal");
    assert("limit"@.len() == 5);
    assert("cursor"@.len() == 6);
    assert("space"@.len() == 5);
    assert("includeInheritedProperties"@.len() == 26);
    assert("allVersions"@.len() == 11);
    assert("includeGlobal"@.len() == 13);
    assert("limit"@[0] != "space"@[0]);
}

impl SetCursor for ViewQuery {
    open spec fn with_cursor_spec(self, cursor: Option<String>) -> Self {
        ViewQuery { cursor, ..self }
    }

    fn set_cursor(&mut self, cursor: Option<String>) {
        self.cursor = cursor;
    }
}

/// Create a view or reference an existing view.
pub enum ViewCreateOrReference {
    /// Create a new view.
    Create(ViewCreateDefinition),
    /// Reference an existing view.
    Reference(ViewReference),
}

/// A reference to an existing view, or the definition of a view.
pub enum ViewDefinitionOrReference {
    /// Definition of a view.
    Definition(ViewDefinition),
    /// Reference to an existing view.
    Reference(ViewReference),
}

/// Create a new view.
pub struct ViewCreateDefinition {
    /// External ID identifying this view.
    pub external_id: String,
    /// Space this view belongs to.
    pub space: String,
    /// Human readable name for the view.
    pub name: Option<String>,
    /// Description of the content and use of this view.
    pub description: Option<String>,
    /// Filter for instances included in this view.
    pub filter: Option<AdvancedFilter>,
    /// List of views this view implements.
    pub implements: Option<Vec<ViewReference>>,
    /// Whether this view should be used for nodes, edges, or both.
    pub used_for: Option<UsedFor>,
    /// View version.
    pub version: String,
    /// Properties and connections of this view, by identifier.
    pub properties: Vec<(String, CreateViewPropertyOrConnectionDefinition)>,
}

/// New view property or definition of a connection.
pub enum CreateViewPropertyOrConnectionDefinition {
    /// New view property referencing a container.
    CreateViewProperty(CreateViewProperty),
    /// Connection referencing a view.
    ConnectionDefinition(ConnectionDefinition),
}

/// Create a new view property.
pub struct CreateViewProperty {
    /// Human readable property name.
    pub name: Option<String>,
    /// Description of content and suggested use for this property.
    pub description: Option<String>,
    /// Reference to an existing container.
    pub container: TaggedContainerReference,
    /// The identifier of the property in the referenced container.
    pub container_property_identifier: String,
    /// Indicates what type a referenced direct relation is expected to be.
    pub source: Option<SourceReference>,
}

/// Definition of a connection going through an edge.
pub struct EdgeConnection {
    /// Readable connection name.
    pub name: Option<String>,
    /// Description of the connection.
    pub description: Option<String>,
    /// Reference to the node pointed to by the edge type.
    pub edge_type: InstanceId,
    /// Direction of the connection. Defaults to `outwards`.
    pub direction: Option<QueryDirection>,
    /// Which view this connection references.
    pub source: TaggedViewReference,
    /// Which view the edges of this connection belong to.
    pub edge_source: Option<TaggedViewReference>,
}

/// Connection to a view through a reverse direct relation.
pub struct ReverseDirectRelationConnection {
    /// Readable connection name.
    pub name: Option<String>,
    /// Description of the connection.
    pub description: Option<String>,
    /// Which view this connection references.
    pub source: TaggedViewReference,
    /// Which property this connection uses.
    pub through: ViewPropertyReference,
}

/// Definition of a connection: edges or reverse direct relations that are
/// expected to exist.
pub enum ConnectionDefinition {
    /// A single edge is expected to exist.
    SingleEdgeConnection(EdgeConnection),
    /// Multiple edges are expected to exist.
    MultiEdgeConnection(EdgeConnection),
    /// A single reverse direct relation is expected to exist.
    SingleReverseDirectRelation(ReverseDirectRelationConnection),
    /// Multiple reverse direct relations are expected to exist.
    MultiReverseDirectRelation(ReverseDirectRelationConnection),
}

/// Definition of a view.
pub struct ViewDefinition {
    /// View external ID.
    pub external_id: String,
    /// View space.
    pub space: String,
    /// Human readable name.
    pub name: Option<String>,
    /// Description for contents and intended use of view.
    pub description: Option<String>,
    /// Filter for instances in view.
    pub filter: Option<AdvancedFilter>,
    /// List of views this view implements.
    pub implements: Option<Vec<ViewReference>>,
    /// Version of view.
    pub version: String,
    /// Time this view was created, in milliseconds since epoch.
    pub created_time: i64,
    /// Time this view was last modified, in milliseconds since epoch.
    pub last_updated_time: i64,
    /// Whether this view can be written to, i.e. it maps all non-nullable properties.
    pub writable: bool,
    /// Whether this view can be used for nodes, edges, or both.
    pub used_for: UsedFor,
    /// Properties and connections in this view, by identifier.
    pub properties: Vec<(String, ViewDefinitionProperties)>,
}

/// Properties in a view definition.
pub enum ViewDefinitionProperties {
    /// A view property referencing a property in a container.
    ViewCorePropertyDefinition(ViewCorePropertyDefinition),
    /// A connection to a view.
    ConnectionDefinition(ConnectionDefinition),
}

/// Definition of a view property.
pub struct ViewCorePropertyDefinition {
    /// Whether the property value is optional.
    pub nullable: Option<bool>,
    /// Whether the property value auto-increments.
    pub auto_increment: Option<bool>,
    /// Default value of the property.
    pub default_value: Option<RawValue>,
    /// Description of the content and suggested use for this property.
    pub description: Option<String>,
    /// Human readable property name.
    pub name: Option<String>,
    /// Property type.
    pub property_type: ViewCorePropertyType,
    /// Container reference.
    pub container: TaggedContainerReference,
    /// Unique identifier within the referenced container.
    pub container_property_identifier: String,
}

/// View property type.
pub enum ViewCorePropertyType {
    /// Text property
    Text(TextProperty),
    /// Boolean property.
    Boolean(PrimitiveProperty),
    /// 32 bit floating point property.
    Float32(PrimitiveProperty),
    /// 64 bit floating point property.
    Float64(PrimitiveProperty),
    /// 32 bit integer property.
    Int32(PrimitiveProperty),
    /// 64 bit integer property.
    Int64(PrimitiveProperty),
    /// Timestamp property.
    Timestamp(PrimitiveProperty),
    /// Date property.
    Date(PrimitiveProperty),
    /// JSON object property.
    Json(PrimitiveProperty),
    /// Reference to a CDF timeseries.
    Timeseries(CDFExternalIdReference),
    /// Reference to a CDF file.
    File(CDFExternalIdReference),
    /// Reference to a CDF sequence.
    Sequence(CDFExternalIdReference),
    /// Direct relation to a node.
    Direct(ViewDirectNodeRelation),
}

/// Direct node relation type, with a hint of the view it points to.
pub struct ViewDirectNodeRelation {
    /// The required type for the node the direct relation points to.
    pub container: Option<TaggedContainerReference>,
    /// Hint showing the view that the direct relation points to.
    pub source: Option<TaggedViewReference>,
}

/// The creation form of a view property: its name, description and
/// container property; no source hint.
pub open spec fn create_view_property_of(value: ViewCorePropertyDefinition) -> CreateViewProperty {
    CreateViewProperty {
        name: value.name,
        description: value.description,
        container: value.container,
        container_property_identifier: value.container_property_identifier,
        source: None,
    }
}

impl From<ViewCorePropertyDefinition> for CreateViewProperty {
    fn from(value: ViewCorePropertyDefinition) -> (r: Self)
        ensures
            r.name == value.name,
            r.description == value.description,
            r.container == value.container,
            r.container_property_identifier == value.container_property_identifier,
            r.source is None,
    {
        Self {
            name: value.name,
            description: value.description,
            container: value.container,
            container_property_identifier: value.container_property_identifier,
            source: None,
        }
    }
}

impl vstd::std_specs::convert::FromSpecImpl<ViewCorePropertyDefinition> for CreateViewProperty {
    open spec fn obeys_from_spec() -> bool {
        true
    }

    open spec fn from_spec(value: ViewCorePropertyDefinition) -> CreateViewProperty {
        create_view_property_of(value)
    }
}

/// The creation form of a view property or connection: a property becomes
/// its creation form, a connection stays as it is.
pub open spec fn create_property_of(value: ViewDefinitionProperties) -> CreateViewPropertyOrConnectionDefinition {
    match value {
        ViewDefinitionProperties::ViewCorePropertyDefinition(p) => {
            CreateViewPropertyOrConnectionDefinition::CreateViewProperty(create_view_property_of(p))
        },
        ViewDefinitionProperties::ConnectionDefinition(d) => {
            CreateViewPropertyOrConnectionDefinition::ConnectionDefinition(d)
        },
    }
}

impl From<ViewDefinitionProperties> for CreateViewPropertyOrConnectionDefinition {
    fn from(value: ViewDefinitionProperties) -> (r: Self) {
        match value {
            ViewDefinitionProperties::ViewCorePropertyDefinition(p) => Self::CreateViewProperty(
                CreateViewProperty::from(p),
            ),
            ViewDefinitionProperties::ConnectionDefinition(d) => Self::ConnectionDefinition(d),
        }
    }
}

impl vstd::std_specs::convert::FromSpecImpl<ViewDefinitionProperties> for CreateViewPropertyOrConnectionDefinition {
    open spec fn obeys_from_spec() -> bool {
        true
    }

    open spec fn from_spec(value: ViewDefinitionProperties) -> CreateViewPropertyOrConnectionDefinition {
        create_property_of(value)
    }
}

/// The properties of a view in creation form: the same identifiers, in
/// order, each with its property in creation form.
pub open spec fn create_properties_of(
    props: Seq<(String, ViewDefinitionProperties)>,
) -> Seq<(String, CreateViewPropertyOrConnectionDefinition)> {
    props.map_values(|p: (String, ViewDefinitionProperties)| (p.0, create_property_of(p.1)))
}

/// Turning a view's properties into their creation form keeps every
/// identifier, in order, and turns each property on its own.
pub proof fn lemma_create_properties_keep_identifiers(props: Seq<(String, ViewDefinitionProperties)>)
    ensures
        create_properties_of(props).len() == props.len(),
        forall|k: int|
            0 <= k < props.len() ==> #[trigger] create_properties_of(props)[k] == (
                props[k].0,
                create_property_of(props[k].1),
            ),
{
}

/// The properties of a view in creation form (see [`create_properties_of`]).
pub fn create_properties(props: Vec<(String, ViewDefinitionProperties)>) -> (r: Vec<
    (String, CreateViewPropertyOrConnectionDefinition),
>)
    ensures
        r@ == create_properties_of(props@),
{
    let ghost all = props@;
    let mut source = props;
    let mut out: Vec<(String, CreateViewPropertyOrConnectionDefinition)> = Vec::new();
    while source.len() > 0
        invariant
            out@.len() + source@.len() == all.len(),
            source@ == all.skip(out@.len() as int),
            out@ =~= create_properties_of(all.take(out@.len() as int)),
        decreases source@.len(),
    {
        let ghost n: int = out@.len() as int;
        let (key, value) = source.remove(0);
        assert((key, value) == all[n]);
        out.push((key, CreateViewPropertyOrConnectionDefinition::from(value)));
        assert(all.take(n + 1) =~= all.take(n).push(all[n]));
        assert(source@ =~= all.skip(n + 1));
    }
    assert(all.take(all.len() as int) =~= all);
    out
}

/// Whether `r` is the creation form of the view `value`: the same
/// identification, description, filter and implemented views, the use made
/// explicit, and each property in creation form.
pub open spec fn is_view_create_of(value: ViewDefinition, r: ViewCreateDefinition) -> bool {
    &&& r.external_id == value.external_id
    &&& r.space == value.space
    &&& r.name == value.name
    &&& r.description == value.description
    &&& r.implements == value.implements
    &&& r.version == value.version
    &&& r.used_for == Some(value.used_for)
    &&& r.filter == value.filter
    &&& r.properties@ == create_properties_of(value.properties@)
}

impl From<ViewDefinition> for ViewCreateDefinition {
    fn from(value: ViewDefinition) -> (r: Self)
        ensures
            is_view_create_of(value, r),
            r.external_id == value.external_id,
            r.space == value.space,
            r.name == value.name,
            r.description == value.description,
            r.implements == value.implements,
            r.version == value.version,
            r.used_for == Some(value.used_for),
            r.filter == value.filter,
            r.properties@ == create_properties_of(value.properties@),
    {
        let ghost v = value;
        let properties = create_properties(value.properties);
        Self {
            external_id: value.external_id,
            space: value.space,
            name: value.name,
            description: value.description,
            implements: value.implements,
            version: value.version,
            used_for: Some(value.used_for),
            filter: value.filter,
            properties,
        }
    }
}

impl vstd::std_specs::convert::FromSpecImpl<ViewDefinition> for ViewCreateDefinition {
    /// What `from` gives is stated by its own `ensures` (see
    /// [`is_view_create_of`]): the new list of properties is known by its
    /// contents.
    open spec fn obeys_from_spec() -> bool {
        false
    }

    open spec fn from_spec(value: ViewDefinition) -> ViewCreateDefinition {
        vstd::pervasive::arbitrary()
    }
}

/// Whether `r` is the creation form of `value`: a definition becomes its
/// creation form, a reference stays as it is.
pub open spec fn is_view_create_or_reference_of(value: ViewDefinitionOrReference, r: ViewCreateOrReference) -> bool {
    match value {
        ViewDefinitionOrReference::Definition(x) => r matches ViewCreateOrReference::Create(c)
            && is_view_create_of(x, c),
        ViewDefinitionOrReference::Reference(x) => r == ViewCreateOrReference::Reference(x),
    }
}

impl From<ViewDefinitionOrReference> for ViewCreateOrReference {
    fn from(value: ViewDefinitionOrReference) -> (r: Self)
        ensures
            is_view_create_or_reference_of(value, r),
    {
        match value {
            ViewDefinitionOrReference::Definition(x) => Self::Create(ViewCreateDefinition::from(x)),
            ViewDefinitionOrReference::Reference(x) => Self::Reference(x),
        }
    }
}

impl vstd::std_specs::convert::FromSpecImpl<ViewDefinitionOrReference> for ViewCreateOrReference {
    /// What `from` gives is stated by its own `ensures` (see
    /// [`is_view_create_or_reference_of`]).
    open spec fn obeys_from_spec() -> bool {
        false
    }

    open spec fn from_spec(value: ViewDefinitionOrReference) -> ViewCreateOrReference {
        vstd::pervasive::arbitrary()
    }
}

} // verus!
