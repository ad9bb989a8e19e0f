//! Containers: where data modeling properties are stored.

use vstd::prelude::*;

use std::collections::HashMap;

use crate::filter::RawValue;
use crate::filter_types::SetCursor;
use crate::models::common::{
    CDFExternalIdReference, EnumProperty, PrimitiveProperty, TaggedContainerReference,
    TextProperty, UsedFor,
};
use crate::params::{
    lemma_named_values_add, lemma_named_values_param, named_values, opt_text, param, present,
    to_query, IntoParams,
};

verus! {

/// Property variants in containers.
pub enum ContainerPropertyType {
    /// Text property
    Text(TextProperty),
    /// Boolean property
    Boolean(PrimitiveProperty),
    /// 32-bit floating point property
    Float32(PrimitiveProperty),
    /// 64-bit floating point property
    Float64(PrimitiveProperty),
    /// 32-bit integer property.
    Int32(PrimitiveProperty),
    /// 64-bit integer property.
    Int64(PrimitiveProperty),
    /// Timestamp property.
    Timestamp(PrimitiveProperty),
    /// Date property.
    Date(PrimitiveProperty),
    /// JSON property.
    Json(PrimitiveProperty),
    /// Time series reference property.
    Timeseries(CDFExternalIdReference),
    /// File reference property.
    File(CDFExternalIdReference),
    /// Sequence reference property.
    Sequence(CDFExternalIdReference),
    /// Node reference property.
    Direct(DirectNodeRelationType),
    /// Enum property.
    Enum(EnumProperty),
}

/// Constraints for a property that is a reference to a node.
pub struct DirectNodeRelationType {
    /// Container the referenced node must be in.
    pub container: Option<TaggedContainerReference>,
}

/// Constraint on a container.
pub enum ContainerConstraint {
    /// A node or edge with values in this container must also have values
    /// in another container.
    Requires {
        /// Required container
        require: TaggedContainerReference,
    },
    /// The given properties must contain only unique sets of values.
    Uniqueness {
        /// Properties in constraint
        properties: Vec<String>,
    },
}

/// Index on a container.
pub enum ContainerIndex {
    /// BTree index on a set of properties
    Btree {
        /// List of properties in index.
        properties: Vec<String>,
        /// Whether it should be possible to paginate on this cursor.
        cursorable: Option<bool>,
    },
    /// Inverted index on a set of properties.
    Inverted {
        /// Properties in index.
        properties: Vec<String>,
    },
}

/// Definition for a container property
pub struct ContainerPropertyDefinition {
    /// Whether this property is nullable, default `true`
    pub nullable: Option<bool>,
    /// Whether this property auto-increments.
    pub auto_increment: Option<bool>,
    /// Default value of this property.
    pub default_value: Option<RawValue>,
    /// Property description.
    pub description: Option<String>,
    /// Property name.
    pub name: Option<String>,
    /// Property type.
    pub property_type: ContainerPropertyType,
}

/// Create a container.
pub struct ContainerCreate {
    /// Container space.
    pub space: String,
    /// Container external ID.
    pub external_id: String,
    /// Container name.
    pub name: Option<String>,
    /// Container description.
    pub description: Option<String>,
    /// Whether this container can be used for nodes, edges, or both.
    pub used_for: Option<UsedFor>,
    /// Properties in this container.
    pub properties: HashMap<String, ContainerPropertyDefinition>,
    /// Container constraints.
    pub constraints: HashMap<String, ContainerConstraint>,
    /// Container indexes.
    pub indexes: HashMap<String, ContainerIndex>,
}

/// Data modeling container.
pub struct ContainerDefinition {
    /// Container space.
    pub space: String,
    /// Container external ID.
    pub external_id: String,
    /// Container name.
    pub name: Option<String>,
    /// Container description.
    pub description: Option<String>,
    /// Whether this container can be used for nodes, edges, or both.
    pub used_for: Option<UsedFor>,
    /// Properties in this container.
    pub properties: HashMap<String, ContainerPropertyDefinition>,
    /// Container constraints.
    pub constraints: HashMap<String, ContainerConstraint>,
    /// Container indexes.
    pub indexes: HashMap<String, ContainerIndex>,
    /// Time this container was created, in milliseconds since epoch.
    pub created_time: i64,
    /// Time this container was last updated, in milliseconds since epoch.
    pub last_updated_time: i64,
    /// Whether this is a global container
    pub is_global: bool,
}

impl From<ContainerDefinition> for ContainerCreate {
    fn from(value: ContainerDefinition) -> (r: Self)
        ensures
            r.space == value.space,
            r.external_id == value.external_id,
            r.name == value.name,
            r.description == value.description,
            r.used_for == value.used_for,
            r.properties == value.properties,
            r.constraints == value.constraints,
            r.indexes == value.indexes,
    {
        Self {
            space: value.space,
            external_id: value.external_id,
            name: value.name,
            description: value.description,
            used_for: value.used_for,
            properties: value.properties,
            constraints: value.constraints,
            indexes: value.indexes,
        }
    }
}

impl vstd::std_specs::convert::FromSpecImpl<ContainerDefinition> for ContainerCreate {
    open spec fn obeys_from_spec() -> bool {
        true
    }

    /// The creation form keeps everything but the timestamps and whether the
    /// container is global.
    open spec fn from_spec(value: ContainerDefinition) -> ContainerCreate {
        ContainerCreate {
            space: value.space,
            external_id: value.external_id,
            name: value.name,
            description: value.description,
            used_for: value.used_for,
            properties: value.properties,
            constraints: value.constraints,
            indexes: value.indexes,
        }
    }
}

/// ID of a container index or constraint.
pub struct ContainerComponentId {
    /// Container space
    pub space: String,
    /// Container external ID.
    pub container_external_id: String,
    /// Index or constraint identifier.
    pub identifier: String,
}

/// Query for listing containers.
pub struct ContainerQuery {
    /// Maximum number of containers in the result.
    pub limit: Option<i32>,
    /// Optional cursor for pagination.
    pub cursor: Option<String>,
    /// Filter on container space.
    pub space: Option<String>,
    /// Include global containers.
    pub include_global: Option<bool>,
}

impl IntoParams for ContainerQuery {
    /// Limit, cursor, space and whether to include global containers, each when set.
    open spec fn params_spec(self) -> Seq<(Seq<char>, Seq<char>)> {
        param("limit"@, opt_text(self.limit)) + param("cursor"@, opt_text(self.cursor)) + param(
            "space"@,
            opt_text(self.space),
        ) + param("includeGlobal"@, opt_text(self.include_global))
    }

    fn into_params(self) -> (r: Vec<(String, String)>) {
        let mut params: Vec<(String, String)> = Vec::new();
        assert(params.deep_view() =~= Seq::<(Seq<char>, Seq<char>)>::empty());
        to_query("limit", &self.limit, &mut params);
        to_query("cursor", &self.cursor, &mut params);
        to_query("space", &self.space, &mut params);
        to_query("includeGlobal", &self.include_global, &mut params);
        assert(params.deep_view() =~= self.params_spec());
        params
    }
}

/// Each query parameter of a container query carries the text of the field it is
/// named after: a field that is set gives exactly one pair under its own
/// name, holding the field's text, and a field that is not set gives none.
pub proof fn lemma_container_query_params(q: ContainerQuery)
    ensures
        named_values(q.params_spec(), "limit"@) == present(opt_text(q.limit)),
        named_values(q.params_spec(), "cursor"@) == present(opt_text(q.cursor)),
        named_values(q.params_spec(), "space"@) == present(opt_text(q.space)),
        named_values(q.params_spec(), "includeGlobal"@) == present(opt_text(q.include_global)),
{
    broadcast use lemma_named_values_add, lemma_named_values_param, Seq::add_empty_left, Seq::add_empty_right;

    reveal_strlit("limit");
    reveal_strlit("cursor");
    reveal_strlit("space");
    reveal_strlit("includeGlobal");
    assert("limit"@.len() == 5);
    assert("cursor"@.len() == 6);
    assert("space"@.len() == 5);
    assert("includeGlobal"@.len() == 13);
    assert("limit"@[0] != "space"@[0]);
}

impl SetCursor for ContainerQuery {
    open spec fn with_cursor_spec(self, cursor: Option<String>) -> Self {
        ContainerQuery { cursor, ..self }
    }

    fn set_cursor(&mut self, cursor: Option<String>) {
        self.cursor = cursor;
    }
}

} // verus!
