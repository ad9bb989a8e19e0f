//! Groups.

use vstd::prelude::*;

use std::collections::HashMap;

use crate::params::{opt_text, param, to_query, IntoParams};

verus! {

/// A CDF group.
pub struct Group {
    /// Internal ID.
    pub id: u64,
    /// Human readable name.
    pub name: String,
    /// ID of the group in the source IdP.
    pub source_id: Option<String>,
    /// Group capabilities object.
    pub capabilities: serde_json::Value,
    /// Whether this group is deleted.
    pub is_deleted: bool,
    /// Time this group was deleted.
    pub deleted_time: Option<i64>,
    /// Custom, immutable application specific metadata. String key -> String value.
    pub metadata: Option<HashMap<String, String>>,
}

#[derive(Clone)]
/// Create a CDF group.
pub struct AddGroup {
    /// Human readable name.
    pub name: String,
    /// ID of the group in the source IdP.
    pub source_id: Option<String>,
    /// Group capabilities object.
    pub capabilities: serde_json::Value,
    /// Custom, immutable application specific metadata. String key -> String value.
    pub metadata: Option<HashMap<String, String>>,
}

impl From<Group> for AddGroup {
    fn from(value: Group) -> (r: Self)
        ensures
            r.name == value.name,
            r.source_id == value.source_id,
            r.capabilities == value.capabilities,
            r.metadata == value.metadata,
    {
        Self {
            name: value.name,
            source_id: value.source_id,
            capabilities: value.capabilities,
            metadata: value.metadata,
        }
    }
}

impl vstd::std_specs::convert::FromSpecImpl<Group> for AddGroup {
    open spec fn obeys_from_spec() -> bool {
        true
    }

    /// The creation form keeps name, source ID, capabilities and metadata.
    open spec fn from_spec(value: Group) -> AddGroup {
        AddGroup {
            name: value.name,
            source_id: value.source_id,
            capabilities: value.capabilities,
            metadata: value.metadata,
        }
    }
}

/// Query for groups.
pub struct GroupQuery {
    /// Include all groups, or just groups for the current user.
    pub all: Option<bool>,
}

impl IntoParams for GroupQuery {
    /// `all` when it is set.
    open spec fn params_spec(self) -> Seq<(Seq<char>, Seq<char>)> {
        param("all"@, opt_text(self.all))
    }

    fn into_params(self) -> (r: Vec<(String, String)>) {
        let mut params: Vec<(String, String)> = Vec::new();
        assert(params.deep_view() =~= Seq::<(Seq<char>, Seq<char>)>::empty());
        to_query("all", &self.all, &mut params);
        assert(params.deep_view() =~= self.params_spec());
        params
    }
}

} // verus!
