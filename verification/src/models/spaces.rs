//! Spaces.

use vstd::prelude::*;

use crate::filter_types::SetCursor;
use crate::params::{
    lemma_named_values_add, lemma_named_values_param, named_values, opt_text, param, present,
    to_query, IntoParams,
};

verus! {

/// Object used to create a space.
pub struct SpaceCreate {
    /// Space ID, must be unique. A few spaces are reserved: `space`, `cdf`,
    /// `dms`, `pg3`, `shared`, `system`, `node`, `edge`.
    pub space: String,
    /// Space description.
    pub description: Option<String>,
    /// Human readable space name.
    pub name: Option<String>,
}

/// Description of a data modeling space.
pub struct Space {
    /// Space ID, must be unique.
    pub space: String,
    /// Space description.
    pub description: Option<String>,
    /// Human readable space name.
    pub name: Option<String>,
    /// Time this space was created, in milliseconds since epoch.
    pub created_time: i64,
    /// Time this space was last modified, in milliseconds since epoch.
    pub last_updated_time: i64,
    /// Whether this space is a global space.
    pub is_global: bool,
}

/// Query for listing spaces.
pub struct SpaceQuery {
    /// Maximum number of spaces in the result.
    pub limit: Option<i32>,
    /// Optional cursor for pagination.
    pub cursor: Option<String>,
    /// Include global spaces.
    pub include_global: Option<bool>,
}

impl IntoParams for SpaceQuery {
    /// Limit, cursor and whether to include global spaces, each when set.
    open spec fn params_spec(self) -> Seq<(Seq<char>, Seq<char>)> {
        param("limit"@, opt_text(self.limit)) + param("cursor"@, opt_text(self.cursor)) + param(
            "includeGlobal"@,
            opt_text(self.include_global),
        )
    }

    fn into_params(self) -> (r: Vec<(String, String)>) {
        let mut params: Vec<(String, String)> = Vec::new();
        assert(params.deep_view() =~= Seq::<(Seq<char>, Seq<char>)>::empty());
        to_query("limit", &self.limit, &mut params);
        to_query("cursor", &self.cursor, &mut params);
        to_query("includeGlobal", &self.include_global, &mut params);
        assert(params.deep_view() =~= self.params_spec());
        params
    }
}

/// Each query parameter of a space query carries the text of the field it is
/// named after: a field that is set gives exactly one pair under its own
/// name, holding the field's text, and a field that is not set gives none.
pub proof fn lemma_space_query_params(q: SpaceQuery)
    ensures
        named_values(q.params_spec(), "limit"@) == present(opt_text(q.limit)),
        named_values(q.params_spec(), "cursor"@) == present(opt_text(q.cursor)),
        named_values(q.params_spec(), "includeGlobal"@) == present(opt_text(q.include_global)),
{
    broadcast use lemma_named_values_add, lemma_named_values_param, Seq::add_empty_left, Seq::add_empty_right;

    reveal_strlit("limit");
    reveal_strlit("cursor");
    reveal_strlit("includeGlobal");
    assert("limit"@.len() == 5);
    assert("cursor"@.len() == 6);
    assert("includeGlobal"@.len() == 13);
}

impl SetCursor for SpaceQuery {
    open spec fn with_cursor_spec(self, cursor: Option<String>) -> Self {
        SpaceQuery { cursor, ..self }
    }

    fn set_cursor(&mut self, cursor: Option<String>) {
        self.cursor = cursor;
    }
}

} // verus!
