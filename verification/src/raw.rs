//! Raw: databases, tables, rows, and the query parameters of their requests.

use vstd::prelude::*;

use crate::filter_types::SetCursor;
use crate::identity::join_commas;
use crate::params::{
    join_with_commas, lemma_named_values_add, lemma_named_values_param, named_values, opt_text,
    param, present, to_query, IntoParams,
};

verus! {

/// A raw database
pub struct Database {
    /// Raw database name
    pub name: String,
}

/// Request for deleting raw databases.
pub struct DeleteDatabasesRequest {
    /// List of databases to delete.
    pub items: Vec<Database>,
    /// Whether to allow deleting databases with tables in them.
    pub recursive: bool,
}

/// A raw table.
pub struct Table {
    /// Raw table name.
    pub name: String,
}

/// A raw row.
pub struct RawRow {
    /// Raw row key.
    pub key: String,
    /// Raw row columns
    pub columns: serde_json::Value,
    /// When this column was last updated, in milliseconds since epoch.
    pub last_updated_time: i64,
}

/// Create a raw row.
pub struct RawRowCreate {
    /// Raw row key.
    pub key: String,
    /// Raw row columns.
    pub columns: serde_json::Value,
}

/// Delete a raw row.
pub struct DeleteRow {
    /// Raw row key.
    pub key: String,
}

/// Query for retrieving cursors for parallel read.
pub struct RetrieveCursorsQuery {
    /// Minimum last updated time, in milliseconds since epoch.
    pub min_last_updated_time: Option<i64>,
    /// Maximum last updated time, in milliseconds since epoch.
    pub max_last_updated_time: Option<i64>,
    /// Requested number of cursors.
    pub number_of_cursors: Option<i32>,
}

impl IntoParams for RetrieveCursorsQuery {
    /// One pair for each field that is set.
    open spec fn params_spec(self) -> Seq<(Seq<char>, Seq<char>)> {
        param("minLastUpdatedTime"@, opt_text(self.min_last_updated_time)) + param(
            "maxLastUpdatedTime"@,
            opt_text(self.max_last_updated_time),
        ) + param("numberOfCursors"@, opt_text(self.number_of_cursors))
    }

    fn into_params(self) -> (r: Vec<(String, String)>) {
        let mut params: Vec<(String, String)> = Vec::new();
        assert(params.deep_view() =~= Seq::<(Seq<char>, Seq<char>)>::empty());
        to_query("minLastUpdatedTime", &self.min_last_updated_time, &mut params);
        to_query("maxLastUpdatedTime", &self.max_last_updated_time, &mut params);
        to_query("numberOfCursors", &self.number_of_cursors, &mut params);
        assert(params.deep_view() =~= self.params_spec());
        params
    }
}

/// Each query parameter of a cursors query carries the text of the field it is
/// named after: a field that is set gives exactly one pair under its own
/// name, holding the field's text, and a field that is not set gives none.
pub proof fn lemma_retrieve_cursors_query_params(q: RetrieveCursorsQuery)
    ensures
        named_values(q.params_spec(), "minLastUpdatedTime"@) == present(opt_text(q.min_last_updated_time)),
        named_values(q.params_spec(), "maxLastUpdatedTime"@) == present(opt_text(q.max_last_updated_time)),
        named_values(q.params_spec(), "numberOfCursors"@) == present(opt_text(q.number_of_cursors)),
{
    broadcast use lemma_named_values_add, lemma_named_values_param, Seq::add_empty_left, Seq::add_empty_right;

    reveal_strlit("minLastUpdatedTime");
    reveal_strlit("maxLastUpdatedTime");
    reveal_strlit("numberOfCursors");
    assert("minLastUpdatedTime"@.len() == 18);
    assert("maxLastUpdatedTime"@.len() == 18);
    assert("numberOfCursors"@.len() == 15);
    assert("minLastUpdatedTime"@[1] != "maxLastUpdatedTime"@[1]);
}

/// Query for retrieving raw rows from a table.
pub struct RetrieveRowsQuery {
    /// Maximum number of rows to return.
    pub limit: Option<i32>,
    /// List of columns to return. Can be left out to return all columns.
    pub columns: Option<Vec<String>>,
    /// Optional cursor for pagination.
    pub cursor: Option<String>,
    /// Minimum last updated time, in millisecond since epoch.
    pub min_last_updated_time: Option<i64>,
    /// Maximum last updated time, in milliseconds since epoch.
    pub max_last_updated_time: Option<i64>,
}

impl IntoParams for RetrieveRowsQuery {
    /// One pair for each field that is set; the columns go out as one value,
    /// joined with commas.
    open spec fn params_spec(self) -> Seq<(Seq<char>, Seq<char>)> {
        param("limit"@, opt_text(self.limit)) + param(
            "columns"@,
            match self.columns {
                Some(c) => Some(join_commas(c.deep_view())),
                None => None,
            },
        ) + param("cursor"@, opt_text(self.cursor)) + param(
            "minLastUpdatedTime"@,
            opt_text(self.min_last_updated_time),
        ) + param("maxLastUpdatedTime"@, opt_text(self.max_last_updated_time))
    }

    fn into_params(self) -> (r: Vec<(String, String)>) {
        let mut params: Vec<(String, String)> = Vec::new();
        assert(params.deep_view() =~= Seq::<(Seq<char>, Seq<char>)>::empty());
        to_query("limit", &self.limit, &mut params);
        let ghost before = params.deep_view();
        match &self.columns {
            Some(columns) => {
                let joined = join_with_commas(columns);
                to_query("columns", &Some(joined), &mut params);
            },
            None => {
                assert(before + param("columns"@, None) =~= before);
            },
        }
        to_query("cursor", &self.cursor, &mut params);
        to_query("minLastUpdatedTime", &self.min_last_updated_time, &mut params);
        to_query("maxLastUpdatedTime", &self.max_last_updated_time, &mut params);
        assert(params.deep_view() =~= self.params_spec());
        params
    }
}

/// Each query parameter of a rows query carries the text of the field it is
/// named after: a field that is set gives exactly one pair under its own
/// name, holding the field's text, and a field that is not set gives none.
pub proof fn lemma_retrieve_rows_query_params(q: RetrieveRowsQuery)
    ensures
        named_values(q.params_spec(), "limit"@) == present(opt_text(q.limit)),
        named_values(q.params_spec(), "columns"@) == present(match q.columns {
            Some(c) => Some(join_commas(c.deep_view())),
            None => None,
        }),
        named_values(q.params_spec(), "cursor"@) == present(opt_text(q.cursor)),
        named_values(q.params_spec(), "minLastUpdatedTime"@) == present(opt_text(q.min_last_updated_time)),
        named_values(q.params_spec(), "maxLastUpdatedTime"@) == present(opt_text(q.max_last_updated_time)),
{
    broadcast use lemma_named_values_add, lemma_named_values_param, Seq::add_empty_left, Seq::add_empty_right;

    reveal_strlit("limit");
    reveal_strlit("columns");
    reveal_strlit("cursor");
    reveal_strlit("minLastUpdatedTime");
    reveal_strlit("maxLastUpdatedTime");
    assert("limit"@.len() == 5);
    assert("columns"@.len() == 7);
    assert("cursor"@.len() == 6);
    assert("minLastUpdatedTime"@.len() == 18);
    assert("maxLastUpdatedTime"@.len() == 18);
    assert("minLastUpdatedTime"@[1] != "maxLastUpdatedTime"@[1]);
}

impl SetCursor for RetrieveRowsQuery {
    open spec fn with_cursor_spec(self, cursor: Option<String>) -> Self {
        RetrieveRowsQuery { cursor, ..self }
    }

    fn set_cursor(&mut self, cursor: Option<String>) {
        self.cursor = cursor;
    }
}

/// Query for whether to create missing parents when working with
/// tables or rows.
#[derive(Clone, Copy, PartialEq, Eq, Structural)]
pub struct EnsureParentQuery {
    /// Set to `true` to create missing parents.
    pub ensure_parent: Option<bool>,
}

impl EnsureParentQuery {
    /// Create a new ensure parent query: `ensure_parent` is `true` to create
    /// missing raw tables and databases.
    pub fn new(ensure_parent: bool) -> (r: Self)
        ensures
            r.ensure_parent == Some(ensure_parent),
    {
        Self { ensure_parent: Some(ensure_parent) }
    }
}

impl IntoParams for EnsureParentQuery {
    /// `ensureParent` when it is set.
    open spec fn params_spec(self) -> Seq<(Seq<char>, Seq<char>)> {
        param("ensureParent"@, opt_text(self.ensure_parent))
    }

    fn into_params(self) -> (r: Vec<(String, String)>) {
        let mut params: Vec<(String, String)> = Vec::new();
        assert(params.deep_view() =~= Seq::<(Seq<char>, Seq<char>)>::empty());
        to_query("ensureParent", &self.ensure_parent, &mut params);
        assert(params.deep_view() =~= self.params_spec());
        params
    }
}

/// Query for retrieving all rows using partitioned reads from a table.
pub struct RetrieveAllPartitionedQuery {
    /// Minimum last updated time, in millisecond since epoch.
    pub min_last_updated_time: Option<i64>,
    /// Maximum last updated time, in milliseconds since epoch.
    pub max_last_updated_time: Option<i64>,
    /// Requested number of parallel reads.
    pub number_of_cursors: Option<i32>,
    /// List of columns to return. Can be left out to return all columns.
    pub columns: Option<Vec<String>>,
    /// Maximum number of rows to return per request.
    pub limit: Option<i32>,
}

} // verus!
