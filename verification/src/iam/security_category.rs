//! Security categories.

use vstd::prelude::*;

use crate::filter_types::SetCursor;
use crate::models::common::SortDirection;
use crate::params::{
    lemma_named_values_add, lemma_named_values_param, named_values, opt_text, param, present,
    to_query, IntoParams,
};

verus! {

#[derive(Clone)]
/// Create a security category.
pub struct AddSecurityCategory {
    /// Security category name.
    pub name: String,
}

/// CDF security category.
pub struct SecurityCategory {
    /// Security category name.
    pub name: String,
    /// Internal ID.
    pub id: u64,
}

/// Filter security categories.
pub struct SecurityCategoryQuery {
    /// Sort security categories in ascending or descending order.
    pub sort: Option<SortDirection>,
    /// Cursor for pagination.
    pub cursor: Option<String>,
    /// Optional limit. Default is 25, maximum is 1000.
    pub limit: Option<i32>,
}

/// The text of a sort direction in a query string: `ASC` or `DESC`.
pub open spec fn sort_direction_text(d: SortDirection) -> Seq<char> {
    match d {
        SortDirection::Ascending => "ASC"@,
        SortDirection::Descending => "DESC"@,
    }
}

impl IntoParams for SecurityCategoryQuery {
    /// Sort order, cursor and limit, each when it is set.
    open spec fn params_spec(self) -> Seq<(Seq<char>, Seq<char>)> {
        param(
            "sort"@,
            match self.sort {
                Some(d) => Some(sort_direction_text(d)),
                None => None,
            },
        ) + param("cursor"@, opt_text(self.cursor)) + param("limit"@, opt_text(self.limit))
    }

    fn into_params(self) -> (r: Vec<(String, String)>) {
        let mut params: Vec<(String, String)> = Vec::new();
        assert(params.deep_view() =~= Seq::<(Seq<char>, Seq<char>)>::empty());
        let sort: Option<String> = match self.sort {
            Some(SortDirection::Ascending) => Some("ASC".to_owned()),
            Some(SortDirection::Descending) => Some("DESC".to_owned()),
            None => None,
        };
        to_query("sort", &sort, &mut params);
        to_query("cursor", &self.cursor, &mut params);
        to_query("limit", &self.limit, &mut params);
        assert(params.deep_view() =~= self.params_spec());
        params
    }
}

/// Each query parameter of a security category query carries the text of the field it is
/// named after: a field that is set gives exactly one pair under its own
/// name, holding the field's text, and a field that is not set gives none.
pub proof fn lemma_security_category_query_params(q: SecurityCategoryQuery)
    ensures
        named_values(q.params_spec(), "sort"@) == match q.sort {
            Some(SortDirection::Ascending) => seq!["ASC"@],
            Some(SortDirection::Descending) => seq!["DESC"@],
            None => Seq::empty(),
        },
        named_values(q.params_spec(), "cursor"@) == present(opt_text(q.cursor)),
        named_values(q.params_spec(), "limit"@) == present(opt_text(q.limit)),
{
    broadcast use lemma_named_values_add, lemma_named_values_param, Seq::add_empty_left, Seq::add_empty_right;

    reveal_strlit("sort");
    reveal_strlit("cursor");
    reveal_strlit("limit");
    assert("sort"@.len() == 4);
    assert("cursor"@.len() == 6);
    assert("limit"@.len() == 5);
}

impl SetCursor for SecurityCategoryQuery {
    open spec fn with_cursor_spec(self, cursor: Option<String>) -> Self {
        SecurityCategoryQuery { cursor, ..self }
    }

    fn set_cursor(&mut self, cursor: Option<String>) {
        self.cursor = cursor;
    }
}

} // verus!
