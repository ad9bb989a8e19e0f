//! Data models: versioned collections of views.

use vstd::prelude::*;

use crate::filter_types::SetCursor;
use crate::models::views::{
    is_view_create_or_reference_of, ViewCreateOrReference, ViewDefinitionOrReference,
};
use crate::params::{
    lemma_named_values_add, lemma_named_values_param, named_values, opt_text, param, present,
    to_query, IntoParams,
};

verus! {

/// Create a data model.
pub struct DataModelCreate {
    /// Data model space.
    pub space: String,
    /// Data model external ID.
    pub external_id: String,
    /// Data model name.
    pub name: Option<String>,
    /// Data model description.
    pub description: Option<String>,
    /// Data model version.
    pub version: String,
    /// Views in data model.
    pub views: Option<Vec<ViewCreateOrReference>>,
}

/// A view in a data model to create: a new view or a reference to one.
pub type DataModelCreateProperty = ViewCreateOrReference;

/// A view in a data model: a full view or a reference to one.
pub type DataModelProperty = ViewDefinitionOrReference;

/// A CDF data model.
pub struct DataModel {
    /// Data model space.
    pub space: String,
    /// Data model external ID.
    pub external_id: String,
    /// Data model name.
    pub name: Option<String>,
    /// Data model description.
    pub description: Option<String>,
    /// Data model version.
    pub version: String,
    /// Views in data model.
    pub views: Option<Vec<ViewDefinitionOrReference>>,
    /// Time this data model was created, in milliseconds since epoch.
    pub created_time: i64,
    /// Time this data model was last updated, in milliseconds since epoch.
    pub last_updated_time: i64,
    /// Whether this data model is global (defined by CDF) or project specific.
    pub is_global: bool,
}

/// Whether `r` holds each view of `views` in creation form, in order.
pub open spec fn views_create_of(views: Seq<ViewDefinitionOrReference>, r: Seq<ViewCreateOrReference>) -> bool {
    &&& r.len() == views.len()
    &&& forall|k: int| 0 <= k < r.len() ==> is_view_create_or_reference_of(views[k], #[trigger] r[k])
}

fn views_create(views: Vec<ViewDefinitionOrReference>) -> (r: Vec<ViewCreateOrReference>)
    ensures
        views_create_of(views@, r@),
{
    let ghost all = views@;
    let mut source = views;
    let mut out: Vec<ViewCreateOrReference> = Vec::new();
    while source.len() > 0
        invariant
            out@.len() + source@.len() == all.len(),
            source@ == all.skip(out@.len() as int),
            forall|k: int| 0 <= k < out@.len() ==> is_view_create_or_reference_of(all[k], #[trigger] out@[k]),
        decreases source@.len(),
    {
        let ghost n: int = out@.len() as int;
        let v = source.remove(0);
        assert(v == all[n]);
        out.push(ViewCreateOrReference::from(v));
        assert(source@ =~= all.skip(n + 1));
    }
    out
}

impl From<DataModel> for DataModelCreate {
    /// The creation form: the same identification and description, and each
    /// view in creation form.
    fn from(value: DataModel) -> (r: Self)
        ensures
            r.space == value.space,
            r.external_id == value.external_id,
            r.name == value.name,
            r.description == value.description,
            r.version == value.version,
            match value.views {
                Some(v) => r.views matches Some(w) && views_create_of(v@, w@),
                None => r.views.is_none(),
            },
    {
        let views = match value.views {
            Some(v) => Some(views_create(v)),
            None => None,
        };
        DataModelCreate {
            space: value.space,
            external_id: value.external_id,
            name: value.name,
            description: value.description,
            version: value.version,
            views,
        }
    }
}

impl vstd::std_specs::convert::FromSpecImpl<DataModel> for DataModelCreate {
    /// What `from` gives is stated by its own `ensures`: the new list of
    /// views is known by its contents.
    open spec fn obeys_from_spec() -> bool {
        false
    }

    open spec fn from_spec(value: DataModel) -> DataModelCreate {
        vstd::pervasive::arbitrary()
    }
}

/// ID of a data model
pub struct DataModelId {
    /// Data model space.
    pub space: String,
    /// Data model external ID.
    pub external_id: String,
    /// Data model version. This is required for some endpoints, but not all.
    pub version: Option<String>,
}

/// Query for listing data models.
pub struct DataModelQuery {
    /// Optional cursor for pagination.
    pub cursor: Option<String>,
    /// Maximum number of data models to retrieve. Default is 10, maximum is 1000.
    pub limit: Option<i32>,
    /// Whether to expand the referenced views inline in the returned result.
    pub inline_views: Option<bool>,
    /// Filter by data model space.
    pub space: Option<String>,
    /// Whether to include all versions, or just the latest version.
    pub all_versions: Option<bool>,
    /// Whether to include global data models.
    pub include_global: Option<bool>,
}

impl SetCursor for DataModelQuery {
    open spec fn with_cursor_spec(self, cursor: Option<String>) -> Self {
        DataModelQuery { cursor, ..self }
    }

    fn set_cursor(&mut self, cursor: Option<String>) {
        self.cursor = cursor;
    }
}

impl IntoParams for DataModelQuery {
    /// One pair for each field that is set, in the order of the fields.
    open spec fn params_spec(self) -> Seq<(Seq<char>, Seq<char>)> {
        param("cursor"@, opt_text(self.cursor)) + param("limit"@, opt_text(self.limit)) + param(
            "inlineViews"@,
            opt_text(self.inline_views),
        ) + param("space"@, opt_text(self.space)) + param("allVersions"@, opt_text(self.all_versions))
            + param("includeGlobal"@, opt_text(self.include_global))
    }

    fn into_params(self) -> (r: Vec<(String, String)>) {
        let mut params: Vec<(String, String)> = Vec::new();
        assert(params.deep_view() =~= Seq::<(Seq<char>, Seq<char>)>::empty());
        to_query("cursor", &self.cursor, &mut params);
        to_query("limit", &self.limit, &mut params);
        to_query("inlineViews", &self.inline_views, &mut params);
        to_query("space", &self.space, &mut params);
        to_query("allVersions", &self.all_versions, &mut params);
        to_query("includeGlobal", &self.include_global, &mut params);
        assert(params.deep_view() =~= self.params_spec());
        params
    }
}

/// Each query parameter of a data model query carries the text of the field it is
/// named after: a field that is set gives exactly one pair under its own
/// name, holding the field's text, and a field that is not set gives none.
pub proof fn lemma_data_model_query_params(q: DataModelQuery)
    ensures
        named_values(q.params_spec(), "cursor"@) == present(opt_text(q.cursor)),
        named_values(q.params_spec(), "limit"@) == present(opt_text(q.limit)),
        named_values(q.params_spec(), "inlineViews"@) == present(opt_text(q.inline_views)),
        named_values(q.params_spec(), "space"@) == present(opt_text(q.space)),
        named_values(q.params_spec(), "allVersions"@) == present(opt_text(q.all_versions)),
        named_values(q.params_spec(), "includeGlobal"@) == present(opt_text(q.include_global)),
{
    broadcast use lemma_named_values_add, lemma_named_values_param, Seq::add_empty_left, Seq::add_empty_right;

    reveal_strlit("cursor");
    reveal_strlit("limit");
    reveal_strlit("inlineViews");
    reveal_strlit("space");
    reveal_strlit("allVersions");
    reveal_strlit("includeGlobal");
    assert("cursor"@.len() == 6);
    assert("limit"@.len() == 5);
    assert("inlineViews"@.len() == 11);
    assert("space"@.len() == 5);
    assert("allVersions"@.len() == 11);
    assert("includeGlobal"@.len() == 13);
    assert("limit"@[0] != "space"@[0]);
    assert("inlineViews"@[0] != "allVersions"@[0]);
}

} // verus!
