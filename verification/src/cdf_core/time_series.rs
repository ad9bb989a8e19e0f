//! Time series: the resource, its creation and update forms, filters, the
//! list query and synthetic queries.

use vstd::prelude::*;

use std::collections::HashMap;

use crate::cdf_core::datapoint::TimestampOrRelative;
use crate::cdf_core::event::clone_opt_ints;
use crate::cdf_core::CoreSortItem;
use crate::filter::AdvancedFilter;
use crate::filter_types::{Partition, Range, SetCursor, WithPartition};
use crate::identity::{EqIdentity, Identity, IdentityModel};
use crate::models::extensions::CogniteTimeseries;
use crate::params::{
    lemma_named_values_add, lemma_named_values_param, named_values, opt_int_array_text,
    opt_text, param, present, to_query, to_query_vec_i64, AsParams,
};
use crate::patch::{
    default_options, list_patch, map_patch, patch_list, patch_map, patch_set, patch_set_null,
    resource_identity, set_null_spec, to_identity, IntoPatch, Patch, UpdateList, UpdateMap,
    UpdateSet, UpdateSetNull, UpsertOptions,
};
use crate::text::{clone_opt_string, opt_string_is};

verus! {

/// A CDF time series.
pub struct TimeSeries {
    /// Time series internal ID.
    pub id: i64,
    /// Time series external ID. Must be unique for all time series in the project.
    pub external_id: Option<String>,
    /// Time series name.
    pub name: Option<String>,
    /// Whether this is a time series for string or double data points.
    pub is_string: bool,
    /// Custom, application specific metadata. String key -> String value.
    pub metadata: Option<HashMap<String, String>>,
    /// The physical unit of the time series (free-text field).
    pub unit: Option<String>,
    /// The physical unit of the time series as represented in the unit catalog.
    pub unit_external_id: Option<String>,
    /// Asset ID of equipment linked to this time series.
    pub asset_id: Option<i64>,
    /// Whether this is a step time series or not.
    pub is_step: bool,
    /// Description of the time series.
    pub description: Option<String>,
    /// The required security categories to access this time series.
    pub security_categories: Option<Vec<i64>>,
    /// Time this time series was created, in milliseconds since epoch.
    pub created_time: i64,
    /// Time this time series was last updated, in milliseconds since epoch.
    pub last_updated_time: i64,
    /// Data set this time series belongs to.
    pub data_set_id: Option<i64>,
}

#[derive(Clone)]
/// Create a new time series.
pub struct AddTimeSeries {
    /// Time series external ID. Must be unique accross all time series in the project.
    pub external_id: Option<String>,
    /// Time series name.
    pub name: Option<String>,
    /// Whether this is a time series for string or double data points.
    pub is_string: bool,
    /// Custom, application specific metadata. String key -> String value.
    pub metadata: Option<HashMap<String, String>>,
    /// The physical unit of the time series (free-text field).
    pub unit: Option<String>,
    /// The physical unit of the time series as represented in the unit catalog.
    pub unit_external_id: Option<String>,
    /// ID of the asset this time series belongs to.
    pub asset_id: Option<i64>,
    /// Whether this is a step time series or not.
    pub is_step: bool,
    /// Description of the time series.
    pub description: Option<String>,
    /// The required security categories to access this time series.
    pub security_categories: Option<Vec<i64>>,
    /// Data set this time series belongs to.
    pub data_set_id: Option<i64>,
}

/// The creation form of a time series: its writable fields.
pub open spec fn add_time_series_of(t: TimeSeries) -> AddTimeSeries {
    AddTimeSeries {
        name: t.name,
        external_id: t.external_id,
        is_string: t.is_string,
        metadata: t.metadata,
        unit: t.unit,
        unit_external_id: t.unit_external_id,
        asset_id: t.asset_id,
        is_step: t.is_step,
        description: t.description,
        security_categories: t.security_categories,
        data_set_id: t.data_set_id,
    }
}

impl From<TimeSeries> for AddTimeSeries {
    fn from(time_serie: TimeSeries) -> (r: AddTimeSeries)
        ensures
            r.name == time_serie.name,
            r.external_id == time_serie.external_id,
            r.is_string == time_serie.is_string,
            r.metadata == time_serie.metadata,
            r.unit == time_serie.unit,
            r.unit_external_id == time_serie.unit_external_id,
            r.asset_id == time_serie.asset_id,
            r.is_step == time_serie.is_step,
            r.description == time_serie.description,
            r.security_categories == time_serie.security_categories,
            r.data_set_id == time_serie.data_set_id,
    {
        AddTimeSeries {
            name: time_serie.name,
            external_id: time_serie.external_id,
            is_string: time_serie.is_string,
            metadata: time_serie.metadata,
            unit: time_serie.unit,
            unit_external_id: time_serie.unit_external_id,
            asset_id: time_serie.asset_id,
            is_step: time_serie.is_step,
            description: time_serie.description,
            security_categories: time_serie.security_categories,
            data_set_id: time_serie.data_set_id,
        }
    }
}

impl vstd::std_specs::convert::FromSpecImpl<TimeSeries> for AddTimeSeries {
    open spec fn obeys_from_spec() -> bool {
        true
    }

    open spec fn from_spec(t: TimeSeries) -> AddTimeSeries {
        add_time_series_of(t)
    }
}

impl EqIdentity for AddTimeSeries {
    /// A time series to create is named only by its external ID.
    open spec fn matches_identity(&self, id: IdentityModel) -> bool {
        match id {
            IdentityModel::Id(_) => false,
            IdentityModel::ExternalId(e) => self.external_id.deep_view() == Some(e),
        }
    }

    fn eq(&self, id: &Identity) -> (r: bool)
        ensures
            r == (id is ExternalId && self.external_id is Some
                && self.external_id->0@ == id->external_id@),
    {
        match id {
            Identity::Id { .. } => false,
            Identity::ExternalId { external_id } => opt_string_is(&self.external_id, external_id.as_str()),
        }
    }
}

/// Update a time series.
pub struct PatchTimeSeries {
    /// Time series name.
    pub name: Option<UpdateSetNull<String>>,
    /// Time series external ID.
    pub external_id: Option<UpdateSetNull<String>>,
    /// Custom, application specific metadata.
    pub metadata: Option<UpdateMap<String, String>>,
    /// The physical unit of the time series (free-text field).
    pub unit: Option<UpdateSetNull<String>>,
    /// The physical unit of the time series as represented in the unit catalog.
    pub unit_external_id: Option<UpdateSetNull<String>>,
    /// ID of the asset this time series belongs to.
    pub asset_id: Option<UpdateSetNull<i64>>,
    /// Description of the time series.
    pub description: Option<UpdateSetNull<String>>,
    /// The required security categories to access this time series.
    pub security_categories: Option<UpdateList<i64, i64>>,
    /// Data set this time series belongs to.
    pub data_set_id: Option<UpdateSetNull<i64>>,
    /// Whether this is a step time series or not.
    pub is_step: Option<UpdateSet<bool>>,
}

/// Whether `r` writes every writable field of `t`, as `patch` does; whether
/// the series holds strings is not written.
pub open spec fn is_time_series_patch(r: PatchTimeSeries, o: UpsertOptions, t: AddTimeSeries) -> bool {
    &&& r.name == set_null_spec(t.name, o)
    &&& r.external_id == set_null_spec(t.external_id, o)
    &&& map_patch(r.metadata, t.metadata, o)
    &&& r.unit == set_null_spec(t.unit, o)
    &&& r.unit_external_id == set_null_spec(t.unit_external_id, o)
    &&& r.asset_id == set_null_spec(t.asset_id, o)
    &&& r.description == set_null_spec(t.description, o)
    &&& list_patch(r.security_categories, t.security_categories, o)
    &&& r.data_set_id == set_null_spec(t.data_set_id, o)
    &&& r.is_step == Some(UpdateSet { set: t.is_step })
}

impl IntoPatch<Patch<PatchTimeSeries>> for TimeSeries {
    /// The time series is addressed by its identity and every writable field
    /// is written.
    open spec fn is_patch(self, o: UpsertOptions, r: Patch<PatchTimeSeries>) -> bool {
        &&& r.id@ == resource_identity(self.id, self.external_id.deep_view())
        &&& is_time_series_patch(r.update, o, add_time_series_of(self))
    }

    fn patch(self, options: &UpsertOptions) -> (r: Patch<PatchTimeSeries>)
        ensures
            r.id@ == resource_identity(self.id, self.external_id.deep_view()),
            r.update.name == set_null_spec(self.name, *options),
            r.update.external_id == set_null_spec(self.external_id, *options),
            map_patch(r.update.metadata, self.metadata, *options),
            r.update.unit == set_null_spec(self.unit, *options),
            r.update.unit_external_id == set_null_spec(self.unit_external_id, *options),
            r.update.asset_id == set_null_spec(self.asset_id, *options),
            r.update.description == set_null_spec(self.description, *options),
            list_patch(r.update.security_categories, self.security_categories, *options),
            r.update.data_set_id == set_null_spec(self.data_set_id, *options),
            r.update.is_step == Some(UpdateSet { set: self.is_step }),
    {
        let id = to_identity(self.id, &self.external_id);
        Patch {
            id,
            update: PatchTimeSeries {
                name: patch_set_null(self.name, options),
                external_id: patch_set_null(self.external_id, options),
                metadata: patch_map(self.metadata, options),
                unit: patch_set_null(self.unit, options),
                unit_external_id: patch_set_null(self.unit_external_id, options),
                asset_id: patch_set_null(self.asset_id, options),
                description: patch_set_null(self.description, options),
                security_categories: patch_list(self.security_categories, options),
                data_set_id: patch_set_null(self.data_set_id, options),
                is_step: patch_set(self.is_step, options),
            },
        }
    }
}

/// The update that a TimeSeries becomes writes every field from the field of
/// the same name, under the options given, and is addressed to the resource's own identity.
pub proof fn lemma_patch_fields_time_series(a: TimeSeries, o: UpsertOptions, r: Patch<PatchTimeSeries>)
    requires
        a.is_patch(o, r),
    ensures
        r.id@ == resource_identity(a.id, a.external_id.deep_view()),
        r.update.name == set_null_spec(a.name, o),
        r.update.external_id == set_null_spec(a.external_id, o),
        map_patch(r.update.metadata, a.metadata, o),
        r.update.unit == set_null_spec(a.unit, o),
        r.update.unit_external_id == set_null_spec(a.unit_external_id, o),
        r.update.asset_id == set_null_spec(a.asset_id, o),
        r.update.description == set_null_spec(a.description, o),
        list_patch(r.update.security_categories, a.security_categories, o),
        r.update.data_set_id == set_null_spec(a.data_set_id, o),
        r.update.is_step == Some(UpdateSet { set: a.is_step }),
{
}

impl IntoPatch<PatchTimeSeries> for AddTimeSeries {
    /// Every writable field is written.
    open spec fn is_patch(self, o: UpsertOptions, r: PatchTimeSeries) -> bool {
        is_time_series_patch(r, o, self)
    }

    fn patch(self, options: &UpsertOptions) -> (r: PatchTimeSeries)
        ensures
            r.name == set_null_spec(self.name, *options),
            r.external_id == set_null_spec(self.external_id, *options),
            map_patch(r.metadata, self.metadata, *options),
            r.unit == set_null_spec(self.unit, *options),
            r.unit_external_id == set_null_spec(self.unit_external_id, *options),
            r.asset_id == set_null_spec(self.asset_id, *options),
            r.description == set_null_spec(self.description, *options),
            list_patch(r.security_categories, self.security_categories, *options),
            r.data_set_id == set_null_spec(self.data_set_id, *options),
            r.is_step == Some(UpdateSet { set: self.is_step }),
    {
        PatchTimeSeries {
            name: patch_set_null(self.name, options),
            external_id: patch_set_null(self.external_id, options),
            metadata: patch_map(self.metadata, options),
            unit: patch_set_null(self.unit, options),
            unit_external_id: patch_set_null(self.unit_external_id, options),
            asset_id: patch_set_null(self.asset_id, options),
            description: patch_set_null(self.description, options),
            security_categories: patch_list(self.security_categories, options),
            data_set_id: patch_set_null(self.data_set_id, options),
            is_step: patch_set(self.is_step, options),
        }
    }
}

/// The update that an AddTimeSeries becomes writes every field from the field of
/// the same name, under the options given.
pub proof fn lemma_patch_fields_add_time_series(a: AddTimeSeries, o: UpsertOptions, r: PatchTimeSeries)
    requires
        a.is_patch(o, r),
    ensures
        r.name == set_null_spec(a.name, o),
        r.external_id == set_null_spec(a.external_id, o),
        map_patch(r.metadata, a.metadata, o),
        r.unit == set_null_spec(a.unit, o),
        r.unit_external_id == set_null_spec(a.unit_external_id, o),
        r.asset_id == set_null_spec(a.asset_id, o),
        r.description == set_null_spec(a.description, o),
        list_patch(r.security_categories, a.security_categories, o),
        r.data_set_id == set_null_spec(a.data_set_id, o),
        r.is_step == Some(UpdateSet { set: a.is_step }),
{
}

impl From<TimeSeries> for Patch<PatchTimeSeries> {
    /// The update under the default options.
    fn from(value: TimeSeries) -> (r: Self)
        ensures
            value.is_patch(default_options(), r),
    {
        let options = UpsertOptions { ignore_nulls: false, merge_metadata: false, merge_lists: false };
        value.patch(&options)
    }
}

impl vstd::std_specs::convert::FromSpecImpl<TimeSeries> for Patch<PatchTimeSeries> {
    /// What `from` gives is stated by its own `ensures`: a cleared map or
    /// list is known only by its contents.
    open spec fn obeys_from_spec() -> bool {
        false
    }

    open spec fn from_spec(v: TimeSeries) -> Patch<PatchTimeSeries> {
        vstd::pervasive::arbitrary()
    }
}

/// Filter on time series.
#[derive(Clone)]
pub struct TimeSeriesFilter {
    /// Include time series with this name.
    pub name: Option<String>,
    /// Include time series with this unit.
    pub unit: Option<String>,
    /// Include time series with this unit external ID.
    pub unit_external_id: Option<String>,
    /// Include time series with this unit quantity.
    pub unit_quantity: Option<String>,
    /// Include time series with this value for `is_string`.
    pub is_string: Option<bool>,
    /// Include time series with this value for `is_step`
    pub is_step: Option<bool>,
    /// Filter on time series metadata.
    pub metadata: Option<HashMap<String, String>>,
    /// Include time series that relate to one of these assets.
    pub asset_ids: Option<Vec<i64>>,
    /// Include time series that relate to one of these assets.
    pub asset_external_ids: Option<Vec<String>>,
    /// Include time series that relate to assets in the tree of one of these root assets
    pub root_asset_ids: Option<Vec<String>>,
    /// Include time series that relate to assets in the subtree of one of these assets
    pub asset_subtree_ids: Option<Vec<Identity>>,
    /// Include time series which are tied to one of these data sets.
    pub data_set_ids: Option<Vec<Identity>>,
    /// Filter by this (case-sensitive) prefix for the external ID.
    pub external_id_prefix: Option<String>,
    /// Range of timestamps for `created_time`.
    pub created_time: Option<Range<i64>>,
    /// Range of timestamps for `last_updated_time`.
    pub last_updated_time: Option<Range<i64>>,
}

/// The time series filter that sets no condition.
pub open spec fn empty_time_series_filter() -> TimeSeriesFilter {
    TimeSeriesFilter {
        name: None,
        unit: None,
        unit_external_id: None,
        unit_quantity: None,
        is_string: None,
        is_step: None,
        metadata: None,
        asset_ids: None,
        asset_external_ids: None,
        root_asset_ids: None,
        asset_subtree_ids: None,
        data_set_ids: None,
        external_id_prefix: None,
        created_time: None,
        last_updated_time: None,
    }
}

impl TimeSeriesFilter {
    /// Create an empty time series filter.
    pub fn new() -> (r: TimeSeriesFilter)
        ensures
            r == empty_time_series_filter(),
    {
        TimeSeriesFilter {
            name: None,
            unit: None,
            unit_external_id: None,
            unit_quantity: None,
            is_string: None,
            is_step: None,
            metadata: None,
            asset_ids: None,
            asset_external_ids: None,
            root_asset_ids: None,
            asset_subtree_ids: None,
            data_set_ids: None,
            external_id_prefix: None,
            created_time: None,
            last_updated_time: None,
        }
    }
}

/// Fuzzy search on time series properties.
pub struct TimeSeriesSearch {
    /// Fuzzy search on name.
    pub name: Option<String>,
    /// Fuzzy search on description.
    pub description: Option<String>,
    /// Whitespace-separated terms to search for in time series.
    pub query: Option<String>,
}

impl TimeSeriesSearch {
    /// Create an empty time series search.
    pub fn new() -> (r: TimeSeriesSearch)
        ensures
            r == (TimeSeriesSearch { name: None, description: None, query: None }),
    {
        TimeSeriesSearch { name: None, description: None, query: None }
    }
}

/// Query for listing time series.
pub struct TimeSeriesQuery {
    /// Max number of returned time series. Default is 100, maximum is 1000.
    pub limit: Option<i32>,
    /// Whether the metadata field should be returned or not.
    pub include_metadata: Option<bool>,
    /// Cursor for pagination.
    pub cursor: Option<String>,
    /// Split the data set into partitions.
    pub partition: Option<Partition>,
    /// Filter by this (case-sensitive) prefix for the external ID.
    pub external_id_prefix: Option<String>,
    /// Include time series which belong to one of these assets.
    pub asset_ids: Option<Vec<i64>>,
    /// Include time series which belong to an asset in the tree of one of these root assets.
    pub root_asset_ids: Option<Vec<i64>>,
}

impl AsParams for TimeSeriesQuery {
    /// One pair for each field that is set.
    open spec fn tuples_spec(self) -> Seq<(Seq<char>, Seq<char>)> {
        param("limit"@, opt_text(self.limit)) + param("includeMetadata"@, opt_text(self.include_metadata))
            + param("cursor"@, opt_text(self.cursor)) + param(
            "externalIdPrefix"@,
            opt_text(self.external_id_prefix),
        ) + param("partition"@, opt_text(self.partition)) + param(
            "assetIds"@,
            opt_int_array_text(self.asset_ids),
        ) + param("rootAssetIds"@, opt_int_array_text(self.root_asset_ids))
    }

    fn to_tuples(self) -> (r: Vec<(String, String)>) {
        let mut params: Vec<(String, String)> = Vec::new();
        assert(params.deep_view() =~= Seq::<(Seq<char>, Seq<char>)>::empty());
        to_query("limit", &self.limit, &mut params);
        to_query("includeMetadata", &self.include_metadata, &mut params);
        to_query("cursor", &self.cursor, &mut params);
        to_query("externalIdPrefix", &self.external_id_prefix, &mut params);
        to_query("partition", &self.partition, &mut params);
        to_query_vec_i64("assetIds", &self.asset_ids, &mut params);
        to_query_vec_i64("rootAssetIds", &self.root_asset_ids, &mut params);
        assert(params.deep_view() =~= self.tuples_spec());
        params
    }
}

/// Each query parameter of a time series query carries the text of the field it is
/// named after: a field that is set gives exactly one pair under its own
/// name, holding the field's text, and a field that is not set gives none.
pub proof fn lemma_time_series_query_params(q: TimeSeriesQuery)
    ensures
        named_values(q.tuples_spec(), "limit"@) == present(opt_text(q.limit)),
        named_values(q.tuples_spec(), "includeMetadata"@) == present(opt_text(q.include_metadata)),
        named_values(q.tuples_spec(), "cursor"@) == present(opt_text(q.cursor)),
        named_values(q.tuples_spec(), "externalIdPrefix"@) == present(opt_text(q.external_id_prefix)),
        named_values(q.tuples_spec(), "partition"@) == present(opt_text(q.partition)),
        named_values(q.tuples_spec(), "assetIds"@) == present(opt_int_array_text(q.asset_ids)),
        named_values(q.tuples_spec(), "rootAssetIds"@) == present(opt_int_array_text(q.root_asset_ids)),
{
    broadcast use lemma_named_values_add, lemma_named_values_param, Seq::add_empty_left, Seq::add_empty_right;

    reveal_strlit("limit");
    reveal_strlit("includeMetadata");
    reveal_strlit("cursor");
    reveal_strlit("externalIdPrefix");
    reveal_strlit("partition");
    reveal_strlit("assetIds");
    reveal_strlit("rootAssetIds");
    assert("limit"@.len() == 5);
    assert("includeMetadata"@.len() == 15);
    assert("cursor"@.len() == 6);
    assert("externalIdPrefix"@.len() == 16);
    assert("partition"@.len() == 9);
    assert("assetIds"@.len() == 8);
    assert("rootAssetIds"@.len() == 12);
}

impl SetCursor for TimeSeriesQuery {
    open spec fn with_cursor_spec(self, cursor: Option<String>) -> Self {
        TimeSeriesQuery { cursor, ..self }
    }

    fn set_cursor(&mut self, cursor: Option<String>) {
        self.cursor = cursor;
    }
}

impl WithPartition for TimeSeriesQuery {
    open spec fn partition_of(&self) -> Option<Partition> {
        self.partition
    }

    /// A copy of the query for one partition, starting from the first page.
    fn with_partition(&self, partition: Partition) -> (r: Self)
        ensures
            r.partition == Some(partition),
            r.limit == self.limit,
            r.include_metadata == self.include_metadata,
            r.cursor.is_none(),
            r.external_id_prefix == self.external_id_prefix,
            r.asset_ids.deep_view() == self.asset_ids.deep_view(),
            r.root_asset_ids.deep_view() == self.root_asset_ids.deep_view(),
    {
        Self {
            limit: self.limit,
            include_metadata: self.include_metadata,
            cursor: None,
            partition: Some(partition),
            external_id_prefix: clone_opt_string(&self.external_id_prefix),
            asset_ids: clone_opt_ints(&self.asset_ids),
            root_asset_ids: clone_opt_ints(&self.root_asset_ids),
        }
    }
}

/// Request for filtering time series.
pub struct TimeSeriesFilterRequest {
    /// Simple time series. filter.
    pub filter: Option<TimeSeriesFilter>,
    /// Advanced filter.
    pub advanced_filter: Option<AdvancedFilter>,
    /// Max number of returned time series. Default is 100, maximum is 1000.
    pub limit: Option<i32>,
    /// Cursor for pagination.
    pub cursor: Option<String>,
    /// Split the result set into partitions.
    pub partition: Option<Partition>,
    /// Sort the returned time series. The order is significant.
    pub sort: Option<Vec<CoreSortItem>>,
}

impl SetCursor for TimeSeriesFilterRequest {
    open spec fn with_cursor_spec(self, cursor: Option<String>) -> Self {
        TimeSeriesFilterRequest { cursor, ..self }
    }

    fn set_cursor(&mut self, cursor: Option<String>) {
        self.cursor = cursor;
    }
}

impl WithPartition for TimeSeriesFilterRequest {
    open spec fn partition_of(&self) -> Option<Partition> {
        self.partition
    }

    /// A copy of the request for one partition.
    fn with_partition(&self, partition: Partition) -> (r: Self)
        ensures
            r.partition == Some(partition),
            r.limit == self.limit,
            r.cursor == self.cursor,
            cloned(self.filter, r.filter),
            cloned(self.advanced_filter, r.advanced_filter),
            cloned(self.sort, r.sort),
    {
        TimeSeriesFilterRequest {
            filter: self.filter.clone(),
            advanced_filter: self.advanced_filter.clone(),
            limit: self.limit,
            cursor: clone_opt_string(&self.cursor),
            partition: Some(partition),
            sort: self.sort.clone(),
        }
    }
}

/// Query for synthetic time series data points.
pub struct SyntheticTimeSeriesQuery {
    /// Query definition.
    pub expression: String,
    /// Get datapoints starting from, and including, this time.
    pub start: Option<TimestampOrRelative>,
    /// Get datapoints up to, but excluding, this time.
    pub end: Option<TimestampOrRelative>,
    /// Return up to this number of datapoints.
    pub limit: Option<i32>,
}

/// Synthetic data point value.
pub struct SyntheticDataValue {
    /// Timestamp in milliseconds since epoch.
    pub timestamp: i64,
    /// Data point value, as the bits of an `f64`.
    pub value: u64,
}

/// Synthetic data point error.
pub struct SyntheticDataError {
    /// Timestamp in milliseconds since epoch.
    pub timestamp: i64,
    /// Error message.
    pub error: String,
}

/// Synthetic data point or error.
pub enum SyntheticDataPoint {
    /// A synthetic value.
    Value(SyntheticDataValue),
    /// A computation error.
    Error(SyntheticDataError),
}

/// Response when querying synthetic data points.
pub struct SyntheticQueryResponse {
    /// Whether the results are strings. Currently, this is always false.
    pub is_string: Option<bool>,
    /// List of computed data points.
    pub datapoints: Vec<SyntheticDataPoint>,
}

/// Time series to create: classic time series, or core data model nodes.
pub enum AddDmOrTimeSeries<'a> {
    /// Classic time series.
    TimeSeries(&'a [AddTimeSeries]),
    /// Core data model time series.
    Cdm(&'a [CogniteTimeseries]),
}

} // verus!
