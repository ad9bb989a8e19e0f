//! Assets: the resource, its creation and update forms, its filters, query
//! parameters and aggregates.

use vstd::prelude::*;

use std::collections::HashMap;

use crate::cdf_core::{CoreSortItem, GeoLocation};
use crate::filter::{AdvancedFilter, AggregateFilter};
use crate::filter_types::{partition_text, LabelsFilter, Partition, Range, SetCursor, WithPartition};
use crate::identity::{CogniteExternalId, CogniteId, EqIdentity, Identity, IdentityModel};
use crate::params::{
    lemma_named_values_add, lemma_named_values_param, named_values, opt_text, param, present,
    to_query, AsParams,
};
use crate::patch::{
    default_options, list_patch, map_patch, patch_list, patch_map, patch_opt_set, patch_set,
    patch_set_null, resource_identity, set_null_spec, set_spec, to_identity, IntoPatch, Patch,
    UpdateList, UpdateMap, UpdateSet, UpdateSetNull, UpsertOptions,
};
use crate::text::{clone_opt_string, opt_string_is};

verus! {

/// Aggregated asset properties.
pub struct AssetAggregate {
    /// Number of direct descendants of the asset.
    pub child_count: Option<i32>,
    /// Asset path depth (number of levels below root node)
    pub depth: Option<i32>,
    /// IDs of assets on the path to the asset.
    pub path: Option<Vec<CogniteId>>,
}

/// A CDF asset, representing some entity.
pub struct Asset {
    /// Server-generated ID of the asset.
    pub id: i64,
    /// Name of the asset.
    pub name: String,
    /// Unique user-provided external ID.
    pub external_id: Option<String>,
    /// ID of the parent node.
    pub parent_id: Option<i64>,
    /// External ID of the parent node.
    pub parent_external_id: Option<String>,
    /// Description of the asset.
    pub description: Option<String>,
    /// Custom, application specific metadata. String key -> String value.
    pub metadata: Option<HashMap<String, String>>,
    /// Source of the asset.
    pub source: Option<String>,
    /// Time this asset was created, in milliseconds since epoch.
    pub created_time: i64,
    /// Time this assset was last updated, in milliseconds since epoch.
    pub last_updated_time: i64,
    /// ID of the root asset.
    pub root_id: Option<i64>,
    /// Aggregated metrics computed on this asset.
    pub aggregates: Option<AssetAggregate>,
    /// ID of the data set this asset belongs to.
    pub data_set_id: Option<i64>,
    /// List of the labels associated with this asset.
    pub labels: Option<Vec<CogniteExternalId>>,
    /// Geographic metadata, as a GeoJSON document.
    pub geo_location: Option<GeoLocation>,
}

impl Asset {
    /// Create an asset with a name, a description, and optionally an external
    /// ID, a parent, metadata and a source. Everything else is unset.
    pub fn new(
        name: &str,
        description: &str,
        external_id: Option<String>,
        parent_id: Option<i64>,
        metadata: Option<HashMap<String, String>>,
        source: Option<String>,
    ) -> (r: Asset)
        ensures
            r.name@ == name@,
            r.id == 0,
            r.external_id == external_id,
            r.parent_id == parent_id,
            r.description.deep_view() == Some(description@),
            r.metadata == metadata,
            r.source == source,
            r.created_time == 0,
            r.last_updated_time == 0,
            r.root_id.is_none(),
            r.aggregates.is_none(),
            r.data_set_id.is_none(),
            r.parent_external_id.is_none(),
            r.labels.is_none(),
            r.geo_location.is_none(),
    {
        Asset {
            name: name.to_owned(),
            id: 0,
            external_id,
            parent_id,
            description: Some(description.to_owned()),
            metadata,
            source,
            created_time: 0,
            last_updated_time: 0,
            root_id: None,
            aggregates: None,
            data_set_id: None,
            parent_external_id: None,
            labels: None,
            geo_location: None,
        }
    }
}

#[derive(Clone)]
/// Create an asset.
pub struct AddAsset {
    /// Name of the asset.
    pub name: String,
    /// Unique external ID of the asset.
    pub external_id: Option<String>,
    /// Parent node ID used to specify a parent-child relationship. Do not use
    /// in combination with `parent_external_id`
    pub parent_id: Option<i64>,
    /// Description of the asset.
    pub description: Option<String>,
    /// Custom, application specific metadata. String key -> String value.
    pub metadata: Option<HashMap<String, String>>,
    /// Source of the asset.
    pub source: Option<String>,
    /// External ID of the parent asset. Do not use in combination with `parent_id`
    pub parent_external_id: Option<String>,
    /// ID of the dataset this asset belongs to.
    pub data_set_id: Option<i64>,
    /// A list of labels associated with this asset.
    pub labels: Option<Vec<CogniteExternalId>>,
    /// Geographic metadata, as a GeoJSON document.
    pub geo_location: Option<GeoLocation>,
}

impl From<Asset> for AddAsset {
    fn from(asset: Asset) -> (r: AddAsset)
        ensures
            r.name == asset.name,
            r.external_id == asset.external_id,
            r.parent_id == asset.parent_id,
            r.description == asset.description,
            r.metadata == asset.metadata,
            r.source == asset.source,
            r.parent_external_id == (if asset.parent_id.is_none() { asset.parent_external_id } else { None }),
            r.data_set_id == asset.data_set_id,
            r.labels == asset.labels,
            r.geo_location == asset.geo_location,
    {
        AddAsset {
            name: asset.name,
            external_id: asset.external_id,
            parent_id: asset.parent_id,
            description: asset.description,
            metadata: asset.metadata,
            source: asset.source,
            parent_external_id: if asset.parent_id.is_none() {
                asset.parent_external_id
            } else {
                None
            },
            data_set_id: asset.data_set_id,
            labels: asset.labels,
            geo_location: asset.geo_location,
        }
    }
}

impl vstd::std_specs::convert::FromSpecImpl<Asset> for AddAsset {
    open spec fn obeys_from_spec() -> bool {
        true
    }

    /// The creation form keeps the writable fields; the parent's external ID
    /// is kept only when no parent ID is set.
    open spec fn from_spec(asset: Asset) -> AddAsset {
        AddAsset {
            name: asset.name,
            external_id: asset.external_id,
            parent_id: asset.parent_id,
            description: asset.description,
            metadata: asset.metadata,
            source: asset.source,
            parent_external_id: if asset.parent_id.is_none() {
                asset.parent_external_id
            } else {
                None
            },
            data_set_id: asset.data_set_id,
            labels: asset.labels,
            geo_location: asset.geo_location,
        }
    }
}

impl EqIdentity for AddAsset {
    /// An asset to create is named only by its external ID.
    open spec fn matches_identity(&self, id: IdentityModel) -> bool {
        match id {
            IdentityModel::Id(_) => false,
            IdentityModel::ExternalId(e) => self.external_id.deep_view() == Some(e),
        }
    }

    fn eq(&self, id: &Identity) -> (r: bool)
        ensures
            r == (id is ExternalId && self.external_id is Some
                && self.external_id->0@ == id->external_id@),
    {
        match id {
            Identity::Id { .. } => false,
            Identity::ExternalId { external_id } => opt_string_is(&self.external_id, external_id.as_str()),
        }
    }
}

/// Update an asset.
pub struct PatchAsset {
    /// Unique external ID of the asset.
    pub external_id: Option<UpdateSetNull<String>>,
    /// Name of the asset.
    pub name: Option<UpdateSet<String>>,
    /// Description of the asset.
    pub description: Option<UpdateSetNull<String>>,
    /// ID of the dataset this asset belongs to.
    pub data_set_id: Option<UpdateSetNull<i64>>,
    /// Custom, application specific metadata. String key -> String value.
    pub metadata: Option<UpdateMap<String, String>>,
    /// Source of the asset.
    pub source: Option<UpdateSetNull<String>>,
    /// Parent node ID used to specify a parent-child relationship.
    pub parent_id: Option<UpdateSet<i64>>,
    /// External ID of the parent asset.
    pub parent_external_id: Option<UpdateSet<String>>,
    /// A list of labels associated with this asset.
    pub labels: Option<UpdateList<CogniteExternalId, CogniteExternalId>>,
    /// Geographic metadata.
    pub geo_location: Option<UpdateSetNull<GeoLocation>>,
}

impl IntoPatch<Patch<PatchAsset>> for Asset {
    /// The asset is addressed by its identity; every writable field is
    /// written, the parent only by ID, and only when one is set.
    open spec fn is_patch(self, o: UpsertOptions, r: Patch<PatchAsset>) -> bool {
        &&& r.id@ == resource_identity(self.id, self.external_id.deep_view())
        &&& r.update.external_id == set_null_spec(self.external_id, o)
        &&& r.update.name == Some(UpdateSet { set: self.name })
        &&& r.update.description == set_null_spec(self.description, o)
        &&& r.update.data_set_id == set_null_spec(self.data_set_id, o)
        &&& map_patch(r.update.metadata, self.metadata, o)
        &&& r.update.source == set_null_spec(self.source, o)
        &&& r.update.parent_id == set_spec(self.parent_id)
        &&& r.update.parent_external_id.is_none()
        &&& list_patch(r.update.labels, self.labels, o)
        &&& r.update.geo_location == set_null_spec(self.geo_location, o)
    }

    fn patch(self, options: &UpsertOptions) -> (r: Patch<PatchAsset>)
        ensures
            r.id@ == resource_identity(self.id, self.external_id.deep_view()),
            r.update.external_id == set_null_spec(self.external_id, *options),
            r.update.name == Some(UpdateSet { set: self.name }),
            r.update.description == set_null_spec(self.description, *options),
            r.update.data_set_id == set_null_spec(self.data_set_id, *options),
            map_patch(r.update.metadata, self.metadata, *options),
            r.update.source == set_null_spec(self.source, *options),
            r.update.parent_id == set_spec(self.parent_id),
            r.update.parent_external_id.is_none(),
            list_patch(r.update.labels, self.labels, *options),
            r.update.geo_location == set_null_spec(self.geo_location, *options),
    {
        let id = to_identity(self.id, &self.external_id);
        Patch {
            id,
            update: PatchAsset {
                external_id: patch_set_null(self.external_id, options),
                name: patch_set(self.name, options),
                description: patch_set_null(self.description, options),
                data_set_id: patch_set_null(self.data_set_id, options),
                metadata: patch_map(self.metadata, options),
                source: patch_set_null(self.source, options),
                parent_id: patch_opt_set(self.parent_id),
                parent_external_id: None,
                labels: patch_list(self.labels, options),
                geo_location: patch_set_null(self.geo_location, options),
            },
        }
    }
}

/// The update that an Asset becomes writes every field from the field of
/// the same name, under the options given, and is addressed to the resource's own identity.
pub proof fn lemma_patch_fields_asset(a: Asset, o: UpsertOptions, r: Patch<PatchAsset>)
    requires
        a.is_patch(o, r),
    ensures
        r.id@ == resource_identity(a.id, a.external_id.deep_view()),
        r.update.external_id == set_null_spec(a.external_id, o),
        r.update.name == Some(UpdateSet { set: a.name }),
        r.update.description == set_null_spec(a.description, o),
        r.update.data_set_id == set_null_spec(a.data_set_id, o),
        map_patch(r.update.metadata, a.metadata, o),
        r.update.source == set_null_spec(a.source, o),
        r.update.parent_id == set_spec(a.parent_id),
        r.update.parent_external_id.is_none(),
        list_patch(r.update.labels, a.labels, o),
        r.update.geo_location == set_null_spec(a.geo_location, o),
{
}

impl IntoPatch<PatchAsset> for AddAsset {
    /// Every writable field is written; the parent by ID when one is given,
    /// else by external ID when that is given.
    open spec fn is_patch(self, o: UpsertOptions, r: PatchAsset) -> bool {
        &&& r.external_id == set_null_spec(self.external_id, o)
        &&& r.name == Some(UpdateSet { set: self.name })
        &&& r.description == set_null_spec(self.description, o)
        &&& r.data_set_id == set_null_spec(self.data_set_id, o)
        &&& map_patch(r.metadata, self.metadata, o)
        &&& r.source == set_null_spec(self.source, o)
        &&& r.parent_id == set_spec(self.parent_id)
        &&& r.parent_external_id == (if self.parent_id.is_some() {
            None
        } else {
            set_spec(self.parent_external_id)
        })
        &&& list_patch(r.labels, self.labels, o)
        &&& r.geo_location == set_null_spec(self.geo_location, o)
    }

    fn patch(self, options: &UpsertOptions) -> (r: PatchAsset)
        ensures
            r.external_id == set_null_spec(self.external_id, *options),
            r.name == Some(UpdateSet { set: self.name }),
            r.description == set_null_spec(self.description, *options),
            r.data_set_id == set_null_spec(self.data_set_id, *options),
            map_patch(r.metadata, self.metadata, *options),
            r.source == set_null_spec(self.source, *options),
            list_patch(r.labels, self.labels, *options),
            r.geo_location == set_null_spec(self.geo_location, *options),
            r.parent_id == set_spec(self.parent_id),
            r.parent_external_id == (if self.parent_id.is_some() { None } else { set_spec(self.parent_external_id) }),
    {
        let mut parent_id = None;
        let mut parent_external_id = None;
        if let Some(p_id) = self.parent_id {
            parent_id = patch_set(p_id, options);
        } else if let Some(p_extid) = self.parent_external_id {
            parent_external_id = patch_set(p_extid, options);
        }
        PatchAsset {
            external_id: patch_set_null(self.external_id, options),
            name: patch_set(self.name, options),
            description: patch_set_null(self.description, options),
            data_set_id: patch_set_null(self.data_set_id, options),
            metadata: patch_map(self.metadata, options),
            source: patch_set_null(self.source, options),
            parent_id,
            parent_external_id,
            labels: patch_list(self.labels, options),
            geo_location: patch_set_null(self.geo_location, options),
        }
    }
}

/// The update that an AddAsset becomes writes every field from the field of
/// the same name, under the options given.
pub proof fn lemma_patch_fields_add_asset(a: AddAsset, o: UpsertOptions, r: PatchAsset)
    requires
        a.is_patch(o, r),
    ensures
        r.external_id == set_null_spec(a.external_id, o),
        r.name == Some(UpdateSet { set: a.name }),
        r.description == set_null_spec(a.description, o),
        r.data_set_id == set_null_spec(a.data_set_id, o),
        map_patch(r.metadata, a.metadata, o),
        r.source == set_null_spec(a.source, o),
        list_patch(r.labels, a.labels, o),
        r.geo_location == set_null_spec(a.geo_location, o),
        r.parent_id == set_spec(a.parent_id),
        r.parent_external_id == (if a.parent_id.is_some() { None } else { set_spec(a.parent_external_id) }),
{
}

impl From<Asset> for Patch<PatchAsset> {
    /// The update under the default options.
    fn from(value: Asset) -> (r: Self)
        ensures
            value.is_patch(default_options(), r),
    {
        let options = UpsertOptions { ignore_nulls: false, merge_metadata: false, merge_lists: false };
        value.patch(&options)
    }
}

impl vstd::std_specs::convert::FromSpecImpl<Asset> for Patch<PatchAsset> {
    /// What `from` gives is stated by its own `ensures`: a cleared map or
    /// list is known only by its contents.
    open spec fn obeys_from_spec() -> bool {
        false
    }

    open spec fn from_spec(v: Asset) -> Patch<PatchAsset> {
        vstd::pervasive::arbitrary()
    }
}

/// Request for deleting a list of assets.
pub struct DeleteAssetsRequest {
    /// Internal or external IDs of assets to delete.
    pub items: Vec<Identity>,
    /// If `true`, ignore any IDs that do not exist in CDF.
    pub ignore_unknown_ids: bool,
    /// If `true`, recursively delete any children of the deleted assets.
    pub recursive: bool,
}

/// Aggregated property on assets.
#[derive(Clone, Copy, PartialEq, Eq, Structural, Debug)]
pub enum AssetAggregatedProperty {
    /// The total number of children for each asset.
    ChildCount,
    /// The path to the asset from the root node.
    Path,
    /// The depth of the asset.
    Depth,
}

/// Descriptor for asset properties to compute aggregates on.
pub struct AggregateProperty {
    /// An array of strings specifying a nested property.
    pub property: Vec<String>,
    /// Filter on which property values to include.
    pub filter: Option<AggregateFilter>,
}

/// Variants of the `count` aggregate on assets.
pub enum AssetAggregateCount {
    /// Count the number of assets with a given property (non-null),
    /// matching the filters.
    PropertyCount {
        /// Advanced filter on assets.
        advanced_filter: Option<AdvancedFilter>,
        /// Simple filter on assets.
        filter: Option<AssetFilter>,
        /// Properties to apply the aggration on. Currently limited to one property per request.
        properties: Vec<AggregateProperty>,
    },
    /// Count the number of assets matching filters.
    AssetCount {
        /// Advanced filter on assets.
        advanced_filter: Option<AdvancedFilter>,
        /// Simple filter on assets.
        filter: Option<AssetFilter>,
    },
}

/// Aggregate on a property, with filters.
pub struct AggregateWithProperty {
    /// Filter on aggregate property values.
    pub aggregate_filter: Option<AggregateFilter>,
    /// Advanced filter on assets.
    pub advanced_filter: Option<AdvancedFilter>,
    /// Simple filter on assets.
    pub filter: Option<AssetFilter>,
    /// Properties to apply the aggration on. Currently limited to one property per request.
    pub properties: Vec<AggregateProperty>,
}

/// Aggregate on a scope of properties, with filters.
pub struct AggregateWithPath {
    /// Filter on aggregate property values.
    pub aggregate_filter: Option<AggregateFilter>,
    /// Advanced filter on assets.
    pub advanced_filter: Option<AdvancedFilter>,
    /// Simple filter on assets.
    pub filter: Option<AssetFilter>,
    /// Scope in each document to aggregate properties.
    pub path: Vec<String>,
}

/// Request for aggregates on assets.
pub enum AssetAggregateRequest {
    /// Count the number of assets matching filters.
    Count(AssetAggregateCount),
    /// Compute the approximate number of unique values for the specified property.
    CardinalityValues(AggregateWithProperty),
    /// Compute the approximate number of unique metadata properties.
    CardinalityProperties(AggregateWithPath),
    /// Get up to 1000 unique values for the specified property ordered by frequency.
    UniqueValues(AggregateProperty),
    /// Get unique metadata keys in a given asset. Ordered by frequency.
    UniqueProperties(AggregateWithPath),
}

/// Describes a property in an asset.
pub struct AggregatedProperty {
    /// Path to the property.
    pub property: Vec<String>,
}

/// Response for an asset aggregation request.
pub enum AssetAggregateResponse {
    /// Aggregate with a list of string values
    Strings {
        /// Number of items in this bucket.
        count: i64,
        /// Array of unique values in the property.
        values: Vec<String>,
    },
    /// Aggregate with a list of integer values.
    Integers {
        /// Number of items in this bucket.
        count: i64,
        /// Array of unique values in the property.
        values: Vec<i64>,
    },
    /// A bucket representing the result of the `UniqueProperties` aggregate.
    Properties {
        /// Number of items in this bucket.
        count: i64,
        /// An array of unique properties.
        values: Vec<AggregatedProperty>,
    },
    /// Aggregate returned when only a simple count is requested.
    Count {
        /// Number of items in this aggregation group.
        count: i64,
    },
}

/// Simple filter on assets.
#[derive(Clone)]
pub struct AssetFilter {
    /// The name of the asset.
    pub name: Option<String>,
    /// Return only direct descendants of the specified assets.
    pub parent_ids: Option<Vec<i64>>,
    /// Return only direct descendants of the specified assets.
    pub parent_external_ids: Option<Vec<String>>,
    /// Only include these root assets and their descendants.
    pub root_ids: Option<Vec<Identity>>,
    /// Only include assets in subtrees rooted at the specified assets.
    pub asset_subtree_ids: Option<Vec<Identity>>,
    /// List of data set external or internal IDs that included assets will belong to.
    pub data_set_ids: Option<Vec<Identity>>,
    /// Filter on metadata keys and values.
    pub metadata: Option<HashMap<String, String>>,
    /// The source of the asset.
    pub source: Option<String>,
    /// Range for the `created_time` field on included assets.
    pub created_time: Option<Range<i64>>,
    /// Range for the `last_updated_time` field on included assets.
    pub last_updated_time: Option<Range<i64>>,
    /// Filter by this (case-sensitive) prefix for the asset external ID.
    pub external_id_prefix: Option<String>,
    /// Whether the included assets are root assets or not.
    pub root: Option<bool>,
    /// Return only assets matching the given labels filter.
    pub labels: Option<LabelsFilter>,
}

impl AssetFilter {
    /// Create an empty assets filter.
    pub fn new() -> (r: AssetFilter)
        ensures
            r == (AssetFilter {
                name: None,
                parent_ids: None,
                parent_external_ids: None,
                root_ids: None,
                asset_subtree_ids: None,
                data_set_ids: None,
                metadata: None,
                source: None,
                created_time: None,
                last_updated_time: None,
                external_id_prefix: None,
                root: None,
                labels: None,
            }),
    {
        AssetFilter {
            name: None,
            parent_ids: None,
            parent_external_ids: None,
            root_ids: None,
            asset_subtree_ids: None,
            data_set_ids: None,
            metadata: None,
            source: None,
            created_time: None,
            last_updated_time: None,
            external_id_prefix: None,
            root: None,
            labels: None,
        }
    }
}

/// Fuzzy search on asset properties.
pub struct AssetSearch {
    /// The name of the asset
    pub name: Option<String>,
    /// The description of the asset.
    pub description: Option<String>,
    /// Whitespace-separated terms to search for in assets.
    pub query: Option<String>,
}

impl AssetSearch {
    /// Create an empty assets search
    pub fn new() -> (r: AssetSearch)
        ensures
            r == (AssetSearch { name: None, description: None, query: None }),
    {
        AssetSearch { name: None, description: None, query: None }
    }
}

/// Request for filtering assets.
pub struct FilterAssetsRequest {
    /// Simple filter.
    pub filter: Option<AssetFilter>,
    /// Advanced filter.
    pub advanced_filter: Option<AdvancedFilter>,
    /// Maximum number of results to return.
    pub limit: Option<i32>,
    /// Optional cursor for pagination.
    pub cursor: Option<String>,
    /// Aggregated properties to include.
    pub aggregated_properties: Option<Vec<AssetAggregatedProperty>>,
    /// Optional partition.
    pub partition: Option<Partition>,
    /// Optional list of fields to sort on. The order is significant.
    pub sort: Option<Vec<CoreSortItem>>,
}

impl SetCursor for FilterAssetsRequest {
    open spec fn with_cursor_spec(self, cursor: Option<String>) -> Self {
        FilterAssetsRequest { cursor, ..self }
    }

    fn set_cursor(&mut self, cursor: Option<String>) {
        self.cursor = cursor;
    }
}

impl WithPartition for FilterAssetsRequest {
    open spec fn partition_of(&self) -> Option<Partition> {
        self.partition
    }

    fn with_partition(&self, partition: Partition) -> (r: Self)
        ensures
            r.partition == Some(partition),
            r.limit == self.limit,
            r.cursor == self.cursor,
            cloned(self.filter, r.filter),
            cloned(self.advanced_filter, r.advanced_filter),
            cloned(self.aggregated_properties, r.aggregated_properties),
            cloned(self.sort, r.sort),
    {
        FilterAssetsRequest {
            filter: self.filter.clone(),
            advanced_filter: self.advanced_filter.clone(),
            limit: self.limit,
            cursor: clone_opt_string(&self.cursor),
            aggregated_properties: self.aggregated_properties.clone(),
            partition: Some(partition),
            sort: self.sort.clone(),
        }
    }
}

/// Query parameters for filtering assets.
pub struct AssetQuery {
    /// Maximum number of results to return.
    pub limit: Option<i32>,
    /// Optional cursor for pagination.
    pub cursor: Option<String>,
    /// Whether the metadata field should be returned or not.
    pub include_metadata: Option<bool>,
    /// The name of the assets to include.
    pub name: Option<String>,
    /// The source of the assets to include.
    pub source: Option<String>,
    /// Whether the filtered assets are root assets or not.
    pub root: Option<bool>,
    /// Min value of `created_time`, in milliseconds since epoch.
    pub min_created_time: Option<i64>,
    /// Max value of `created_time`, in milliseconds since epoch.
    pub max_created_time: Option<i64>,
    /// Min value of `last_updated_time`, in milliseconds since epoch.
    pub min_last_updated_time: Option<i64>,
    /// Max value of `last_updated_time`, in milliseconds since epoch.
    pub max_last_updated_time: Option<i64>,
    /// Filter by this (case-sensitive) prefix for the external ID.
    pub external_id_prefix: Option<String>,
    /// Split the data set into partitions.
    pub partition: Option<Partition>,
}

impl AsParams for AssetQuery {
    /// One pair for each field that is set, in the order of the fields.
    open spec fn tuples_spec(self) -> Seq<(Seq<char>, Seq<char>)> {
        param("limit"@, opt_text(self.limit)) + param("cursor"@, opt_text(self.cursor)) + param(
            "includeMetadata"@,
            opt_text(self.include_metadata),
        ) + param("name"@, opt_text(self.name)) + param("source"@, opt_text(self.source)) + param(
            "root"@,
            opt_text(self.root),
        ) + param("minCreatedTime"@, opt_text(self.min_created_time)) + param(
            "maxCreatedTime"@,
            opt_text(self.max_created_time),
        ) + param("minLastUpdatedTime"@, opt_text(self.min_last_updated_time)) + param(
            "maxLastUpdatedTime"@,
            opt_text(self.max_last_updated_time),
        ) + param("externalIdPrefix"@, opt_text(self.external_id_prefix)) + param(
            "partition"@,
            opt_text(self.partition),
        )
    }

    fn to_tuples(self) -> (r: Vec<(String, String)>) {
        let mut params: Vec<(String, String)> = Vec::new();
        assert(params.deep_view() =~= Seq::<(Seq<char>, Seq<char>)>::empty());
        to_query("limit", &self.limit, &mut params);
        to_query("cursor", &self.cursor, &mut params);
        to_query("includeMetadata", &self.include_metadata, &mut params);
        to_query("name", &self.name, &mut params);
        to_query("source", &self.source, &mut params);
        to_query("root", &self.root, &mut params);
        to_query("minCreatedTime", &self.min_created_time, &mut params);
        to_query("maxCreatedTime", &self.max_created_time, &mut params);
        to_query("minLastUpdatedTime", &self.min_last_updated_time, &mut params);
        to_query("maxLastUpdatedTime", &self.max_last_updated_time, &mut params);
        to_query("externalIdPrefix", &self.external_id_prefix, &mut params);
        to_query("partition", &self.partition, &mut params);
        assert(params.deep_view() =~= self.tuples_spec());
        params
    }
}

/// Each query parameter of an asset query carries the text of the field it is
/// named after: a field that is set gives exactly one pair under its own
/// name, holding the field's text, and a field that is not set gives none.
pub proof fn lemma_asset_query_params(q: AssetQuery)
    ensures
        named_values(q.tuples_spec(), "limit"@) == present(opt_text(q.limit)),
        named_values(q.tuples_spec(), "cursor"@) == present(opt_text(q.cursor)),
        named_values(q.tuples_spec(), "includeMetadata"@) == present(opt_text(q.include_metadata)),
        named_values(q.tuples_spec(), "name"@) == present(opt_text(q.name)),
        named_values(q.tuples_spec(), "source"@) == present(opt_text(q.source)),
        named_values(q.tuples_spec(), "root"@) == present(opt_text(q.root)),
        named_values(q.tuples_spec(), "minCreatedTime"@) == present(opt_text(q.min_created_time)),
        named_values(q.tuples_spec(), "maxCreatedTime"@) == present(opt_text(q.max_created_time)),
        named_values(q.tuples_spec(), "minLastUpdatedTime"@) == present(opt_text(q.min_last_updated_time)),
        named_values(q.tuples_spec(), "maxLastUpdatedTime"@) == present(opt_text(q.max_last_updated_time)),
        named_values(q.tuples_spec(), "externalIdPrefix"@) == present(opt_text(q.external_id_prefix)),
        named_values(q.tuples_spec(), "partition"@) == present(opt_text(q.partition)),
{
    broadcast use lemma_named_values_add, lemma_named_values_param, Seq::add_empty_left, Seq::add_empty_right;

    reveal_strlit("limit");
    reveal_strlit("cursor");
    reveal_strlit("includeMetadata");
    reveal_strlit("name");
    reveal_strlit("source");
    reveal_strlit("root");
    reveal_strlit("minCreatedTime");
    reveal_strlit("maxCreatedTime");
    reveal_strlit("minLastUpdatedTime");
    reveal_strlit("maxLastUpdatedTime");
    reveal_strlit("externalIdPrefix");
    reveal_strlit("partition");
    assert("limit"@.len() == 5);
    assert("cursor"@.len() == 6);
    assert("includeMetadata"@.len() == 15);
    assert("name"@.len() == 4);
    assert("source"@.len() == 6);
    assert("root"@.len() == 4);
    assert("minCreatedTime"@.len() == 14);
    assert("maxCreatedTime"@.len() == 14);
    assert("minLastUpdatedTime"@.len() == 18);
    assert("maxLastUpdatedTime"@.len() == 18);
    assert("externalIdPrefix"@.len() == 16);
    assert("partition"@.len() == 9);
    assert("cursor"@[0] != "source"@[0]);
    assert("name"@[0] != "root"@[0]);
    assert("minCreatedTime"@[1] != "maxCreatedTime"@[1]);
    assert("minLastUpdatedTime"@[1] != "maxLastUpdatedTime"@[1]);
}

impl SetCursor for AssetQuery {
    open spec fn with_cursor_spec(self, cursor: Option<String>) -> Self {
        AssetQuery { cursor, ..self }
    }

    fn set_cursor(&mut self, cursor: Option<String>) {
        self.cursor = cursor;
    }
}

impl WithPartition for AssetQuery {
    open spec fn partition_of(&self) -> Option<Partition> {
        self.partition
    }

    fn with_partition(&self, partition: Partition) -> (r: Self)
        ensures
            r.partition == Some(partition),
            r == (AssetQuery { partition: Some(partition), ..*self }),
    {
        Self {
            limit: self.limit,
            cursor: clone_opt_string(&self.cursor),
            include_metadata: self.include_metadata,
            name: clone_opt_string(&self.name),
            source: clone_opt_string(&self.source),
            root: self.root,
            min_created_time: self.min_created_time,
            max_created_time: self.max_created_time,
            min_last_updated_time: self.min_last_updated_time,
            max_last_updated_time: self.max_last_updated_time,
            external_id_prefix: clone_opt_string(&self.external_id_prefix),
            partition: Some(partition),
        }
    }
}

} // verus!
