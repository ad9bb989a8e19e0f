//! Data sets.

use vstd::prelude::*;

use std::collections::HashMap;

use crate::filter_types::Range;
use crate::patch::{
    default_options, map_patch, patch_map, patch_set_null, resource_identity, set_null_spec,
    to_identity, IntoPatch, Patch, UpdateMap, UpdateSetNull, UpsertOptions,
};

verus! {

/// A data set grouping data in CDF.
pub struct DataSet {
    /// Data set internal ID.
    pub id: i64,
    /// Time this data set was created, in milliseconds since epoch.
    pub created_time: i64,
    /// Time this data set was last modified, in milliseconds since epoch.
    pub last_updated_time: i64,
    /// Data set external ID. Must be unique within the project.
    pub external_id: Option<String>,
    /// Human readable data set name.
    pub name: Option<String>,
    /// Data set description.
    pub description: Option<String>,
    /// Custom, application specific metadata. String key -> String value.
    pub metadata: Option<HashMap<String, String>>,
    /// Whether writing to the data set requires the "datasets:owner" action.
    pub write_protected: bool,
}

/// Create a CDF data set.
pub struct AddDataSet {
    /// Data set external ID. Must be unique within the project.
    pub external_id: Option<String>,
    /// Human readable data set name.
    pub name: Option<String>,
    /// Data set description.
    pub description: Option<String>,
    /// Custom, application specific metadata. String key -> String value.
    pub metadata: Option<HashMap<String, String>>,
    /// Whether writing to the data set requires the "datasets:owner" action.
    pub write_protected: bool,
}

impl From<DataSet> for AddDataSet {
    fn from(dataset: DataSet) -> (r: Self)
        ensures
            r.external_id == dataset.external_id,
            r.name == dataset.name,
            r.description == dataset.description,
            r.metadata == dataset.metadata,
            r.write_protected == dataset.write_protected,
    {
        AddDataSet {
            external_id: dataset.external_id,
            name: dataset.name,
            description: dataset.description,
            metadata: dataset.metadata,
            write_protected: dataset.write_protected,
        }
    }
}

impl vstd::std_specs::convert::FromSpecImpl<DataSet> for AddDataSet {
    open spec fn obeys_from_spec() -> bool {
        true
    }

    /// The creation form keeps the writable fields.
    open spec fn from_spec(dataset: DataSet) -> AddDataSet {
        AddDataSet {
            external_id: dataset.external_id,
            name: dataset.name,
            description: dataset.description,
            metadata: dataset.metadata,
            write_protected: dataset.write_protected,
        }
    }
}

/// Filter for listing data sets.
pub struct DataSetFilter {
    /// Filter based on metadata.
    pub metadata: Option<HashMap<String, String>>,
    /// Range of timestamps for `created_time`.
    pub created_time: Option<Range<i64>>,
    /// Range of timestamps for `last_updated_time`.
    pub last_updated_time: Option<Range<i64>>,
    /// Filter by this (case-sensitive) prefix for the external ID.
    pub external_id_prefix: Option<String>,
    /// Filter on data set `writeProtected`.
    pub write_protected: Option<bool>,
}

/// Result for aggregating data sets.
pub struct DataSetsCount {
    /// Data set count.
    pub count: i64,
}

/// Update data sets.
pub struct PatchDataSet {
    /// Data set external ID. Must be unique within the project.
    pub external_id: Option<UpdateSetNull<String>>,
    /// Data set name.
    pub name: Option<UpdateSetNull<String>>,
    /// Data set description.
    pub description: Option<UpdateSetNull<String>>,
    /// Custom, application specific metadata.
    pub metadata: Option<UpdateMap<String, String>>,
}

/// Whether `r` writes name, description and metadata, and leaves the
/// external ID as it is.
pub open spec fn is_data_set_patch(
    r: PatchDataSet,
    o: UpsertOptions,
    name: Option<String>,
    description: Option<String>,
    metadata: Option<HashMap<String, String>>,
) -> bool {
    &&& r.external_id.is_none()
    &&& r.name == set_null_spec(name, o)
    &&& r.description == set_null_spec(description, o)
    &&& map_patch(r.metadata, metadata, o)
}

impl IntoPatch<Patch<PatchDataSet>> for DataSet {
    /// The data set is addressed by its identity; its external ID is not written.
    open spec fn is_patch(self, o: UpsertOptions, r: Patch<PatchDataSet>) -> bool {
        &&& r.id@ == resource_identity(self.id, self.external_id.deep_view())
        &&& is_data_set_patch(r.update, o, self.name, self.description, self.metadata)
    }

    fn patch(self, options: &UpsertOptions) -> (r: Patch<PatchDataSet>)
        ensures
            r.id@ == resource_identity(self.id, self.external_id.deep_view()),
            r.update.external_id.is_none(),
            r.update.name == set_null_spec(self.name, *options),
            r.update.description == set_null_spec(self.description, *options),
            map_patch(r.update.metadata, self.metadata, *options),
    {
        let id = to_identity(self.id, &self.external_id);
        Patch {
            id,
            update: PatchDataSet {
                external_id: None,
                name: patch_set_null(self.name, options),
                description: patch_set_null(self.description, options),
                metadata: patch_map(self.metadata, options),
            },
        }
    }
}

/// The update that a DataSet becomes writes every field from the field of
/// the same name, under the options given, and is addressed to the resource's own identity.
pub proof fn lemma_patch_fields_data_set(a: DataSet, o: UpsertOptions, r: Patch<PatchDataSet>)
    requires
        a.is_patch(o, r),
    ensures
        r.id@ == resource_identity(a.id, a.external_id.deep_view()),
        r.update.external_id.is_none(),
        r.update.name == set_null_spec(a.name, o),
        r.update.description == set_null_spec(a.description, o),
        map_patch(r.update.metadata, a.metadata, o),
{
}

impl IntoPatch<PatchDataSet> for AddDataSet {
    /// Name, description and metadata are written; the external ID is not.
    open spec fn is_patch(self, o: UpsertOptions, r: PatchDataSet) -> bool {
        is_data_set_patch(r, o, self.name, self.description, self.metadata)
    }

    fn patch(self, options: &UpsertOptions) -> (r: PatchDataSet)
        ensures
            r.external_id.is_none(),
            r.name == set_null_spec(self.name, *options),
            r.description == set_null_spec(self.description, *options),
            map_patch(r.metadata, self.metadata, *options),
    {
        PatchDataSet {
            external_id: None,
            name: patch_set_null(self.name, options),
            description: patch_set_null(self.description, options),
            metadata: patch_map(self.metadata, options),
        }
    }
}

/// The update that an AddDataSet becomes writes every field from the field of
/// the same name, under the options given.
pub proof fn lemma_patch_fields_add_data_set(a: AddDataSet, o: UpsertOptions, r: PatchDataSet)
    requires
        a.is_patch(o, r),
    ensures
        r.external_id.is_none(),
        r.name == set_null_spec(a.name, o),
        r.description == set_null_spec(a.description, o),
        map_patch(r.metadata, a.metadata, o),
{
}

impl From<DataSet> for Patch<PatchDataSet> {
    /// The update under the default options.
    fn from(value: DataSet) -> (r: Self)
        ensures
            value.is_patch(default_options(), r),
    {
        let options = UpsertOptions { ignore_nulls: false, merge_metadata: false, merge_lists: false };
        value.patch(&options)
    }
}

impl vstd::std_specs::convert::FromSpecImpl<DataSet> for Patch<PatchDataSet> {
    /// What `from` gives is stated by its own `ensures`: a cleared map is
    /// known only by its contents.
    open spec fn obeys_from_spec() -> bool {
        false
    }

    open spec fn from_spec(v: DataSet) -> Patch<PatchDataSet> {
        vstd::pervasive::arbitrary()
    }
}

} // verus!
