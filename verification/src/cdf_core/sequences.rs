//! Sequences: the resource, its columns, creation and update forms,
//! filters, and the requests on rows that carry no floating-point values.

use vstd::prelude::*;

use std::collections::HashMap;

use crate::cdf_core::CoreSortItem;
use crate::filter::AdvancedFilter;
use crate::filter_types::{Partition, Range, SetCursor, WithPartition};
use crate::identity::{EqIdentity, Identity, IdentityModel};
use crate::patch::{
    default_options, map_patch, patch_map, patch_set_null, resource_identity, set_null_spec,
    to_identity, IntoPatch, Patch, UpdateList, UpdateMap, UpdateSet, UpdateSetNull,
    UpsertOptions,
};
use crate::text::{clone_opt_string, opt_string_is};

verus! {

/// Type of sequence value.
#[derive(Clone, Copy, PartialEq, Eq, Structural, Debug)]
pub enum SequenceValueType {
    /// Double precision floating point.
    Double,
    /// String.
    String,
    /// 64-bit integer.
    Long,
}

impl Default for SequenceValueType {
    fn default() -> (r: Self)
        ensures
            r == SequenceValueType::Double,
    {
        SequenceValueType::Double
    }
}

#[derive(Clone)]
/// Description of a single sequence column
pub struct SequenceColumn {
    /// Name of the sequence column.
    pub name: Option<String>,
    /// External ID of the sequence column. Must be unique for a given sequence.
    pub external_id: String,
    /// Description of the sequence column.
    pub description: Option<String>,
    /// Type of column value.
    pub value_type: SequenceValueType,
    /// Custom, application specific metadata. String key -> String value.
    pub metadata: Option<HashMap<String, String>>,
    /// Time this sequence column was created, in milliseconds since epoch.
    pub created_time: Option<i64>,
    /// Time this sequence column was last updated, in milliseconds since epoch.
    pub last_updated_time: Option<i64>,
}

/// A CDF sequence.
pub struct Sequence {
    /// Sequence internal ID.
    pub id: i64,
    /// External ID of the sequence. Must be unique within the project.
    pub external_id: Option<String>,
    /// Name of the sequence.
    pub name: Option<String>,
    /// Description of the sequence.
    pub description: Option<String>,
    /// ID of asset this sequence belongs to.
    pub asset_id: Option<i64>,
    /// Custom, application specific metadata. String key -> String value.
    pub metadata: Option<HashMap<String, String>>,
    /// List of columns in this sequence.
    pub columns: Vec<SequenceColumn>,
    /// Time this sequence was created, in milliseconds since epoch.
    pub created_time: i64,
    /// Time this sequence was last updated, in milliseconds since epoch.
    pub last_updated_time: i64,
    /// ID of the data set this sequence belongs to.
    pub data_set_id: Option<i64>,
}

#[derive(Clone)]
/// Create a new sequence.
pub struct AddSequence {
    /// External ID of the sequence. Must be unique within the project.
    pub external_id: Option<String>,
    /// Name of the sequence.
    pub name: Option<String>,
    /// Description of the sequence.
    pub description: Option<String>,
    /// ID of asset this sequence belongs to.
    pub asset_id: Option<i64>,
    /// Custom, application specific metadata. String key -> String value.
    pub metadata: Option<HashMap<String, String>>,
    /// List of columns in this sequence.
    pub columns: Vec<SequenceColumn>,
    /// ID of the data set this sequence belongs to.
    pub data_set_id: Option<i64>,
}

impl From<Sequence> for AddSequence {
    fn from(sequence: Sequence) -> (r: Self)
        ensures
            r.external_id == sequence.external_id,
            r.name == sequence.name,
            r.description == sequence.description,
            r.asset_id == sequence.asset_id,
            r.metadata == sequence.metadata,
            r.columns == sequence.columns,
            r.data_set_id == sequence.data_set_id,
    {
        AddSequence {
            external_id: sequence.external_id,
            name: sequence.name,
            description: sequence.description,
            asset_id: sequence.asset_id,
            metadata: sequence.metadata,
            columns: sequence.columns,
            data_set_id: sequence.data_set_id,
        }
    }
}

impl vstd::std_specs::convert::FromSpecImpl<Sequence> for AddSequence {
    open spec fn obeys_from_spec() -> bool {
        true
    }

    open spec fn from_spec(sequence: Sequence) -> AddSequence {
        add_sequence_of(sequence)
    }
}

/// The creation form of a sequence: its writable fields, columns included.
pub open spec fn add_sequence_of(sequence: Sequence) -> AddSequence {
    AddSequence {
        external_id: sequence.external_id,
        name: sequence.name,
        description: sequence.description,
        asset_id: sequence.asset_id,
        metadata: sequence.metadata,
        columns: sequence.columns,
        data_set_id: sequence.data_set_id,
    }
}

impl EqIdentity for AddSequence {
    /// A sequence to create is named only by its external ID.
    open spec fn matches_identity(&self, id: IdentityModel) -> bool {
        match id {
            IdentityModel::Id(_) => false,
            IdentityModel::ExternalId(e) => self.external_id.deep_view() == Some(e),
        }
    }

    fn eq(&self, id: &Identity) -> (r: bool)
        ensures
            r == (id is ExternalId && self.external_id is Some
                && self.external_id->0@ == id->external_id@),
    {
        match id {
            Identity::Id { .. } => false,
            Identity::ExternalId { external_id } => opt_string_is(&self.external_id, external_id.as_str()),
        }
    }
}

/// Update the columns of a sequence.
pub struct UpdateSequenceColumns {
    /// List of column updates.
    pub modify: Option<Vec<Patch<PatchSequenceColumn>>>,
    /// List of column definitions to add.
    pub add: Option<Vec<SequenceColumn>>,
    /// List of columns to remove.
    pub remove: Option<Vec<String>>,
}

impl From<UpdateList<SequenceColumn, String>> for UpdateSequenceColumns {
    fn from(upd: UpdateList<SequenceColumn, String>) -> (r: Self) {
        match upd {
            UpdateList::AddRemove { add, remove } => Self { modify: None, add, remove },
            UpdateList::Replace { set } => Self { add: Some(set), modify: None, remove: None },
        }
    }
}

impl vstd::std_specs::convert::FromSpecImpl<UpdateList<SequenceColumn, String>> for UpdateSequenceColumns {
    open spec fn obeys_from_spec() -> bool {
        true
    }

    /// Added and removed columns carry over; a replacing list becomes a list
    /// of columns to add. No column is modified.
    open spec fn from_spec(upd: UpdateList<SequenceColumn, String>) -> UpdateSequenceColumns {
        match upd {
            UpdateList::AddRemove { add, remove } => UpdateSequenceColumns { modify: None, add, remove },
            UpdateList::Replace { set } => UpdateSequenceColumns { add: Some(set), modify: None, remove: None },
        }
    }
}

/// Update a sequence column.
pub struct PatchSequenceColumn {
    /// Description of the sequence.
    pub description: Option<UpdateSetNull<String>>,
    /// External ID of the sequence column. Must be unique for a given sequence.
    pub external_id: Option<UpdateSet<String>>,
    /// Name of the sequence column.
    pub name: Option<UpdateSetNull<String>>,
    /// Custom, application specific metadata.
    pub metadata: Option<UpdateMap<String, String>>,
}

/// Update a sequence.
pub struct PatchSequence {
    /// Name of the sequence.
    pub name: Option<UpdateSetNull<String>>,
    /// Description of the sequence.
    pub description: Option<UpdateSetNull<String>>,
    /// ID of asset this sequence belongs to.
    pub asset_id: Option<UpdateSetNull<i64>>,
    /// External ID of the sequence. Must be unique within the project.
    pub external_id: Option<UpdateSetNull<String>>,
    /// Custom, application specific metadata.
    pub metadata: Option<UpdateMap<String, String>>,
    /// ID of the data set this sequence belongs to.
    pub data_set_id: Option<UpdateSetNull<i64>>,
    /// List of columns in this sequence.
    pub columns: Option<UpdateSequenceColumns>,
}

/// Whether `r` writes the writable fields of `s`, as `patch` does: the
/// columns are left as they are.
pub open spec fn is_sequence_patch(r: PatchSequence, o: UpsertOptions, s: AddSequence) -> bool {
    &&& r.name == set_null_spec(s.name, o)
    &&& r.description == set_null_spec(s.description, o)
    &&& r.asset_id == set_null_spec(s.asset_id, o)
    &&& r.external_id == set_null_spec(s.external_id, o)
    &&& map_patch(r.metadata, s.metadata, o)
    &&& r.data_set_id == set_null_spec(s.data_set_id, o)
    &&& r.columns.is_none()
}

impl IntoPatch<Patch<PatchSequence>> for Sequence {
    /// The sequence is addressed by its identity; its fields but the
    /// columns are written.
    open spec fn is_patch(self, o: UpsertOptions, r: Patch<PatchSequence>) -> bool {
        &&& r.id@ == resource_identity(self.id, self.external_id.deep_view())
        &&& is_sequence_patch(r.update, o, add_sequence_of(self))
    }

    fn patch(self, options: &UpsertOptions) -> (r: Patch<PatchSequence>)
        ensures
            r.id@ == resource_identity(self.id, self.external_id.deep_view()),
            r.update.name == set_null_spec(self.name, *options),
            r.update.description == set_null_spec(self.description, *options),
            r.update.asset_id == set_null_spec(self.asset_id, *options),
            r.update.external_id == set_null_spec(self.external_id, *options),
            map_patch(r.update.metadata, self.metadata, *options),
            r.update.data_set_id == set_null_spec(self.data_set_id, *options),
            r.update.columns.is_none(),
    {
        let id = to_identity(self.id, &self.external_id);
        Patch {
            id,
            update: PatchSequence {
                name: patch_set_null(self.name, options),
                description: patch_set_null(self.description, options),
                asset_id: patch_set_null(self.asset_id, options),
                external_id: patch_set_null(self.external_id, options),
                metadata: patch_map(self.metadata, options),
                data_set_id: patch_set_null(self.data_set_id, options),
                columns: None,
            },
        }
    }
}

/// The update that a Sequence becomes writes every field from the field of
/// the same name, under the options given, and is addressed to the resource's own identity.
pub proof fn lemma_patch_fields_sequence(a: Sequence, o: UpsertOptions, r: Patch<PatchSequence>)
    requires
        a.is_patch(o, r),
    ensures
        r.id@ == resource_identity(a.id, a.external_id.deep_view()),
        r.update.name == set_null_spec(a.name, o),
        r.update.description == set_null_spec(a.description, o),
        r.update.asset_id == set_null_spec(a.asset_id, o),
        r.update.external_id == set_null_spec(a.external_id, o),
        map_patch(r.update.metadata, a.metadata, o),
        r.update.data_set_id == set_null_spec(a.data_set_id, o),
        r.update.columns.is_none(),
{
}

impl IntoPatch<PatchSequence> for AddSequence {
    /// The fields but the columns are written.
    open spec fn is_patch(self, o: UpsertOptions, r: PatchSequence) -> bool {
        is_sequence_patch(r, o, self)
    }

    fn patch(self, options: &UpsertOptions) -> (r: PatchSequence)
        ensures
            r.name == set_null_spec(self.name, *options),
            r.description == set_null_spec(self.description, *options),
            r.asset_id == set_null_spec(self.asset_id, *options),
            r.external_id == set_null_spec(self.external_id, *options),
            map_patch(r.metadata, self.metadata, *options),
            r.data_set_id == set_null_spec(self.data_set_id, *options),
            r.columns.is_none(),
    {
        PatchSequence {
            name: patch_set_null(self.name, options),
            description: patch_set_null(self.description, options),
            asset_id: patch_set_null(self.asset_id, options),
            external_id: patch_set_null(self.external_id, options),
            metadata: patch_map(self.metadata, options),
            data_set_id: patch_set_null(self.data_set_id, options),
            columns: None,
        }
    }
}

/// The update that an AddSequence becomes writes every field from the field of
/// the same name, under the options given.
pub proof fn lemma_patch_fields_add_sequence(a: AddSequence, o: UpsertOptions, r: PatchSequence)
    requires
        a.is_patch(o, r),
    ensures
        r.name == set_null_spec(a.name, o),
        r.description == set_null_spec(a.description, o),
        r.asset_id == set_null_spec(a.asset_id, o),
        r.external_id == set_null_spec(a.external_id, o),
        map_patch(r.metadata, a.metadata, o),
        r.data_set_id == set_null_spec(a.data_set_id, o),
        r.columns.is_none(),
{
}

impl From<Sequence> for Patch<PatchSequence> {
    /// The update under the default options.
    fn from(value: Sequence) -> (r: Self)
        ensures
            value.is_patch(default_options(), r),
    {
        let options = UpsertOptions { ignore_nulls: false, merge_metadata: false, merge_lists: false };
        value.patch(&options)
    }
}

impl vstd::std_specs::convert::FromSpecImpl<Sequence> for Patch<PatchSequence> {
    /// What `from` gives is stated by its own `ensures`: a cleared map or
    /// list is known only by its contents.
    open spec fn obeys_from_spec() -> bool {
        false
    }

    open spec fn from_spec(v: Sequence) -> Patch<PatchSequence> {
        vstd::pervasive::arbitrary()
    }
}

/// Filter on sequences.
#[derive(Clone)]
pub struct SequenceFilter {
    /// Include sequences with this name.
    pub name: Option<String>,
    /// Filter by this (case-sensitive) prefix for the external ID.
    pub external_id_prefix: Option<String>,
    /// Filter by sequence metadata.
    pub metadata: Option<HashMap<String, String>>,
    /// Include sequences associated with one of these assets.
    pub asset_ids: Option<Vec<i64>>,
    /// Include sequences associated with an asset in the tree of one of these root assets.
    pub root_asset_ids: Option<Vec<i64>>,
    /// Include sequences associated with an asset in the subtree of one of these assets.
    pub asset_subtree_ids: Option<Vec<Identity>>,
    /// Range of timestamps for `created_time`.
    pub created_time: Option<Range<i64>>,
    /// Range of timestamps for `last_updated_time`.
    pub last_updated_time: Option<Range<i64>>,
    /// Include sequences which are tied to one of these data sets.
    pub data_set_ids: Option<Vec<Identity>>,
}

/// Request for filtering sequences.
pub struct SequenceFilterRequest {
    /// Simple sequences filter.
    pub filter: Option<SequenceFilter>,
    /// Advanced filter.
    pub advanced_filter: Option<AdvancedFilter>,
    /// Maximum number of sequences to return.
    pub limit: Option<i32>,
    /// Optional cursor for pagination.
    pub cursor: Option<String>,
    /// Split the result set into partitions.
    pub partition: Option<Partition>,
    /// Sort the result by these properties. The order is significant.
    pub sort: Option<Vec<CoreSortItem>>,
}

impl SetCursor for SequenceFilterRequest {
    open spec fn with_cursor_spec(self, cursor: Option<String>) -> Self {
        SequenceFilterRequest { cursor, ..self }
    }

    fn set_cursor(&mut self, cursor: Option<String>) {
        self.cursor = cursor;
    }
}

impl WithPartition for SequenceFilterRequest {
    open spec fn partition_of(&self) -> Option<Partition> {
        self.partition
    }

    /// A copy of the request for one partition.
    fn with_partition(&self, partition: Partition) -> (r: Self)
        ensures
            r.partition == Some(partition),
            r.limit == self.limit,
            r.cursor == self.cursor,
            cloned(self.filter, r.filter),
            cloned(self.advanced_filter, r.advanced_filter),
            cloned(self.sort, r.sort),
    {
        SequenceFilterRequest {
            filter: self.filter.clone(),
            advanced_filter: self.advanced_filter.clone(),
            limit: self.limit,
            cursor: clone_opt_string(&self.cursor),
            partition: Some(partition),
            sort: self.sort.clone(),
        }
    }
}

/// Fuzzy search sequences.
pub struct SequenceSearch {
    /// Fuzzy search on name.
    pub name: Option<String>,
    /// Fuzzy search on description.
    pub description: Option<String>,
    /// Searches on name and description using wildcard search on each of the words.
    pub query: Option<String>,
}

/// A simple reference to a sequence column.
pub struct BasicSequenceColumn {
    /// Sequence column external ID.
    pub external_id: String,
    /// Sequence column name.
    pub name: Option<String>,
    /// Column value type.
    pub value_type: SequenceValueType,
}

/// Value of a sequence row.
pub enum SequenceRowValue {
    /// String value.
    String(String),
    /// 64-bit integer value.
    Long(i64),
    /// Double precision floating point value, as the bits of an `f64`.
    Double(u64),
    /// Null value.
    Null(()),
}

impl Default for SequenceRowValue {
    /// A null value.
    fn default() -> (r: Self)
        ensures
            r is Null,
    {
        SequenceRowValue::Null(())
    }
}

/// A single sequence row.
pub struct SequenceRow {
    /// Row number.
    pub row_number: i64,
    /// List of values in order of requested columns.
    pub values: Vec<SequenceRowValue>,
}

/// Response when retrieving sequence rows.
pub struct RetrieveSequenceRowsResponse {
    /// Internal ID of sequence.
    pub id: i64,
    /// External ID of sequence.
    pub external_id: Option<String>,
    /// List of requested columns in sequence.
    pub columns: Vec<BasicSequenceColumn>,
    /// List of retrieved rows.
    pub rows: Vec<SequenceRow>,
    /// Cursor for pagination.
    pub next_cursor: Option<String>,
}

/// Request to insert a list of rows into a sequence.
pub struct InsertSequenceRows {
    /// Column external IDs to insert into.
    pub columns: Vec<String>,
    /// List of rows to insert.
    pub rows: Vec<SequenceRow>,
    /// ID or external ID of sequence to insert into.
    pub id: Identity,
}

/// Request to retrieve sequence rows for a single sequence.
pub struct RetrieveSequenceRows {
    /// Optional lower bound on row numbers.
    pub start: Option<i64>,
    /// Optional upper bound on row numbers.
    pub end: Option<i64>,
    /// Maximum number of rows to return per request.
    pub limit: Option<i32>,
    /// Optional cursor for pagination.
    pub cursor: Option<String>,
    /// Columns to retrieve values from.
    pub columns: Option<Vec<String>>,
    /// ID of sequence to retrieve from.
    pub id: Identity,
}

/// Request to retrieve the sequence row with the highest row number.
pub struct RetrieveLastSequenceRow {
    /// Columns to retrieve from.
    pub columns: Option<Vec<String>>,
    /// Retrieve the row with the highest row number that is smaller than this.
    pub before: Option<i64>,
    /// ID of sequence to retrieve from.
    pub id: Identity,
}

/// Request to delete a list of sequence rows from a sequence.
pub struct DeleteSequenceRows {
    /// Row numbers to delete.
    pub rows: Vec<i64>,
    /// ID of sequence to delete from.
    pub id: Identity,
}

} // verus!
