//! Relationships between resources.
//!
//! A confidence is carried as the bits of its floating-point value (what
//! `f32::to_bits`, or `f64::to_bits` in a filter range, gives): nothing
//! here computes with it.

use vstd::prelude::*;

use crate::cdf_core::asset::Asset;
use crate::cdf_core::event::Event;
use crate::cdf_core::files::FileMetadata;
use crate::cdf_core::sequences::Sequence;
use crate::cdf_core::time_series::TimeSeries;
use crate::filter_types::{LabelsFilter, Partition, Range, SetCursor, WithPartition};
use crate::identity::{CogniteExternalId, Identity, IdentityModel};
use crate::patch::{
    default_options, list_patch, patch_list, patch_set, patch_set_null, set_null_spec,
    IntoPatch, Patch, UpdateList, UpdateSet, UpdateSetNull, UpsertOptions,
};

verus! {

/// Vertex type for a relationship.
#[derive(Clone, Copy, PartialEq, Eq, Structural, Debug)]
pub enum RelationshipVertexType {
    /// Reference an asset
    Asset,
    /// Reference a time series.
    TimeSeries,
    /// Reference a file
    File,
    /// Reference an event.
    Event,
    /// Reference a sequence.
    Sequence,
}

impl Default for RelationshipVertexType {
    /// An asset.
    fn default() -> (r: Self)
        ensures
            r == RelationshipVertexType::Asset,
    {
        RelationshipVertexType::Asset
    }
}

/// The vertex of a relationship, with the referenced data.
pub enum RelationshipVertex {
    /// Asset vertex.
    Asset(Asset),
    /// Time series vertex.
    TimeSeries(TimeSeries),
    /// File vertex.
    File(FileMetadata),
    /// Event vertex.
    Event(Event),
    /// Sequence vertex.
    Sequence(Sequence),
}

/// A CDF relationship, defining a custom connection between two resources.
pub struct Relationship {
    /// Relationship external ID, must be unique within the project.
    pub external_id: String,
    /// External ID of the source resource.
    pub source_external_id: String,
    /// Type of the source resource.
    pub source_type: RelationshipVertexType,
    /// External ID of the target resource.
    pub target_external_id: String,
    /// Type of the target resource.
    pub target_type: RelationshipVertexType,
    /// Timestamp in milliseconds since epoch when this relationship becomes valid.
    pub start_time: Option<i64>,
    /// Timestamp in milliseconds since epoch when this relationship stops being valid.
    pub end_time: Option<i64>,
    /// Confidence value of the existence of the relationship, between 0.0 and
    /// 1.0, as the bits of an `f32`.
    pub confidence: Option<u32>,
    /// Data set this relationship belongs to.
    pub data_set_id: Option<i64>,
    /// List of labels on this relationship.
    pub labels: Option<Vec<CogniteExternalId>>,
    /// Time this relationship was created, in milliseconds since epoch.
    pub created_time: Option<i64>,
    /// Time this relationship was last modified, in milliseconds since epoch.
    pub last_updated_time: Option<i64>,
    /// Source of this relationship, if requested.
    pub source: Option<RelationshipVertex>,
    /// Target of this relationship, if requested.
    pub target: Option<RelationshipVertex>,
}

/// Create a new relationship.
pub struct AddRelationship {
    /// Relationship external ID, must be unique within the project.
    pub external_id: String,
    /// External ID of the source resource.
    pub source_external_id: String,
    /// Type of the source resource.
    pub source_type: RelationshipVertexType,
    /// External ID of the target resource.
    pub target_external_id: String,
    /// Type of the target resource.
    pub target_type: RelationshipVertexType,
    /// Timestamp in milliseconds since epoch when this relationship becomes valid.
    pub start_time: Option<i64>,
    /// Timestamp in milliseconds since epoch when this relationship stops being valid.
    pub end_time: Option<i64>,
    /// Confidence value, as the bits of an `f32`.
    pub confidence: Option<u32>,
    /// Data set this relationship belongs to.
    pub data_set_id: Option<i64>,
    /// List of labels on this relationship.
    pub labels: Option<Vec<CogniteExternalId>>,
}

/// The creation form of a relationship: everything but the timestamps and
/// the fetched vertices.
pub open spec fn add_relationship_of(rel: Relationship) -> AddRelationship {
    AddRelationship {
        external_id: rel.external_id,
        source_external_id: rel.source_external_id,
        source_type: rel.source_type,
        target_external_id: rel.target_external_id,
        target_type: rel.target_type,
        start_time: rel.start_time,
        end_time: rel.end_time,
        confidence: rel.confidence,
        data_set_id: rel.data_set_id,
        labels: rel.labels,
    }
}

impl From<Relationship> for AddRelationship {
    fn from(rel: Relationship) -> (r: Self)
        ensures
            r.external_id == rel.external_id,
            r.source_external_id == rel.source_external_id,
            r.source_type == rel.source_type,
            r.target_external_id == rel.target_external_id,
            r.target_type == rel.target_type,
            r.start_time == rel.start_time,
            r.end_time == rel.end_time,
            r.confidence == rel.confidence,
            r.data_set_id == rel.data_set_id,
            r.labels == rel.labels,
    {
        AddRelationship {
            external_id: rel.external_id,
            source_external_id: rel.source_external_id,
            source_type: rel.source_type,
            target_external_id: rel.target_external_id,
            target_type: rel.target_type,
            start_time: rel.start_time,
            end_time: rel.end_time,
            confidence: rel.confidence,
            data_set_id: rel.data_set_id,
            labels: rel.labels,
        }
    }
}

impl vstd::std_specs::convert::FromSpecImpl<Relationship> for AddRelationship {
    open spec fn obeys_from_spec() -> bool {
        true
    }

    open spec fn from_spec(rel: Relationship) -> AddRelationship {
        add_relationship_of(rel)
    }
}

/// Update a relationship
pub struct PatchRelationship {
    /// Type of the source resource.
    pub source_type: Option<UpdateSet<RelationshipVertexType>>,
    /// External ID of the source resource.
    pub source_external_id: Option<UpdateSet<String>>,
    /// Type of the target resource.
    pub target_type: Option<UpdateSet<RelationshipVertexType>>,
    /// External ID of the target resource.
    pub target_external_id: Option<UpdateSet<String>>,
    /// Confidence value, as the bits of an `f32`.
    pub confidence: Option<UpdateSetNull<u32>>,
    /// Timestamp in milliseconds since epoch when this relationship becomes valid.
    pub start_time: Option<UpdateSetNull<i64>>,
    /// Timestamp in milliseconds since epoch when this relationship stops being valid.
    pub end_time: Option<UpdateSetNull<i64>>,
    /// Data set this relationship belongs to.
    pub data_set_id: Option<UpdateSetNull<i64>>,
    /// List of labels on this relationship.
    pub labels: Option<UpdateList<CogniteExternalId, CogniteExternalId>>,
}

/// Whether `r` writes every writable field of `a`, as `patch` does.
pub open spec fn is_relationship_patch(r: PatchRelationship, o: UpsertOptions, a: AddRelationship) -> bool {
    &&& r.source_type == Some(UpdateSet { set: a.source_type })
    &&& r.source_external_id == Some(UpdateSet { set: a.source_external_id })
    &&& r.target_type == Some(UpdateSet { set: a.target_type })
    &&& r.target_external_id == Some(UpdateSet { set: a.target_external_id })
    &&& r.confidence == set_null_spec(a.confidence, o)
    &&& r.start_time == set_null_spec(a.start_time, o)
    &&& r.end_time == set_null_spec(a.end_time, o)
    &&& r.data_set_id == set_null_spec(a.data_set_id, o)
    &&& list_patch(r.labels, a.labels, o)
}

impl IntoPatch<Patch<PatchRelationship>> for Relationship {
    /// The relationship is addressed by its external ID and every writable
    /// field is written.
    open spec fn is_patch(self, o: UpsertOptions, r: Patch<PatchRelationship>) -> bool {
        &&& r.id@ == IdentityModel::ExternalId(self.external_id@)
        &&& is_relationship_patch(r.update, o, add_relationship_of(self))
    }

    fn patch(self, options: &UpsertOptions) -> (r: Patch<PatchRelationship>)
        ensures
            r.id@ == IdentityModel::ExternalId(self.external_id@),
            r.update.source_type == Some(UpdateSet { set: self.source_type }),
            r.update.source_external_id == Some(UpdateSet { set: self.source_external_id }),
            r.update.target_type == Some(UpdateSet { set: self.target_type }),
            r.update.target_external_id == Some(UpdateSet { set: self.target_external_id }),
            r.update.confidence == set_null_spec(self.confidence, *options),
            r.update.start_time == set_null_spec(self.start_time, *options),
            r.update.end_time == set_null_spec(self.end_time, *options),
            r.update.data_set_id == set_null_spec(self.data_set_id, *options),
            list_patch(r.update.labels, self.labels, *options),
    {
        Patch {
            id: Identity::ExternalId { external_id: self.external_id },
            update: PatchRelationship {
                source_type: patch_set(self.source_type, options),
                source_external_id: patch_set(self.source_external_id, options),
                target_type: patch_set(self.target_type, options),
                target_external_id: patch_set(self.target_external_id, options),
                confidence: patch_set_null(self.confidence, options),
                start_time: patch_set_null(self.start_time, options),
                end_time: patch_set_null(self.end_time, options),
                data_set_id: patch_set_null(self.data_set_id, options),
                labels: patch_list(self.labels, options),
            },
        }
    }
}

/// The update that a Relationship becomes writes every field from the field of
/// the same name, under the options given, and is addressed to the resource's own identity.
pub proof fn lemma_patch_fields_relationship(a: Relationship, o: UpsertOptions, r: Patch<PatchRelationship>)
    requires
        a.is_patch(o, r),
    ensures
        r.id@ == IdentityModel::ExternalId(a.external_id@),
        r.update.source_type == Some(UpdateSet { set: a.source_type }),
        r.update.source_external_id == Some(UpdateSet { set: a.source_external_id }),
        r.update.target_type == Some(UpdateSet { set: a.target_type }),
        r.update.target_external_id == Some(UpdateSet { set: a.target_external_id }),
        r.update.confidence == set_null_spec(a.confidence, o),
        r.update.start_time == set_null_spec(a.start_time, o),
        r.update.end_time == set_null_spec(a.end_time, o),
        r.update.data_set_id == set_null_spec(a.data_set_id, o),
        list_patch(r.update.labels, a.labels, o),
{
}

impl IntoPatch<PatchRelationship> for AddRelationship {
    /// Every writable field is written.
    open spec fn is_patch(self, o: UpsertOptions, r: PatchRelationship) -> bool {
        is_relationship_patch(r, o, self)
    }

    fn patch(self, options: &UpsertOptions) -> (r: PatchRelationship)
        ensures
            r.source_type == Some(UpdateSet { set: self.source_type }),
            r.source_external_id == Some(UpdateSet { set: self.source_external_id }),
            r.target_type == Some(UpdateSet { set: self.target_type }),
            r.target_external_id == Some(UpdateSet { set: self.target_external_id }),
            r.confidence == set_null_spec(self.confidence, *options),
            r.start_time == set_null_spec(self.start_time, *options),
            r.end_time == set_null_spec(self.end_time, *options),
            r.data_set_id == set_null_spec(self.data_set_id, *options),
            list_patch(r.labels, self.labels, *options),
    {
        PatchRelationship {
            source_type: patch_set(self.source_type, options),
            source_external_id: patch_set(self.source_external_id, options),
            target_type: patch_set(self.target_type, options),
            target_external_id: patch_set(self.target_external_id, options),
            confidence: patch_set_null(self.confidence, options),
            start_time: patch_set_null(self.start_time, options),
            end_time: patch_set_null(self.end_time, options),
            data_set_id: patch_set_null(self.data_set_id, options),
            labels: patch_list(self.labels, options),
        }
    }
}

/// The update that an AddRelationship becomes writes every field from the field of
/// the same name, under the options given.
pub proof fn lemma_patch_fields_add_relationship(a: AddRelationship, o: UpsertOptions, r: PatchRelationship)
    requires
        a.is_patch(o, r),
    ensures
        r.source_type == Some(UpdateSet { set: a.source_type }),
        r.source_external_id == Some(UpdateSet { set: a.source_external_id }),
        r.target_type == Some(UpdateSet { set: a.target_type }),
        r.target_external_id == Some(UpdateSet { set: a.target_external_id }),
        r.confidence == set_null_spec(a.confidence, o),
        r.start_time == set_null_spec(a.start_time, o),
        r.end_time == set_null_spec(a.end_time, o),
        r.data_set_id == set_null_spec(a.data_set_id, o),
        list_patch(r.labels, a.labels, o),
{
}

impl From<Relationship> for Patch<PatchRelationship> {
    /// The update under the default options.
    fn from(value: Relationship) -> (r: Self)
        ensures
            value.is_patch(default_options(), r),
    {
        let options = UpsertOptions { ignore_nulls: false, merge_metadata: false, merge_lists: false };
        value.patch(&options)
    }
}

impl vstd::std_specs::convert::FromSpecImpl<Relationship> for Patch<PatchRelationship> {
    /// What `from` gives is stated by its own `ensures`: a cleared list is
    /// known only by its contents.
    open spec fn obeys_from_spec() -> bool {
        false
    }

    open spec fn from_spec(v: Relationship) -> Patch<PatchRelationship> {
        vstd::pervasive::arbitrary()
    }
}

/// Filter on a relationship source or target.
#[derive(Clone)]
pub struct SourceOrTargetFilter {
    /// Relationship vertex type.
    pub vertex_type: RelationshipVertexType,
    /// External ID of the resource.
    pub external_id: String,
}

/// Filter relationships.
#[derive(Clone)]
pub struct RelationshipsFilter {
    /// Include relationships that have any of these values as their `source_external_id`.
    pub source_external_ids: Option<Vec<String>>,
    /// Include relationships that has any of these values as their `source_type`.
    pub source_types: Option<Vec<RelationshipVertexType>>,
    /// Include relationships that have any of these values as their `target_external_id`.
    pub target_external_ids: Option<Vec<String>>,
    /// Include relationships that has any of these values as their `target_type`.
    pub target_types: Option<Vec<RelationshipVertexType>>,
    /// Include relationships that belongs to any of these data sets.
    pub data_set_ids: Option<Vec<Identity>>,
    /// Range of timestamps for `start_time`.
    pub start_time: Option<Range<i64>>,
    /// Range of timestamps for `end_time`.
    pub end_time: Option<Range<i64>>,
    /// Range of values for `confidence`, as the bits of `f64` values.
    pub confidence: Option<Range<u64>>,
    /// Range of timestamps for `last_updated_time`.
    pub last_updated_time: Option<Range<i64>>,
    /// Range of timestamps for `created_time`.
    pub created_time: Option<Range<i64>>,
    /// Limits results to those active within the specified time range.
    pub active_at_time: Option<Range<i64>>,
    /// Include relationships that match any of the resources in either their
    /// source- or target-related fields.
    pub sources_or_targets: Option<Vec<SourceOrTargetFilter>>,
    /// Include relationships that match these label constraints.
    pub labels: Option<LabelsFilter>,
}

/// Query for filtering relationships.
pub struct FilterRelationshipsQuery {
    /// Relationship filter.
    pub filter: RelationshipsFilter,
    /// Maximum number of relationships to return, default 100, maximum 1000.
    pub limit: Option<u32>,
    /// Cursor for pagination.
    pub cursor: Option<String>,
    /// Whether to fetch the associated resources.
    pub fetch_resources: Option<bool>,
    /// Split the data set into partitions.
    pub partition: Option<Partition>,
}

impl SetCursor for FilterRelationshipsQuery {
    open spec fn with_cursor_spec(self, cursor: Option<String>) -> Self {
        FilterRelationshipsQuery { cursor, ..self }
    }

    fn set_cursor(&mut self, cursor: Option<String>) {
        self.cursor = cursor;
    }
}

impl WithPartition for FilterRelationshipsQuery {
    open spec fn partition_of(&self) -> Option<Partition> {
        self.partition
    }

    /// A copy of the query for one partition, starting from the first page.
    fn with_partition(&self, partition: Partition) -> (r: Self)
        ensures
            r.partition == Some(partition),
            r.limit == self.limit,
            r.cursor.is_none(),
            r.fetch_resources == self.fetch_resources,
            cloned(self.filter, r.filter),
    {
        Self {
            filter: self.filter.clone(),
            limit: self.limit,
            cursor: None,
            fetch_resources: self.fetch_resources,
            partition: Some(partition),
        }
    }
}

} // verus!
