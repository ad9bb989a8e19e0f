//! Events: the resource, its creation and update forms, filters, query
//! parameters and aggregates.

use vstd::prelude::*;

use std::collections::HashMap;

use crate::cdf_core::CoreSortItem;
use crate::filter::AdvancedFilter;
use crate::filter_types::{Partition, Range, SetCursor, WithPartition};
use crate::identity::{EqIdentity, Identity, IdentityModel};
use crate::params::{
    lemma_named_values_add, lemma_named_values_param, named_values, opt_int_array_text,
    opt_string_array_text, opt_text, param, present, to_query, to_query_vec, to_query_vec_i64,
    AsParams,
};
use crate::patch::{
    default_options, list_patch, map_patch, patch_list, patch_map, patch_set_null,
    resource_identity, set_null_spec, to_identity, IntoPatch, Patch, UpdateList, UpdateMap,
    UpdateSetNull, UpsertOptions,
};
use crate::text::{clone_opt_string, opt_string_is};

verus! {

/// An integer or a string.
pub enum IntegerOrString {
    /// An integer.
    Integer(i64),
    /// A string.
    String(String),
}

/// A page of events.
pub struct EventListResponse {
    /// Events on this page.
    pub items: Vec<Event>,
    /// Cursor to the previous page.
    pub previous_cursor: Option<String>,
    /// Cursor to the next page.
    pub next_cursor: Option<String>,
}

/// Number of events with a given value.
pub struct AggregatedCount {
    /// Number of events.
    pub count: i64,
    /// The value.
    pub value: IntegerOrString,
}

/// Response to an aggregate request on events with values.
pub struct AggregatedEventFilterResponse {
    /// Counts per value.
    pub items: Vec<AggregatedCount>,
}

/// Response to a count aggregate on events.
pub struct AggregatedEventCountResponse {
    /// Counts.
    pub items: Vec<EventCount>,
}

/// Number of events.
pub struct EventCount {
    /// Number of events.
    pub count: i64,
}

impl EventCount {
    /// An event count.
    pub fn new(count: i64) -> (r: EventCount)
        ensures
            r.count == count,
    {
        EventCount { count }
    }
}

/// A CDF event.
pub struct Event {
    /// Event internal ID.
    pub id: i64,
    /// Event external ID. Must be unique accross all events in the project.
    pub external_id: Option<String>,
    /// The ID of the dataset this event belongs to.
    pub data_set_id: Option<i64>,
    /// Start time in milliseconds since epoch.
    pub start_time: Option<i64>,
    /// End time in milliseconds since epoch.
    pub end_time: Option<i64>,
    /// Type of the event.
    pub event_type: Option<String>,
    /// Subtype of the event.
    pub subtype: Option<String>,
    /// Textual description of the event.
    pub description: Option<String>,
    /// Custom, application specific metadata. String key -> String value.
    pub metadata: Option<HashMap<String, String>>,
    /// IDs of assets this event belongs to.
    pub asset_ids: Option<Vec<i64>>,
    /// The source of this event.
    pub source: Option<String>,
    /// Time this event was created, in milliseconds since epoch.
    pub created_time: Option<i64>,
    /// Time this event was last updated, in milliseconds since epoch.
    pub last_updated_time: Option<i64>,
}

#[derive(Clone)]
/// Create an event.
pub struct AddEvent {
    /// Event external ID. Must be unique accross all events in the project.
    pub external_id: Option<String>,
    /// The ID of the dataset this event belongs to.
    pub data_set_id: Option<i64>,
    /// Start time in milliseconds since epoch.
    pub start_time: Option<i64>,
    /// End time in milliseconds since epoch.
    pub end_time: Option<i64>,
    /// Type of the event.
    pub event_type: Option<String>,
    /// Subtype of the event.
    pub subtype: Option<String>,
    /// Textual description of the event.
    pub description: Option<String>,
    /// Custom, application specific metadata. String key -> String value.
    pub metadata: Option<HashMap<String, String>>,
    /// IDs of assets this event belongs to.
    pub asset_ids: Option<Vec<i64>>,
    /// The source of this event.
    pub source: Option<String>,
}

impl From<Event> for AddEvent {
    fn from(event: Event) -> (r: AddEvent)
        ensures
            r.external_id == event.external_id,
            r.data_set_id == event.data_set_id,
            r.start_time == event.start_time,
            r.end_time == event.end_time,
            r.event_type == event.event_type,
            r.subtype == event.subtype,
            r.description == event.description,
            r.metadata == event.metadata,
            r.asset_ids == event.asset_ids,
            r.source == event.source,
    {
        AddEvent {
            external_id: event.external_id,
            data_set_id: event.data_set_id,
            start_time: event.start_time,
            end_time: event.end_time,
            event_type: event.event_type,
            subtype: event.subtype,
            description: event.description,
            metadata: event.metadata,
            asset_ids: event.asset_ids,
            source: event.source,
        }
    }
}

impl vstd::std_specs::convert::FromSpecImpl<Event> for AddEvent {
    open spec fn obeys_from_spec() -> bool {
        true
    }

    /// The creation form keeps the writable fields.
    open spec fn from_spec(event: Event) -> AddEvent {
        AddEvent {
            external_id: event.external_id,
            data_set_id: event.data_set_id,
            start_time: event.start_time,
            end_time: event.end_time,
            event_type: event.event_type,
            subtype: event.subtype,
            description: event.description,
            metadata: event.metadata,
            asset_ids: event.asset_ids,
            source: event.source,
        }
    }
}

impl EqIdentity for AddEvent {
    /// An event to create is named only by its external ID.
    open spec fn matches_identity(&self, id: IdentityModel) -> bool {
        match id {
            IdentityModel::Id(_) => false,
            IdentityModel::ExternalId(e) => self.external_id.deep_view() == Some(e),
        }
    }

    fn eq(&self, id: &Identity) -> (r: bool)
        ensures
            r == (id is ExternalId && self.external_id is Some
                && self.external_id->0@ == id->external_id@),
    {
        match id {
            Identity::Id { .. } => false,
            Identity::ExternalId { external_id } => opt_string_is(&self.external_id, external_id.as_str()),
        }
    }
}

/// Update an event.
pub struct PatchEvent {
    /// Event external ID.
    pub external_id: Option<UpdateSetNull<String>>,
    /// The ID of the dataset this event belongs to.
    pub data_set_id: Option<UpdateSetNull<i64>>,
    /// Start time in milliseconds since epoch.
    pub start_time: Option<UpdateSetNull<i64>>,
    /// End time in milliseconds since epoch.
    pub end_time: Option<UpdateSetNull<i64>>,
    /// Textual description of the event.
    pub description: Option<UpdateSetNull<String>>,
    /// Custom, application specific metadata.
    pub metadata: Option<UpdateMap<String, String>>,
    /// IDs of assets this event belongs to.
    pub asset_ids: Option<UpdateList<i64, i64>>,
    /// The source of this event.
    pub source: Option<UpdateSetNull<String>>,
    /// Type of the event.
    pub event_type: Option<UpdateSetNull<String>>,
    /// Subtype of the event.
    pub subtype: Option<UpdateSetNull<String>>,
}

/// Whether `r` writes every writable field of an event, as `patch` does.
pub open spec fn is_event_patch(
    r: PatchEvent,
    o: UpsertOptions,
    external_id: Option<String>,
    data_set_id: Option<i64>,
    start_time: Option<i64>,
    end_time: Option<i64>,
    description: Option<String>,
    metadata: Option<HashMap<String, String>>,
    asset_ids: Option<Vec<i64>>,
    source: Option<String>,
    event_type: Option<String>,
    subtype: Option<String>,
) -> bool {
    &&& r.external_id == set_null_spec(external_id, o)
    &&& r.data_set_id == set_null_spec(data_set_id, o)
    &&& r.start_time == set_null_spec(start_time, o)
    &&& r.end_time == set_null_spec(end_time, o)
    &&& r.description == set_null_spec(description, o)
    &&& map_patch(r.metadata, metadata, o)
    &&& list_patch(r.asset_ids, asset_ids, o)
    &&& r.source == set_null_spec(source, o)
    &&& r.event_type == set_null_spec(event_type, o)
    &&& r.subtype == set_null_spec(subtype, o)
}

impl IntoPatch<Patch<PatchEvent>> for Event {
    /// The event is addressed by its identity and every writable field is written.
    open spec fn is_patch(self, o: UpsertOptions, r: Patch<PatchEvent>) -> bool {
        &&& r.id@ == resource_identity(self.id, self.external_id.deep_view())
        &&& is_event_patch(
            r.update,
            o,
            self.external_id,
            self.data_set_id,
            self.start_time,
            self.end_time,
            self.description,
            self.metadata,
            self.asset_ids,
            self.source,
            self.event_type,
            self.subtype,
        )
    }

    fn patch(self, options: &UpsertOptions) -> (r: Patch<PatchEvent>)
        ensures
            r.id@ == resource_identity(self.id, self.external_id.deep_view()),
            r.update.external_id == set_null_spec(self.external_id, *options),
            r.update.data_set_id == set_null_spec(self.data_set_id, *options),
            r.update.start_time == set_null_spec(self.start_time, *options),
            r.update.end_time == set_null_spec(self.end_time, *options),
            r.update.description == set_null_spec(self.description, *options),
            map_patch(r.update.metadata, self.metadata, *options),
            list_patch(r.update.asset_ids, self.asset_ids, *options),
            r.update.source == set_null_spec(self.source, *options),
            r.update.event_type == set_null_spec(self.event_type, *options),
            r.update.subtype == set_null_spec(self.subtype, *options),
    {
        let id = to_identity(self.id, &self.external_id);
        Patch {
            id,
            update: PatchEvent {
                external_id: patch_set_null(self.external_id, options),
                data_set_id: patch_set_null(self.data_set_id, options),
                start_time: patch_set_null(self.start_time, options),
                end_time: patch_set_null(self.end_time, options),
                description: patch_set_null(self.description, options),
                metadata: patch_map(self.metadata, options),
                asset_ids: patch_list(self.asset_ids, options),
                source: patch_set_null(self.source, options),
                event_type: patch_set_null(self.event_type, options),
                subtype: patch_set_null(self.subtype, options),
            },
        }
    }
}

/// The update that an Event becomes writes every field from the field of
/// the same name, under the options given, and is addressed to the resource's own identity.
pub proof fn lemma_patch_fields_event(a: Event, o: UpsertOptions, r: Patch<PatchEvent>)
    requires
        a.is_patch(o, r),
    ensures
        r.id@ == resource_identity(a.id, a.external_id.deep_view()),
        r.update.external_id == set_null_spec(a.external_id, o),
        r.update.data_set_id == set_null_spec(a.data_set_id, o),
        r.update.start_time == set_null_spec(a.start_time, o),
        r.update.end_time == set_null_spec(a.end_time, o),
        r.update.description == set_null_spec(a.description, o),
        map_patch(r.update.metadata, a.metadata, o),
        list_patch(r.update.asset_ids, a.asset_ids, o),
        r.update.source == set_null_spec(a.source, o),
        r.update.event_type == set_null_spec(a.event_type, o),
        r.update.subtype == set_null_spec(a.subtype, o),
{
}

impl IntoPatch<PatchEvent> for AddEvent {
    /// Every writable field is written.
    open spec fn is_patch(self, o: UpsertOptions, r: PatchEvent) -> bool {
        is_event_patch(
            r,
            o,
            self.external_id,
            self.data_set_id,
            self.start_time,
            self.end_time,
            self.description,
            self.metadata,
            self.asset_ids,
            self.source,
            self.event_type,
            self.subtype,
        )
    }

    fn patch(self, options: &UpsertOptions) -> (r: PatchEvent)
        ensures
            r.external_id == set_null_spec(self.external_id, *options),
            r.data_set_id == set_null_spec(self.data_set_id, *options),
            r.start_time == set_null_spec(self.start_time, *options),
            r.end_time == set_null_spec(self.end_time, *options),
            r.description == set_null_spec(self.description, *options),
            map_patch(r.metadata, self.metadata, *options),
            list_patch(r.asset_ids, self.asset_ids, *options),
            r.source == set_null_spec(self.source, *options),
            r.event_type == set_null_spec(self.event_type, *options),
            r.subtype == set_null_spec(self.subtype, *options),
    {
        PatchEvent {
            external_id: patch_set_null(self.external_id, options),
            data_set_id: patch_set_null(self.data_set_id, options),
            start_time: patch_set_null(self.start_time, options),
            end_time: patch_set_null(self.end_time, options),
            description: patch_set_null(self.description, options),
            metadata: patch_map(self.metadata, options),
            asset_ids: patch_list(self.asset_ids, options),
            source: patch_set_null(self.source, options),
            event_type: patch_set_null(self.event_type, options),
            subtype: patch_set_null(self.subtype, options),
        }
    }
}

/// The update that an AddEvent becomes writes every field from the field of
/// the same name, under the options given.
pub proof fn lemma_patch_fields_add_event(a: AddEvent, o: UpsertOptions, r: PatchEvent)
    requires
        a.is_patch(o, r),
    ensures
        r.external_id == set_null_spec(a.external_id, o),
        r.data_set_id == set_null_spec(a.data_set_id, o),
        r.start_time == set_null_spec(a.start_time, o),
        r.end_time == set_null_spec(a.end_time, o),
        r.description == set_null_spec(a.description, o),
        map_patch(r.metadata, a.metadata, o),
        list_patch(r.asset_ids, a.asset_ids, o),
        r.source == set_null_spec(a.source, o),
        r.event_type == set_null_spec(a.event_type, o),
        r.subtype == set_null_spec(a.subtype, o),
{
}

impl From<Event> for Patch<PatchEvent> {
    /// The update under the default options.
    fn from(value: Event) -> (r: Self)
        ensures
            value.is_patch(default_options(), r),
    {
        let options = UpsertOptions { ignore_nulls: false, merge_metadata: false, merge_lists: false };
        value.patch(&options)
    }
}

impl vstd::std_specs::convert::FromSpecImpl<Event> for Patch<PatchEvent> {
    /// What `from` gives is stated by its own `ensures`: a cleared map or
    /// list is known only by its contents.
    open spec fn obeys_from_spec() -> bool {
        false
    }

    open spec fn from_spec(v: Event) -> Patch<PatchEvent> {
        vstd::pervasive::arbitrary()
    }
}

/// Query for listing events.
pub struct EventQuery {
    /// Maximum number of events to return. The default is 100, and the maximum is 1000.
    pub limit: Option<i32>,
    /// Optional cursor for pagination.
    pub cursor: Option<String>,
    /// Minimum value of `start_time` in milliseconds since epoch.
    pub min_start_time: Option<i64>,
    /// Maximum value of `start_time` in milliseconds since epoch.
    pub max_start_time: Option<i64>,
    /// Minimum value of `end_time` in milliseconds since epoch.
    pub min_end_time: Option<i64>,
    /// Maximum value of `end_time` in milliseconds since epoch.
    pub max_end_time: Option<i64>,
    /// Start of the window in which included events are active, in milliseconds since epoch.
    pub min_active_time: Option<i64>,
    /// End of the window in which included events are active, in milliseconds since epoch.
    pub max_active_time: Option<i64>,
    /// Include events that relate to one of these assets.
    pub asset_ids: Option<Vec<i64>>,
    /// Include events that relate to one of these assets.
    pub asset_external_ids: Option<Vec<String>>,
    /// Include events that relate to assets in the subtree of one of these assets.
    pub asset_subtree_ids: Option<Vec<i64>>,
    /// Include events that relate to assets in the subtree of one of these assets.
    pub asset_subtree_external_ids: Option<Vec<String>>,
    /// Event source.
    pub source: Option<String>,
    /// Event type
    pub event_type: Option<String>,
    /// Event sub-type
    pub subtype: Option<String>,
    /// Minimum value of `created_time` in milliseconds since epoch.
    pub min_created_time: Option<i64>,
    /// Maximum value of `created_time` in milliseconds since epoch.
    pub max_created_time: Option<i64>,
    /// Minimum value of `last_updated_time` in milliseconds since epoch.
    pub min_last_updated_time: Option<i64>,
    /// Maximum value of `last_updated_time` in milliseconds since epoch.
    pub max_last_updated_time: Option<i64>,
    /// Filter by this (case-sensitive) prefix for the external ID.
    pub external_id_prefix: Option<String>,
    /// Split the data set into partitions.
    pub partition: Option<Partition>,
    /// Whether metadata should be returned or not.
    pub include_metadata: Option<bool>,
    /// Sort by an array of selected fields. Syntax is `"<fieldname>:asc|desc"`.
    pub sort: Option<Vec<String>>,
}

/// The first half of the parameters of an event query.
pub open spec fn event_query_head(q: EventQuery) -> Seq<(Seq<char>, Seq<char>)> {
    param("limit"@, opt_text(q.limit)) + param("cursor"@, opt_text(q.cursor)) + param(
        "minStartTime"@,
        opt_text(q.min_start_time),
    ) + param("maxStartTime"@, opt_text(q.max_start_time)) + param(
        "minEndTime"@,
        opt_text(q.min_end_time),
    ) + param("maxEndTime"@, opt_text(q.max_end_time)) + param(
        "minActiveTime"@,
        opt_text(q.min_active_time),
    ) + param("maxActiveTime"@, opt_text(q.max_active_time)) + param(
        "assetIds"@,
        opt_int_array_text(q.asset_ids),
    ) + param("assetExternalIds"@, opt_string_array_text(q.asset_external_ids)) + param(
        "assetSubtreeIds"@,
        opt_int_array_text(q.asset_subtree_ids),
    ) + param("assetSubtreeExternalIds"@, opt_string_array_text(q.asset_subtree_external_ids))
}

/// The second half of the parameters of an event query.
pub open spec fn event_query_tail(q: EventQuery) -> Seq<(Seq<char>, Seq<char>)> {
    param("source"@, opt_text(q.source)) + param("type"@, opt_text(q.event_type)) + param(
        "subtype"@,
        opt_text(q.subtype),
    ) + param("minCreatedTime"@, opt_text(q.min_created_time)) + param(
        "maxCreatedTime"@,
        opt_text(q.max_created_time),
    ) + param("minLastUpdatedTime"@, opt_text(q.min_last_updated_time)) + param(
        "maxLastUpdatedTime"@,
        opt_text(q.max_last_updated_time),
    ) + param("externalIdPrefix"@, opt_text(q.external_id_prefix)) + param(
        "partition"@,
        opt_text(q.partition),
    ) + param("includeMetadata"@, opt_text(q.include_metadata)) + param(
        "sort"@,
        opt_string_array_text(q.sort),
    )
}

impl AsParams for EventQuery {
    /// One pair for each field that is set, in the order of the fields.
    open spec fn tuples_spec(self) -> Seq<(Seq<char>, Seq<char>)> {
        event_query_head(self) + event_query_tail(self)
    }

    fn to_tuples(self) -> (r: Vec<(String, String)>) {
        let mut params = event_query_head_params(&self);
        let mut tail = event_query_tail_params(&self);
        let ghost h = params@;
        let ghost t = tail@;
        params.append(&mut tail);
        assert(params@ =~= h + t);
        assert(params.deep_view() =~= event_query_head(self) + event_query_tail(self));
        params
    }
}

/// Each query parameter of an event query carries the text of the field it
/// is named after: a field that is set gives exactly one pair under its own
/// name, holding the field's text, and a field that is not set gives none.
pub proof fn lemma_event_query_params(q: EventQuery)
    ensures
        named_values(q.tuples_spec(), "limit"@) == present(opt_text(q.limit)),
        named_values(q.tuples_spec(), "cursor"@) == present(opt_text(q.cursor)),
        named_values(q.tuples_spec(), "minStartTime"@) == present(opt_text(q.min_start_time)),
        named_values(q.tuples_spec(), "maxStartTime"@) == present(opt_text(q.max_start_time)),
        named_values(q.tuples_spec(), "minEndTime"@) == present(opt_text(q.min_end_time)),
        named_values(q.tuples_spec(), "maxEndTime"@) == present(opt_text(q.max_end_time)),
        named_values(q.tuples_spec(), "minActiveTime"@) == present(opt_text(q.min_active_time)),
        named_values(q.tuples_spec(), "maxActiveTime"@) == present(opt_text(q.max_active_time)),
        named_values(q.tuples_spec(), "assetIds"@) == present(opt_int_array_text(q.asset_ids)),
        named_values(q.tuples_spec(), "assetExternalIds"@) == present(opt_string_array_text(q.asset_external_ids)),
        named_values(q.tuples_spec(), "assetSubtreeIds"@) == present(opt_int_array_text(q.asset_subtree_ids)),
        named_values(q.tuples_spec(), "assetSubtreeExternalIds"@) == present(opt_string_array_text(q.asset_subtree_external_ids)),
        named_values(q.tuples_spec(), "source"@) == present(opt_text(q.source)),
        named_values(q.tuples_spec(), "type"@) == present(opt_text(q.event_type)),
        named_values(q.tuples_spec(), "subtype"@) == present(opt_text(q.subtype)),
        named_values(q.tuples_spec(), "minCreatedTime"@) == present(opt_text(q.min_created_time)),
        named_values(q.tuples_spec(), "maxCreatedTime"@) == present(opt_text(q.max_created_time)),
        named_values(q.tuples_spec(), "minLastUpdatedTime"@) == present(opt_text(q.min_last_updated_time)),
        named_values(q.tuples_spec(), "maxLastUpdatedTime"@) == present(opt_text(q.max_last_updated_time)),
        named_values(q.tuples_spec(), "externalIdPrefix"@) == present(opt_text(q.external_id_prefix)),
        named_values(q.tuples_spec(), "partition"@) == present(opt_text(q.partition)),
        named_values(q.tuples_spec(), "includeMetadata"@) == present(opt_text(q.include_metadata)),
        named_values(q.tuples_spec(), "sort"@) == present(opt_string_array_text(q.sort)),
{
    broadcast use lemma_named_values_add, lemma_named_values_param, Seq::add_empty_left, Seq::add_empty_right;

    reveal_strlit("limit");
    reveal_strlit("cursor");
    reveal_strlit("minStartTime");
    reveal_strlit("maxStartTime");
    reveal_strlit("minEndTime");
    reveal_strlit("maxEndTime");
    reveal_strlit("minActiveTime");
    reveal_strlit("maxActiveTime");
    reveal_strlit("assetIds");
    reveal_strlit("assetExternalIds");
    reveal_strlit("assetSubtreeIds");
    reveal_strlit("assetSubtreeExternalIds");
    reveal_strlit("source");
    reveal_strlit("type");
    reveal_strlit("subtype");
    reveal_strlit("minCreatedTime");
    reveal_strlit("maxCreatedTime");
    reveal_strlit("minLastUpdatedTime");
    reveal_strlit("maxLastUpdatedTime");
    reveal_strlit("externalIdPrefix");
    reveal_strlit("partition");
    reveal_strlit("includeMetadata");
    reveal_strlit("sort");
    assert("limit"@.len() == 5);
    assert("cursor"@.len() == 6);
    assert("minStartTime"@.len() == 12);
    assert("maxStartTime"@.len() == 12);
    assert("minEndTime"@.len() == 10);
    assert("maxEndTime"@.len() == 10);
    assert("minActiveTime"@.len() == 13);
    assert("maxActiveTime"@.len() == 13);
    assert("assetIds"@.len() == 8);
    assert("assetExternalIds"@.len() == 16);
    assert("assetSubtreeIds"@.len() == 15);
    assert("assetSubtreeExternalIds"@.len() == 23);
    assert("source"@.len() == 6);
    assert("type"@.len() == 4);
    assert("subtype"@.len() == 7);
    assert("minCreatedTime"@.len() == 14);
    assert("maxCreatedTime"@.len() == 14);
    assert("minLastUpdatedTime"@.len() == 18);
    assert("maxLastUpdatedTime"@.len() == 18);
    assert("externalIdPrefix"@.len() == 16);
    assert("partition"@.len() == 9);
    assert("includeMetadata"@.len() == 15);
    assert("sort"@.len() == 4);
    assert("cursor"@[0] != "source"@[0]);
    assert("minStartTime"@[1] != "maxStartTime"@[1]);
    assert("minEndTime"@[1] != "maxEndTime"@[1]);
    assert("minActiveTime"@[1] != "maxActiveTime"@[1]);
    assert("assetExternalIds"@[0] != "externalIdPrefix"@[0]);
    assert("assetSubtreeIds"@[0] != "includeMetadata"@[0]);
    assert("type"@[0] != "sort"@[0]);
    assert("minCreatedTime"@[1] != "maxCreatedTime"@[1]);
    assert("minLastUpdatedTime"@[1] != "maxLastUpdatedTime"@[1]);
}

fn event_query_head_params(q: &EventQuery) -> (params: Vec<(String, String)>)
    ensures
        params.deep_view() == event_query_head(*q),
{
    let mut params: Vec<(String, String)> = Vec::new();
    assert(params.deep_view() =~= Seq::<(Seq<char>, Seq<char>)>::empty());
    to_query("limit", &q.limit, &mut params);
    to_query("cursor", &q.cursor, &mut params);
    to_query("minStartTime", &q.min_start_time, &mut params);
    to_query("maxStartTime", &q.max_start_time, &mut params);
    to_query("minEndTime", &q.min_end_time, &mut params);
    to_query("maxEndTime", &q.max_end_time, &mut params);
    to_query("minActiveTime", &q.min_active_time, &mut params);
    to_query("maxActiveTime", &q.max_active_time, &mut params);
    to_query_vec_i64("assetIds", &q.asset_ids, &mut params);
    to_query_vec("assetExternalIds", &q.asset_external_ids, &mut params);
    to_query_vec_i64("assetSubtreeIds", &q.asset_subtree_ids, &mut params);
    to_query_vec("assetSubtreeExternalIds", &q.asset_subtree_external_ids, &mut params);
    assert(params.deep_view() =~= event_query_head(*q));
    params
}

fn event_query_tail_params(q: &EventQuery) -> (params: Vec<(String, String)>)
    ensures
        params.deep_view() == event_query_tail(*q),
{
    let mut params: Vec<(String, String)> = Vec::new();
    assert(params.deep_view() =~= Seq::<(Seq<char>, Seq<char>)>::empty());
    to_query("source", &q.source, &mut params);
    to_query("type", &q.event_type, &mut params);
    to_query("subtype", &q.subtype, &mut params);
    to_query("minCreatedTime", &q.min_created_time, &mut params);
    to_query("maxCreatedTime", &q.max_created_time, &mut params);
    to_query("minLastUpdatedTime", &q.min_last_updated_time, &mut params);
    to_query("maxLastUpdatedTime", &q.max_last_updated_time, &mut params);
    to_query("externalIdPrefix", &q.external_id_prefix, &mut params);
    to_query("partition", &q.partition, &mut params);
    to_query("includeMetadata", &q.include_metadata, &mut params);
    to_query_vec("sort", &q.sort, &mut params);
    assert(params.deep_view() =~= event_query_tail(*q));
    params
}

impl SetCursor for EventQuery {
    open spec fn with_cursor_spec(self, cursor: Option<String>) -> Self {
        EventQuery { cursor, ..self }
    }

    fn set_cursor(&mut self, cursor: Option<String>) {
        self.cursor = cursor;
    }
}

/// Whether two event queries agree on everything but cursor and partition.
pub open spec fn same_event_query_filters(a: EventQuery, b: EventQuery) -> bool {
    &&& a.limit == b.limit
    &&& a.min_start_time == b.min_start_time
    &&& a.max_start_time == b.max_start_time
    &&& a.min_end_time == b.min_end_time
    &&& a.max_end_time == b.max_end_time
    &&& a.min_active_time == b.min_active_time
    &&& a.max_active_time == b.max_active_time
    &&& a.asset_ids.deep_view() == b.asset_ids.deep_view()
    &&& a.asset_external_ids.deep_view() == b.asset_external_ids.deep_view()
    &&& a.asset_subtree_ids.deep_view() == b.asset_subtree_ids.deep_view()
    &&& a.asset_subtree_external_ids.deep_view() == b.asset_subtree_external_ids.deep_view()
    &&& a.source == b.source
    &&& a.event_type == b.event_type
    &&& a.subtype == b.subtype
    &&& a.min_created_time == b.min_created_time
    &&& a.max_created_time == b.max_created_time
    &&& a.min_last_updated_time == b.min_last_updated_time
    &&& a.max_last_updated_time == b.max_last_updated_time
    &&& a.external_id_prefix == b.external_id_prefix
    &&& a.include_metadata == b.include_metadata
    &&& a.sort.deep_view() == b.sort.deep_view()
}

impl WithPartition for EventQuery {
    open spec fn partition_of(&self) -> Option<Partition> {
        self.partition
    }

    /// A copy of the query for one partition, starting from the first page.
    fn with_partition(&self, partition: Partition) -> (r: Self)
        ensures
            r.partition == Some(partition),
            r.cursor.is_none(),
            same_event_query_filters(r, *self),
            r.limit == self.limit,
            r.min_start_time == self.min_start_time,
            r.max_start_time == self.max_start_time,
            r.min_end_time == self.min_end_time,
            r.max_end_time == self.max_end_time,
            r.min_active_time == self.min_active_time,
            r.max_active_time == self.max_active_time,
            r.asset_ids.deep_view() == self.asset_ids.deep_view(),
            r.asset_external_ids.deep_view() == self.asset_external_ids.deep_view(),
            r.asset_subtree_ids.deep_view() == self.asset_subtree_ids.deep_view(),
            r.asset_subtree_external_ids.deep_view() == self.asset_subtree_external_ids.deep_view(),
            r.source == self.source,
            r.event_type == self.event_type,
            r.subtype == self.subtype,
            r.min_created_time == self.min_created_time,
            r.max_created_time == self.max_created_time,
            r.min_last_updated_time == self.min_last_updated_time,
            r.max_last_updated_time == self.max_last_updated_time,
            r.external_id_prefix == self.external_id_prefix,
            r.include_metadata == self.include_metadata,
            r.sort.deep_view() == self.sort.deep_view(),
    {
        Self {
            limit: self.limit,
            cursor: None,
            min_start_time: self.min_start_time,
            max_start_time: self.max_start_time,
            min_end_time: self.min_end_time,
            max_end_time: self.max_end_time,
            min_active_time: self.min_active_time,
            max_active_time: self.max_active_time,
            asset_ids: clone_opt_ints(&self.asset_ids),
            asset_external_ids: clone_opt_strings(&self.asset_external_ids),
            asset_subtree_ids: clone_opt_ints(&self.asset_subtree_ids),
            asset_subtree_external_ids: clone_opt_strings(&self.asset_subtree_external_ids),
            source: clone_opt_string(&self.source),
            event_type: clone_opt_string(&self.event_type),
            subtype: clone_opt_string(&self.subtype),
            min_created_time: self.min_created_time,
            max_created_time: self.max_created_time,
            min_last_updated_time: self.min_last_updated_time,
            max_last_updated_time: self.max_last_updated_time,
            external_id_prefix: clone_opt_string(&self.external_id_prefix),
            partition: Some(partition),
            include_metadata: self.include_metadata,
            sort: clone_opt_strings(&self.sort),
        }
    }
}

/// A copy of an optional list of integers.
pub fn clone_opt_ints(o: &Option<Vec<i64>>) -> (r: Option<Vec<i64>>)
    ensures
        r.deep_view() == o.deep_view(),
{
    match o {
        Some(v) => {
            let c = v.clone();
            assert(c@ =~= v@);
            Some(c)
        },
        None => None,
    }
}

/// A copy of an optional list of strings.
pub fn clone_opt_strings(o: &Option<Vec<String>>) -> (r: Option<Vec<String>>)
    ensures
        r.deep_view() == o.deep_view(),
{
    match o {
        Some(v) => {
            let mut c: Vec<String> = Vec::new();
            let mut i: usize = 0;
            while i < v.len()
                invariant
                    i <= v@.len(),
                    c@.len() == i,
                    forall|k: int| 0 <= k < i ==> #[trigger] c@[k]@ == v@[k]@,
                decreases v@.len() - i,
            {
                c.push(v[i].clone());
                i = i + 1;
            }
            assert(c.deep_view() =~= v.deep_view());
            Some(c)
        },
        None => None,
    }
}

/// A range of timestamps, or a condition on whether the value is missing.
#[derive(Clone)]
pub enum RangeOrIsNull {
    /// Range of timestamps.
    Range(Range<i64>),
    /// Whether the value is missing.
    IsNull {
        /// Whether the value is missing.
        is_null: bool,
    },
}

/// Simple filter on events.
#[derive(Clone)]
pub struct EventFilter {
    /// Range of timestamps for `start_time`.
    pub start_time: Option<Range<i64>>,
    /// Range of timestamp for `end_time`, or `isNull` filter condition.
    pub end_time: Option<RangeOrIsNull>,
    /// Include events that are active at some point in this range.
    pub active_at_time: Option<Range<i64>>,
    /// Filter on event metadata.
    pub metadata: Option<HashMap<String, String>>,
    /// Include events that relate to one of these assets.
    pub asset_ids: Option<Vec<i64>>,
    /// Include events that relate to one of these assets.
    pub asset_external_ids: Option<Vec<String>>,
    /// Include events that relate to assets in the subtree of one of these assets.
    pub asset_subtree_ids: Option<Vec<Identity>>,
    /// Event source.
    pub source: Option<String>,
    /// Range of timestamps for `created_time`.
    pub created_time: Option<Range<i64>>,
    /// Range of timestamps for `last_updated_time`.
    pub last_updated_time: Option<Range<i64>>,
    /// Filter by this (case-sensitive) prefix for the external ID.
    pub external_id_prefix: Option<String>,
    /// Event type
    pub event_type: Option<String>,
    /// Event sub-type
    pub subtype: Option<String>,
    /// Include events which are tied to one of these data sets.
    pub data_set_ids: Option<Vec<Identity>>,
}

/// The event filter that sets no condition.
pub open spec fn empty_event_filter() -> EventFilter {
    EventFilter {
        start_time: None,
        end_time: None,
        active_at_time: None,
        metadata: None,
        asset_ids: None,
        asset_external_ids: None,
        asset_subtree_ids: None,
        source: None,
        created_time: None,
        last_updated_time: None,
        external_id_prefix: None,
        event_type: None,
        subtype: None,
        data_set_ids: None,
    }
}

impl EventFilter {
    /// An empty event filter.
    pub fn new() -> (r: EventFilter)
        ensures
            r == empty_event_filter(),
    {
        EventFilter {
            start_time: None,
            end_time: None,
            active_at_time: None,
            metadata: None,
            asset_ids: None,
            asset_external_ids: None,
            asset_subtree_ids: None,
            source: None,
            created_time: None,
            last_updated_time: None,
            external_id_prefix: None,
            event_type: None,
            subtype: None,
            data_set_ids: None,
        }
    }
}

/// Request for filtering events.
pub struct EventFilterQuery {
    /// Simple event filter.
    pub filter: Option<EventFilter>,
    /// Advanced filter.
    pub advanced_filter: Option<AdvancedFilter>,
    /// Maximum number of events to return. The default is 100, and the maximum is 1000.
    pub limit: Option<i32>,
    /// Sort result by list of properties. The order is significant.
    pub sort: Option<Vec<CoreSortItem>>,
    /// Optional cursor for pagination.
    pub cursor: Option<String>,
    /// Split the data set into partitions.
    pub partition: Option<Partition>,
}

impl SetCursor for EventFilterQuery {
    open spec fn with_cursor_spec(self, cursor: Option<String>) -> Self {
        EventFilterQuery { cursor, ..self }
    }

    fn set_cursor(&mut self, cursor: Option<String>) {
        self.cursor = cursor;
    }
}

impl WithPartition for EventFilterQuery {
    open spec fn partition_of(&self) -> Option<Partition> {
        self.partition
    }

    /// A copy of the request for one partition, starting from the first page.
    fn with_partition(&self, partition: Partition) -> (r: Self)
        ensures
            r.partition == Some(partition),
            r.limit == self.limit,
            r.cursor.is_none(),
            cloned(self.filter, r.filter),
            cloned(self.advanced_filter, r.advanced_filter),
            cloned(self.sort, r.sort),
    {
        Self {
            filter: self.filter.clone(),
            advanced_filter: self.advanced_filter.clone(),
            limit: self.limit,
            sort: self.sort.clone(),
            cursor: None,
            partition: Some(partition),
        }
    }
}

/// Fuzzy search on events.
pub struct EventSearch {
    /// Text to search in event description.
    pub description: Option<String>,
}

impl EventSearch {
    /// Create an empty event search.
    pub fn new() -> (r: EventSearch)
        ensures
            r.description.is_none(),
    {
        EventSearch { description: None }
    }
}

} // verus!
