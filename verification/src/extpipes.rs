//! Extraction pipelines and their runs.

use vstd::prelude::*;

use std::collections::HashMap;

use crate::filter_types::Range;
use crate::identity::{Identity, IdentityModel};
use crate::patch::{
    default_options, list_patch, map_patch, patch_list, patch_map, patch_set, IntoPatch, Patch,
    UpdateList, UpdateMap, UpdateSet, UpsertOptions,
};

verus! {

#[derive(Clone)]
/// Reference to a raw table in an extraction pipeline
pub struct ExtPipeRawTable {
    /// Raw database name
    pub db_name: String,
    /// Raw table name
    pub table_name: String,
}

#[derive(Clone)]
/// Contact person for an extraction pipeline
pub struct ExtPipeContact {
    /// Name of contact.
    pub name: Option<String>,
    /// Contact e-mail.
    pub email: Option<String>,
    /// Contact role.
    pub role: Option<String>,
    /// Whether to send a notification to this person when the status of an
    /// extraction pipeline changes.
    pub send_notification: Option<bool>,
}

/// An extraction pipeline.
pub struct ExtPipe {
    /// Internal ID
    pub id: i64,
    /// Extraction pipeline external ID.
    pub external_id: String,
    /// Extraction pipeline name.
    pub name: String,
    /// Short description.
    pub description: Option<String>,
    /// Data set this extraction pipeline belongs to.
    pub data_set_id: i64,
    /// Raw tables the extractor is documented to write to.
    pub raw_tables: Option<Vec<ExtPipeRawTable>>,
    /// Documented schedule.
    pub schedule: Option<String>,
    /// List of contacts.
    pub contacts: Option<Vec<ExtPipeContact>>,
    /// Application specific metadata.
    pub metadata: Option<HashMap<String, String>>,
    /// User provided source.
    pub source: Option<String>,
    /// Long form documentation.
    pub documentation: Option<String>,
    /// Timestamp of last success, in milliseconds since epoch.
    pub last_success: Option<i64>,
    /// Timestamp of last failure, in milliseconds since epoch.
    pub last_failure: Option<i64>,
    /// Last message received.
    pub last_message: Option<String>,
    /// Timestamp of last event, in milliseconds since epoch.
    pub last_seen: Option<i64>,
    /// Time this extraction pipeline was created, in milliseconds since epoch.
    pub created_time: i64,
    /// Time this extraction pipeline was last updated, in milliseconds since epoch.
    pub last_updated_time: i64,
    /// The user that created this extraction pipeline, if available.
    pub created_by: Option<String>,
}

#[derive(Clone)]
/// Create an extraction pipeline.
pub struct AddExtPipe {
    /// Extraction pipeline external ID.
    pub external_id: String,
    /// Extraction pipeline name.
    pub name: String,
    /// Short description.
    pub description: Option<String>,
    /// Data set this extraction pipeline belongs to.
    pub data_set_id: i64,
    /// Raw tables the extractor is documented to write to.
    pub raw_tables: Option<Vec<ExtPipeRawTable>>,
    /// Documented schedule.
    pub schedule: Option<String>,
    /// List of contacts.
    pub contacts: Option<Vec<ExtPipeContact>>,
    /// Application specific metadata.
    pub metadata: Option<HashMap<String, String>>,
    /// User provided source.
    pub source: Option<String>,
    /// Long form documentation.
    pub documentation: Option<String>,
}

/// The creation form of an extraction pipeline: its writable fields.
pub open spec fn add_ext_pipe_of(pipe: ExtPipe) -> AddExtPipe {
    AddExtPipe {
        external_id: pipe.external_id,
        name: pipe.name,
        description: pipe.description,
        data_set_id: pipe.data_set_id,
        raw_tables: pipe.raw_tables,
        schedule: pipe.schedule,
        contacts: pipe.contacts,
        metadata: pipe.metadata,
        source: pipe.source,
        documentation: pipe.documentation,
    }
}

impl From<ExtPipe> for AddExtPipe {
    fn from(pipe: ExtPipe) -> (r: Self)
        ensures
            r.external_id == pipe.external_id,
            r.name == pipe.name,
            r.description == pipe.description,
            r.data_set_id == pipe.data_set_id,
            r.raw_tables == pipe.raw_tables,
            r.schedule == pipe.schedule,
            r.contacts == pipe.contacts,
            r.metadata == pipe.metadata,
            r.source == pipe.source,
            r.documentation == pipe.documentation,
    {
        AddExtPipe {
            external_id: pipe.external_id,
            name: pipe.name,
            description: pipe.description,
            data_set_id: pipe.data_set_id,
            raw_tables: pipe.raw_tables,
            schedule: pipe.schedule,
            contacts: pipe.contacts,
            metadata: pipe.metadata,
            source: pipe.source,
            documentation: pipe.documentation,
        }
    }
}

impl vstd::std_specs::convert::FromSpecImpl<ExtPipe> for AddExtPipe {
    open spec fn obeys_from_spec() -> bool {
        true
    }

    open spec fn from_spec(pipe: ExtPipe) -> AddExtPipe {
        add_ext_pipe_of(pipe)
    }
}

/// Update an extraction pipeline
pub struct PatchExtPipe {
    /// Extraction pipeline external ID.
    pub external_id: Option<UpdateSet<String>>,
    /// Extraction pipeline name.
    pub name: Option<UpdateSet<String>>,
    /// Short description.
    pub description: Option<UpdateSet<Option<String>>>,
    /// Data set this extraction pipeline belongs to.
    pub data_set_id: Option<UpdateSet<i64>>,
    /// Documented schedule.
    pub schedule: Option<UpdateSet<Option<String>>>,
    /// Raw tables the extractor is documented to write to.
    pub raw_tables: Option<UpdateList<ExtPipeRawTable, ExtPipeRawTable>>,
    /// List of contacts.
    pub contacts: Option<UpdateList<ExtPipeContact, ExtPipeContact>>,
    /// Application specific metadata.
    pub metadata: Option<UpdateMap<String, String>>,
    /// User provided source.
    pub source: Option<UpdateSet<Option<String>>>,
    /// Long form documentation.
    pub documentation: Option<UpdateSet<Option<String>>>,
}

/// Whether `r` writes the fields of `p` but the external ID, as `patch`
/// does: optional texts are set as they are, absent ones included.
pub open spec fn is_ext_pipe_fields_patch(r: PatchExtPipe, o: UpsertOptions, p: AddExtPipe) -> bool {
    &&& r.name == Some(UpdateSet { set: p.name })
    &&& r.description == Some(UpdateSet { set: p.description })
    &&& r.data_set_id == Some(UpdateSet { set: p.data_set_id })
    &&& r.schedule == Some(UpdateSet { set: p.schedule })
    &&& list_patch(r.raw_tables, p.raw_tables, o)
    &&& list_patch(r.contacts, p.contacts, o)
    &&& map_patch(r.metadata, p.metadata, o)
    &&& r.source == Some(UpdateSet { set: p.source })
    &&& r.documentation == Some(UpdateSet { set: p.documentation })
}

impl IntoPatch<Patch<PatchExtPipe>> for ExtPipe {
    /// The pipeline is addressed by its external ID, which is not written.
    open spec fn is_patch(self, o: UpsertOptions, r: Patch<PatchExtPipe>) -> bool {
        &&& r.id@ == IdentityModel::ExternalId(self.external_id@)
        &&& r.update.external_id.is_none()
        &&& is_ext_pipe_fields_patch(r.update, o, add_ext_pipe_of(self))
    }

    fn patch(self, options: &UpsertOptions) -> (r: Patch<PatchExtPipe>)
        ensures
            r.id@ == IdentityModel::ExternalId(self.external_id@),
            r.update.external_id.is_none(),
            r.update.name == Some(UpdateSet { set: self.name }),
            r.update.description == Some(UpdateSet { set: self.description }),
            r.update.data_set_id == Some(UpdateSet { set: self.data_set_id }),
            r.update.schedule == Some(UpdateSet { set: self.schedule }),
            list_patch(r.update.raw_tables, self.raw_tables, *options),
            list_patch(r.update.contacts, self.contacts, *options),
            map_patch(r.update.metadata, self.metadata, *options),
            r.update.source == Some(UpdateSet { set: self.source }),
            r.update.documentation == Some(UpdateSet { set: self.documentation }),
    {
        Patch {
            id: Identity::ExternalId { external_id: self.external_id },
            update: PatchExtPipe {
                external_id: None,
                name: patch_set(self.name, options),
                description: patch_set(self.description, options),
                data_set_id: patch_set(self.data_set_id, options),
                schedule: patch_set(self.schedule, options),
                raw_tables: patch_list(self.raw_tables, options),
                contacts: patch_list(self.contacts, options),
                metadata: patch_map(self.metadata, options),
                source: patch_set(self.source, options),
                documentation: patch_set(self.documentation, options),
            },
        }
    }
}

/// The update that an ExtPipe becomes writes every field from the field of
/// the same name, under the options given, and is addressed to the resource's own identity.
pub proof fn lemma_patch_fields_ext_pipe(a: ExtPipe, o: UpsertOptions, r: Patch<PatchExtPipe>)
    requires
        a.is_patch(o, r),
    ensures
        r.id@ == IdentityModel::ExternalId(a.external_id@),
        r.update.external_id.is_none(),
        r.update.name == Some(UpdateSet { set: a.name }),
        r.update.description == Some(UpdateSet { set: a.description }),
        r.update.data_set_id == Some(UpdateSet { set: a.data_set_id }),
        r.update.schedule == Some(UpdateSet { set: a.schedule }),
        list_patch(r.update.raw_tables, a.raw_tables, o),
        list_patch(r.update.contacts, a.contacts, o),
        map_patch(r.update.metadata, a.metadata, o),
        r.update.source == Some(UpdateSet { set: a.source }),
        r.update.documentation == Some(UpdateSet { set: a.documentation }),
{
}

impl IntoPatch<PatchExtPipe> for AddExtPipe {
    /// Every field is written, the external ID included.
    open spec fn is_patch(self, o: UpsertOptions, r: PatchExtPipe) -> bool {
        &&& r.external_id == Some(UpdateSet { set: self.external_id })
        &&& is_ext_pipe_fields_patch(r, o, self)
    }

    fn patch(self, options: &UpsertOptions) -> (r: PatchExtPipe)
        ensures
            r.external_id == Some(UpdateSet { set: self.external_id }),
            r.name == Some(UpdateSet { set: self.name }),
            r.description == Some(UpdateSet { set: self.description }),
            r.data_set_id == Some(UpdateSet { set: self.data_set_id }),
            r.schedule == Some(UpdateSet { set: self.schedule }),
            list_patch(r.raw_tables, self.raw_tables, *options),
            list_patch(r.contacts, self.contacts, *options),
            map_patch(r.metadata, self.metadata, *options),
            r.source == Some(UpdateSet { set: self.source }),
            r.documentation == Some(UpdateSet { set: self.documentation }),
    {
        PatchExtPipe {
            external_id: patch_set(self.external_id, options),
            name: patch_set(self.name, options),
            description: patch_set(self.description, options),
            data_set_id: patch_set(self.data_set_id, options),
            schedule: patch_set(self.schedule, options),
            raw_tables: patch_list(self.raw_tables, options),
            contacts: patch_list(self.contacts, options),
            metadata: patch_map(self.metadata, options),
            source: patch_set(self.source, options),
            documentation: patch_set(self.documentation, options),
        }
    }
}

/// The update that an AddExtPipe becomes writes every field from the field of
/// the same name, under the options given.
pub proof fn lemma_patch_fields_add_ext_pipe(a: AddExtPipe, o: UpsertOptions, r: PatchExtPipe)
    requires
        a.is_patch(o, r),
    ensures
        r.external_id == Some(UpdateSet { set: a.external_id }),
        r.name == Some(UpdateSet { set: a.name }),
        r.description == Some(UpdateSet { set: a.description }),
        r.data_set_id == Some(UpdateSet { set: a.data_set_id }),
        r.schedule == Some(UpdateSet { set: a.schedule }),
        list_patch(r.raw_tables, a.raw_tables, o),
        list_patch(r.contacts, a.contacts, o),
        map_patch(r.metadata, a.metadata, o),
        r.source == Some(UpdateSet { set: a.source }),
        r.documentation == Some(UpdateSet { set: a.documentation }),
{
}

impl From<ExtPipe> for Patch<PatchExtPipe> {
    /// The update under the default options.
    fn from(value: ExtPipe) -> (r: Self)
        ensures
            value.is_patch(default_options(), r),
    {
        let options = UpsertOptions { ignore_nulls: false, merge_metadata: false, merge_lists: false };
        value.patch(&options)
    }
}

impl vstd::std_specs::convert::FromSpecImpl<ExtPipe> for Patch<PatchExtPipe> {
    /// What `from` gives is stated by its own `ensures`: a cleared map or
    /// list is known only by its contents.
    open spec fn obeys_from_spec() -> bool {
        false
    }

    open spec fn from_spec(v: ExtPipe) -> Patch<PatchExtPipe> {
        vstd::pervasive::arbitrary()
    }
}

/// Status of an extraction pipeline run.
#[derive(Clone, Copy, PartialEq, Eq, Structural)]
pub enum ExtPipeRunStatus {
    /// Success, the run completed succesfully.
    Success,
    /// Failure, the run failed.
    Failure,
    /// Seen, the run is a heartbeat.
    Seen,
}

impl Default for ExtPipeRunStatus {
    /// A heartbeat.
    fn default() -> (r: Self)
        ensures
            r == ExtPipeRunStatus::Seen,
    {
        Self::Seen
    }
}

/// Filter extraction pipelines.
pub struct ExtPipeFilter {
    /// Filter using this (case-sensitive) prefix on external ID.
    pub external_id_prefix: Option<String>,
    /// Include extraction pipelines with this name.
    pub name: Option<String>,
    /// Include extraction pipelines with this description.
    pub description: Option<String>,
    /// Include extraction pipelines which belongs to one of these data set ids.
    pub data_set_ids: Option<Vec<Identity>>,
    /// Include extraction pipelines with this schedule.
    pub schedule: Option<String>,
    /// Include extraction pipelines with these contacts.
    pub contacts: Option<Vec<ExtPipeContact>>,
    /// Include extraction pipelines with these raw tables.
    pub raw_tables: Option<Vec<ExtPipeRawTable>>,
    /// Include extraction pipelines with this metadata.
    pub metadata: Option<HashMap<String, String>>,
    /// Include extraction pipelines with this source.
    pub source: Option<String>,
    /// Include extraction pipelines with this documentation.
    pub documentation: Option<String>,
    /// Include extraction pipelines with this creator.
    pub created_by: Option<String>,
    /// Range of timestamps for `created_time`.
    pub created_time: Option<Range<i64>>,
    /// Range of timestamps for `last_updated_time`.
    pub last_updated_time: Option<Range<i64>>,
}

/// A single completed run or heartbeat.
pub struct ExtPipeRun {
    /// Run ID.
    pub id: i64,
    /// Run status
    pub status: ExtPipeRunStatus,
    /// Optional message.
    pub message: Option<String>,
    /// Time this run happened, in milliseconds since epoch.
    pub created_time: i64,
    /// Extraction pipeline external ID.
    pub external_id: Option<String>,
}

/// Create a new extraction pipeline run.
pub struct AddExtPipeRun {
    /// Run status
    pub status: ExtPipeRunStatus,
    /// Optional message.
    pub message: Option<String>,
    /// Time this run happened, in milliseconds since epoch.
    pub created_time: Option<i64>,
    /// Extraction pipeline external ID.
    pub external_id: String,
}

/// Filter on a string in extraction pipeline runs.
pub struct ExtPipeStringFilter {
    /// Match on a substring of the filtered value.
    pub substring: String,
}

/// Filter extraction pipeline runs.
pub struct ExtPipeRunFilter {
    /// Extraction pipeline external ID.
    pub external_id: String,
    /// Include runs with one of these statuses.
    pub statuses: Option<Vec<ExtPipeRunStatus>>,
    /// Include runs within this range.
    pub created_time: Option<Range<i64>>,
    /// Include runs with messages matching this filter.
    pub message: Option<ExtPipeStringFilter>,
}

} // verus!
