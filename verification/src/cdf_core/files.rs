//! Files: metadata, creation and update forms, upload results, filters and
//! the upload query.

use vstd::prelude::*;

use std::collections::HashMap;

use crate::filter_types::{LabelsFilter, Range};
use crate::identity::{CogniteExternalId, EqIdentity, Identity, IdentityModel};
use crate::models::instances::InstanceId;
use crate::params::IntoParams;
use crate::patch::{
    default_options, list_patch, map_patch, patch_list, patch_map, patch_set_null,
    resource_identity, set_null_spec, to_identity, IntoPatch, Patch, UpdateList, UpdateMap,
    UpdateSetNull, UpsertOptions,
};
use crate::text::opt_string_is;

verus! {

/// Description of a CDF file.
pub struct FileMetadata {
    /// File external ID. Must be unique accross all files in the project.
    pub external_id: Option<String>,
    /// File name.
    pub name: String,
    /// Directory containing the file. Must be an absolute, unix-style path.
    pub directory: Option<String>,
    /// Source of the file.
    pub source: Option<String>,
    /// File mime type, e.g. `application/pdf`.
    pub mime_type: Option<String>,
    /// Custom, application specific metadata. String key -> String value.
    pub metadata: Option<HashMap<String, String>>,
    /// List of assets the file is tied to.
    pub asset_ids: Option<Vec<i64>>,
    /// Data set the file belongs to.
    pub data_set_id: Option<i64>,
    /// Timestamp in milliseconds since epoch when this file was created in the source system.
    pub source_created_time: Option<i64>,
    /// Timestamp in milliseconds since epoch when this file was last modified in the source system.
    pub source_modified_time: Option<i64>,
    /// The required security categories to access this file.
    pub security_categories: Option<Vec<i64>>,
    /// List of labels associated with this file.
    pub labels: Option<Vec<CogniteExternalId>>,
    /// File internal ID.
    pub id: i64,
    /// Whether or not the actual file is uploaded.
    pub uploaded: bool,
    /// Time this file was uploaded, in milliseconds since epoch.
    pub uploaded_time: Option<i64>,
    /// Time this file was created, in milliseconds since epoch.
    pub created_time: i64,
    /// Time this file was last modified, in milliseconds since epoch.
    pub last_updated_time: i64,
}

/// Extra data in file upload result from normal file upload.
pub struct UploadUrl {
    /// URL for uploading data to this file.
    pub upload_url: String,
    /// Optional instance id of the file if in data models.
    pub instance_id: Option<InstanceId>,
}

/// Extra data in file upload result from multipart file upload.
pub struct MultiUploadUrls {
    /// Identifier for this multipart upload, to be used in `complete_multipart_upload`.
    pub upload_id: String,
    /// Upload URL for each part of the file.
    pub upload_urls: Vec<String>,
    /// Optional instance id of the file if in data models.
    pub instance_id: Option<InstanceId>,
}

/// Result for uploading a file object to CDF.
pub struct FileUploadResult<T> {
    /// File metadata object.
    pub metadata: FileMetadata,
    /// Any extra fields, specific fields depend on endpoint.
    pub extra: T,
}

#[derive(Clone)]
/// Create a new file.
pub struct AddFile {
    /// File external ID. Must be unique accross all files in the project.
    pub external_id: Option<String>,
    /// File name.
    pub name: String,
    /// Directory containing the file. Must be an absolute, unix-style path.
    pub directory: Option<String>,
    /// Source of the file.
    pub source: Option<String>,
    /// File mime type, e.g. `application/pdf`.
    pub mime_type: Option<String>,
    /// Custom, application specific metadata. String key -> String value.
    pub metadata: Option<HashMap<String, String>>,
    /// List of assets the file is tied to.
    pub asset_ids: Option<Vec<i64>>,
    /// Data set the file belongs to.
    pub data_set_id: Option<i64>,
    /// Timestamp in milliseconds since epoch when this file was created in the source system.
    pub source_created_time: Option<i64>,
    /// Timestamp in milliseconds since epoch when this file was last modified in the source system.
    pub source_modified_time: Option<i64>,
    /// The required security categories to access this file.
    pub security_categories: Option<Vec<i64>>,
    /// List of labels associated with this file.
    pub labels: Option<Vec<CogniteExternalId>>,
}

impl From<FileMetadata> for AddFile {
    fn from(file: FileMetadata) -> (r: AddFile)
        ensures
            r.external_id == file.external_id,
            r.name == file.name,
            r.directory == file.directory,
            r.source == file.source,
            r.mime_type == file.mime_type,
            r.metadata == file.metadata,
            r.asset_ids == file.asset_ids,
            r.data_set_id == file.data_set_id,
            r.source_created_time == file.source_created_time,
            r.source_modified_time == file.source_modified_time,
            r.security_categories == file.security_categories,
            r.labels == file.labels,
    {
        AddFile {
            external_id: file.external_id,
            name: file.name,
            directory: file.directory,
            source: file.source,
            mime_type: file.mime_type,
            metadata: file.metadata,
            asset_ids: file.asset_ids,
            data_set_id: file.data_set_id,
            source_created_time: file.source_created_time,
            source_modified_time: file.source_modified_time,
            security_categories: file.security_categories,
            labels: file.labels,
        }
    }
}

impl vstd::std_specs::convert::FromSpecImpl<FileMetadata> for AddFile {
    open spec fn obeys_from_spec() -> bool {
        true
    }

    open spec fn from_spec(file: FileMetadata) -> AddFile {
        add_file_of(file)
    }
}

/// The creation form of a file: its writable fields.
pub open spec fn add_file_of(file: FileMetadata) -> AddFile {
    AddFile {
        external_id: file.external_id,
        name: file.name,
        directory: file.directory,
        source: file.source,
        mime_type: file.mime_type,
        metadata: file.metadata,
        asset_ids: file.asset_ids,
        data_set_id: file.data_set_id,
        source_created_time: file.source_created_time,
        source_modified_time: file.source_modified_time,
        security_categories: file.security_categories,
        labels: file.labels,
    }
}

impl EqIdentity for AddFile {
    /// A file to create is named only by its external ID.
    open spec fn matches_identity(&self, id: IdentityModel) -> bool {
        match id {
            IdentityModel::Id(_) => false,
            IdentityModel::ExternalId(e) => self.external_id.deep_view() == Some(e),
        }
    }

    fn eq(&self, id: &Identity) -> (r: bool)
        ensures
            r == (id is ExternalId && self.external_id is Some
                && self.external_id->0@ == id->external_id@),
    {
        match id {
            Identity::Id { .. } => false,
            Identity::ExternalId { external_id } => opt_string_is(&self.external_id, external_id.as_str()),
        }
    }
}

/// Update a file.
pub struct PatchFile {
    /// File external ID.
    pub external_id: Option<UpdateSetNull<String>>,
    /// Directory containing the file.
    pub directory: Option<UpdateSetNull<String>>,
    /// Source of the file.
    pub source: Option<UpdateSetNull<String>>,
    /// File mime type.
    pub mime_type: Option<UpdateSetNull<String>>,
    /// Custom, application specific metadata.
    pub metadata: Option<UpdateMap<String, String>>,
    /// List of assets the file is tied to.
    pub asset_ids: Option<UpdateList<i64, i64>>,
    /// Timestamp when this file was created in the source system.
    pub source_created_time: Option<UpdateSetNull<i64>>,
    /// Timestamp when this file was last modified in the source system.
    pub source_modified_time: Option<UpdateSetNull<i64>>,
    /// Data set the file belongs to.
    pub data_set_id: Option<UpdateSetNull<i64>>,
    /// The required security categories to access this file.
    pub security_categories: Option<UpdateList<i64, i64>>,
    /// List of labels associated with this file.
    pub labels: Option<UpdateList<CogniteExternalId, CogniteExternalId>>,
}

/// Whether `r` writes every writable field of `f`, as `patch` does.
pub open spec fn is_file_patch(r: PatchFile, o: UpsertOptions, f: AddFile) -> bool {
    &&& r.external_id == set_null_spec(f.external_id, o)
    &&& r.directory == set_null_spec(f.directory, o)
    &&& r.source == set_null_spec(f.source, o)
    &&& r.mime_type == set_null_spec(f.mime_type, o)
    &&& map_patch(r.metadata, f.metadata, o)
    &&& list_patch(r.asset_ids, f.asset_ids, o)
    &&& r.source_created_time == set_null_spec(f.source_created_time, o)
    &&& r.source_modified_time == set_null_spec(f.source_modified_time, o)
    &&& r.data_set_id == set_null_spec(f.data_set_id, o)
    &&& list_patch(r.security_categories, f.security_categories, o)
    &&& list_patch(r.labels, f.labels, o)
}

impl IntoPatch<Patch<PatchFile>> for FileMetadata {
    /// The file is addressed by its identity and every writable field is
    /// written; the name is not.
    open spec fn is_patch(self, o: UpsertOptions, r: Patch<PatchFile>) -> bool {
        &&& r.id@ == resource_identity(self.id, self.external_id.deep_view())
        &&& is_file_patch(r.update, o, add_file_of(self))
    }

    fn patch(self, options: &UpsertOptions) -> (r: Patch<PatchFile>)
        ensures
            r.id@ == resource_identity(self.id, self.external_id.deep_view()),
            r.update.external_id == set_null_spec(self.external_id, *options),
            r.update.directory == set_null_spec(self.directory, *options),
            r.update.source == set_null_spec(self.source, *options),
            r.update.mime_type == set_null_spec(self.mime_type, *options),
            map_patch(r.update.metadata, self.metadata, *options),
            list_patch(r.update.asset_ids, self.asset_ids, *options),
            r.update.source_created_time == set_null_spec(self.source_created_time, *options),
            r.update.source_modified_time == set_null_spec(self.source_modified_time, *options),
            r.update.data_set_id == set_null_spec(self.data_set_id, *options),
            list_patch(r.update.security_categories, self.security_categories, *options),
            list_patch(r.update.labels, self.labels, *options),
    {
        let id = to_identity(self.id, &self.external_id);
        Patch {
            id,
            update: PatchFile {
                external_id: patch_set_null(self.external_id, options),
                directory: patch_set_null(self.directory, options),
                source: patch_set_null(self.source, options),
                mime_type: patch_set_null(self.mime_type, options),
                metadata: patch_map(self.metadata, options),
                asset_ids: patch_list(self.asset_ids, options),
                source_created_time: patch_set_null(self.source_created_time, options),
                source_modified_time: patch_set_null(self.source_modified_time, options),
                data_set_id: patch_set_null(self.data_set_id, options),
                security_categories: patch_list(self.security_categories, options),
                labels: patch_list(self.labels, options),
            },
        }
    }
}

/// The update that a FileMetadata becomes writes every field from the field of
/// the same name, under the options given, and is addressed to the resource's own identity.
pub proof fn lemma_patch_fields_file_metadata(a: FileMetadata, o: UpsertOptions, r: Patch<PatchFile>)
    requires
        a.is_patch(o, r),
    ensures
        r.id@ == resource_identity(a.id, a.external_id.deep_view()),
        r.update.external_id == set_null_spec(a.external_id, o),
        r.update.directory == set_null_spec(a.directory, o),
        r.update.source == set_null_spec(a.source, o),
        r.update.mime_type == set_null_spec(a.mime_type, o),
        map_patch(r.update.metadata, a.metadata, o),
        list_patch(r.update.asset_ids, a.asset_ids, o),
        r.update.source_created_time == set_null_spec(a.source_created_time, o),
        r.update.source_modified_time == set_null_spec(a.source_modified_time, o),
        r.update.data_set_id == set_null_spec(a.data_set_id, o),
        list_patch(r.update.security_categories, a.security_categories, o),
        list_patch(r.update.labels, a.labels, o),
{
}

impl IntoPatch<PatchFile> for AddFile {
    /// Every writable field is written; the name is not.
    open spec fn is_patch(self, o: UpsertOptions, r: PatchFile) -> bool {
        is_file_patch(r, o, self)
    }

    fn patch(self, options: &UpsertOptions) -> (r: PatchFile)
        ensures
            r.external_id == set_null_spec(self.external_id, *options),
            r.directory == set_null_spec(self.directory, *options),
            r.source == set_null_spec(self.source, *options),
            r.mime_type == set_null_spec(self.mime_type, *options),
            map_patch(r.metadata, self.metadata, *options),
            list_patch(r.asset_ids, self.asset_ids, *options),
            r.source_created_time == set_null_spec(self.source_created_time, *options),
            r.source_modified_time == set_null_spec(self.source_modified_time, *options),
            r.data_set_id == set_null_spec(self.data_set_id, *options),
            list_patch(r.security_categories, self.security_categories, *options),
            list_patch(r.labels, self.labels, *options),
    {
        PatchFile {
            external_id: patch_set_null(self.external_id, options),
            directory: patch_set_null(self.directory, options),
            source: patch_set_null(self.source, options),
            mime_type: patch_set_null(self.mime_type, options),
            metadata: patch_map(self.metadata, options),
            asset_ids: patch_list(self.asset_ids, options),
            source_created_time: patch_set_null(self.source_created_time, options),
            source_modified_time: patch_set_null(self.source_modified_time, options),
            data_set_id: patch_set_null(self.data_set_id, options),
            security_categories: patch_list(self.security_categories, options),
            labels: patch_list(self.labels, options),
        }
    }
}

/// The update that an AddFile becomes writes every field from the field of
/// the same name, under the options given.
pub proof fn lemma_patch_fields_add_file(a: AddFile, o: UpsertOptions, r: PatchFile)
    requires
        a.is_patch(o, r),
    ensures
        r.external_id == set_null_spec(a.external_id, o),
        r.directory == set_null_spec(a.directory, o),
        r.source == set_null_spec(a.source, o),
        r.mime_type == set_null_spec(a.mime_type, o),
        map_patch(r.metadata, a.metadata, o),
        list_patch(r.asset_ids, a.asset_ids, o),
        r.source_created_time == set_null_spec(a.source_created_time, o),
        r.source_modified_time == set_null_spec(a.source_modified_time, o),
        r.data_set_id == set_null_spec(a.data_set_id, o),
        list_patch(r.security_categories, a.security_categories, o),
        list_patch(r.labels, a.labels, o),
{
}

impl From<FileMetadata> for Patch<PatchFile> {
    /// The update under the default options.
    fn from(value: FileMetadata) -> (r: Self)
        ensures
            value.is_patch(default_options(), r),
    {
        let options = UpsertOptions { ignore_nulls: false, merge_metadata: false, merge_lists: false };
        value.patch(&options)
    }
}

impl vstd::std_specs::convert::FromSpecImpl<FileMetadata> for Patch<PatchFile> {
    /// What `from` gives is stated by its own `ensures`: a cleared map or
    /// list is known only by its contents.
    open spec fn obeys_from_spec() -> bool {
        false
    }

    open spec fn from_spec(v: FileMetadata) -> Patch<PatchFile> {
        vstd::pervasive::arbitrary()
    }
}

/// Download URL for a file
pub struct FileDownloadUrl {
    /// ID of the file.
    pub id: Identity,
    /// Temporary download URL for the file.
    pub download_url: String,
}

/// Aggregates on files.
pub struct FileAggregates {
    /// Number of files in the project.
    pub count: i64,
}

/// Payload for the `complete_multipart_upload` endpoint.
pub struct CompleteMultipartUpload {
    /// ID of the file.
    pub id: Identity,
    /// Upload ID returned by `init_multipart_upload`
    pub upload_id: String,
}

/// Filter on files.
#[derive(Clone)]
pub struct FileFilter {
    /// Name of files to include.
    pub name: Option<String>,
    /// Filter on this (case-sensitive) prefix for the directory.
    pub directory_prefix: Option<String>,
    /// Mime type of files to include.
    pub mime_type: Option<String>,
    /// Include files belonging to one of these assets.
    pub asset_ids: Option<Vec<u64>>,
    /// Include files belonging to one of these assets.
    pub asset_external_ids: Option<Vec<String>>,
    /// Include files belonging to assets that are in the tree of one of these root assets.
    pub root_asset_ids: Option<Vec<Identity>>,
    /// Include files that belong to one of these data sets.
    pub data_set_ids: Option<Vec<Identity>>,
    /// Include files belonging to assets that are in the subtree of one of these assets.
    pub asset_subtree_ids: Option<Vec<Identity>>,
    /// Source of asset.
    pub source: Option<String>,
    /// Range of timestamps for `created_time`.
    pub created_time: Option<Range<i64>>,
    /// Range of timestamps for `last_updated_time`.
    pub last_updated_time: Option<Range<i64>>,
    /// Range of timestamps for `uploaded_time`.
    pub uploaded_time: Option<Range<i64>>,
    /// Range of timestamps for `source_created_time`.
    pub source_created_time: Option<Range<i64>>,
    /// Range of timestamps for `source_modified_time`.
    pub source_modified_time: Option<Range<i64>>,
    /// Filter by this (case-sensitive) prefix for the external ID.
    pub external_id_prefix: Option<String>,
    /// Filter on files that are uploaded or not uploaded.
    pub uploaded: Option<bool>,
    /// Filter on files matching the given label filter.
    pub labels: Option<LabelsFilter>,
}

/// The file filter that sets no condition.
pub open spec fn empty_file_filter() -> FileFilter {
    FileFilter {
        name: None,
        directory_prefix: None,
        mime_type: None,
        asset_ids: None,
        asset_external_ids: None,
        root_asset_ids: None,
        data_set_ids: None,
        asset_subtree_ids: None,
        source: None,
        created_time: None,
        last_updated_time: None,
        uploaded_time: None,
        source_created_time: None,
        source_modified_time: None,
        external_id_prefix: None,
        uploaded: None,
        labels: None,
    }
}

impl FileFilter {
    /// Create a new empty file filter.
    pub fn new() -> (r: FileFilter)
        ensures
            r == empty_file_filter(),
    {
        FileFilter {
            name: None,
            directory_prefix: None,
            mime_type: None,
            asset_ids: None,
            asset_external_ids: None,
            root_asset_ids: None,
            data_set_ids: None,
            asset_subtree_ids: None,
            source: None,
            created_time: None,
            last_updated_time: None,
            uploaded_time: None,
            source_created_time: None,
            source_modified_time: None,
            external_id_prefix: None,
            uploaded: None,
            labels: None,
        }
    }
}

/// Fuzzy search on files.
pub struct FileSearch {
    /// Fuzzy search on file name.
    pub name: Option<String>,
}

impl FileSearch {
    /// Create an empty file search.
    pub fn new() -> (r: FileSearch)
        ensures
            r.name.is_none(),
    {
        FileSearch { name: None }
    }
}

/// Query for file upload requests.
pub struct FileUploadQuery {
    /// Set to `true` to overwrite any files that already exist in CDF.
    pub overwrite: bool,
}

impl IntoParams for FileUploadQuery {
    /// `overwrite=true` when files are overwritten, nothing otherwise.
    open spec fn params_spec(self) -> Seq<(Seq<char>, Seq<char>)> {
        if self.overwrite {
            seq![("overwrite"@, "true"@)]
        } else {
            Seq::empty()
        }
    }

    fn into_params(self) -> (r: Vec<(String, String)>) {
        let mut params: Vec<(String, String)> = Vec::new();
        if self.overwrite {
            params.push(("overwrite".to_owned(), "true".to_owned()));
        }
        assert(params.deep_view() =~= self.params_spec());
        params
    }
}

impl FileUploadQuery {
    /// Create a file upload query: `overwrite` is `true` to overwrite any
    /// files that already exist in CDF.
    pub fn new(overwrite: bool) -> (r: Self)
        ensures
            r.overwrite == overwrite,
    {
        Self { overwrite }
    }
}

} // verus!
