//! Streams, where records live.

use vstd::prelude::*;

use crate::params::{opt_text, param, to_query, IntoParams};

verus! {

/// Reference to a template used to create a stream.
pub struct StreamTemplate {
    /// Name of the template.
    pub name: String,
}

/// Settings for creating a stream.
pub struct StreamSettingsWrite {
    /// The template to use when creating the stream.
    pub template: StreamTemplate,
}

/// A stream to create in CDF.
pub struct StreamWrite {
    /// Stream identifier, unique within the project.
    pub external_id: String,
    /// Settings for the stream.
    pub settings: StreamSettingsWrite,
}

impl From<Stream> for StreamWrite {
    fn from(stream: Stream) -> (r: Self)
        ensures
            r.external_id == stream.external_id,
            r.settings.template.name == stream.created_from_template,
    {
        Self {
            external_id: stream.external_id,
            settings: StreamSettingsWrite { template: StreamTemplate { name: stream.created_from_template } },
        }
    }
}

impl vstd::std_specs::convert::FromSpecImpl<Stream> for StreamWrite {
    open spec fn obeys_from_spec() -> bool {
        true
    }

    /// A stream is created again from the template it was created from.
    open spec fn from_spec(stream: Stream) -> StreamWrite {
        StreamWrite {
            external_id: stream.external_id,
            settings: StreamSettingsWrite { template: StreamTemplate { name: stream.created_from_template } },
        }
    }
}

/// Type of stream.
#[derive(Clone, Copy, PartialEq, Eq, Structural)]
pub enum StreamType {
    /// The stream is immutable and allows ingestion of very large amounts of data.
    Immutable,
    /// The stream is mutable: records can be modified and deleted.
    Mutable,
}

impl Default for StreamType {
    /// An immutable stream.
    fn default() -> (r: Self)
        ensures
            r == StreamType::Immutable,
    {
        StreamType::Immutable
    }
}

/// Lifecycle settings for a stream.
pub struct StreamLifecycle {
    /// ISO-8601 formatted date string for when data in the stream will be
    /// automatically deleted.
    pub data_deleted_after: Option<String>,
    /// ISO-8601 formatted date string for when the stream will be deleted
    /// once it is soft-deleted.
    pub retained_after_soft_delete: String,
}

/// Resource limits and metrics for a stream, each as the bits of an `f64`.
pub struct StreamResourceLimits {
    /// Provisioned capacity for the stream.
    pub provisioned: u64,
    /// Consumed capacity for the stream, when statistics are included.
    pub consumed: Option<u64>,
}

/// Limits for a stream.
pub struct StreamLimits {
    /// Maximum length of time that the `lastUpdatedTime` filter can retrieve
    /// records for, in ISO-8601 format.
    pub max_filtering_interval: Option<String>,
    /// Maximum number of records allowed in the stream.
    pub max_records_total: StreamResourceLimits,
    /// Maximum total size of all records in the stream, in gigabytes.
    pub max_giga_bytes_total: StreamResourceLimits,
}

/// Settings for a stream.
pub struct StreamSettings {
    /// Lifecycle settings for the stream.
    pub lifecycle: StreamLifecycle,
    /// Limits for the stream.
    pub limits: StreamLimits,
}

/// A stream in CDF.
pub struct Stream {
    /// Stream identifier.
    pub external_id: String,
    /// Time the stream was created.
    pub created_time: i64,
    /// Name of the template used for creating this stream.
    pub created_from_template: String,
    /// Defines type of the stream.
    pub stream_type: StreamType,
    /// Settings for the stream.
    pub settings: Option<StreamSettings>,
}

/// Query parameters for listing streams.
pub struct ListStreamParams {}

impl IntoParams for ListStreamParams {
    /// No parameters.
    open spec fn params_spec(self) -> Seq<(Seq<char>, Seq<char>)> {
        Seq::empty()
    }

    fn into_params(self) -> (r: Vec<(String, String)>) {
        let params: Vec<(String, String)> = Vec::new();
        assert(params.deep_view() =~= Seq::<(Seq<char>, Seq<char>)>::empty());
        params
    }
}

/// Query parameters for retrieving a stream.
pub struct RetrieveStreamParams {
    /// Whether to include statistics about resource consumption.
    pub include_statistics: Option<bool>,
}

impl IntoParams for RetrieveStreamParams {
    /// Whether to include statistics, when set.
    open spec fn params_spec(self) -> Seq<(Seq<char>, Seq<char>)> {
        param("includeStatistics"@, opt_text(self.include_statistics))
    }

    fn into_params(self) -> (r: Vec<(String, String)>) {
        let mut params: Vec<(String, String)> = Vec::new();
        assert(params.deep_view() =~= Seq::<(Seq<char>, Seq<char>)>::empty());
        to_query("includeStatistics", &self.include_statistics, &mut params);
        assert(params.deep_view() =~= self.params_spec());
        params
    }
}

} // verus!
