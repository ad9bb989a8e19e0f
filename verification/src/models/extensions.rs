//! Core data model types on top of instances: files, time series and units
//! as nodes, and how they are written as nodes and read back from them.
//!
//! The properties of a node are held as a list of spaces, each with a list
//! of views or containers; a view is keyed by `externalId/version`. The
//! lists stand for the maps the API sends, in which no key occurs twice
//! (`distinct_keys`); on such a list the first entry with a key is the one
//! value under it (`lemma_lookup_distinct`).

use vstd::prelude::*;

use crate::error::Error;
use crate::models::common::SourceReference;
use crate::models::instances::{
    instance_properties_wf, lookup, lookup_entry, nested_distinct_keys, EdgeOrNodeData,
    InstanceId, NodeDefinition, NodeOrEdge, NodeOrEdgeCreate, NodeWrite,
};
use crate::models::views::ViewReference;
use crate::text::push_str;

verus! {

/// Identification of an instance in its source system.
pub struct CogniteSourceable {
    /// Identifier from the source system.
    pub source_id: Option<String>,
    /// Context of the source id.
    pub source_context: Option<String>,
    /// Direct relation to a source system.
    pub source: Option<InstanceId>,
    /// When the instance was created in source system (if available).
    pub source_created_time: Option<i64>,
    /// When the instance was last updated in the source system (if available)
    pub source_updated_time: Option<i64>,
    /// User identifier from the source system on who created the source data.
    pub source_created_user: Option<String>,
    /// User identifier from the source system on who last updated the source data.
    pub source_updated_user: Option<String>,
}

impl Clone for CogniteSourceable {
    fn clone(&self) -> (r: Self)
        ensures
            r == *self,
    {
        CogniteSourceable {
            source_id: self.source_id.clone(),
            source_context: self.source_context.clone(),
            source: self.source.clone(),
            source_created_time: self.source_created_time,
            source_updated_time: self.source_updated_time,
            source_created_user: self.source_created_user.clone(),
            source_updated_user: self.source_updated_user.clone(),
        }
    }
}

impl Default for CogniteSourceable {
    /// Nothing known of the source.
    fn default() -> (r: Self)
        ensures
            r == (CogniteSourceable {
                source_id: None,
                source_context: None,
                source: None,
                source_created_time: None,
                source_updated_time: None,
                source_created_user: None,
                source_updated_user: None,
            }),
    {
        CogniteSourceable {
            source_id: None,
            source_context: None,
            source: None,
            source_created_time: None,
            source_updated_time: None,
            source_created_user: None,
            source_updated_user: None,
        }
    }
}

/// Name and description of an instance.
pub struct CogniteDescribable {
    /// Name of the instance.
    pub name: String,
    /// Description of the instance.
    pub description: Option<String>,
    /// Text based labels for generic use, limited to 1000.
    pub tags: Option<Vec<String>>,
    /// Alternative names for the node.
    pub aliases: Option<Vec<String>>,
}

/// The value a [`CogniteDescribable`] stands for.
pub struct DescribableModel {
    /// Name of the instance.
    pub name: String,
    /// Description of the instance.
    pub description: Option<String>,
    /// Text based labels.
    pub tags: Option<Seq<String>>,
    /// Alternative names for the node.
    pub aliases: Option<Seq<String>>,
}

/// The elements of an optional list.
pub open spec fn opt_seq<T>(v: Option<Vec<T>>) -> Option<Seq<T>> {
    match v {
        Some(x) => Some(x@),
        None => None,
    }
}

fn clone_opt_vec<T: Clone>(v: &Option<Vec<T>>) -> (r: Option<Vec<T>>)
    requires
        forall|a: T, b: T| #[trigger] cloned::<T>(a, b) ==> a == b,
    ensures
        opt_seq(r) == opt_seq(*v),
{
    match v {
        Some(x) => {
            let c = x.clone();
            assert(c@ =~= x@);
            Some(c)
        },
        None => None,
    }
}

impl View for CogniteDescribable {
    type V = DescribableModel;

    open spec fn view(&self) -> DescribableModel {
        DescribableModel {
            name: self.name,
            description: self.description,
            tags: opt_seq(self.tags),
            aliases: opt_seq(self.aliases),
        }
    }
}

impl Clone for CogniteDescribable {
    fn clone(&self) -> (r: Self)
        ensures
            r@ == self@,
    {
        CogniteDescribable {
            name: self.name.clone(),
            description: self.description.clone(),
            tags: clone_opt_vec(&self.tags),
            aliases: clone_opt_vec(&self.aliases),
        }
    }
}

impl CogniteDescribable {
    /// A description that holds a name and nothing else.
    pub fn new(name: String) -> (r: Self)
        ensures
            r == (CogniteDescribable { name, description: None, tags: None, aliases: None }),
    {
        CogniteDescribable { name, description: None, tags: None, aliases: None }
    }
}

/// The lifecycle timestamps of an instance.
#[derive(Clone, Copy, PartialEq, Eq, Structural)]
pub struct CogniteAuditable {
    /// Time the instance was last updated, in milliseconds since epoch.
    pub last_updated_time: i64,
    /// Time the instance was created, in milliseconds since epoch.
    pub created_time: i64,
    /// Time the instance was deleted, in milliseconds since epoch.
    pub deleted_time: Option<i64>,
}

impl Default for CogniteAuditable {
    /// Zero timestamps, not deleted.
    fn default() -> (r: Self)
        ensures
            r == (CogniteAuditable { last_updated_time: 0, created_time: 0, deleted_time: None }),
    {
        CogniteAuditable { last_updated_time: 0, created_time: 0, deleted_time: None }
    }
}

/// The properties of a file node.
pub struct FileObject {
    /// Name and description.
    pub description: CogniteDescribable,
    /// Source system.
    pub source: CogniteSourceable,
    /// List of assets to which this file relates.
    pub assets: Option<Vec<InstanceId>>,
    /// MIME type of the file.
    pub mime_type: Option<String>,
    /// The path elements from the source.
    pub directory: Option<String>,
    /// Whether the file content has been uploaded to Cognite Data Fusion.
    pub is_uploaded: Option<bool>,
    /// Point in time when the file upload was completed.
    pub uploaded_time: Option<i64>,
    /// Direct relation to the category of the file.
    pub category: Option<InstanceId>,
    /// Unstructured information extracted from source system.
    pub extracted_data: Option<std::collections::HashMap<String, String>>,
}

/// The value a [`FileObject`] stands for.
pub struct FileObjectModel {
    /// Name and description.
    pub description: DescribableModel,
    /// Source system.
    pub source: CogniteSourceable,
    /// Assets the file relates to.
    pub assets: Option<Seq<InstanceId>>,
    /// MIME type of the file.
    pub mime_type: Option<String>,
    /// The path elements from the source.
    pub directory: Option<String>,
    /// Whether the file content has been uploaded.
    pub is_uploaded: Option<bool>,
    /// Point in time when the file upload was completed.
    pub uploaded_time: Option<i64>,
    /// Direct relation to the category of the file.
    pub category: Option<InstanceId>,
    /// Unstructured information extracted from source system.
    pub extracted_data: Option<Map<String, String>>,
}

/// The entries of an optional map.
pub open spec fn opt_map(m: Option<std::collections::HashMap<String, String>>) -> Option<Map<String, String>> {
    match m {
        Some(x) => Some(x@),
        None => None,
    }
}

fn clone_opt_map(m: &Option<std::collections::HashMap<String, String>>) -> (r: Option<
    std::collections::HashMap<String, String>,
>)
    ensures
        opt_map(r) == opt_map(*m),
{
    match m {
        Some(x) => Some(x.clone()),
        None => None,
    }
}

impl View for FileObject {
    type V = FileObjectModel;

    open spec fn view(&self) -> FileObjectModel {
        FileObjectModel {
            description: self.description@,
            source: self.source,
            assets: opt_seq(self.assets),
            mime_type: self.mime_type,
            directory: self.directory,
            is_uploaded: self.is_uploaded,
            uploaded_time: self.uploaded_time,
            category: self.category,
            extracted_data: opt_map(self.extracted_data),
        }
    }
}

impl Clone for FileObject {
    fn clone(&self) -> (r: Self)
        ensures
            r@ == self@,
    {
        FileObject {
            description: self.description.clone(),
            source: self.source.clone(),
            assets: clone_opt_vec(&self.assets),
            mime_type: self.mime_type.clone(),
            directory: self.directory.clone(),
            is_uploaded: self.is_uploaded,
            uploaded_time: self.uploaded_time,
            category: self.category.clone(),
            extracted_data: clone_opt_map(&self.extracted_data),
        }
    }
}

impl FileObject {
    /// A file with a name and nothing else.
    pub fn new(name: String) -> (r: FileObject)
        ensures
            r.description == (CogniteDescribable { name, description: None, tags: None, aliases: None }),
            r.source == (CogniteSourceable {
                source_id: None,
                source_context: None,
                source: None,
                source_created_time: None,
                source_updated_time: None,
                source_created_user: None,
                source_updated_user: None,
            }),
            r.assets.is_none(),
            r.mime_type.is_none(),
            r.directory.is_none(),
            r.is_uploaded.is_none(),
            r.uploaded_time.is_none(),
            r.category.is_none(),
            r.extracted_data.is_none(),
    {
        FileObject {
            description: CogniteDescribable::new(name),
            source: CogniteSourceable::default(),
            assets: None,
            mime_type: None,
            directory: None,
            is_uploaded: None,
            uploaded_time: None,
            category: None,
            extracted_data: None,
        }
    }
}

/// The data type of the data points of a time series.
#[derive(Clone, Copy, PartialEq, Eq, Structural)]
pub enum TimeSeriesType {
    /// The data points are strings.
    String,
    /// The data points are numbers.
    Numeric,
}

impl Default for TimeSeriesType {
    /// Numbers.
    fn default() -> (r: Self)
        ensures
            r == TimeSeriesType::Numeric,
    {
        TimeSeriesType::Numeric
    }
}

/// The properties of a time series node.
pub struct Timeseries {
    /// Name and description.
    pub description: CogniteDescribable,
    /// Source system.
    pub source: CogniteSourceable,
    /// Whether the time series is a step series or not.
    pub is_step: bool,
    /// Unit as specified in the source system.
    pub source_unit: String,
    /// Direct relation to the unit of the time series.
    pub unit: Option<InstanceId>,
    /// List of assets to which this time series relates.
    pub assets: Option<Vec<InstanceId>>,
    /// List of activities associated with this time series.
    pub activities: Option<Vec<InstanceId>>,
    /// Type of datapoints the time series contains.
    pub series_type: TimeSeriesType,
}

/// The value a [`Timeseries`] stands for.
pub struct TimeseriesModel {
    /// Name and description.
    pub description: DescribableModel,
    /// Source system.
    pub source: CogniteSourceable,
    /// Whether the time series is a step series or not.
    pub is_step: bool,
    /// Unit as specified in the source system.
    pub source_unit: String,
    /// Direct relation to the unit of the time series.
    pub unit: Option<InstanceId>,
    /// Assets the time series relates to.
    pub assets: Option<Seq<InstanceId>>,
    /// Activities associated with the time series.
    pub activities: Option<Seq<InstanceId>>,
    /// Type of datapoints the time series contains.
    pub series_type: TimeSeriesType,
}

impl View for Timeseries {
    type V = TimeseriesModel;

    open spec fn view(&self) -> TimeseriesModel {
        TimeseriesModel {
            description: self.description@,
            source: self.source,
            is_step: self.is_step,
            source_unit: self.source_unit,
            unit: self.unit,
            assets: opt_seq(self.assets),
            activities: opt_seq(self.activities),
            series_type: self.series_type,
        }
    }
}

impl Clone for Timeseries {
    fn clone(&self) -> (r: Self)
        ensures
            r@ == self@,
    {
        Timeseries {
            description: self.description.clone(),
            source: self.source.clone(),
            is_step: self.is_step,
            source_unit: self.source_unit.clone(),
            unit: self.unit.clone(),
            assets: clone_opt_vec(&self.assets),
            activities: clone_opt_vec(&self.activities),
            series_type: self.series_type,
        }
    }
}

impl Timeseries {
    /// A numeric time series, stepwise or not, with an empty name and no
    /// other property set.
    pub fn new(is_step: bool) -> (r: Self)
        ensures
            r.is_step == is_step,
            r.description.name@.len() == 0,
            r.description.description.is_none(),
            r.description.tags.is_none(),
            r.description.aliases.is_none(),
            r.source == CogniteSourceable::default_spec(),
            r.source_unit@.len() == 0,
            r.unit.is_none(),
            r.assets.is_none(),
            r.activities.is_none(),
            r.series_type == TimeSeriesType::Numeric,
    {
        Self {
            description: CogniteDescribable::new(String::new()),
            source: CogniteSourceable::default(),
            is_step,
            source_unit: String::new(),
            unit: None,
            assets: None,
            activities: None,
            series_type: TimeSeriesType::Numeric,
        }
    }
}

impl CogniteSourceable {
    /// The source description that knows nothing.
    pub open spec fn default_spec() -> CogniteSourceable {
        CogniteSourceable {
            source_id: None,
            source_context: None,
            source: None,
            source_created_time: None,
            source_updated_time: None,
            source_created_user: None,
            source_updated_user: None,
        }
    }
}

/// The properties of a unit of measurement node.
pub struct Unit {
    /// Name and description.
    pub description: CogniteDescribable,
    /// The symbol for the unit of measurement.
    pub symbol: Option<String>,
    /// Specifies the physical quantity the unit measures.
    pub quantity: Option<String>,
    /// Source of the unit definition
    pub source: Option<String>,
    /// Reference to the source of the unit definition.
    pub source_reference: Option<String>,
}

/// The value a [`Unit`] stands for.
pub struct UnitModel {
    /// Name and description.
    pub description: DescribableModel,
    /// The symbol for the unit of measurement.
    pub symbol: Option<String>,
    /// Specifies the physical quantity the unit measures.
    pub quantity: Option<String>,
    /// Source of the unit definition
    pub source: Option<String>,
    /// Reference to the source of the unit definition.
    pub source_reference: Option<String>,
}

impl View for Unit {
    type V = UnitModel;

    open spec fn view(&self) -> UnitModel {
        UnitModel {
            description: self.description@,
            symbol: self.symbol,
            quantity: self.quantity,
            source: self.source,
            source_reference: self.source_reference,
        }
    }
}

impl Clone for Unit {
    fn clone(&self) -> (r: Self)
        ensures
            r@ == self@,
    {
        Unit {
            description: self.description.clone(),
            symbol: self.symbol.clone(),
            quantity: self.quantity.clone(),
            source: self.source.clone(),
            source_reference: self.source_reference.clone(),
        }
    }
}

/// What a read gives of file properties is equal to what is stored: a
/// clone of a file object has the same value.
pub proof fn lemma_cloned_file_object(a: FileObject, b: FileObject)
    requires
        cloned::<FileObject>(a, b),
    ensures
        b@ == a@,
{
}

/// What a read gives of time series properties is equal to what is
/// stored: a clone of a time series object has the same value.
pub proof fn lemma_cloned_timeseries(a: Timeseries, b: Timeseries)
    requires
        cloned::<Timeseries>(a, b),
    ensures
        b@ == a@,
{
}

/// What a read gives of unit properties is equal to what is stored: a
/// clone of a unit object has the same value.
pub proof fn lemma_cloned_unit(a: Unit, b: Unit)
    requires
        cloned::<Unit>(a, b),
    ensures
        b@ == a@,
{
}

/// A node of a core data model type: its ID, its lifecycle, the view it is
/// written through (the type's own view when absent) and its properties.
pub struct CogniteExtendable<TProperties> {
    /// The view the instance belongs to; the type's own view when absent.
    pub view: Option<ViewReference>,
    /// Id of the instance.
    pub id: InstanceId,
    /// An audit of the lifecycle of the instance
    pub audit: CogniteAuditable,
    /// Properties of this type.
    pub properties: TProperties,
}

impl<TProperties> CogniteExtendable<TProperties> {
    /// A new node in `space` with `external_id` and the given properties,
    /// written through the type's own view.
    pub fn new(space: String, external_id: String, properties: TProperties) -> (r: Self)
        ensures
            r.id == (InstanceId { space, external_id }),
            r.view.is_none(),
            r.audit == (CogniteAuditable { last_updated_time: 0, created_time: 0, deleted_time: None }),
            r.properties == properties,
    {
        CogniteExtendable {
            id: InstanceId { space, external_id },
            view: None,
            properties,
            audit: CogniteAuditable::default(),
        }
    }
}

/// A file node.
pub type CogniteExtractorFile = CogniteExtendable<FileObject>;

/// A time series node.
pub type CogniteTimeseries = CogniteExtendable<Timeseries>;

/// A unit of measurement node.
pub type CogniteUnit = CogniteExtendable<Unit>;

/// Types with a view of their own, which they are written through by default.
pub trait WithView {
    /// The space of the type's own view.
    spec fn own_space() -> Seq<char>;

    /// The external ID of the type's own view.
    spec fn own_external_id() -> Seq<char>;

    /// The version of the type's own view.
    spec fn own_version() -> Seq<char>;

    /// The type's own view.
    fn default_view() -> (r: ViewReference)
        ensures
            r.space@ == Self::own_space(),
            r.external_id@ == Self::own_external_id(),
            r.version@ == Self::own_version(),
    ;
}

fn make_view(space: &str, external_id: &str, version: &str) -> (r: ViewReference)
    ensures
        r.space@ == space@,
        r.external_id@ == external_id@,
        r.version@ == version@,
{
    ViewReference { space: space.to_owned(), external_id: external_id.to_owned(), version: version.to_owned() }
}

impl WithView for CogniteExtendable<FileObject> {
    open spec fn own_space() -> Seq<char> {
        "cdf_extraction_extensions"@
    }

    open spec fn own_external_id() -> Seq<char> {
        "CogniteExtractorFile"@
    }

    open spec fn own_version() -> Seq<char> {
        "v1"@
    }

    fn default_view() -> (r: ViewReference)
        ensures
            r.space@ == "cdf_extraction_extensions"@,
            r.external_id@ == "CogniteExtractorFile"@,
            r.version@ == "v1"@,
    {
        make_view("cdf_extraction_extensions", "CogniteExtractorFile", "v1")
    }
}

impl WithView for CogniteExtendable<Timeseries> {
    open spec fn own_space() -> Seq<char> {
        "cdf_cdm"@
    }

    open spec fn own_external_id() -> Seq<char> {
        "CogniteTimeSeries"@
    }

    open spec fn own_version() -> Seq<char> {
        "v1"@
    }

    fn default_view() -> (r: ViewReference)
        ensures
            r.space@ == "cdf_cdm"@,
            r.external_id@ == "CogniteTimeSeries"@,
            r.version@ == "v1"@,
    {
        make_view("cdf_cdm", "CogniteTimeSeries", "v1")
    }
}

impl WithView for CogniteExtendable<Unit> {
    open spec fn own_space() -> Seq<char> {
        "cdf_cdm"@
    }

    open spec fn own_external_id() -> Seq<char> {
        "CogniteUnit"@
    }

    open spec fn own_version() -> Seq<char> {
        "v1"@
    }

    fn default_view() -> (r: ViewReference)
        ensures
            r.space@ == "cdf_cdm"@,
            r.external_id@ == "CogniteUnit"@,
            r.version@ == "v1"@,
    {
        make_view("cdf_cdm", "CogniteUnit", "v1")
    }
}

/// Types that can be written as a node.
pub trait WithInstance<TProperties> {
    /// Whether `r` is the node that writes `self`.
    spec fn is_instance_of(self, r: NodeOrEdgeCreate<TProperties>) -> bool;

    /// The node that writes this value.
    fn instance(self) -> (r: NodeOrEdgeCreate<TProperties>)
        ensures
            self.is_instance_of(r),
    ;
}

/// Types that can be written as a node through a given view.
pub trait IntoWritable<TProperties>: Sized {
    /// Whether `r` is what writing `self` through `view` gives.
    spec fn is_writable_of(self, view: ViewReference, r: Result<NodeOrEdgeCreate<TProperties>, Error>) -> bool;

    /// The node that writes this value through `view`.
    fn try_into_writable(self, view: ViewReference) -> (r: Result<NodeOrEdgeCreate<TProperties>, Error>)
        ensures
            self.is_writable_of(view, r),
    ;
}

/// Whether `r` is the node that writes `x` through `view`: a node in the
/// instance's space with its external ID, no type and no expected version,
/// holding the properties in one source, `view`.
pub open spec fn is_node_through<T>(x: CogniteExtendable<T>, view: ViewReference, r: NodeOrEdgeCreate<T>) -> bool {
    match r {
        NodeOrEdgeCreate::Node(n) => {
            &&& n.space == x.id.space
            &&& n.external_id == x.id.external_id
            &&& n.existing_version.is_none()
            &&& n.node_type.is_none()
            &&& match n.sources {
                Some(s) => {
                    &&& s@.len() == 1
                    &&& s@[0].properties == x.properties
                    &&& s@[0].source == SourceReference::View(view)
                },
                None => false,
            }
        },
        NodeOrEdgeCreate::Edge(_) => false,
    }
}

impl<T> IntoWritable<T> for CogniteExtendable<T> {
    /// Writing never fails: the node holds the properties under `view`,
    /// whatever view the value itself names.
    open spec fn is_writable_of(self, view: ViewReference, r: Result<NodeOrEdgeCreate<T>, Error>) -> bool {
        r matches Ok(n) && is_node_through(self, view, n)
    }

    fn try_into_writable(self, view: ViewReference) -> (r: Result<NodeOrEdgeCreate<T>, Error>) {
        let mut sources: Vec<EdgeOrNodeData<T>> = Vec::new();
        sources.push(EdgeOrNodeData { source: SourceReference::View(view), properties: self.properties });
        Ok(
            NodeOrEdgeCreate::Node(
                NodeWrite {
                    space: self.id.space,
                    external_id: self.id.external_id,
                    existing_version: None,
                    node_type: None,
                    sources: Some(sources),
                },
            ),
        )
    }
}

/// Types that can be read back from a node.
pub trait FromReadable<TProperties>: Sized {
    /// What reading `value` through `view` gives.
    spec fn read_spec(value: NodeOrEdge<TProperties>, view: Option<&ViewReference>, r: Result<Self, Error>) -> bool;

    /// Read a value from a node, through `view`, or through the type's own
    /// view when `view` is absent.
    fn try_from(value: NodeOrEdge<TProperties>, view: Option<&ViewReference>) -> (r: Result<Self, Error>)
        requires
            instance_properties_wf(value),
        ensures
            Self::read_spec(value, view, r),
    ;

    /// Read a value from a node through the given view.
    fn try_from_readable(value: NodeOrEdge<TProperties>, view: ViewReference) -> (r: Result<Self, Error>)
        requires
            instance_properties_wf(value),
        ensures
            Self::read_spec(value, Some(&view), r),
    {
        Self::try_from(value, Some(&view))
    }
}

/// Whether `v` is the view a node is written through: `view` itself when
/// given, else a view with the type's own space, external ID and version.
pub open spec fn is_write_view<T>(view: Option<ViewReference>, v: ViewReference) -> bool
    where CogniteExtendable<T>: WithView
{
    match view {
        Some(x) => v == x,
        None => {
            &&& v.space@ == <CogniteExtendable<T> as WithView>::own_space()
            &&& v.external_id@ == <CogniteExtendable<T> as WithView>::own_external_id()
            &&& v.version@ == <CogniteExtendable<T> as WithView>::own_version()
        },
    }
}

/// Whether `r` is the node that writes `x`: a node in the instance's space
/// with its external ID, no type and no expected version, holding the
/// properties in one source, the view it is written through.
pub open spec fn is_node_of<T>(x: CogniteExtendable<T>, r: NodeOrEdgeCreate<T>) -> bool
    where CogniteExtendable<T>: WithView
{
    match r {
        NodeOrEdgeCreate::Node(n) => {
            &&& n.space == x.id.space
            &&& n.external_id == x.id.external_id
            &&& n.existing_version.is_none()
            &&& n.node_type.is_none()
            &&& match n.sources {
                Some(s) => {
                    &&& s@.len() == 1
                    &&& s@[0].properties == x.properties
                    &&& match s@[0].source {
                        SourceReference::View(v) => is_write_view::<T>(x.view, v),
                        SourceReference::Container(_) => false,
                    }
                },
                None => false,
            }
        },
        NodeOrEdgeCreate::Edge(_) => false,
    }
}

impl<T> WithInstance<T> for CogniteExtendable<T> where CogniteExtendable<T>: WithView {
    open spec fn is_instance_of(self, r: NodeOrEdgeCreate<T>) -> bool {
        is_node_of(self, r)
    }

    fn instance(self) -> (r: NodeOrEdgeCreate<T>)
        ensures
            r matches NodeOrEdgeCreate::Node(n) && n.space == self.id.space && n.external_id
                == self.id.external_id && n.existing_version.is_none() && n.node_type.is_none(),
    {
        let view = match self.view {
            Some(v) => v,
            None => Self::default_view(),
        };
        let mut sources: Vec<EdgeOrNodeData<T>> = Vec::new();
        sources.push(EdgeOrNodeData { source: SourceReference::View(view), properties: self.properties });
        NodeOrEdgeCreate::Node(
            NodeWrite {
                space: self.id.space,
                external_id: self.id.external_id,
                existing_version: None,
                node_type: None,
                sources: Some(sources),
            },
        )
    }
}

/// Whether `r` is an error whose message is `message`.
pub open spec fn is_other_error<X>(r: Result<X, Error>, message: Seq<char>) -> bool {
    match r {
        Err(Error::Other(m)) => m@ == message,
        _ => false,
    }
}

/// The space a node is read through: that of `view`, or the type's own.
pub open spec fn read_space<T>(view: Option<&ViewReference>) -> Seq<char>
    where CogniteExtendable<T>: WithView
{
    match view {
        Some(v) => v.space@,
        None => <CogniteExtendable<T> as WithView>::own_space(),
    }
}

/// The key a node is read under: that of `view`, or that of the type's own view.
pub open spec fn read_key<T>(view: Option<&ViewReference>) -> Seq<char>
    where CogniteExtendable<T>: WithView
{
    match view {
        Some(v) => view_key(*v),
        None => <CogniteExtendable<T> as WithView>::own_external_id() + "/"@
            + <CogniteExtendable<T> as WithView>::own_version(),
    }
}

/// Whether `x` is what a node `n` gives when read with the properties `p`
/// through `view`: the node's ID and timestamps, the given view, and a copy
/// of the properties.
pub open spec fn is_read_node<T: Clone>(
    n: NodeDefinition<T>,
    view: Option<&ViewReference>,
    p: T,
    x: CogniteExtendable<T>,
) -> bool {
    &&& x.view == match view {
        Some(v) => Some(*v),
        None => None,
    }
    &&& x.id == (InstanceId { space: n.space, external_id: n.external_id })
    &&& x.audit == (CogniteAuditable {
        created_time: n.created_time,
        last_updated_time: n.last_updated_time,
        deleted_time: n.deleted_time,
    })
    &&& cloned::<T>(p, x.properties)
}

impl<T: Clone> FromReadable<T> for CogniteExtendable<T> where CogniteExtendable<T>: WithView {
    /// A node is read through the given view, or the type's own view: the
    /// properties stored for that view, with the node's ID and timestamps.
    /// A node without properties, or without properties for that view, is
    /// refused with `Invalid properties`; an edge with `Invalid type`.
    open spec fn read_spec(value: NodeOrEdge<T>, view: Option<&ViewReference>, r: Result<Self, Error>) -> bool {
        match value {
            NodeOrEdge::Node(n) => match n.properties {
                None => is_other_error(r, "Invalid properties"@),
                Some(props) => match lookup_by(props@, read_space::<T>(view), read_key::<T>(view)) {
                    Some(p) => match r {
                        Ok(x) => is_read_node(n, view, p, x),
                        Err(_) => false,
                    },
                    None => is_other_error(r, "Invalid properties"@),
                },
            },
            NodeOrEdge::Edge(_) => is_other_error(r, "Invalid type"@),
        }
    }

    fn try_from(value: NodeOrEdge<T>, view: Option<&ViewReference>) -> (r: Result<Self, Error>) {
        match value {
            NodeOrEdge::Node(node_definition) => {
                let ghost n = node_definition;
                match node_definition.properties {
                    None => Err(Error::Other("Invalid properties".to_owned())),
                    Some(properties) => {
                        let read_view = match view {
                            Some(v) => v.clone(),
                            None => Self::default_view(),
                        };
                        assert(view_key(read_view) =~= read_key::<T>(view));
                        match get_instance_properties(&read_view, &properties) {
                            None => Err(Error::Other("Invalid properties".to_owned())),
                            Some(p) => {
                                let own_view = match view {
                                    Some(v) => Some(v.clone()),
                                    None => None,
                                };
                                Ok(CogniteExtendable {
                                    view: own_view,
                                    id: InstanceId {
                                        external_id: node_definition.external_id,
                                        space: node_definition.space,
                                    },
                                    audit: CogniteAuditable {
                                        created_time: node_definition.created_time,
                                        last_updated_time: node_definition.last_updated_time,
                                        deleted_time: node_definition.deleted_time,
                                    },
                                    properties: p.clone(),
                                })
                            },
                        }
                    },
                }
            },
            _ => Err(Error::Other("Invalid type".to_owned())),
        }
    }
}

/// The key under which the properties of a view are stored: `externalId/version`.
pub open spec fn view_key(view: ViewReference) -> Seq<char> {
    view.external_id@ + "/"@ + view.version@
}

/// The properties stored under `key` in `space`.
pub open spec fn lookup_by<T>(props: Seq<(String, Vec<(String, T)>)>, space: Seq<char>, key: Seq<char>) -> Option<T> {
    match lookup(props, space) {
        Some(inner) => lookup(inner@, key),
        None => None,
    }
}

/// The properties that `view` holds in a node's properties: those of the
/// view's key in the view's space.
pub open spec fn instance_properties_of<T>(props: Seq<(String, Vec<(String, T)>)>, view: ViewReference) -> Option<T> {
    lookup_by(props, view.space@, view_key(view))
}


/// The properties that `view` holds in a node's properties (see
/// [`instance_properties_of`]).
pub fn get_instance_properties<'a, T>(view: &ViewReference, properties: &'a Vec<(String, Vec<(String, T)>)>) -> (r:
    Option<&'a T>)
    requires
        nested_distinct_keys(properties@),
    ensures
        match r {
            Some(v) => instance_properties_of(properties@, *view) == Some(*v),
            None => instance_properties_of(properties@, *view).is_none(),
        },
{
    match lookup_entry(properties.as_slice(), view.space.as_str()) {
        Some(inner) => {
            let mut key = String::new();
            push_str(&mut key, view.external_id.as_str());
            push_str(&mut key, "/");
            push_str(&mut key, view.version.as_str());
            assert(key@ =~= view_key(*view));
            lookup_entry(inner.as_slice(), key.as_str())
        },
        None => None,
    }
}

impl From<CogniteExtendable<FileObject>> for NodeOrEdgeCreate<FileObject> {
    /// The node that writes the file.
    fn from(value: CogniteExtendable<FileObject>) -> (r: NodeOrEdgeCreate<FileObject>)
        ensures
            is_node_of(value, r),
    {
        value.instance()
    }
}

impl vstd::std_specs::convert::FromSpecImpl<CogniteExtendable<FileObject>> for NodeOrEdgeCreate<FileObject> {
    /// What `from` gives is stated by its own `ensures` (see [`is_node_of`]):
    /// the view is known by its characters.
    open spec fn obeys_from_spec() -> bool {
        false
    }

    open spec fn from_spec(value: CogniteExtendable<FileObject>) -> NodeOrEdgeCreate<FileObject> {
        vstd::pervasive::arbitrary()
    }
}

impl From<CogniteExtendable<Timeseries>> for NodeOrEdgeCreate<Timeseries> {
    /// The node that writes the time series.
    fn from(value: CogniteExtendable<Timeseries>) -> (r: NodeOrEdgeCreate<Timeseries>)
        ensures
            is_node_of(value, r),
    {
        value.instance()
    }
}

impl vstd::std_specs::convert::FromSpecImpl<CogniteExtendable<Timeseries>> for NodeOrEdgeCreate<Timeseries> {
    /// What `from` gives is stated by its own `ensures` (see [`is_node_of`]):
    /// the view is known by its characters.
    open spec fn obeys_from_spec() -> bool {
        false
    }

    open spec fn from_spec(value: CogniteExtendable<Timeseries>) -> NodeOrEdgeCreate<Timeseries> {
        vstd::pervasive::arbitrary()
    }
}

} // verus!
