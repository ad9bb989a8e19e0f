//! Records in streams: writes, retrieval, sync, sorting and aggregates.
//!
//! A floating-point number is carried as the bits of its `f64`.

use vstd::prelude::*;

use std::collections::HashMap;

use crate::cdf_core::datapoint::TimestampOrRelative;
use crate::filter::AdvancedFilter;
use crate::models::common::{PropertyIdentifier, SortDirection, TaggedContainerReference};

verus! {

/// Matches records with the last updated time within the provided range.
pub struct LastUpdatedTimeFilter {
    /// Greater than or equal to
    pub gte: Option<TimestampOrRelative>,
    /// Greater than
    pub gt: Option<TimestampOrRelative>,
    /// Less than or equal to
    pub lte: Option<TimestampOrRelative>,
    /// Less than
    pub lt: Option<TimestampOrRelative>,
}

/// Data to be written to a record.
pub struct RecordData<TProperties> {
    /// The container of the property.
    pub source: TaggedContainerReference,
    /// The properties to be written.
    pub properties: TProperties,
}

/// Create/update of a record.
pub struct RecordWrite<TProperties> {
    /// The space of the record.
    pub space: String,
    /// The external ID of the record.
    pub external_id: String,
    /// The properties to be written.
    pub sources: Vec<RecordData<TProperties>>,
}

/// A record retrieved from CDF.
pub struct Record<TProperties> {
    /// The space of the record.
    pub space: String,
    /// The external ID of the record.
    pub external_id: String,
    /// The properties of the record, by space and then by container; no
    /// key occurs twice at either level (see
    /// [`nested_distinct_keys`](crate::models::instances::nested_distinct_keys)).
    pub properties: Vec<(String, Vec<(String, TProperties)>)>,
    /// Time this record was created, in milliseconds since epoch.
    pub created_time: i64,
    /// Time this record was last modified, in milliseconds since epoch.
    pub last_updated_time: i64,
}

/// Which properties to retrieve from a container.
pub struct PropertiesPerContainer {
    /// The container to retrieve properties from.
    pub source: TaggedContainerReference,
    /// The properties to retrieve.
    pub properties: Vec<String>,
}

/// Sort on a dynamic property
pub struct RecordsPropertySort {
    /// List of strings representing the property
    pub property: Vec<String>,
    /// Direction to sort.
    pub direction: Option<SortDirection>,
}

impl RecordsPropertySort {
    /// A sort on `property` in the given direction.
    pub fn new<P: PropertyIdentifier>(property: P, direction: SortDirection) -> (r: Self)
        ensures
            r.property.deep_view() == property.identifier_spec(),
            r.direction == Some(direction),
    {
        Self { property: property.into_identifier(), direction: Some(direction) }
    }
}

/// Request to retrieve records from CDF.
pub struct RecordsRetrieveRequest {
    /// The time the record was last updated.
    pub last_updated_time: LastUpdatedTimeFilter,
    /// The filter to apply to the records.
    pub filter: Option<AdvancedFilter>,
    /// The properties to retrieve.
    pub sources: Option<Vec<PropertiesPerContainer>>,
    /// Limit the number of records to retrieve, defaults to 10.
    pub limit: Option<u32>,
    /// Optionally sort the records.
    pub sort: Option<Vec<RecordsPropertySort>>,
}

/// A cursor to send to the records API in a sync request.
pub enum RecordCursor {
    /// A cursor received from a previous request.
    Cursor(String),
    /// Where to start the cursor, such as `3m-ago` or `1h-ago`.
    InitializeCursor(String),
}

/// Request to sync records from CDF.
pub struct RecordsSyncRequest {
    /// The properties to retrieve.
    pub sources: Option<Vec<PropertiesPerContainer>>,
    /// An optional filter to apply to the records.
    pub filter: Option<AdvancedFilter>,
    /// Limit the number of records to retrieve, defaults to 10.
    pub limit: Option<u32>,
    /// When to initialize the cursor
    pub cursor: RecordCursor,
}

/// Part of the records sync response, containing `has_next` and `next_cursor`.
pub struct CursorAndHasNext {
    /// The cursor to use in the next request.
    pub next_cursor: String,
    /// Whether there are more records to retrieve.
    pub has_next: bool,
}

/// The fixed bounds of a histogram.
pub struct Bounds<T> {
    /// Lower bound of the histogram.
    pub min: Option<T>,
    /// Upper bound of the histogram.
    pub max: Option<T>,
}

/// A simple aggregate on a property.
pub struct SimpleAggregate {
    /// Property to aggregate over.
    pub property: Vec<String>,
}

/// An aggregate that returns unique values of a property.
pub struct UniqueValuesAggregate {
    /// Property to aggregate over.
    pub property: Vec<String>,
    /// Nested aggregates, to further group the unique values.
    pub aggregates: Option<HashMap<String, RecordsAggregate>>,
    /// The number of top buckets returned. The default limit is 10 items.
    pub size: Option<u32>,
}

/// A histogram of the numeric values of a property.
pub struct NumberHistogramAggregate {
    /// Property to aggregate over.
    pub property: Vec<String>,
    /// Limits on the range of buckets, as the bits of `f64` values.
    pub hard_bounds: Option<Bounds<u64>>,
    /// The interval between each bucket, as the bits of an `f64`.
    pub interval: u64,
    /// Nested aggregates, to further group the histogram values.
    pub aggregates: Option<HashMap<String, RecordsAggregate>>,
}

/// Calendar interval between each bucket.
#[derive(Clone, Copy, PartialEq, Eq, Structural)]
pub enum CalendarInterval {
    /// 1 year
    Year,
    /// 1 quarter
    Quarter,
    /// 1 month
    Month,
    /// 1 week
    Week,
    /// 1 day
    Day,
    /// 1 hour
    Hour,
    /// 1 minute
    Minute,
    /// 1 second
    Second,
}

/// The interval between each bucket in a time histogram.
pub enum TimeHistogramInterval {
    /// Calendar interval
    CalendarInterval(CalendarInterval),
    /// Fixed interval, as a duration, e.g. 3m, 400h, 25d, etc.
    FixedInterval(String),
}

/// A histogram of the time values of a property, by a calendar or fixed interval.
pub struct TimeHistogramAggregate {
    /// Property to aggregate over.
    pub property: Vec<String>,
    /// The interval between each bucket.
    pub interval: TimeHistogramInterval,
    /// Limits on the range of buckets.
    pub hard_bounds: Option<Bounds<String>>,
    /// Nested aggregates, to further group the histogram values.
    pub aggregates: Option<HashMap<String, RecordsAggregate>>,
}

/// The moving function to use in the moving function aggregate.
pub enum MovingFunction {
    /// The maximum value in the window.
    Max,
    /// The minimum value in the window.
    Min,
    /// The sum of the values in the window.
    Sum,
    /// The unweighted average of the values in the window.
    UnweightedAvg,
    /// The linear weighted average of the values in the window.
    LinearWeightedAvg,
    /// Some other function.
    Other(String),
}

/// A function evaluated on a window sliding over the buckets of a histogram.
pub struct MovingFunctionAggregate {
    /// The path to the buckets to use for the moving function.
    pub buckets_path: String,
    /// The size of window to slide accross the histogram.
    pub window: u32,
    /// The function that should be executed on each window of data.
    pub function: MovingFunction,
}

/// A multi-bucket aggregation: one bucket per filter, with the records it matches.
pub struct FilterAggregate {
    /// List of filters to describe each bucket.
    pub filters: Vec<AdvancedFilter>,
    /// Nested aggregates, to further group the filter values.
    pub aggregates: Option<HashMap<String, RecordsAggregate>>,
}

/// Aggregates on records.
pub enum RecordsAggregate {
    /// Average aggregate.
    Avg(SimpleAggregate),
    /// Count aggregate.
    Count(SimpleAggregate),
    /// Minimum aggregate.
    Min(SimpleAggregate),
    /// Maximum aggregate.
    Max(SimpleAggregate),
    /// Sum aggregate.
    Sum(SimpleAggregate),
    /// Unique values aggregate.
    UniqueValues(UniqueValuesAggregate),
    /// Number histogram aggregate.
    NumberHistogram(NumberHistogramAggregate),
    /// Time histogram aggregate.
    TimeHistogram(TimeHistogramAggregate),
    /// Moving function aggregate.
    MovingFunction(MovingFunctionAggregate),
    /// Filter aggregate.
    Filters(FilterAggregate),
}

impl RecordsAggregate {
    /// An average aggregate on `property`.
    pub fn average<P: PropertyIdentifier>(property: P) -> (r: Self)
        ensures
            r matches RecordsAggregate::Avg(a) && a.property.deep_view() == property.identifier_spec(),
    {
        RecordsAggregate::Avg(SimpleAggregate { property: property.into_identifier() })
    }

    /// A count aggregate on `property`.
    pub fn count<P: PropertyIdentifier>(property: P) -> (r: Self)
        ensures
            r matches RecordsAggregate::Count(a) && a.property.deep_view() == property.identifier_spec(),
    {
        RecordsAggregate::Count(SimpleAggregate { property: property.into_identifier() })
    }

    /// A min aggregate on `property`.
    pub fn min<P: PropertyIdentifier>(property: P) -> (r: Self)
        ensures
            r matches RecordsAggregate::Min(a) && a.property.deep_view() == property.identifier_spec(),
    {
        RecordsAggregate::Min(SimpleAggregate { property: property.into_identifier() })
    }

    /// A max aggregate on `property`.
    pub fn max<P: PropertyIdentifier>(property: P) -> (r: Self)
        ensures
            r matches RecordsAggregate::Max(a) && a.property.deep_view() == property.identifier_spec(),
    {
        RecordsAggregate::Max(SimpleAggregate { property: property.into_identifier() })
    }

    /// A sum aggregate on `property`.
    pub fn sum<P: PropertyIdentifier>(property: P) -> (r: Self)
        ensures
            r matches RecordsAggregate::Sum(a) && a.property.deep_view() == property.identifier_spec(),
    {
        RecordsAggregate::Sum(SimpleAggregate { property: property.into_identifier() })
    }

    /// A unique values aggregate on `property`, with at most `size` values
    /// and the nested `aggregates`.
    pub fn unique_values<P: PropertyIdentifier>(
        property: P,
        size: Option<u32>,
        aggregates: Option<HashMap<String, RecordsAggregate>>,
    ) -> (r: Self)
        ensures
            r matches RecordsAggregate::UniqueValues(a) && a.property.deep_view() == property.identifier_spec()
                && a.size == size && a.aggregates == aggregates,
    {
        RecordsAggregate::UniqueValues(
            UniqueValuesAggregate { property: property.into_identifier(), size, aggregates },
        )
    }

    /// A number histogram on `property` with the given interval, bounds and
    /// nested aggregates.
    pub fn number_histogram<P: PropertyIdentifier>(
        property: P,
        interval: u64,
        hard_bounds: Option<Bounds<u64>>,
        aggregates: Option<HashMap<String, RecordsAggregate>>,
    ) -> (r: Self)
        ensures
            r matches RecordsAggregate::NumberHistogram(a) && a.property.deep_view()
                == property.identifier_spec() && a.interval == interval && a.hard_bounds == hard_bounds
                && a.aggregates == aggregates,
    {
        RecordsAggregate::NumberHistogram(
            NumberHistogramAggregate { property: property.into_identifier(), hard_bounds, interval, aggregates },
        )
    }

    /// A time histogram on `property` with the given interval, bounds and
    /// nested aggregates.
    pub fn time_histogram<P: PropertyIdentifier>(
        property: P,
        interval: TimeHistogramInterval,
        hard_bounds: Option<Bounds<String>>,
        aggregates: Option<HashMap<String, RecordsAggregate>>,
    ) -> (r: Self)
        ensures
            r matches RecordsAggregate::TimeHistogram(a) && a.property.deep_view()
                == property.identifier_spec() && a.interval == interval && a.hard_bounds == hard_bounds
                && a.aggregates == aggregates,
    {
        RecordsAggregate::TimeHistogram(
            TimeHistogramAggregate { property: property.into_identifier(), interval, hard_bounds, aggregates },
        )
    }

    /// A moving function over the buckets at `buckets_path`, on windows of
    /// `window` buckets.
    pub fn moving_function(buckets_path: String, window: u32, function: MovingFunction) -> (r: Self)
        ensures
            r == RecordsAggregate::MovingFunction(MovingFunctionAggregate { buckets_path, window, function }),
    {
        RecordsAggregate::MovingFunction(MovingFunctionAggregate { buckets_path, window, function })
    }

    /// A filter aggregate: one bucket per filter, with nested aggregates.
    pub fn filters(filters: Vec<AdvancedFilter>, aggregates: Option<HashMap<String, RecordsAggregate>>) -> (r:
        Self)
        ensures
            r == RecordsAggregate::Filters(FilterAggregate { filters, aggregates }),
    {
        RecordsAggregate::Filters(FilterAggregate { filters, aggregates })
    }
}

/// Request for aggregates on records.
pub struct RecordsAggregateRequest {
    /// Matches records with the last updated time within the provided range.
    pub last_updated_time: LastUpdatedTimeFilter,
    /// A custom filter to apply to the records to include in the aggregate result.
    pub filter: Option<AdvancedFilter>,
    /// The requested aggregates, by names of the caller's choosing.
    pub aggregates: HashMap<String, RecordsAggregate>,
}

/// The value of a multivalued aggregate.
pub enum AggregateValue {
    /// A string value
    String(String),
    /// An integer value
    Integer(i64),
    /// A float value, as the bits of an `f64`.
    Number(u64),
    /// A boolean value
    Boolean(bool),
}

impl From<String> for AggregateValue {
    fn from(value: String) -> (r: Self) {
        AggregateValue::String(value)
    }
}

impl vstd::std_specs::convert::FromSpecImpl<String> for AggregateValue {
    open spec fn obeys_from_spec() -> bool {
        true
    }

    open spec fn from_spec(value: String) -> AggregateValue {
        AggregateValue::String(value)
    }
}

impl From<i64> for AggregateValue {
    fn from(value: i64) -> (r: Self) {
        AggregateValue::Integer(value)
    }
}

impl vstd::std_specs::convert::FromSpecImpl<i64> for AggregateValue {
    open spec fn obeys_from_spec() -> bool {
        true
    }

    open spec fn from_spec(value: i64) -> AggregateValue {
        AggregateValue::Integer(value)
    }
}

impl From<bool> for AggregateValue {
    fn from(value: bool) -> (r: Self) {
        AggregateValue::Boolean(value)
    }
}

impl vstd::std_specs::convert::FromSpecImpl<bool> for AggregateValue {
    open spec fn obeys_from_spec() -> bool {
        true
    }

    open spec fn from_spec(value: bool) -> AggregateValue {
        AggregateValue::Boolean(value)
    }
}

impl<'a> From<&'a str> for AggregateValue {
    /// A string value with the text of `value`.
    fn from(value: &'a str) -> (r: Self)
        ensures
            r matches AggregateValue::String(s) && s@ == value@,
    {
        AggregateValue::String(value.to_owned())
    }
}

impl<'a> vstd::std_specs::convert::FromSpecImpl<&'a str> for AggregateValue {
    /// What `from` gives is stated in its own `ensures`, by the characters of
    /// the new string.
    open spec fn obeys_from_spec() -> bool {
        false
    }

    open spec fn from_spec(value: &'a str) -> AggregateValue {
        vstd::pervasive::arbitrary()
    }
}

/// A bucket of unique values in an aggregate.
pub struct UniqueValuesBucket {
    /// The number of items with the given value.
    pub count: u64,
    /// The unique value of this bucket.
    pub value: AggregateValue,
    /// The nested aggregates for this bucket.
    pub aggregates: Option<HashMap<String, AggregateResult>>,
}

/// A bucket of a histogram aggregate.
pub struct HistogramBucket<T> {
    /// The number of values in this bucket.
    pub count: u64,
    /// The lower bound of this bucket.
    pub interval_start: T,
    /// The nested aggregates for this bucket.
    pub aggregates: Option<HashMap<String, AggregateResult>>,
}

/// A bucket of a filter aggregate.
pub struct FilterBucket {
    /// The number of values in this bucket.
    pub count: u64,
    /// The nested aggregates for this bucket.
    pub aggregates: Option<HashMap<String, AggregateResult>>,
}

/// The buckets of an aggregate.
pub enum AggregateBuckets {
    /// Buckets of unique values.
    UniqueValues(Vec<UniqueValuesBucket>),
    /// Buckets of a number histogram; each lower bound is the bits of an `f64`.
    NumberHistogram(Vec<HistogramBucket<u64>>),
    /// Buckets of a time histogram.
    TimeHistogram(Vec<HistogramBucket<String>>),
    /// Buckets of a filter aggregate.
    Filter(Vec<FilterBucket>),
}

/// The result of an aggregate; a float is held as the bits of an `f64`.
pub enum AggregateResult {
    /// An average aggregate.
    Avg(u64),
    /// A count aggregate.
    Count(u64),
    /// A minimum aggregate.
    Min(u64),
    /// A maximum aggregate.
    Max(u64),
    /// A sum aggregate.
    Sum(u64),
    /// Buckets of a unique values or histogram aggregate.
    Buckets(AggregateBuckets),
    /// A moving function aggregate.
    MovingFunction(u64),
}

/// The result of a request for aggregates.
pub struct RecordsAggregateResult {
    /// Retrieved aggregates, by names of the caller's choosing.
    pub aggregates: HashMap<String, AggregateResult>,
}

} // verus!
