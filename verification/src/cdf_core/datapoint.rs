//! Datapoints: queries, the wire messages of the datapoints protocol, and
//! the conversions between those messages and the response types.
//!
//! A floating-point value is carried as the bits of its `f64` (what
//! `f64::to_bits` gives): it is moved from one message to another, and
//! the values that a JSON number cannot hold are read from and written as
//! text.

use vstd::prelude::*;

use crate::identity::{Identity, IdentityModel, IdentityOrInstance, IdentityOrInstanceModel};
use crate::json::{json_string_literal_value, parse_json_string_literal};
use crate::text::{push_str, str_equal};

verus! {

/// Datapoint aggregates.
#[derive(Clone, Copy, PartialEq, Eq, Structural, Debug)]
pub enum Aggregate {
    /// Average over datpoint values.
    Average,
    /// Maximum datapoint value in the given range.
    Max,
    /// Minimum datapoint value in the given range.
    Min,
    /// Number of datapoints in the given range.
    Count,
    /// Sum of datapoints in the given range.
    Sum,
    /// The interpolated value at the start of each time range.
    Interpolation,
    /// The interpolated value at the start of each time range, treating time series as stepwise.
    StepInterpolation,
    /// The sum of absolute differences between neighboring data points in a period.
    TotalVariation,
    /// The variance of the underlying function when assuming linear or step behavior between data points.
    ContinuousVariance,
    /// The variance of the discrete set of data points, no weighting for density of points in time.
    DiscreteVariance,
}

/// The aggregate whose camel-case name is `name`, if any.
pub open spec fn aggregate_named(name: Seq<char>) -> Option<Aggregate> {
    if name == "average"@ {
        Some(Aggregate::Average)
    } else if name == "max"@ {
        Some(Aggregate::Max)
    } else if name == "min"@ {
        Some(Aggregate::Min)
    } else if name == "count"@ {
        Some(Aggregate::Count)
    } else if name == "sum"@ {
        Some(Aggregate::Sum)
    } else if name == "interpolation"@ {
        Some(Aggregate::Interpolation)
    } else if name == "stepInterpolation"@ {
        Some(Aggregate::StepInterpolation)
    } else if name == "totalVariation"@ {
        Some(Aggregate::TotalVariation)
    } else if name == "continuousVariance"@ {
        Some(Aggregate::ContinuousVariance)
    } else if name == "discreteVariance"@ {
        Some(Aggregate::DiscreteVariance)
    } else {
        None
    }
}

/// Each aggregate is read from its own camel-case name.
pub proof fn lemma_aggregate_names()
    ensures
        aggregate_named("average"@) == Some(Aggregate::Average),
        aggregate_named("max"@) == Some(Aggregate::Max),
        aggregate_named("min"@) == Some(Aggregate::Min),
        aggregate_named("count"@) == Some(Aggregate::Count),
        aggregate_named("sum"@) == Some(Aggregate::Sum),
        aggregate_named("interpolation"@) == Some(Aggregate::Interpolation),
        aggregate_named("stepInterpolation"@) == Some(Aggregate::StepInterpolation),
        aggregate_named("totalVariation"@) == Some(Aggregate::TotalVariation),
        aggregate_named("continuousVariance"@) == Some(Aggregate::ContinuousVariance),
        aggregate_named("discreteVariance"@) == Some(Aggregate::DiscreteVariance),
{
    reveal_strlit("average");
    reveal_strlit("max");
    reveal_strlit("min");
    reveal_strlit("count");
    reveal_strlit("sum");
    reveal_strlit("interpolation");
    reveal_strlit("stepInterpolation");
    reveal_strlit("totalVariation");
    reveal_strlit("continuousVariance");
    reveal_strlit("discreteVariance");
    assert("average"@.len() == 7);
    assert("max"@.len() == 3);
    assert("min"@.len() == 3);
    assert("count"@.len() == 5);
    assert("sum"@.len() == 3);
    assert("interpolation"@.len() == 13);
    assert("stepInterpolation"@.len() == 17);
    assert("totalVariation"@.len() == 14);
    assert("continuousVariance"@.len() == 18);
    assert("discreteVariance"@.len() == 16);
    assert("max"@[1] != "min"@[1]);
    assert("max"@[0] != "sum"@[0]);
    assert("min"@[0] != "sum"@[0]);
}

impl Aggregate {
    /// The aggregate with the camel-case name `name` (such as `average` or
    /// `stepInterpolation`), or `None` for any other text.
    pub fn from_name(name: &str) -> (r: Option<Aggregate>)
        ensures
            r == aggregate_named(name@),
    {
        if str_equal(name, "average") {
            Some(Aggregate::Average)
        } else if str_equal(name, "max") {
            Some(Aggregate::Max)
        } else if str_equal(name, "min") {
            Some(Aggregate::Min)
        } else if str_equal(name, "count") {
            Some(Aggregate::Count)
        } else if str_equal(name, "sum") {
            Some(Aggregate::Sum)
        } else if str_equal(name, "interpolation") {
            Some(Aggregate::Interpolation)
        } else if str_equal(name, "stepInterpolation") {
            Some(Aggregate::StepInterpolation)
        } else if str_equal(name, "totalVariation") {
            Some(Aggregate::TotalVariation)
        } else if str_equal(name, "continuousVariance") {
            Some(Aggregate::ContinuousVariance)
        } else if str_equal(name, "discreteVariance") {
            Some(Aggregate::DiscreteVariance)
        } else {
            None
        }
    }

    /// The aggregate that the JSON text `val` names: a JSON string literal
    /// holding one of the camel-case names, such as `"average"` with its
    /// quotes. `None` where the text is not such a literal.
    pub fn from_json(val: &str) -> (r: Option<Aggregate>)
        ensures
            r == match json_string_literal_value(val@) {
                Some(name) => aggregate_named(name),
                None => None,
            },
    {
        match parse_json_string_literal(val) {
            Some(name) => Aggregate::from_name(name.as_str()),
            None => None,
        }
    }
}

/// Either a timestamp in milliseconds since epoch, or a relative time such
/// as `2d-ago`.
pub enum TimestampOrRelative {
    /// Timestamp in milliseconds since epoch.
    Timestamp(i64),
    /// Relative timestamp, `now` or `N[timeunit]-ago` where timeunit is `w,d,h,m,s`.
    Relative(String),
}

impl From<&str> for TimestampOrRelative {
    /// A relative time with the text of `value`.
    fn from(value: &str) -> (r: Self)
        ensures
            r matches TimestampOrRelative::Relative(s) && s@ == value@,
    {
        Self::Relative(value.to_owned())
    }
}

impl vstd::std_specs::convert::FromSpecImpl<&str> for TimestampOrRelative {
    /// What `from` gives is stated in its own `ensures`, by the characters of
    /// the new string, since a `String` has no value in specifications
    /// beyond its characters.
    open spec fn obeys_from_spec() -> bool {
        false
    }

    open spec fn from_spec(v: &str) -> TimestampOrRelative {
        vstd::pervasive::arbitrary()
    }
}

impl From<i64> for TimestampOrRelative {
    fn from(value: i64) -> (r: Self) {
        Self::Timestamp(value)
    }
}

impl vstd::std_specs::convert::FromSpecImpl<i64> for TimestampOrRelative {
    open spec fn obeys_from_spec() -> bool {
        true
    }

    open spec fn from_spec(v: i64) -> TimestampOrRelative {
        TimestampOrRelative::Timestamp(v)
    }
}

/// Filter on datapoints
pub struct DatapointsFilter {
    /// List of timeseries to query.
    pub items: Vec<DatapointsQuery>,
    /// Get datapoints from, and including, this time.
    pub start: Option<TimestampOrRelative>,
    /// Get datapoints up to, but excluding, this point in time.
    pub end: Option<TimestampOrRelative>,
    /// Returns up to this number of data points.
    pub limit: Option<u32>,
    /// Specify the aggregates to return.
    pub aggregates: Option<Vec<Aggregate>>,
    /// The time granularity size and unit to aggregate over.
    pub granularity: Option<String>,
    /// Whether to include the last data points before the requsted time period and the first
    /// one after.
    pub include_outside_points: Option<bool>,
    /// Ignore IDs and external IDs that are not found
    pub ignore_unknown_ids: Option<bool>,
}

/// Query for the datapoints of one time series.
pub struct DatapointsQuery {
    /// ID or external ID of time series to retrieve data from.
    pub id: Identity,
    /// Get datapoints from, and including, this time.
    pub start: Option<TimestampOrRelative>,
    /// Get datapoints up to, but excluding, this point in time.
    pub end: Option<TimestampOrRelative>,
    /// Returns up to this number of data points.
    pub limit: Option<u32>,
    /// Specify the aggregates to return.
    pub aggregates: Option<Vec<String>>,
    /// The time granularity size and unit to aggregate over.
    pub granularity: Option<String>,
    /// Whether to include the last data points before the requsted time period and the first
    /// one after.
    pub include_outside_points: Option<bool>,
}

impl Default for DatapointsQuery {
    /// A query on internal ID 0 with every option unset.
    fn default() -> (r: Self)
        ensures
            r.id@ == IdentityModel::Id(0),
            r.start.is_none(),
            r.end.is_none(),
            r.limit.is_none(),
            r.aggregates.is_none(),
            r.granularity.is_none(),
            r.include_outside_points.is_none(),
    {
        Self {
            id: Identity::Id { id: 0 },
            start: None,
            end: None,
            limit: None,
            aggregates: None,
            granularity: None,
            include_outside_points: None,
        }
    }
}

/// Query for retrieving the latest datapoint in a time series.
pub struct LatestDatapointsQuery {
    /// Get data points before this time.
    pub before: String,
    /// ID or external ID of time series to retrieve data from.
    pub id: Identity,
}

impl LatestDatapointsQuery {
    /// A query for the latest datapoint of `time_serie_id` before `before`.
    pub fn new(time_serie_id: Identity, before: &str) -> (r: LatestDatapointsQuery)
        ensures
            r.id == time_serie_id,
            r.before@ == before@,
    {
        LatestDatapointsQuery { id: time_serie_id, before: before.to_owned() }
    }
}

/// Request for deleting a range of datapoints in a time series.
pub struct DeleteDatapointsQuery {
    /// Inclusive start time, in milliseconds since epoch.
    pub inclusive_begin: i64,
    /// Exclusive end time, in milliseconds since epoch.
    pub exclusive_end: i64,
    /// ID or external ID of time series to retrieve data from.
    pub id: Identity,
}

impl DeleteDatapointsQuery {
    /// A query deleting the datapoints of `id` from `inclusive_begin` up to
    /// but excluding `exclusive_end`.
    pub fn new(id: Identity, inclusive_begin: i64, exclusive_end: i64) -> (r: DeleteDatapointsQuery)
        ensures
            r == (DeleteDatapointsQuery { id, inclusive_begin, exclusive_end }),
    {
        DeleteDatapointsQuery { id, inclusive_begin, exclusive_end }
    }
}

/// The status of a datapoint as the datapoints protocol carries it: a
/// numeric code, or a symbol, or neither for a good value.
#[derive(Debug, Clone, PartialEq, Eq)]
pub struct Status {
    /// Numeric status code; 0 when the symbol is used.
    pub code: i64,
    /// Status symbol; empty when the code is used.
    pub symbol: String,
}

/// A datapoint with a floating-point value.
#[derive(Debug, Clone)]
pub struct DatapointDouble {
    /// Timestamp in milliseconds since epoch.
    pub timestamp: i64,
    /// Datapoint value, as the bits of an `f64`; `None` for a null value.
    pub value: Option<u64>,
    /// Datapoint status, as the datapoints protocol carries it (a code, or
    /// a symbol, or neither for a good value). It is carried through
    /// unchanged: it is not turned into a status code, whose table of codes
    /// and symbols this library does not have.
    pub status: Option<Status>,
}

/// A datapoint with string value.
#[derive(Debug, Clone)]
pub struct DatapointString {
    /// Timestamp in milliseconds since epoch.
    pub timestamp: i64,
    /// Datapoint value; `None` for a null value.
    pub value: Option<String>,
    /// Datapoint status, as the datapoints protocol carries it (a code, or
    /// a symbol, or neither for a good value). It is carried through
    /// unchanged: it is not turned into a status code, whose table of codes
    /// and symbols this library does not have.
    pub status: Option<Status>,
}

/// An aggregate data point; each aggregate is held as the bits of an `f64`.
#[derive(Debug, Clone, Copy, PartialEq, Eq, Structural)]
pub struct DatapointAggregate {
    /// Timestamp in milliseconds since epoch.
    pub timestamp: i64,
    /// Average of values in aggregate.
    pub average: u64,
    /// Max value in aggregate.
    pub max: u64,
    /// Min value in aggregate.
    pub min: u64,
    /// Number of values in aggregate.
    pub count: u64,
    /// Sum of values in aggregate.
    pub sum: u64,
    /// Interpolated value.
    pub interpolation: u64,
    /// Step-interpolated value.
    pub step_interpolation: u64,
    /// The variance of the underlying function when assuming linear or step behavior between data points.
    pub continuous_variance: u64,
    /// The variance of the discrete set of data points.
    pub discrete_variance: u64,
    /// The sum of absolute differences between neighboring data points in a period.
    pub total_variation: u64,
    /// The number of data points in the period with a Good status code.
    pub count_good: u64,
    /// The number of data points in the period with an Uncertain status code.
    pub count_uncertain: u64,
    /// The number of data points in the period with a Bad status code.
    pub count_bad: u64,
    /// The duration, in milliseconds, the aggregate is defined and good.
    pub duration_good: u64,
    /// The duration, in milliseconds, the aggregate is defined and uncertain.
    pub duration_uncertain: u64,
    /// The duration, in milliseconds, the aggregate is defined but bad.
    pub duration_bad: u64,
}

/// Enumeration over different types of retrieved data points.
#[derive(Debug, Clone)]
pub enum DatapointsEnumType {
    /// Datapoints with floating-point values.
    NumericDatapoints(Vec<DatapointDouble>),
    /// Datapoints with string values.
    StringDatapoints(Vec<DatapointString>),
    /// Aggregate datapoints.
    AggregateDatapoints(Vec<DatapointAggregate>),
}

impl From<Vec<DatapointDouble>> for DatapointsEnumType {
    fn from(value: Vec<DatapointDouble>) -> (r: Self) {
        Self::NumericDatapoints(value)
    }
}

impl vstd::std_specs::convert::FromSpecImpl<Vec<DatapointDouble>> for DatapointsEnumType {
    open spec fn obeys_from_spec() -> bool {
        true
    }

    open spec fn from_spec(value: Vec<DatapointDouble>) -> DatapointsEnumType {
        DatapointsEnumType::NumericDatapoints(value)
    }
}

impl From<Vec<DatapointString>> for DatapointsEnumType {
    fn from(value: Vec<DatapointString>) -> (r: Self) {
        Self::StringDatapoints(value)
    }
}

impl vstd::std_specs::convert::FromSpecImpl<Vec<DatapointString>> for DatapointsEnumType {
    open spec fn obeys_from_spec() -> bool {
        true
    }

    open spec fn from_spec(value: Vec<DatapointString>) -> DatapointsEnumType {
        DatapointsEnumType::StringDatapoints(value)
    }
}

impl From<Vec<DatapointAggregate>> for DatapointsEnumType {
    fn from(value: Vec<DatapointAggregate>) -> (r: Self) {
        Self::AggregateDatapoints(value)
    }
}

impl vstd::std_specs::convert::FromSpecImpl<Vec<DatapointAggregate>> for DatapointsEnumType {
    open spec fn obeys_from_spec() -> bool {
        true
    }

    open spec fn from_spec(value: Vec<DatapointAggregate>) -> DatapointsEnumType {
        DatapointsEnumType::AggregateDatapoints(value)
    }
}

impl DatapointsEnumType {
    /// The datapoints, when they are numeric.
    pub fn numeric(self) -> (r: Option<Vec<DatapointDouble>>)
        ensures
            match self {
                DatapointsEnumType::NumericDatapoints(x) => r == Some(x),
                _ => r.is_none(),
            },
    {
        match self {
            Self::NumericDatapoints(x) => Some(x),
            _ => None,
        }
    }

    /// The datapoints, when they are strings.
    pub fn string(self) -> (r: Option<Vec<DatapointString>>)
        ensures
            match self {
                DatapointsEnumType::StringDatapoints(x) => r == Some(x),
                _ => r.is_none(),
            },
    {
        match self {
            Self::StringDatapoints(x) => Some(x),
            _ => None,
        }
    }

    /// The datapoints, when they are aggregates.
    pub fn aggregate(self) -> (r: Option<Vec<DatapointAggregate>>)
        ensures
            match self {
                DatapointsEnumType::AggregateDatapoints(x) => r == Some(x),
                _ => r.is_none(),
            },
    {
        match self {
            Self::AggregateDatapoints(x) => Some(x),
            _ => None,
        }
    }
}

/// The bits of `f64::INFINITY`.
pub const INFINITY_BITS: u64 = 0x7ff0_0000_0000_0000u64;

/// The bits of `f64::NEG_INFINITY`.
pub const NEG_INFINITY_BITS: u64 = 0xfff0_0000_0000_0000u64;

/// The bits of `f64::NAN`.
pub const NAN_BITS: u64 = 0x7ff8_0000_0000_0000u64;

/// The exponent bits of an `f64`.
pub const EXPONENT_MASK: u64 = 0x7ff0_0000_0000_0000u64;

/// The fraction bits of an `f64`.
pub const FRACTION_MASK: u64 = 0x000f_ffff_ffff_ffffu64;

/// Whether the `f64` with these bits is a NaN: all exponent bits set and a
/// fraction other than zero.
pub open spec fn is_nan_bits(bits: u64) -> bool {
    (bits & EXPONENT_MASK) == EXPONENT_MASK && (bits & FRACTION_MASK) != 0
}

/// The double that the text `v` stands for where a JSON number cannot
/// hold it: `Infinity`, `-Infinity` or `NaN`.
pub open spec fn special_double(v: Seq<char>) -> Option<u64> {
    if v == "Infinity"@ {
        Some(INFINITY_BITS)
    } else if v == "-Infinity"@ {
        Some(NEG_INFINITY_BITS)
    } else if v == "NaN"@ {
        Some(NAN_BITS)
    } else {
        None
    }
}

/// Read a double given as text, the form in which the API sends the values
/// that a JSON number cannot hold. Any other text is refused with a message
/// that quotes it.
pub fn double_from_text(v: &str) -> (r: Result<u64, String>)
    ensures
        match special_double(v@) {
            Some(b) => r == Ok::<u64, String>(b),
            None => r matches Err(m) && m@ == "Failed to parse double value from string. Got "@ + v@
                + " expected Infinity, -Infinity, or NaN"@,
        },
{
    if str_equal(v, "Infinity") {
        Ok(INFINITY_BITS)
    } else if str_equal(v, "-Infinity") {
        Ok(NEG_INFINITY_BITS)
    } else if str_equal(v, "NaN") {
        Ok(NAN_BITS)
    } else {
        let mut m = "Failed to parse double value from string. Got ".to_owned();
        push_str(&mut m, v);
        push_str(&mut m, " expected Infinity, -Infinity, or NaN");
        Err(m)
    }
}

/// The text that stands for a double that a JSON number cannot hold.
pub open spec fn special_double_text(bits: u64) -> Option<Seq<char>> {
    if is_nan_bits(bits) {
        Some("NaN"@)
    } else if bits == INFINITY_BITS {
        Some("Infinity"@)
    } else if bits == NEG_INFINITY_BITS {
        Some("-Infinity"@)
    } else {
        None
    }
}

/// The text a double is written as when a JSON number cannot hold it: any
/// NaN is `NaN`, the infinities `Infinity` and `-Infinity`; `None` for a
/// double that is written as a number.
pub fn double_text(bits: u64) -> (r: Option<String>)
    ensures
        match special_double_text(bits) {
            Some(t) => r matches Some(s) && s@ == t,
            None => r.is_none(),
        },
{
    if (bits & EXPONENT_MASK) == EXPONENT_MASK && (bits & FRACTION_MASK) != 0 {
        Some("NaN".to_owned())
    } else if bits == INFINITY_BITS {
        Some("Infinity".to_owned())
    } else if bits == NEG_INFINITY_BITS {
        Some("-Infinity".to_owned())
    } else {
        None
    }
}

/// Positive infinity is written `Infinity`, negative infinity `-Infinity`
/// and a NaN `NaN`, and each of these texts reads back as that double.
pub proof fn lemma_special_double_names()
    ensures
        special_double_text(INFINITY_BITS) == Some("Infinity"@),
        special_double_text(NEG_INFINITY_BITS) == Some("-Infinity"@),
        special_double_text(NAN_BITS) == Some("NaN"@),
        special_double("Infinity"@) == Some(INFINITY_BITS),
        special_double("-Infinity"@) == Some(NEG_INFINITY_BITS),
        special_double("NaN"@) == Some(NAN_BITS),
{
    reveal_strlit("NaN");
    reveal_strlit("Infinity");
    reveal_strlit("-Infinity");
    assert(!is_nan_bits(INFINITY_BITS)) by (bit_vector);
    assert(!is_nan_bits(NEG_INFINITY_BITS)) by (bit_vector);
    assert(is_nan_bits(NAN_BITS)) by (bit_vector);
    assert("NaN"@.len() == 3 && "Infinity"@.len() == 8 && "-Infinity"@.len() == 9);
}

/// Writing a double that a JSON number cannot hold, then reading the text
/// back, gives the same double; for a NaN, the NaN that reading gives.
pub proof fn lemma_double_text_roundtrip(bits: u64)
    ensures
        special_double_text(bits) matches Some(t) ==> special_double(t) == Some(
            if is_nan_bits(bits) {
                NAN_BITS
            } else {
                bits
            },
        ),
{
    reveal_strlit("NaN");
    reveal_strlit("Infinity");
    reveal_strlit("-Infinity");
    assert(!is_nan_bits(INFINITY_BITS)) by (bit_vector);
    assert(!is_nan_bits(NEG_INFINITY_BITS)) by (bit_vector);
    assert("NaN"@.len() == 3 && "Infinity"@.len() == 8 && "-Infinity"@.len() == 9);
    assert("NaN"@ != "Infinity"@ && "NaN"@ != "-Infinity"@ && "Infinity"@ != "-Infinity"@);
}

/// A numeric datapoint of the datapoints protocol: a null value is flagged,
/// with the value 0.
pub struct NumericDatapoint {
    /// Timestamp in milliseconds since epoch.
    pub timestamp: i64,
    /// Value, as the bits of an `f64`.
    pub value: u64,
    /// Whether the value is null.
    pub null_value: bool,
    /// Datapoint status.
    pub status: Option<Status>,
}

/// A string datapoint of the datapoints protocol: a null value is flagged,
/// with the empty string.
pub struct StringDatapoint {
    /// Timestamp in milliseconds since epoch.
    pub timestamp: i64,
    /// Value.
    pub value: String,
    /// Whether the value is null.
    pub null_value: bool,
    /// Datapoint status.
    pub status: Option<Status>,
}

/// An aggregate datapoint of the datapoints protocol; each aggregate is held
/// as the bits of an `f64`.
#[derive(Clone, Copy, PartialEq, Eq, Structural)]
pub struct AggregateDatapoint {
    /// Timestamp in milliseconds since epoch.
    pub timestamp: i64,
    /// Average.
    pub average: u64,
    /// Maximum.
    pub max: u64,
    /// Minimum.
    pub min: u64,
    /// Count.
    pub count: u64,
    /// Sum.
    pub sum: u64,
    /// Interpolation.
    pub interpolation: u64,
    /// Step interpolation.
    pub step_interpolation: u64,
    /// Continuous variance.
    pub continuous_variance: u64,
    /// Discrete variance.
    pub discrete_variance: u64,
    /// Total variation.
    pub total_variation: u64,
    /// Count of good datapoints.
    pub count_good: u64,
    /// Count of uncertain datapoints.
    pub count_uncertain: u64,
    /// Count of bad datapoints.
    pub count_bad: u64,
    /// Duration good.
    pub duration_good: u64,
    /// Duration uncertain.
    pub duration_uncertain: u64,
    /// Duration bad.
    pub duration_bad: u64,
}

/// A list of numeric datapoints of the datapoints protocol.
pub struct NumericDatapoints {
    /// The datapoints.
    pub datapoints: Vec<NumericDatapoint>,
}

/// A list of string datapoints of the datapoints protocol.
pub struct StringDatapoints {
    /// The datapoints.
    pub datapoints: Vec<StringDatapoint>,
}

/// A list of aggregate datapoints of the datapoints protocol.
pub struct AggregateDatapoints {
    /// The datapoints.
    pub datapoints: Vec<AggregateDatapoint>,
}

/// The datapoints of one time series in a datapoints protocol response.
pub enum ListDatapointType {
    /// Numeric datapoints.
    NumericDatapoints(NumericDatapoints),
    /// String datapoints.
    StringDatapoints(StringDatapoints),
    /// Aggregate datapoints.
    AggregateDatapoints(AggregateDatapoints),
}

/// One time series in a datapoints protocol response. Absent text is the
/// empty string.
pub struct DataPointListItem {
    /// Internal ID.
    pub id: i64,
    /// External ID, empty when there is none.
    pub external_id: String,
    /// Whether the time series holds strings.
    pub is_string: bool,
    /// Whether the time series is stepwise.
    pub is_step: bool,
    /// Unit, empty when there is none.
    pub unit: String,
    /// Cursor to the next page, empty when there is none.
    pub next_cursor: String,
    /// Unit in the unit catalog, empty when there is none.
    pub unit_external_id: String,
    /// The datapoints.
    pub datapoint_type: Option<ListDatapointType>,
}

/// A datapoints protocol response.
pub struct DataPointListResponse {
    /// One item per time series.
    pub items: Vec<DataPointListItem>,
}

/// A data modeling node in the datapoints protocol.
#[derive(Debug, Clone, PartialEq, Eq)]
pub struct InstanceId {
    /// Node space.
    pub space: String,
    /// Node external ID.
    pub external_id: String,
}

/// How a datapoints protocol insertion names its time series.
#[derive(Debug, Clone, PartialEq, Eq)]
pub enum TimeSeriesReference {
    /// Internal ID.
    Id(i64),
    /// External ID.
    ExternalId(String),
    /// Data modeling node.
    InstanceId(InstanceId),
}

/// The datapoints of one insertion in the datapoints protocol.
pub enum InsertDatapointType {
    /// Numeric datapoints.
    NumericDatapoints(NumericDatapoints),
    /// String datapoints.
    StringDatapoints(StringDatapoints),
}

/// The insertion of datapoints into one time series, in the datapoints protocol.
pub struct DataPointInsertionItem {
    /// The time series.
    pub time_series_reference: Option<TimeSeriesReference>,
    /// The datapoints.
    pub datapoint_type: Option<InsertDatapointType>,
}

/// A datapoints protocol insertion request.
pub struct DataPointInsertionRequest {
    /// One item per time series.
    pub items: Vec<DataPointInsertionItem>,
}

/// Response to a request for datapoints.
pub struct DatapointsListResponse {
    /// List of datapoint responses.
    pub items: Vec<DatapointsResponse>,
}

/// Response for a single timeseries when listing datapoints.
pub struct DatapointsResponse {
    /// Time series internal ID.
    pub id: i64,
    /// Time series external ID.
    pub external_id: Option<String>,
    /// Retrieved datapoints.
    pub datapoints: DatapointsEnumType,
    /// The physical unit of the time series (free-text field).
    pub unit: Option<String>,
    /// The physical unit of the time series as represented in the unit catalog.
    pub unit_external_id: Option<String>,
    /// Time series `is_step` property value.
    pub is_step: bool,
    /// Whether this is a string time series.
    pub is_string: bool,
    /// The cursor to get the next page of results, if any.
    pub next_cursor: Option<String>,
}

/// The latest datapoint of a time series.
pub enum LatestDatapoint {
    /// Numeric datapoint.
    Numeric(DatapointDouble),
    /// String datapoint.
    String(DatapointString),
}

impl LatestDatapoint {
    /// The datapoint, when it is numeric.
    pub fn numeric(&self) -> (r: Option<&DatapointDouble>)
        ensures
            match self {
                LatestDatapoint::Numeric(d) => r == Some(d),
                _ => r.is_none(),
            },
    {
        match self {
            Self::Numeric(d) => Some(d),
            _ => None,
        }
    }

    /// The datapoint, when it is a string.
    pub fn string(&self) -> (r: Option<&DatapointString>)
        ensures
            match self {
                LatestDatapoint::String(d) => r == Some(d),
                _ => r.is_none(),
            },
    {
        match self {
            Self::String(d) => Some(d),
            _ => None,
        }
    }
}

/// Response to a request retrieving latest datapoints for a single time series.
pub struct LatestDatapointsResponse {
    /// Time series internal ID.
    pub id: i64,
    /// Time series external ID.
    pub external_id: Option<String>,
    /// The latest datapoint, if there is one.
    pub datapoint: Option<LatestDatapoint>,
    /// The physical unit of the time series (free-text field).
    pub unit: Option<String>,
    /// The physical unit of the time series as represented in the unit catalog.
    pub unit_external_id: Option<String>,
    /// Time series `is_step` property value.
    pub is_step: bool,
    /// Whether this is a string time series.
    pub is_string: bool,
    /// The cursor to get the next page of results, if any.
    pub next_cursor: Option<String>,
}

#[derive(Clone)]
/// Add datapoints to a time series.
pub struct AddDatapoints {
    /// ID, external ID or instance ID of time series to insert into.
    pub id: IdentityOrInstance,
    /// Data points to insert.
    pub datapoints: DatapointsEnumType,
}

impl AddDatapoints {
    /// A batch of datapoints for the time series with internal ID `id`.
    pub fn new(id: i64, datapoints: DatapointsEnumType) -> (r: AddDatapoints)
        ensures
            r.id@ == IdentityOrInstanceModel::Identity(IdentityModel::Id(id)),
            r.datapoints == datapoints,
    {
        AddDatapoints { id: IdentityOrInstance::Identity(Identity::Id { id }), datapoints }
    }

    /// A batch of datapoints for the time series with external ID `external_id`.
    pub fn new_external_id(external_id: &str, datapoints: DatapointsEnumType) -> (r: AddDatapoints)
        ensures
            r.id@ == IdentityOrInstanceModel::Identity(IdentityModel::ExternalId(external_id@)),
            r.datapoints == datapoints,
    {
        AddDatapoints {
            id: IdentityOrInstance::Identity(Identity::ExternalId { external_id: external_id.to_owned() }),
            datapoints,
        }
    }
}

/// The value a protocol value and null flag stand for.
pub open spec fn nullable<T>(value: T, null_value: bool) -> Option<T> {
    if null_value {
        None
    } else {
        Some(value)
    }
}

/// The response form of a protocol numeric datapoint.
pub open spec fn double_of(dp: NumericDatapoint) -> DatapointDouble {
    DatapointDouble { timestamp: dp.timestamp, value: nullable(dp.value, dp.null_value), status: dp.status }
}

/// The protocol form of a numeric datapoint: a null value becomes the
/// flagged value 0, the bits of `0.0`.
pub open spec fn numeric_of(dp: DatapointDouble) -> NumericDatapoint {
    NumericDatapoint {
        timestamp: dp.timestamp,
        value: match dp.value {
            Some(v) => v,
            None => 0,
        },
        null_value: dp.value.is_none(),
        status: dp.status,
    }
}

impl From<NumericDatapoint> for DatapointDouble {
    fn from(dp: NumericDatapoint) -> (r: DatapointDouble)
        ensures
            r.timestamp == dp.timestamp,
            r.value == (if dp.null_value { None } else { Some(dp.value) }),
            r.status == dp.status,
    {
        DatapointDouble {
            timestamp: dp.timestamp,
            value: if dp.null_value {
                None
            } else {
                Some(dp.value)
            },
            status: dp.status,
        }
    }
}

impl vstd::std_specs::convert::FromSpecImpl<NumericDatapoint> for DatapointDouble {
    open spec fn obeys_from_spec() -> bool {
        true
    }

    open spec fn from_spec(dp: NumericDatapoint) -> DatapointDouble {
        double_of(dp)
    }
}

impl From<DatapointDouble> for NumericDatapoint {
    fn from(dp: DatapointDouble) -> (r: NumericDatapoint)
        ensures
            r.timestamp == dp.timestamp,
            r.null_value == dp.value.is_none(),
            r.value == (if dp.value is Some { dp.value->0 } else { 0 }),
            r.status == dp.status,
    {
        let null_value = dp.value.is_none();
        let value = match dp.value {
            Some(v) => v,
            None => 0,
        };
        NumericDatapoint { timestamp: dp.timestamp, null_value, value, status: dp.status }
    }
}

impl vstd::std_specs::convert::FromSpecImpl<DatapointDouble> for NumericDatapoint {
    open spec fn obeys_from_spec() -> bool {
        true
    }

    open spec fn from_spec(dp: DatapointDouble) -> NumericDatapoint {
        numeric_of(dp)
    }
}

/// A numeric datapoint converted to its protocol form and back is
/// unchanged; a protocol datapoint converted to the response form and back
/// is unchanged unless it is null with a value other than 0.
pub proof fn lemma_numeric_datapoint_roundtrip(d: DatapointDouble, n: NumericDatapoint)
    ensures
        double_of(numeric_of(d)) == d,
        !n.null_value || n.value == 0 ==> numeric_of(double_of(n)) == n,
{
}

/// The response form of a protocol string datapoint.
pub open spec fn string_of(dp: StringDatapoint) -> DatapointString {
    DatapointString { timestamp: dp.timestamp, value: nullable(dp.value, dp.null_value), status: dp.status }
}

impl From<StringDatapoint> for DatapointString {
    fn from(dp: StringDatapoint) -> (r: DatapointString)
        ensures
            r.timestamp == dp.timestamp,
            r.value == (if dp.null_value { None } else { Some(dp.value) }),
            r.status == dp.status,
    {
        DatapointString {
            timestamp: dp.timestamp,
            value: if dp.null_value {
                None
            } else {
                Some(dp.value)
            },
            status: dp.status,
        }
    }
}

impl vstd::std_specs::convert::FromSpecImpl<StringDatapoint> for DatapointString {
    open spec fn obeys_from_spec() -> bool {
        true
    }

    open spec fn from_spec(dp: StringDatapoint) -> DatapointString {
        string_of(dp)
    }
}

/// Whether `r` is the protocol form of `dp`: a null value becomes the
/// flagged empty string.
pub open spec fn is_string_datapoint_of(dp: DatapointString, r: StringDatapoint) -> bool {
    &&& r.timestamp == dp.timestamp
    &&& r.null_value == dp.value.is_none()
    &&& r.value@ == match dp.value {
        Some(v) => v@,
        None => Seq::<char>::empty(),
    }
    &&& r.status == dp.status
}

impl From<DatapointString> for StringDatapoint {
    fn from(dp: DatapointString) -> (r: StringDatapoint)
        ensures
            is_string_datapoint_of(dp, r),
            r.timestamp == dp.timestamp,
            r.null_value == dp.value.is_none(),
            dp.value matches Some(v) ==> r.value@ == v@,
            dp.value is None ==> r.value@.len() == 0,
            r.status == dp.status,
    {
        let null_value = dp.value.is_none();
        let value = match dp.value {
            Some(v) => v,
            None => String::new(),
        };
        StringDatapoint { timestamp: dp.timestamp, null_value, value, status: dp.status }
    }
}

impl vstd::std_specs::convert::FromSpecImpl<DatapointString> for StringDatapoint {
    /// What `from` gives is stated in its own `ensures`: a new empty string
    /// has no value in specifications beyond its characters.
    open spec fn obeys_from_spec() -> bool {
        false
    }

    open spec fn from_spec(dp: DatapointString) -> StringDatapoint {
        vstd::pervasive::arbitrary()
    }
}

/// The response form of an aggregate datapoint: every aggregate carried over.
pub open spec fn aggregate_of(dp: AggregateDatapoint) -> DatapointAggregate {
    DatapointAggregate {
        timestamp: dp.timestamp,
        average: dp.average,
        max: dp.max,
        min: dp.min,
        count: dp.count,
        sum: dp.sum,
        interpolation: dp.interpolation,
        step_interpolation: dp.step_interpolation,
        continuous_variance: dp.continuous_variance,
        discrete_variance: dp.discrete_variance,
        total_variation: dp.total_variation,
        count_good: dp.count_good,
        count_uncertain: dp.count_uncertain,
        count_bad: dp.count_bad,
        duration_good: dp.duration_good,
        duration_uncertain: dp.duration_uncertain,
        duration_bad: dp.duration_bad,
    }
}

/// Converting a protocol aggregate datapoint keeps its timestamp and every
/// aggregate in the field of the same name.
pub proof fn lemma_aggregate_fields(dp: AggregateDatapoint)
    ensures
        aggregate_of(dp).timestamp == dp.timestamp,
        aggregate_of(dp).average == dp.average,
        aggregate_of(dp).max == dp.max,
        aggregate_of(dp).min == dp.min,
        aggregate_of(dp).count == dp.count,
        aggregate_of(dp).sum == dp.sum,
        aggregate_of(dp).interpolation == dp.interpolation,
        aggregate_of(dp).step_interpolation == dp.step_interpolation,
        aggregate_of(dp).continuous_variance == dp.continuous_variance,
        aggregate_of(dp).discrete_variance == dp.discrete_variance,
        aggregate_of(dp).total_variation == dp.total_variation,
        aggregate_of(dp).count_good == dp.count_good,
        aggregate_of(dp).count_uncertain == dp.count_uncertain,
        aggregate_of(dp).count_bad == dp.count_bad,
        aggregate_of(dp).duration_good == dp.duration_good,
        aggregate_of(dp).duration_uncertain == dp.duration_uncertain,
        aggregate_of(dp).duration_bad == dp.duration_bad,
{
}

impl From<AggregateDatapoint> for DatapointAggregate {
    fn from(dp: AggregateDatapoint) -> (r: DatapointAggregate)
        ensures
            r.timestamp == dp.timestamp,
            r.average == dp.average,
            r.max == dp.max,
            r.min == dp.min,
            r.count == dp.count,
            r.sum == dp.sum,
            r.interpolation == dp.interpolation,
            r.step_interpolation == dp.step_interpolation,
            r.continuous_variance == dp.continuous_variance,
            r.discrete_variance == dp.discrete_variance,
            r.total_variation == dp.total_variation,
            r.count_good == dp.count_good,
            r.count_uncertain == dp.count_uncertain,
            r.count_bad == dp.count_bad,
            r.duration_good == dp.duration_good,
            r.duration_uncertain == dp.duration_uncertain,
            r.duration_bad == dp.duration_bad,
    {
        DatapointAggregate {
            timestamp: dp.timestamp,
            average: dp.average,
            max: dp.max,
            min: dp.min,
            count: dp.count,
            sum: dp.sum,
            interpolation: dp.interpolation,
            step_interpolation: dp.step_interpolation,
            continuous_variance: dp.continuous_variance,
            discrete_variance: dp.discrete_variance,
            total_variation: dp.total_variation,
            count_good: dp.count_good,
            count_uncertain: dp.count_uncertain,
            count_bad: dp.count_bad,
            duration_good: dp.duration_good,
            duration_uncertain: dp.duration_uncertain,
            duration_bad: dp.duration_bad,
        }
    }
}

impl vstd::std_specs::convert::FromSpecImpl<AggregateDatapoint> for DatapointAggregate {
    open spec fn obeys_from_spec() -> bool {
        true
    }

    open spec fn from_spec(dp: AggregateDatapoint) -> DatapointAggregate {
        aggregate_of(dp)
    }
}

/// The protocol form of an identity.
pub open spec fn reference_of_identity(idt: Identity) -> TimeSeriesReference {
    match idt {
        Identity::Id { id } => TimeSeriesReference::Id(id),
        Identity::ExternalId { external_id } => TimeSeriesReference::ExternalId(external_id),
    }
}

impl From<Identity> for TimeSeriesReference {
    fn from(idt: Identity) -> (r: TimeSeriesReference) {
        match idt {
            Identity::Id { id } => TimeSeriesReference::Id(id),
            Identity::ExternalId { external_id } => TimeSeriesReference::ExternalId(external_id),
        }
    }
}

impl vstd::std_specs::convert::FromSpecImpl<Identity> for TimeSeriesReference {
    open spec fn obeys_from_spec() -> bool {
        true
    }

    open spec fn from_spec(idt: Identity) -> TimeSeriesReference {
        reference_of_identity(idt)
    }
}

/// The protocol form of a data modeling node.
pub open spec fn protocol_instance_id(value: crate::models::instances::InstanceId) -> InstanceId {
    InstanceId { external_id: value.external_id, space: value.space }
}

/// The data modeling form of a protocol node.
pub open spec fn model_instance_id(value: InstanceId) -> crate::models::instances::InstanceId {
    crate::models::instances::InstanceId { external_id: value.external_id, space: value.space }
}

impl From<crate::models::instances::InstanceId> for InstanceId {
    fn from(value: crate::models::instances::InstanceId) -> (r: Self)
        ensures
            r.external_id == value.external_id,
            r.space == value.space,
    {
        Self { external_id: value.external_id, space: value.space }
    }
}

impl vstd::std_specs::convert::FromSpecImpl<crate::models::instances::InstanceId> for InstanceId {
    open spec fn obeys_from_spec() -> bool {
        true
    }

    open spec fn from_spec(value: crate::models::instances::InstanceId) -> InstanceId {
        protocol_instance_id(value)
    }
}

impl From<InstanceId> for crate::models::instances::InstanceId {
    fn from(value: InstanceId) -> (r: Self)
        ensures
            r.external_id == value.external_id,
            r.space == value.space,
    {
        Self { external_id: value.external_id, space: value.space }
    }
}

impl vstd::std_specs::convert::FromSpecImpl<InstanceId> for crate::models::instances::InstanceId {
    open spec fn obeys_from_spec() -> bool {
        true
    }

    open spec fn from_spec(value: InstanceId) -> crate::models::instances::InstanceId {
        model_instance_id(value)
    }
}

/// The protocol form of an identity or node.
pub open spec fn reference_of(idt: IdentityOrInstance) -> TimeSeriesReference {
    match idt {
        IdentityOrInstance::Identity(i) => reference_of_identity(i),
        IdentityOrInstance::InstanceId { instance_id } => TimeSeriesReference::InstanceId(
            protocol_instance_id(instance_id),
        ),
    }
}

impl From<IdentityOrInstance> for TimeSeriesReference {
    fn from(idt: IdentityOrInstance) -> (r: TimeSeriesReference) {
        match idt {
            IdentityOrInstance::Identity(Identity::Id { id }) => TimeSeriesReference::Id(id),
            IdentityOrInstance::Identity(Identity::ExternalId { external_id }) => TimeSeriesReference::ExternalId(
                external_id,
            ),
            IdentityOrInstance::InstanceId { instance_id } => TimeSeriesReference::InstanceId(
                InstanceId::from(instance_id),
            ),
        }
    }
}

impl vstd::std_specs::convert::FromSpecImpl<IdentityOrInstance> for TimeSeriesReference {
    open spec fn obeys_from_spec() -> bool {
        true
    }

    open spec fn from_spec(idt: IdentityOrInstance) -> TimeSeriesReference {
        reference_of(idt)
    }
}

/// The identity a protocol reference stands for; a node is no identity.
pub open spec fn identity_of_reference(idt: TimeSeriesReference) -> Result<Identity, ()> {
    match idt {
        TimeSeriesReference::Id(id) => Ok(Identity::Id { id }),
        TimeSeriesReference::ExternalId(external_id) => Ok(Identity::ExternalId { external_id }),
        TimeSeriesReference::InstanceId(_) => Err(()),
    }
}

impl TryFrom<TimeSeriesReference> for Identity {
    type Error = ();

    fn try_from(idt: TimeSeriesReference) -> (r: Result<Identity, ()>) {
        match idt {
            TimeSeriesReference::Id(id) => Ok(Identity::Id { id }),
            TimeSeriesReference::ExternalId(external_id) => Ok(Identity::ExternalId { external_id }),
            TimeSeriesReference::InstanceId(_) => Err(()),
        }
    }
}

impl vstd::std_specs::convert::TryFromSpecImpl<TimeSeriesReference> for Identity {
    open spec fn obeys_try_from_spec() -> bool {
        true
    }

    open spec fn try_from_spec(idt: TimeSeriesReference) -> Result<Identity, ()> {
        identity_of_reference(idt)
    }
}

/// The identity or node a protocol reference stands for.
pub open spec fn identity_or_instance_of(value: TimeSeriesReference) -> IdentityOrInstance {
    match value {
        TimeSeriesReference::Id(id) => IdentityOrInstance::Identity(Identity::Id { id }),
        TimeSeriesReference::ExternalId(external_id) => IdentityOrInstance::Identity(
            Identity::ExternalId { external_id },
        ),
        TimeSeriesReference::InstanceId(instance_id) => IdentityOrInstance::InstanceId {
            instance_id: model_instance_id(instance_id),
        },
    }
}

impl From<TimeSeriesReference> for IdentityOrInstance {
    fn from(value: TimeSeriesReference) -> (r: Self) {
        match value {
            TimeSeriesReference::Id(id) => IdentityOrInstance::Identity(Identity::Id { id }),
            TimeSeriesReference::ExternalId(external_id) => IdentityOrInstance::Identity(
                Identity::ExternalId { external_id },
            ),
            TimeSeriesReference::InstanceId(instance_id) => IdentityOrInstance::InstanceId {
                instance_id: crate::models::instances::InstanceId::from(instance_id),
            },
        }
    }
}

impl vstd::std_specs::convert::FromSpecImpl<TimeSeriesReference> for IdentityOrInstance {
    open spec fn obeys_from_spec() -> bool {
        true
    }

    open spec fn from_spec(value: TimeSeriesReference) -> IdentityOrInstance {
        identity_or_instance_of(value)
    }
}

/// Converting an identity or node to its protocol form and back gives it
/// back, and so does the other way round; an identity comes back from its
/// protocol form as itself.
pub proof fn lemma_reference_roundtrip(i: IdentityOrInstance, p: TimeSeriesReference, idt: Identity)
    ensures
        identity_or_instance_of(reference_of(i)) == i,
        reference_of(identity_or_instance_of(p)) == p,
        identity_of_reference(reference_of_identity(idt)) == Ok::<Identity, ()>(idt),
{
}

/// A protocol string that stands for "absent" when it is empty.
pub open spec fn non_empty(s: String) -> Option<String> {
    if s@.len() == 0 {
        None
    } else {
        Some(s)
    }
}

fn non_empty_string(s: String) -> (r: Option<String>)
    ensures
        r == non_empty(s),
{
    if s.unicode_len() == 0 {
        None
    } else {
        Some(s)
    }
}

/// Whether `r` holds the datapoints of `d` in the response form, in order;
/// no datapoints at all become an empty numeric list.
pub open spec fn datapoints_of(d: Option<ListDatapointType>, r: DatapointsEnumType) -> bool {
    match d {
        Some(ListDatapointType::NumericDatapoints(n)) => r matches DatapointsEnumType::NumericDatapoints(v)
            && v@ == n.datapoints@.map_values(|p: NumericDatapoint| double_of(p)),
        Some(ListDatapointType::StringDatapoints(s)) => r matches DatapointsEnumType::StringDatapoints(v)
            && v@ == s.datapoints@.map_values(|p: StringDatapoint| string_of(p)),
        Some(ListDatapointType::AggregateDatapoints(a)) => r matches DatapointsEnumType::AggregateDatapoints(v)
            && v@ == a.datapoints@.map_values(|p: AggregateDatapoint| aggregate_of(p)),
        None => r matches DatapointsEnumType::NumericDatapoints(v) && v@.len() == 0,
    }
}

fn numeric_from_list(n: NumericDatapoints) -> (r: Vec<DatapointDouble>)
    ensures
        r@ == n.datapoints@.map_values(|p: NumericDatapoint| double_of(p)),
{
    let ghost all = n.datapoints@;
    let mut source = n.datapoints;
    let mut r: Vec<DatapointDouble> = Vec::new();
    while source.len() > 0
        invariant
            r@.len() + source@.len() == all.len(),
            source@ == all.skip(r@.len() as int),
            r@ == all.take(r@.len() as int).map_values(|p: NumericDatapoint| double_of(p)),
        decreases source@.len(),
    {
        let ghost k: int = r@.len() as int;
        let p = source.remove(0);
        assert(p == all[k]);
        r.push(DatapointDouble::from(p));
        assert(all.take(k + 1) =~= all.take(k).push(all[k]));
        assert(source@ =~= all.skip(k + 1));
    }
    assert(all.take(all.len() as int) =~= all);
    r
}

fn strings_from_list(s: StringDatapoints) -> (r: Vec<DatapointString>)
    ensures
        r@ == s.datapoints@.map_values(|p: StringDatapoint| string_of(p)),
{
    let ghost all = s.datapoints@;
    let mut source = s.datapoints;
    let mut r: Vec<DatapointString> = Vec::new();
    while source.len() > 0
        invariant
            r@.len() + source@.len() == all.len(),
            source@ == all.skip(r@.len() as int),
            r@ == all.take(r@.len() as int).map_values(|p: StringDatapoint| string_of(p)),
        decreases source@.len(),
    {
        let ghost k: int = r@.len() as int;
        let p = source.remove(0);
        assert(p == all[k]);
        r.push(DatapointString::from(p));
        assert(all.take(k + 1) =~= all.take(k).push(all[k]));
        assert(source@ =~= all.skip(k + 1));
    }
    assert(all.take(all.len() as int) =~= all);
    r
}

fn aggregates_from_list(a: AggregateDatapoints) -> (r: Vec<DatapointAggregate>)
    ensures
        r@ == a.datapoints@.map_values(|p: AggregateDatapoint| aggregate_of(p)),
{
    let mut r: Vec<DatapointAggregate> = Vec::new();
    let mut i: usize = 0;
    while i < a.datapoints.len()
        invariant
            i <= a.datapoints@.len(),
            r@ =~= a.datapoints@.take(i as int).map_values(|p: AggregateDatapoint| aggregate_of(p)),
        decreases a.datapoints@.len() - i,
    {
        let p = a.datapoints[i];
        r.push(DatapointAggregate::from(p));
        i = i + 1;
    }
    assert(a.datapoints@.take(a.datapoints@.len() as int) =~= a.datapoints@);
    r
}

/// Whether `r` is the response form of the protocol item `req`: empty text
/// becomes absent, the datapoints take the response form, in order.
pub open spec fn is_response_of(req: DataPointListItem, r: DatapointsResponse) -> bool {
    &&& r.id == req.id
    &&& r.external_id == non_empty(req.external_id)
    &&& r.unit == non_empty(req.unit)
    &&& r.unit_external_id == non_empty(req.unit_external_id)
    &&& r.next_cursor == non_empty(req.next_cursor)
    &&& r.is_step == req.is_step
    &&& r.is_string == req.is_string
    &&& datapoints_of(req.datapoint_type, r.datapoints)
}

impl From<DataPointListItem> for DatapointsResponse {
    /// The response form of one time series of a datapoints protocol response.
    fn from(req: DataPointListItem) -> (r: DatapointsResponse)
        ensures
            is_response_of(req, r),
            r.id == req.id,
            r.external_id == non_empty(req.external_id),
            r.unit == non_empty(req.unit),
            r.unit_external_id == non_empty(req.unit_external_id),
            r.next_cursor == non_empty(req.next_cursor),
            r.is_step == req.is_step,
            r.is_string == req.is_string,
            datapoints_of(req.datapoint_type, r.datapoints),
    {
        let datapoints = match req.datapoint_type {
            Some(dps) => match dps {
                ListDatapointType::NumericDatapoints(num_dps) => DatapointsEnumType::NumericDatapoints(
                    numeric_from_list(num_dps),
                ),
                ListDatapointType::StringDatapoints(str_dps) => DatapointsEnumType::StringDatapoints(
                    strings_from_list(str_dps),
                ),
                ListDatapointType::AggregateDatapoints(aggr_dps) => DatapointsEnumType::AggregateDatapoints(
                    aggregates_from_list(aggr_dps),
                ),
            },
            None => DatapointsEnumType::NumericDatapoints(Vec::new()),
        };
        DatapointsResponse {
            id: req.id,
            external_id: non_empty_string(req.external_id),
            unit: non_empty_string(req.unit),
            is_step: req.is_step,
            is_string: req.is_string,
            datapoints,
            unit_external_id: non_empty_string(req.unit_external_id),
            next_cursor: non_empty_string(req.next_cursor),
        }
    }
}

impl vstd::std_specs::convert::FromSpecImpl<DataPointListItem> for DatapointsResponse {
    /// What `from` gives is stated in its own `ensures`, over the lists it
    /// builds.
    open spec fn obeys_from_spec() -> bool {
        false
    }

    open spec fn from_spec(req: DataPointListItem) -> DatapointsResponse {
        vstd::pervasive::arbitrary()
    }
}

/// Whether `r` is the response form of each time series of `items`, in order.
pub open spec fn responses_of(items: Seq<DataPointListItem>, r: Seq<DatapointsResponse>) -> bool {
    &&& r.len() == items.len()
    &&& forall|k: int| 0 <= k < r.len() ==> is_response_of(items[k], #[trigger] r[k])
}

impl From<DataPointListResponse> for DatapointsListResponse {
    /// The response form of a datapoints protocol response: one response per
    /// time series, in order.
    fn from(resp: DataPointListResponse) -> (r: DatapointsListResponse)
        ensures
            responses_of(resp.items@, r.items@),
    {
        let ghost items = resp.items@;
        let mut source = resp.items;
        let mut out: Vec<DatapointsResponse> = Vec::new();
        while source.len() > 0
            invariant
                out@.len() + source@.len() == items.len(),
                source@ == items.skip(out@.len() as int),
                responses_of(items.take(out@.len() as int), out@),
            decreases source@.len(),
        {
            let ghost n: int = out@.len() as int;
            let item = source.remove(0);
            assert(item == items[n]);
            out.push(DatapointsResponse::from(item));
            assert(items.take(n + 1) =~= items.take(n).push(items[n]));
            assert(source@ =~= items.skip(n + 1));
        }
        assert(items.take(items.len() as int) =~= items);
        DatapointsListResponse { items: out }
    }
}

impl vstd::std_specs::convert::FromSpecImpl<DataPointListResponse> for DatapointsListResponse {
    /// What `from` gives is stated in its own `ensures`, over the list it
    /// builds.
    open spec fn obeys_from_spec() -> bool {
        false
    }

    open spec fn from_spec(resp: DataPointListResponse) -> DatapointsListResponse {
        vstd::pervasive::arbitrary()
    }
}

/// Whether `r` is the protocol form of `req`: the same time series and the
/// same datapoints, in order.
pub open spec fn is_insertion_item(req: AddDatapoints, r: DataPointInsertionItem) -> bool {
    &&& r.time_series_reference == Some(reference_of(req.id))
    &&& match req.datapoints {
        DatapointsEnumType::NumericDatapoints(dps) => r.datapoint_type matches Some(
            InsertDatapointType::NumericDatapoints(n),
        ) && n.datapoints@ == dps@.map_values(|p: DatapointDouble| numeric_of(p)),
        DatapointsEnumType::StringDatapoints(dps) => r.datapoint_type matches Some(
            InsertDatapointType::StringDatapoints(s),
        ) && s.datapoints@.len() == dps@.len() && forall|k: int|
            0 <= k < dps@.len() ==> is_string_datapoint_of(dps@[k], #[trigger] s.datapoints@[k]),
        DatapointsEnumType::AggregateDatapoints(_) => false,
    }
}

fn numeric_to_protocol(dps: Vec<DatapointDouble>) -> (r: Vec<NumericDatapoint>)
    ensures
        r@ == dps@.map_values(|p: DatapointDouble| numeric_of(p)),
{
    let ghost all = dps@;
    let mut source = dps;
    let mut r: Vec<NumericDatapoint> = Vec::new();
    while source.len() > 0
        invariant
            r@.len() + source@.len() == all.len(),
            source@ == all.skip(r@.len() as int),
            r@ == all.take(r@.len() as int).map_values(|p: DatapointDouble| numeric_of(p)),
        decreases source@.len(),
    {
        let ghost k: int = r@.len() as int;
        let p = source.remove(0);
        assert(p == all[k]);
        r.push(NumericDatapoint::from(p));
        assert(all.take(k + 1) =~= all.take(k).push(all[k]));
        assert(source@ =~= all.skip(k + 1));
    }
    assert(all.take(all.len() as int) =~= all);
    r
}

fn strings_to_protocol(dps: Vec<DatapointString>) -> (r: Vec<StringDatapoint>)
    ensures
        r@.len() == dps@.len(),
        forall|k: int| 0 <= k < dps@.len() ==> is_string_datapoint_of(dps@[k], #[trigger] r@[k]),
{
    let ghost all = dps@;
    let mut source = dps;
    let mut r: Vec<StringDatapoint> = Vec::new();
    while source.len() > 0
        invariant
            r@.len() + source@.len() == all.len(),
            source@ == all.skip(r@.len() as int),
            forall|k: int| 0 <= k < r@.len() ==> is_string_datapoint_of(all[k], #[trigger] r@[k]),
        decreases source@.len(),
    {
        let ghost k: int = r@.len() as int;
        let p = source.remove(0);
        assert(p == all[k]);
        r.push(StringDatapoint::from(p));
        assert(source@ =~= all.skip(k + 1));
    }
    r
}

/// The protocol form of a batch of datapoints to insert. Aggregate
/// datapoints cannot be inserted.
pub fn insertion_item_from(req: AddDatapoints) -> (r: DataPointInsertionItem)
    requires
        !(req.datapoints is AggregateDatapoints),
    ensures
        is_insertion_item(req, r),
{
    let reference = TimeSeriesReference::from(req.id);
    let datapoint_type = match req.datapoints {
        DatapointsEnumType::NumericDatapoints(dps) => InsertDatapointType::NumericDatapoints(
            NumericDatapoints { datapoints: numeric_to_protocol(dps) },
        ),
        DatapointsEnumType::StringDatapoints(dps) => InsertDatapointType::StringDatapoints(
            StringDatapoints { datapoints: strings_to_protocol(dps) },
        ),
        DatapointsEnumType::AggregateDatapoints(_) => {
            proof {
                assert(false);
            }
            InsertDatapointType::NumericDatapoints(NumericDatapoints { datapoints: Vec::new() })
        },
    };
    DataPointInsertionItem { time_series_reference: Some(reference), datapoint_type: Some(datapoint_type) }
}

/// The protocol form of a list of batches to insert, one item per batch, in
/// order. Aggregate datapoints cannot be inserted.
pub fn insertion_request_from(items: Vec<AddDatapoints>) -> (r: DataPointInsertionRequest)
    requires
        forall|k: int| 0 <= k < items@.len() ==> !(#[trigger] items@[k].datapoints is AggregateDatapoints),
    ensures
        r.items@.len() == items@.len(),
        forall|k: int| 0 <= k < items@.len() ==> is_insertion_item(items@[k], #[trigger] r.items@[k]),
{
    let ghost all = items@;
    let mut source = items;
    let mut out: Vec<DataPointInsertionItem> = Vec::new();
    while source.len() > 0
        invariant
            out@.len() + source@.len() == all.len(),
            source@ == all.skip(out@.len() as int),
            forall|k: int| 0 <= k < all.len() ==> !(#[trigger] all[k].datapoints is AggregateDatapoints),
            forall|k: int| 0 <= k < out@.len() ==> is_insertion_item(all[k], #[trigger] out@[k]),
        decreases source@.len(),
    {
        let ghost n: int = out@.len() as int;
        let item = source.remove(0);
        assert(item == all[n]);
        out.push(insertion_item_from(item));
        assert(source@ =~= all.skip(n + 1));
    }
    DataPointInsertionRequest { items: out }
}

} // verus!
