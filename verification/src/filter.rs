//! Advanced filters for data modeling and core resources, the values they
//! compare against, and the builders that assemble them.

use vstd::prelude::*;

use crate::models::common::{PropertyIdentifier, SourceReference};

verus! {

/// JSON value carried as is inside filters and raw values.
#[verifier::external_type_specification]
#[verifier::external_body]
pub struct ExJsonValue(serde_json::Value);

/// `Clone::clone` on a JSON value, which serde_json derives: the copy is
/// the same value as the one cloned.
pub assume_specification[ <serde_json::Value as Clone>::clone ](v: &serde_json::Value) -> (r: serde_json::Value)
    ensures
        r == *v,
;

/// A JSON number: a non-negative integer, a negative integer, or a float
/// (held as the bits of an `f64`).
#[derive(Clone, Copy, PartialEq, Eq, Structural)]
pub enum Number {
    /// Non-negative integer.
    PosInt(u64),
    /// Negative integer.
    NegInt(i64),
    /// Floating point number, as the bits of an `f64`.
    Float(u64),
}

/// The JSON number for a signed integer: non-negative values are stored as
/// unsigned.
pub open spec fn number_of(v: i64) -> Number {
    if v < 0 {
        Number::NegInt(v)
    } else {
        Number::PosInt(v as u64)
    }
}

impl From<i64> for Number {
    fn from(v: i64) -> (r: Self) {
        if v < 0 {
            Number::NegInt(v)
        } else {
            Number::PosInt(v as u64)
        }
    }
}

impl vstd::std_specs::convert::FromSpecImpl<i64> for Number {
    open spec fn obeys_from_spec() -> bool {
        true
    }

    open spec fn from_spec(v: i64) -> Number {
        number_of(v)
    }
}

impl From<u64> for Number {
    fn from(v: u64) -> (r: Self) {
        Number::PosInt(v)
    }
}

impl vstd::std_specs::convert::FromSpecImpl<u64> for Number {
    open spec fn obeys_from_spec() -> bool {
        true
    }

    open spec fn from_spec(v: u64) -> Number {
        Number::PosInt(v)
    }
}

/// Raw filter value.
#[derive(Clone)]
pub enum RawValue {
    /// String value.
    String(String),
    /// Numerical value.
    Number(Number),
    /// Boolean value.
    Boolean(bool),
    /// String array value.
    StringArray(Vec<String>),
    /// Number array value.
    NumberArray(Vec<Number>),
    /// Boolean array value.
    BooleanArray(Vec<bool>),
    /// JSON object value.
    Object(serde_json::Value),
}

impl RawValue {
    /// A string value.
    pub fn string(value: &str) -> (r: Self)
        ensures
            r is String && r->String_0@ == value@,
    {
        RawValue::String(value.to_owned())
    }

    /// A number value from a signed integer.
    pub fn integer(value: i64) -> (r: Self)
        ensures
            r == RawValue::Number(number_of(value)),
    {
        RawValue::Number(Number::from(value))
    }

    /// A number array from signed integers.
    pub fn integer_array(values: &[i64]) -> (r: Self)
        ensures
            r is NumberArray && r->NumberArray_0@ == values@.map_values(
                |v: i64| number_of(v),
            ),
    {
        let mut out: Vec<Number> = Vec::new();
        let mut i: usize = 0;
        while i < values.len()
            invariant
                i <= values@.len(),
                out@ =~= values@.take(i as int).map_values(|v: i64| number_of(v)),
            decreases values@.len() - i,
        {
            out.push(Number::from(values[i]));
            i = i + 1;
        }
        assert(values@.take(values@.len() as int) =~= values@);
        RawValue::NumberArray(out)
    }
}

impl From<bool> for RawValue {
    fn from(value: bool) -> (r: Self) {
        RawValue::Boolean(value)
    }
}

impl vstd::std_specs::convert::FromSpecImpl<bool> for RawValue {
    open spec fn obeys_from_spec() -> bool {
        true
    }

    open spec fn from_spec(v: bool) -> RawValue {
        RawValue::Boolean(v)
    }
}

impl From<String> for RawValue {
    fn from(value: String) -> (r: Self) {
        RawValue::String(value)
    }
}

impl vstd::std_specs::convert::FromSpecImpl<String> for RawValue {
    open spec fn obeys_from_spec() -> bool {
        true
    }

    open spec fn from_spec(v: String) -> RawValue {
        RawValue::String(v)
    }
}

impl From<i64> for RawValue {
    fn from(value: i64) -> (r: Self) {
        RawValue::Number(Number::from(value))
    }
}

impl vstd::std_specs::convert::FromSpecImpl<i64> for RawValue {
    open spec fn obeys_from_spec() -> bool {
        true
    }

    open spec fn from_spec(v: i64) -> RawValue {
        RawValue::Number(number_of(v))
    }
}

impl From<Vec<String>> for RawValue {
    fn from(value: Vec<String>) -> (r: Self) {
        RawValue::StringArray(value)
    }
}

impl vstd::std_specs::convert::FromSpecImpl<Vec<String>> for RawValue {
    open spec fn obeys_from_spec() -> bool {
        true
    }

    open spec fn from_spec(v: Vec<String>) -> RawValue {
        RawValue::StringArray(v)
    }
}

impl From<Vec<bool>> for RawValue {
    fn from(value: Vec<bool>) -> (r: Self) {
        RawValue::BooleanArray(value)
    }
}

impl vstd::std_specs::convert::FromSpecImpl<Vec<bool>> for RawValue {
    open spec fn obeys_from_spec() -> bool {
        true
    }

    open spec fn from_spec(v: Vec<bool>) -> RawValue {
        RawValue::BooleanArray(v)
    }
}

impl From<serde_json::Value> for RawValue {
    fn from(value: serde_json::Value) -> (r: Self) {
        RawValue::Object(value)
    }
}

impl vstd::std_specs::convert::FromSpecImpl<serde_json::Value> for RawValue {
    open spec fn obeys_from_spec() -> bool {
        true
    }

    open spec fn from_spec(v: serde_json::Value) -> RawValue {
        RawValue::Object(v)
    }
}

/// Parameterized value.
#[derive(Clone)]
pub struct ParameterizedPropertyValue {
    /// Parameter reference.
    pub parameter: String,
}

/// Referenced property value, use the value of a different property.
#[derive(Clone)]
pub struct ReferencedPropertyValue {
    /// Property to reference.
    pub property: Vec<String>,
}

/// Value used in complex queries.
#[derive(Clone)]
pub enum QueryValue {
    /// Parameterized value.
    Parameter(ParameterizedPropertyValue),
    /// Reference to a different property.
    Reference(ReferencedPropertyValue),
    /// Raw value.
    Raw(RawValue),
}

impl From<RawValue> for QueryValue {
    fn from(value: RawValue) -> (r: Self) {
        QueryValue::Raw(value)
    }
}

impl vstd::std_specs::convert::FromSpecImpl<RawValue> for QueryValue {
    open spec fn obeys_from_spec() -> bool {
        true
    }

    open spec fn from_spec(v: RawValue) -> QueryValue {
        QueryValue::Raw(v)
    }
}

impl From<ParameterizedPropertyValue> for QueryValue {
    fn from(value: ParameterizedPropertyValue) -> (r: Self) {
        QueryValue::Parameter(value)
    }
}

impl vstd::std_specs::convert::FromSpecImpl<ParameterizedPropertyValue> for QueryValue {
    open spec fn obeys_from_spec() -> bool {
        true
    }

    open spec fn from_spec(v: ParameterizedPropertyValue) -> QueryValue {
        QueryValue::Parameter(v)
    }
}

impl From<ReferencedPropertyValue> for QueryValue {
    fn from(value: ReferencedPropertyValue) -> (r: Self) {
        QueryValue::Reference(value)
    }
}

impl vstd::std_specs::convert::FromSpecImpl<ReferencedPropertyValue> for QueryValue {
    open spec fn obeys_from_spec() -> bool {
        true
    }

    open spec fn from_spec(v: ReferencedPropertyValue) -> QueryValue {
        QueryValue::Reference(v)
    }
}

impl From<i64> for QueryValue {
    fn from(value: i64) -> (r: Self) {
        QueryValue::Raw(RawValue::from(value))
    }
}

impl vstd::std_specs::convert::FromSpecImpl<i64> for QueryValue {
    open spec fn obeys_from_spec() -> bool {
        true
    }

    open spec fn from_spec(v: i64) -> QueryValue {
        QueryValue::Raw(RawValue::Number(number_of(v)))
    }
}

impl From<bool> for QueryValue {
    fn from(value: bool) -> (r: Self) {
        QueryValue::Raw(RawValue::Boolean(value))
    }
}

impl vstd::std_specs::convert::FromSpecImpl<bool> for QueryValue {
    open spec fn obeys_from_spec() -> bool {
        true
    }

    open spec fn from_spec(v: bool) -> QueryValue {
        QueryValue::Raw(RawValue::Boolean(v))
    }
}

impl From<String> for QueryValue {
    fn from(value: String) -> (r: Self) {
        QueryValue::Raw(RawValue::String(value))
    }
}

impl vstd::std_specs::convert::FromSpecImpl<String> for QueryValue {
    open spec fn obeys_from_spec() -> bool {
        true
    }

    open spec fn from_spec(v: String) -> QueryValue {
        QueryValue::Raw(RawValue::String(v))
    }
}

/// Advanced filter.
pub enum AdvancedFilter {
    /// Require the value of `property` to be equal to `value`
    Equals {
        /// Left hand side property.
        property: Vec<String>,
        /// Right hand side value.
        value: QueryValue,
    },
    /// Require the value to be in the list of `values`
    In {
        /// Left hand side property.
        property: Vec<String>,
        /// Right hand side list of values.
        values: QueryValue,
    },
    /// Require the value to be greater than `gt`, greater than or equal to `gte`,
    /// less than `lt` and less than or equal to `lte`
    Range {
        /// Left hand side property.
        property: Vec<String>,
        /// Greater than or equal to
        gte: Option<QueryValue>,
        /// Greater than
        gt: Option<QueryValue>,
        /// Less than or equal to
        lte: Option<QueryValue>,
        /// Less than
        lt: Option<QueryValue>,
    },
    /// Require the value to be text and start with `value`
    Prefix {
        /// Left hand side property.
        property: Vec<String>,
        /// Prefix value
        value: String,
    },
    /// Require this property to exist.
    Exists {
        /// Property that must exist.
        property: Vec<String>,
    },
    /// Matches items where the property contains one or more of the given values.
    ContainsAny {
        /// Multivalued property.
        property: Vec<String>,
        /// List of values.
        values: QueryValue,
    },
    /// Matches items where the property contains all the given values.
    ContainsAll {
        /// Multivalued property.
        property: Vec<String>,
        /// List of values.
        values: QueryValue,
    },
    /// An open filter that matches anything.
    MatchAll {},
    /// Use nested to apply the properties of the direct relation as the filter.
    Nested {
        /// Direct relation property to query through.
        scope: Vec<String>,
        /// Filter to apply to nested property.
        filter: Box<AdvancedFilter>,
    },
    /// Matches items where the range made up of the two properties overlap with the provided range.
    Overlaps {
        /// Start property reference.
        start_property: Vec<String>,
        /// End property reference.
        end_property: Vec<String>,
        /// Greater than or equal to
        gte: Option<QueryValue>,
        /// Greater than
        gt: Option<QueryValue>,
        /// Less than or equal to
        lte: Option<QueryValue>,
        /// Less than
        lt: Option<QueryValue>,
    },
    /// Require items to have data in the referenced views, or containers.
    HasData(Vec<SourceReference>),
    /// Require all these filters to match.
    And(Vec<AdvancedFilter>),
    /// Require at least one of these filters to match.
    Or(Vec<AdvancedFilter>),
    /// Require this filter _not_ to match.
    Not(Box<AdvancedFilter>),
}

impl Clone for AdvancedFilter {
    fn clone(&self) -> (r: Self)
        decreases self,
    {
        match self {
            AdvancedFilter::Equals { property, value } => AdvancedFilter::Equals {
                property: property.clone(),
                value: value.clone(),
            },
            AdvancedFilter::In { property, values } => AdvancedFilter::In {
                property: property.clone(),
                values: values.clone(),
            },
            AdvancedFilter::Range { property, gte, gt, lte, lt } => AdvancedFilter::Range {
                property: property.clone(),
                gte: gte.clone(),
                gt: gt.clone(),
                lte: lte.clone(),
                lt: lt.clone(),
            },
            AdvancedFilter::Prefix { property, value } => AdvancedFilter::Prefix {
                property: property.clone(),
                value: value.clone(),
            },
            AdvancedFilter::Exists { property } => AdvancedFilter::Exists { property: property.clone() },
            AdvancedFilter::ContainsAny { property, values } => AdvancedFilter::ContainsAny {
                property: property.clone(),
                values: values.clone(),
            },
            AdvancedFilter::ContainsAll { property, values } => AdvancedFilter::ContainsAll {
                property: property.clone(),
                values: values.clone(),
            },
            AdvancedFilter::MatchAll {  } => AdvancedFilter::MatchAll {  },
            AdvancedFilter::Nested { scope, filter } => {
                let inner: &AdvancedFilter = filter;
                AdvancedFilter::Nested { scope: scope.clone(), filter: Box::new(inner.clone()) }
            },
            AdvancedFilter::Overlaps { start_property, end_property, gte, gt, lte, lt } => {
                AdvancedFilter::Overlaps {
                    start_property: start_property.clone(),
                    end_property: end_property.clone(),
                    gte: gte.clone(),
                    gt: gt.clone(),
                    lte: lte.clone(),
                    lt: lt.clone(),
                }
            },
            AdvancedFilter::HasData(references) => AdvancedFilter::HasData(references.clone()),
            AdvancedFilter::And(filters) => {
                let mut out: Vec<AdvancedFilter> = Vec::new();
                let mut i: usize = 0;
                assert(decreases_to!(*self => *filters));
                while i < filters.len()
                    invariant
                        i <= filters@.len(),
                        decreases_to!(*self => *filters),
                    decreases filters@.len() - i,
                {
                    assert(decreases_to!(*filters => filters@));
                    assert(decreases_to!(filters@ => filters@[i as int]));
                    out.push(filters[i].clone());
                    i = i + 1;
                }
                AdvancedFilter::And(out)
            },
            AdvancedFilter::Or(filters) => {
                let mut out: Vec<AdvancedFilter> = Vec::new();
                let mut i: usize = 0;
                assert(decreases_to!(*self => *filters));
                while i < filters.len()
                    invariant
                        i <= filters@.len(),
                        decreases_to!(*self => *filters),
                    decreases filters@.len() - i,
                {
                    assert(decreases_to!(*filters => filters@));
                    assert(decreases_to!(filters@ => filters@[i as int]));
                    out.push(filters[i].clone());
                    i = i + 1;
                }
                AdvancedFilter::Or(out)
            },
            AdvancedFilter::Not(filter) => {
                let inner: &AdvancedFilter = filter;
                AdvancedFilter::Not(Box::new(inner.clone()))
            },
        }
    }
}

impl Default for AdvancedFilter {
    fn default() -> (r: Self)
        ensures
            r == (AdvancedFilter::MatchAll {}),
    {
        Self::MatchAll {}
    }
}

/// The filters `f` requires all of: the list of an `And`, or `f` alone.
pub open spec fn conjuncts(f: AdvancedFilter) -> Seq<AdvancedFilter> {
    match f {
        AdvancedFilter::And(a) => a@,
        _ => seq![f],
    }
}

/// The filters of which `f` requires one: the list of an `Or`, or `f` alone.
pub open spec fn disjuncts(f: AdvancedFilter) -> Seq<AdvancedFilter> {
    match f {
        AdvancedFilter::Or(a) => a@,
        _ => seq![f],
    }
}

/// The negation of `f`: a `Not` is unwrapped, anything else is wrapped in one.
pub open spec fn negation(f: AdvancedFilter) -> AdvancedFilter {
    match f {
        AdvancedFilter::Not(n) => *n,
        _ => AdvancedFilter::Not(Box::new(f)),
    }
}

impl AdvancedFilter {
    /// Construct a `not` filter.
    pub fn not(self) -> (r: Self)
        ensures
            r == negation(self),
    {
        match self {
            Self::Not(n) => *n,
            _ => Self::Not(Box::new(self)),
        }
    }

    /// Construct an `and` filter from this filter and another filter. An
    /// `and` filter gets `filter` appended; anything else becomes the first
    /// of two.
    pub fn and(self, filter: AdvancedFilter) -> (r: Self)
        ensures
            r is And,
            conjuncts(r) == conjuncts(self).push(filter),
    {
        let mut s = self;
        match s {
            Self::And(mut a) => {
                a.push(filter);
                Self::And(a)
            },
            _ => {
                let mut v: Vec<AdvancedFilter> = Vec::new();
                v.push(s);
                v.push(filter);
                Self::And(v)
            },
        }
    }

    /// Construct an `or` filter from this filter and another filter. An
    /// `or` filter gets `filter` appended; anything else becomes the first
    /// of two.
    pub fn or(self, filter: AdvancedFilter) -> (r: Self)
        ensures
            r is Or,
            disjuncts(r) == disjuncts(self).push(filter),
    {
        match self {
            Self::Or(mut a) => {
                a.push(filter);
                Self::Or(a)
            },
            _ => {
                let mut v: Vec<AdvancedFilter> = Vec::new();
                v.push(self);
                v.push(filter);
                Self::Or(v)
            },
        }
    }
}

/// Negating twice gives back the filter, unless it is a `Not` of a `Not`
/// (whose inner `Not` the first negation unwraps).
pub proof fn lemma_not_not(f: AdvancedFilter)
    requires
        !(f matches AdvancedFilter::Not(g) && *g is Not),
    ensures
        negation(negation(f)) == f,
{
}

/// Start or end of a range.
#[derive(Clone)]
pub enum RangeItem<T> {
    /// Inclusive end point.
    Inclusive(T),
    /// Exclusive end point.
    Exclusive(T),
    /// Unbounded end point.
    Empty,
}

impl<T> RangeItem<T> {
    /// Map the inner value.
    pub fn map<R, F: FnOnce(T) -> R>(self, map: F) -> (r: RangeItem<R>)
        requires
            match self {
                RangeItem::Inclusive(v) | RangeItem::Exclusive(v) => call_requires(map, (v,)),
                RangeItem::Empty => true,
            },
        ensures
            match self {
                RangeItem::Inclusive(v) => r is Inclusive && call_ensures(map, (v,), r->Inclusive_0),
                RangeItem::Exclusive(v) => r is Exclusive && call_ensures(map, (v,), r->Exclusive_0),
                RangeItem::Empty => r is Empty,
            },
    {
        match self {
            RangeItem::Inclusive(r) => RangeItem::Inclusive(map(r)),
            RangeItem::Exclusive(r) => RangeItem::Exclusive(map(r)),
            RangeItem::Empty => RangeItem::Empty,
        }
    }
}

/// Values that become a query value: query values themselves, raw values,
/// parameters, references, integers, booleans and strings.
pub trait IntoQueryValue: Sized {
    /// The query value that `self` becomes.
    spec fn query_value_spec(self) -> QueryValue;

    /// Convert the value into a query value.
    fn into_query_value(self) -> (r: QueryValue)
        ensures
            r == self.query_value_spec(),
    ;
}

impl IntoQueryValue for QueryValue {
    open spec fn query_value_spec(self) -> QueryValue {
        self
    }

    fn into_query_value(self) -> (r: QueryValue) {
        self
    }
}

impl IntoQueryValue for RawValue {
    open spec fn query_value_spec(self) -> QueryValue {
        QueryValue::Raw(self)
    }

    fn into_query_value(self) -> (r: QueryValue) {
        QueryValue::from(self)
    }
}

impl IntoQueryValue for ParameterizedPropertyValue {
    open spec fn query_value_spec(self) -> QueryValue {
        QueryValue::Parameter(self)
    }

    fn into_query_value(self) -> (r: QueryValue) {
        QueryValue::from(self)
    }
}

impl IntoQueryValue for ReferencedPropertyValue {
    open spec fn query_value_spec(self) -> QueryValue {
        QueryValue::Reference(self)
    }

    fn into_query_value(self) -> (r: QueryValue) {
        QueryValue::from(self)
    }
}

impl IntoQueryValue for i64 {
    open spec fn query_value_spec(self) -> QueryValue {
        QueryValue::Raw(RawValue::Number(number_of(self)))
    }

    fn into_query_value(self) -> (r: QueryValue) {
        QueryValue::from(self)
    }
}

impl IntoQueryValue for bool {
    open spec fn query_value_spec(self) -> QueryValue {
        QueryValue::Raw(RawValue::Boolean(self))
    }

    fn into_query_value(self) -> (r: QueryValue) {
        QueryValue::from(self)
    }
}

impl IntoQueryValue for String {
    open spec fn query_value_spec(self) -> QueryValue {
        QueryValue::Raw(RawValue::String(self))
    }

    fn into_query_value(self) -> (r: QueryValue) {
        QueryValue::Raw(RawValue::String(self))
    }
}

/// Trait for types that can be converted into a range for a DMS query.
pub trait IntoQueryRange: Sized {
    /// The start and end of the range.
    spec fn query_range_spec(self) -> (RangeItem<QueryValue>, RangeItem<QueryValue>);

    /// Create a query range.
    fn into_query_range(self) -> (r: (RangeItem<QueryValue>, RangeItem<QueryValue>))
        ensures
            r == self.query_range_spec(),
    ;
}

/// An end point of a range, with its value converted.
pub open spec fn range_item_spec<T: IntoQueryValue>(i: RangeItem<T>) -> RangeItem<QueryValue> {
    match i {
        RangeItem::Inclusive(v) => RangeItem::Inclusive(v.query_value_spec()),
        RangeItem::Exclusive(v) => RangeItem::Exclusive(v.query_value_spec()),
        RangeItem::Empty => RangeItem::Empty,
    }
}

fn convert_range_item<T: IntoQueryValue>(i: RangeItem<T>) -> (r: RangeItem<QueryValue>)
    ensures
        r == range_item_spec(i),
{
    match i {
        RangeItem::Inclusive(v) => RangeItem::Inclusive(v.into_query_value()),
        RangeItem::Exclusive(v) => RangeItem::Exclusive(v.into_query_value()),
        RangeItem::Empty => RangeItem::Empty,
    }
}

impl<T: IntoQueryValue> IntoQueryRange for (RangeItem<T>, RangeItem<T>) {
    /// Both end points as given, their values converted.
    open spec fn query_range_spec(self) -> (RangeItem<QueryValue>, RangeItem<QueryValue>) {
        (range_item_spec(self.0), range_item_spec(self.1))
    }

    fn into_query_range(self) -> (r: (RangeItem<QueryValue>, RangeItem<QueryValue>))
        ensures
            r.0 == range_item_spec(self.0),
            r.1 == range_item_spec(self.1),
    {
        (convert_range_item(self.0), convert_range_item(self.1))
    }
}

impl<T: IntoQueryValue> IntoQueryRange for (T, T) {
    /// A pair is read as (inclusive start, exclusive end).
    open spec fn query_range_spec(self) -> (RangeItem<QueryValue>, RangeItem<QueryValue>) {
        (RangeItem::Inclusive(self.0.query_value_spec()), RangeItem::Exclusive(self.1.query_value_spec()))
    }

    fn into_query_range(self) -> (r: (RangeItem<QueryValue>, RangeItem<QueryValue>))
        ensures
            r.0 == RangeItem::Inclusive(self.0.query_value_spec()),
            r.1 == RangeItem::Exclusive(self.1.query_value_spec()),
    {
        (RangeItem::Inclusive(self.0.into_query_value()), RangeItem::Exclusive(self.1.into_query_value()))
    }
}

impl<T: IntoQueryValue> IntoQueryRange for std::ops::Range<T> {
    /// `a..b`: inclusive start, exclusive end.
    open spec fn query_range_spec(self) -> (RangeItem<QueryValue>, RangeItem<QueryValue>) {
        (RangeItem::Inclusive(self.start.query_value_spec()), RangeItem::Exclusive(self.end.query_value_spec()))
    }

    fn into_query_range(self) -> (r: (RangeItem<QueryValue>, RangeItem<QueryValue>))
        ensures
            r.0 == RangeItem::Inclusive(self.start.query_value_spec()),
            r.1 == RangeItem::Exclusive(self.end.query_value_spec()),
    {
        (RangeItem::Inclusive(self.start.into_query_value()), RangeItem::Exclusive(self.end.into_query_value()))
    }
}

/// The range `..`, with no bounds.
#[verifier::external_type_specification]
#[verifier::external_body]
pub struct ExRangeFull(std::ops::RangeFull);

impl IntoQueryRange for std::ops::RangeFull {
    /// The full range is unbounded at both ends.
    open spec fn query_range_spec(self) -> (RangeItem<QueryValue>, RangeItem<QueryValue>) {
        (RangeItem::Empty, RangeItem::Empty)
    }

    fn into_query_range(self) -> (r: (RangeItem<QueryValue>, RangeItem<QueryValue>))
        ensures
            r.0 is Empty,
            r.1 is Empty,
    {
        (RangeItem::Empty, RangeItem::Empty)
    }
}

/// The range `a..`, with its public field `start`.
#[verifier::external_type_specification]
#[verifier::reject_recursive_types(Idx)]
pub struct ExRangeFrom<Idx>(std::ops::RangeFrom<Idx>);

/// The range `..b`, with its public field `end`.
#[verifier::external_type_specification]
#[verifier::reject_recursive_types(Idx)]
pub struct ExRangeTo<Idx>(std::ops::RangeTo<Idx>);

/// The range `..=b`, with its public field `end`.
#[verifier::external_type_specification]
#[verifier::reject_recursive_types(Idx)]
pub struct ExRangeToInclusive<Idx>(std::ops::RangeToInclusive<Idx>);

impl<T: IntoQueryValue> IntoQueryRange for std::ops::RangeFrom<T> {
    /// `a..`: inclusive start, no end.
    open spec fn query_range_spec(self) -> (RangeItem<QueryValue>, RangeItem<QueryValue>) {
        (RangeItem::Inclusive(self.start.query_value_spec()), RangeItem::Empty)
    }

    fn into_query_range(self) -> (r: (RangeItem<QueryValue>, RangeItem<QueryValue>))
        ensures
            r.0 == RangeItem::Inclusive(self.start.query_value_spec()),
            r.1 is Empty,
    {
        (RangeItem::Inclusive(self.start.into_query_value()), RangeItem::Empty)
    }
}

impl<T: IntoQueryValue> IntoQueryRange for std::ops::RangeTo<T> {
    /// `..b`: no start, exclusive end.
    open spec fn query_range_spec(self) -> (RangeItem<QueryValue>, RangeItem<QueryValue>) {
        (RangeItem::Empty, RangeItem::Exclusive(self.end.query_value_spec()))
    }

    fn into_query_range(self) -> (r: (RangeItem<QueryValue>, RangeItem<QueryValue>))
        ensures
            r.0 is Empty,
            r.1 == RangeItem::Exclusive(self.end.query_value_spec()),
    {
        (RangeItem::Empty, RangeItem::Exclusive(self.end.into_query_value()))
    }
}

impl<T: IntoQueryValue> IntoQueryRange for std::ops::RangeToInclusive<T> {
    /// `..=b`: no start, inclusive end.
    open spec fn query_range_spec(self) -> (RangeItem<QueryValue>, RangeItem<QueryValue>) {
        (RangeItem::Empty, RangeItem::Inclusive(self.end.query_value_spec()))
    }

    fn into_query_range(self) -> (r: (RangeItem<QueryValue>, RangeItem<QueryValue>))
        ensures
            r.0 is Empty,
            r.1 == RangeItem::Inclusive(self.end.query_value_spec()),
    {
        (RangeItem::Empty, RangeItem::Inclusive(self.end.into_query_value()))
    }
}

/// `RangeInclusive::into_inner`: the bounds the range was made with.
#[verifier::external_body]
fn inclusive_bounds<T>(r: std::ops::RangeInclusive<T>) -> (b: (T, T))
    ensures
        b.0 == r@.start,
        b.1 == r@.end,
{
    r.into_inner()
}

impl<T: IntoQueryValue> IntoQueryRange for std::ops::RangeInclusive<T> {
    /// `a..=b`: both bounds inclusive.
    open spec fn query_range_spec(self) -> (RangeItem<QueryValue>, RangeItem<QueryValue>) {
        (RangeItem::Inclusive(self@.start.query_value_spec()), RangeItem::Inclusive(self@.end.query_value_spec()))
    }

    fn into_query_range(self) -> (r: (RangeItem<QueryValue>, RangeItem<QueryValue>))
        ensures
            r.0 == RangeItem::Inclusive(self@.start.query_value_spec()),
            r.1 == RangeItem::Inclusive(self@.end.query_value_spec()),
    {
        let (start, end) = inclusive_bounds(self);
        (RangeItem::Inclusive(start.into_query_value()), RangeItem::Inclusive(end.into_query_value()))
    }
}

/// The bounds of a range filter: an inclusive start is `gte`, an exclusive
/// start `gt`, an inclusive end `lte`, an exclusive end `lt`; an unbounded
/// end sets nothing. Gives `(gte, gt, lte, lt)`.
pub open spec fn range_bounds(r: (RangeItem<QueryValue>, RangeItem<QueryValue>)) -> (
    Option<QueryValue>,
    Option<QueryValue>,
    Option<QueryValue>,
    Option<QueryValue>,
) {
    (
        match r.0 {
            RangeItem::Inclusive(i) => Some(i),
            _ => None,
        },
        match r.0 {
            RangeItem::Exclusive(i) => Some(i),
            _ => None,
        },
        match r.1 {
            RangeItem::Inclusive(i) => Some(i),
            _ => None,
        },
        match r.1 {
            RangeItem::Exclusive(i) => Some(i),
            _ => None,
        },
    )
}

/// A pair `(a, b)` is read as an inclusive start at `a` and an exclusive
/// end at `b`: as a range filter it sets `gte` to `a` and `lt` to `b`, and
/// nothing else.
pub proof fn lemma_pair_range_bounds<T: IntoQueryValue>(a: T, b: T)
    ensures
        (a, b).query_range_spec() == (
            RangeItem::Inclusive(a.query_value_spec()),
            RangeItem::Exclusive(b.query_value_spec()),
        ),
        range_bounds((a, b).query_range_spec()) == (
            Some(a.query_value_spec()),
            None::<QueryValue>,
            None::<QueryValue>,
            Some(b.query_value_spec()),
        ),
{
}

/// Each of std's ranges sets the bounds that its own syntax names: `a..b`
/// gives `gte = a, lt = b`; `a..` gives `gte = a`; `..b` gives `lt = b`;
/// `..=b` gives `lte = b`; `a..=b` gives `gte = a, lte = b`; `..` gives no
/// bound at all.
pub proof fn lemma_std_range_bounds<T: IntoQueryValue>(
    r: std::ops::Range<T>,
    f: std::ops::RangeFrom<T>,
    t: std::ops::RangeTo<T>,
    ti: std::ops::RangeToInclusive<T>,
    ri: std::ops::RangeInclusive<T>,
    full: std::ops::RangeFull,
)
    ensures
        range_bounds(r.query_range_spec()) == (
            Some(r.start.query_value_spec()),
            None::<QueryValue>,
            None::<QueryValue>,
            Some(r.end.query_value_spec()),
        ),
        range_bounds(f.query_range_spec()) == (
            Some(f.start.query_value_spec()),
            None::<QueryValue>,
            None::<QueryValue>,
            None::<QueryValue>,
        ),
        range_bounds(t.query_range_spec()) == (
            None::<QueryValue>,
            None::<QueryValue>,
            None::<QueryValue>,
            Some(t.end.query_value_spec()),
        ),
        range_bounds(ti.query_range_spec()) == (
            None::<QueryValue>,
            None::<QueryValue>,
            Some(ti.end.query_value_spec()),
            None::<QueryValue>,
        ),
        range_bounds(ri.query_range_spec()) == (
            Some(ri@.start.query_value_spec()),
            None::<QueryValue>,
            Some(ri@.end.query_value_spec()),
            None::<QueryValue>,
        ),
        range_bounds(full.query_range_spec()) == (
            None::<QueryValue>,
            None::<QueryValue>,
            None::<QueryValue>,
            None::<QueryValue>,
        ),
{
}

fn split_range(r: (RangeItem<QueryValue>, RangeItem<QueryValue>)) -> (b: (
    Option<QueryValue>,
    Option<QueryValue>,
    Option<QueryValue>,
    Option<QueryValue>,
))
    ensures
        b == range_bounds(r),
{
    let (start, end) = r;
    let mut lte = None;
    let mut gte = None;
    let mut lt = None;
    let mut gt = None;
    match start {
        RangeItem::Inclusive(i) => gte = Some(i),
        RangeItem::Exclusive(i) => gt = Some(i),
        RangeItem::Empty => (),
    }
    match end {
        RangeItem::Inclusive(i) => lte = Some(i),
        RangeItem::Exclusive(i) => lt = Some(i),
        RangeItem::Empty => (),
    }
    (gte, gt, lte, lt)
}

/// Create an `Equals` filter. `property = value`
pub fn equals<P: PropertyIdentifier>(property: P, value: QueryValue) -> (r: AdvancedFilter)
    ensures
        r matches AdvancedFilter::Equals { property: p, value: v } && p.deep_view()
            == property.identifier_spec() && v == value,
{
    AdvancedFilter::Equals { property: property.into_identifier(), value }
}

/// Create an `In` filter. `property IN values`
pub fn is_in<P: PropertyIdentifier>(property: P, values: QueryValue) -> (r: AdvancedFilter)
    ensures
        r matches AdvancedFilter::In { property: p, values: v } && p.deep_view()
            == property.identifier_spec() && v == values,
{
    AdvancedFilter::In { property: property.into_identifier(), values }
}

/// Create a `Range` filter.
pub fn range<P: PropertyIdentifier, R: IntoQueryRange>(property: P, bounds: R) -> (r: AdvancedFilter)
    ensures
        r matches AdvancedFilter::Range { property: p, gte, gt, lte, lt } && p.deep_view()
            == property.identifier_spec() && (gte, gt, lte, lt) == range_bounds(
            bounds.query_range_spec(),
        ),
{
    let (gte, gt, lte, lt) = split_range(bounds.into_query_range());
    AdvancedFilter::Range { property: property.into_identifier(), gte, gt, lte, lt }
}

/// Create a `Prefix` filter, `property STARTS WITH value`
pub fn prefix<P: PropertyIdentifier>(property: P, value: String) -> (r: AdvancedFilter)
    ensures
        r matches AdvancedFilter::Prefix { property: p, value: v } && p.deep_view()
            == property.identifier_spec() && v == value,
{
    AdvancedFilter::Prefix { property: property.into_identifier(), value }
}

/// Create an `Exists` filter.
pub fn exists_filter<P: PropertyIdentifier>(property: P) -> (r: AdvancedFilter)
    ensures
        r matches AdvancedFilter::Exists { property: p } && p.deep_view()
            == property.identifier_spec(),
{
    AdvancedFilter::Exists { property: property.into_identifier() }
}

/// Create a `ContainsAny` filter.
pub fn contains_any<P: PropertyIdentifier>(property: P, values: QueryValue) -> (r: AdvancedFilter)
    ensures
        r matches AdvancedFilter::ContainsAny { property: p, values: v } && p.deep_view()
            == property.identifier_spec() && v == values,
{
    AdvancedFilter::ContainsAny { property: property.into_identifier(), values }
}

/// Create a `ContainsAll` filter.
pub fn contains_all<P: PropertyIdentifier>(property: P, values: QueryValue) -> (r: AdvancedFilter)
    ensures
        r matches AdvancedFilter::ContainsAll { property: p, values: v } && p.deep_view()
            == property.identifier_spec() && v == values,
{
    AdvancedFilter::ContainsAll { property: property.into_identifier(), values }
}

/// Create an empty `MatchAll` filter.
pub fn match_all() -> (r: AdvancedFilter)
    ensures
        r == (AdvancedFilter::MatchAll {}),
{
    AdvancedFilter::MatchAll {}
}

/// Create a nested filter.
pub fn nested<P: PropertyIdentifier>(scope: P, filter: AdvancedFilter) -> (r: AdvancedFilter)
    ensures
        r matches AdvancedFilter::Nested { scope: s, filter: f } && s.deep_view()
            == scope.identifier_spec() && *f == filter,
{
    AdvancedFilter::Nested { scope: scope.into_identifier(), filter: Box::new(filter) }
}

/// Construct an `Overlaps` filter.
pub fn overlaps<P: PropertyIdentifier, Q: PropertyIdentifier, R: IntoQueryRange>(
    start_property: P,
    end_property: Q,
    bounds: R,
) -> (r: AdvancedFilter)
    ensures
        r matches AdvancedFilter::Overlaps { start_property: s, end_property: e, gte, gt, lte, lt }
            && s.deep_view() == start_property.identifier_spec() && e.deep_view()
            == end_property.identifier_spec() && (gte, gt, lte, lt) == range_bounds(
            bounds.query_range_spec(),
        ),
{
    let (gte, gt, lte, lt) = split_range(bounds.into_query_range());
    AdvancedFilter::Overlaps {
        start_property: start_property.into_identifier(),
        end_property: end_property.into_identifier(),
        gte,
        gt,
        lte,
        lt,
    }
}

/// Construct a `HasData` filter.
pub fn has_data(references: Vec<SourceReference>) -> (r: AdvancedFilter)
    ensures
        r == AdvancedFilter::HasData(references),
{
    AdvancedFilter::HasData(references)
}

/// Construct a `not` filter.
pub fn not(filter: AdvancedFilter) -> (r: AdvancedFilter)
    ensures
        r == negation(filter),
{
    filter.not()
}

/// Construct an `and` filter from a vector of filters.
pub fn and(filters: Vec<AdvancedFilter>) -> (r: AdvancedFilter)
    ensures
        r == AdvancedFilter::And(filters),
{
    AdvancedFilter::And(filters)
}

/// Construct an `or` filter from a vector of filters.
pub fn or(filters: Vec<AdvancedFilter>) -> (r: AdvancedFilter)
    ensures
        r == AdvancedFilter::Or(filters),
{
    AdvancedFilter::Or(filters)
}

/// Filter for aggregating values.
pub enum AggregateFilter {
    /// Require the value to be in the list of `values`
    In {
        /// List of values.
        values: RawValue,
    },
    /// Require the value to be text and start with `prefix`.
    Prefix {
        /// String prefix.
        prefix: String,
    },
    /// Require the value to be within bounds.
    Range {
        /// Greater than or equal to
        gte: Option<RawValue>,
        /// Greater than
        gt: Option<RawValue>,
        /// Less than or equal to
        lte: Option<RawValue>,
        /// Less than
        lt: Option<RawValue>,
    },
    /// Require all these filters to match
    And(Vec<AggregateFilter>),
    /// Require at least one of these filters to match.
    Or(Vec<AggregateFilter>),
    /// Require this filter _not_ to match.
    Not(Box<AggregateFilter>),
}

impl Clone for AggregateFilter {
    fn clone(&self) -> (r: Self)
        decreases self,
    {
        match self {
            AggregateFilter::In { values } => AggregateFilter::In { values: values.clone() },
            AggregateFilter::Prefix { prefix } => AggregateFilter::Prefix { prefix: prefix.clone() },
            AggregateFilter::Range { gte, gt, lte, lt } => AggregateFilter::Range {
                gte: gte.clone(),
                gt: gt.clone(),
                lte: lte.clone(),
                lt: lt.clone(),
            },
            AggregateFilter::And(filters) => {
                let mut out: Vec<AggregateFilter> = Vec::new();
                let mut i: usize = 0;
                assert(decreases_to!(*self => *filters));
                while i < filters.len()
                    invariant
                        i <= filters@.len(),
                        decreases_to!(*self => *filters),
                    decreases filters@.len() - i,
                {
                    assert(decreases_to!(*filters => filters@));
                    assert(decreases_to!(filters@ => filters@[i as int]));
                    out.push(filters[i].clone());
                    i = i + 1;
                }
                AggregateFilter::And(out)
            },
            AggregateFilter::Or(filters) => {
                let mut out: Vec<AggregateFilter> = Vec::new();
                let mut i: usize = 0;
                assert(decreases_to!(*self => *filters));
                while i < filters.len()
                    invariant
                        i <= filters@.len(),
                        decreases_to!(*self => *filters),
                    decreases filters@.len() - i,
                {
                    assert(decreases_to!(*filters => filters@));
                    assert(decreases_to!(filters@ => filters@[i as int]));
                    out.push(filters[i].clone());
                    i = i + 1;
                }
                AggregateFilter::Or(out)
            },
            AggregateFilter::Not(filter) => {
                let inner: &AggregateFilter = filter;
                AggregateFilter::Not(Box::new(inner.clone()))
            },
        }
    }
}

/// The filters an aggregate filter requires all of.
pub open spec fn aggregate_conjuncts(f: AggregateFilter) -> Seq<AggregateFilter> {
    match f {
        AggregateFilter::And(a) => a@,
        _ => seq![f],
    }
}

/// The filters of which an aggregate filter requires one.
pub open spec fn aggregate_disjuncts(f: AggregateFilter) -> Seq<AggregateFilter> {
    match f {
        AggregateFilter::Or(a) => a@,
        _ => seq![f],
    }
}

impl AggregateFilter {
    /// Construct an `In` filter.
    pub fn is_in(values: RawValue) -> (r: Self)
        ensures
            r == (AggregateFilter::In { values }),
    {
        Self::In { values }
    }

    /// Construct a `Prefix` filter.
    pub fn prefix(prefix: String) -> (r: Self)
        ensures
            r == (AggregateFilter::Prefix { prefix }),
    {
        Self::Prefix { prefix }
    }

    /// Construct a `range` filter.
    pub fn range(gte: Option<RawValue>, gt: Option<RawValue>, lte: Option<RawValue>, lt: Option<
        RawValue,
    >) -> (r: Self)
        ensures
            r == (AggregateFilter::Range { gte, gt, lte, lt }),
    {
        Self::Range { gte, gt, lte, lt }
    }

    /// Construct a `not` filter: a `Not` is unwrapped, anything else is
    /// wrapped in one.
    pub fn not(filter: AggregateFilter) -> (r: Self)
        ensures
            r == (match filter {
                AggregateFilter::Not(n) => *n,
                _ => AggregateFilter::Not(Box::new(filter)),
            }),
    {
        match filter {
            Self::Not(n) => *n,
            _ => Self::Not(Box::new(filter)),
        }
    }

    /// Construct an `and` filter from this filter and another filter.
    pub fn and(self, filter: AggregateFilter) -> (r: Self)
        ensures
            r is And,
            aggregate_conjuncts(r) == aggregate_conjuncts(self).push(filter),
    {
        match self {
            Self::And(mut a) => {
                a.push(filter);
                Self::And(a)
            },
            _ => {
                let mut v: Vec<AggregateFilter> = Vec::new();
                v.push(self);
                v.push(filter);
                Self::And(v)
            },
        }
    }

    /// Construct an `or` filter from this filter and another filter.
    pub fn or(self, filter: AggregateFilter) -> (r: Self)
        ensures
            r is Or,
            aggregate_disjuncts(r) == aggregate_disjuncts(self).push(filter),
    {
        match self {
            Self::Or(mut a) => {
                a.push(filter);
                Self::Or(a)
            },
            _ => {
                let mut v: Vec<AggregateFilter> = Vec::new();
                v.push(self);
                v.push(filter);
                Self::Or(v)
            },
        }
    }
}

} // verus!
