//! Ranges, filters with cursors and limits, searches, and partitions.

use vstd::prelude::*;

use crate::identity::CogniteExternalId;
use crate::text::{
    all_digits, is_digit, lemma_nat_to_decimal_digits, lemma_parse_u32_of_decimal,
    nat_to_decimal, parse_u32, parse_u32_spec, push_char, u64_to_string,
};

verus! {

/// A range between two points.
#[derive(Clone)]
pub struct Range<T> {
    /// Upper bound.
    pub max: Option<T>,
    /// Lower bound.
    pub min: Option<T>,
}

impl<T> Range<T> {
    /// A range with the given bounds.
    pub fn new(min: Option<T>, max: Option<T>) -> (r: Range<T>)
        ensures
            r == (Range { min, max }),
    {
        Range::<T> { min, max }
    }
}

/// Trait implemented by types with a cursor, to allow automatic pagination.
pub trait SetCursor: Sized {
    /// The value with its cursor replaced by `cursor` and nothing else changed.
    spec fn with_cursor_spec(self, cursor: Option<String>) -> Self;

    /// Set cursor to the given value.
    fn set_cursor(&mut self, cursor: Option<String>)
        ensures
            *final(self) == old(self).with_cursor_spec(cursor),
    ;
}

/// A type wrapping a CDF filter, with cursor and limit.
pub struct Filter<T> {
    /// The filter.
    pub filter: T,
    /// Optional cursor for pagination.
    pub cursor: Option<String>,
    /// Maximum number of results.
    pub limit: Option<u32>,
}

impl<T> Filter<T> {
    /// Wrap a filter with a cursor and a limit.
    pub fn new(filter: T, cursor: Option<String>, limit: Option<u32>) -> (r: Filter<T>)
        ensures
            r == (Filter { filter, cursor, limit }),
    {
        Filter { filter, cursor, limit }
    }
}

impl<T> SetCursor for Filter<T> {
    open spec fn with_cursor_spec(self, cursor: Option<String>) -> Self {
        Filter { cursor, ..self }
    }

    fn set_cursor(&mut self, cursor: Option<String>) {
        self.cursor = cursor;
    }
}

/// A type wrapping a CDF filter and search, with limit.
pub struct Search<TFilter, TSearch> {
    /// The filter.
    pub filter: TFilter,
    /// The fuzzy search.
    pub search: TSearch,
    /// Maximum number of results.
    pub limit: Option<u32>,
}

impl<TFilter, TSearch> Search<TFilter, TSearch> {
    /// Wrap a filter and a search with a limit.
    pub fn new(filter: TFilter, search: TSearch, limit: Option<u32>) -> (r: Search<TFilter, TSearch>)
        ensures
            r == (Search { filter, search, limit }),
    {
        Search { filter, search, limit }
    }
}

/// Filter on labels.
#[derive(Clone)]
pub enum LabelsFilter {
    /// Match items with any of these labels.
    ContainsAny(Vec<CogniteExternalId>),
    /// Match items with all of these labels.
    ContainsAll(Vec<CogniteExternalId>),
}

/// A partition of a parallel read: partition `partition_number` of
/// `num_partitions`, written `N/M` in requests.
#[derive(Clone, Copy, PartialEq, Eq, Structural, Debug)]
pub struct Partition {
    /// Total number of partitions.
    pub num_partitions: u32,
    /// This partition's number, from 1.
    pub partition_number: u32,
}

impl Partition {
    /// Partition `partition_number` of `num_partitions`.
    pub fn new(partition_number: u32, num_partitions: u32) -> (r: Self)
        ensures
            r == (Partition { partition_number, num_partitions }),
    {
        Self { partition_number, num_partitions }
    }

    /// The text of a partition in requests: `partition_number/num_partitions`.
    pub fn to_string(&self) -> (r: String)
        ensures
            r@ == partition_text(*self),
            r@ == nat_to_decimal(self.partition_number as nat) + seq!['/'] + nat_to_decimal(
                self.num_partitions as nat,
            ),
    {
        let mut s = u64_to_string(self.partition_number as u64);
        push_char(&mut s, '/');
        let t = u64_to_string(self.num_partitions as u64);
        crate::text::push_str(&mut s, t.as_str());
        s
    }

    /// Read a partition from its text, `partition_number/num_partitions`:
    /// the text must be two `u32` values separated by one `/`.
    pub fn parse(v: &str) -> (r: Result<Partition, PartitionParseError>)
        ensures
            r == partition_parse_spec(v@),
            r matches Ok(p) ==> exists|k: int|
                0 <= k < v@.len() && v@[k] == '/' && parse_u32_spec(#[trigger] v@.take(k)) == Some(
                    p.partition_number,
                ) && parse_u32_spec(v@.skip(k + 1)) == Some(p.num_partitions),
    {
        let len = v.unicode_len();
        let mut slash: usize = 0;
        let mut count: usize = 0;
        let mut i: usize = 0;
        while i < len
            invariant
                i <= len,
                len == v@.len(),
                count == slash_count(v@.take(i as int)),
                count <= i,
                count >= 1 ==> slash < i && v@[slash as int] == '/' && slash_count(
                    v@.take(slash as int),
                ) == 0,
            decreases len - i,
        {
            let ghost prev = v@.take(i as int);
            assert(v@.take(i + 1).drop_last() =~= prev);
            if v.get_char(i) == '/' {
                if count == 0 {
                    slash = i;
                }
                count = count + 1;
            }
            i = i + 1;
        }
        assert(v@.take(len as int) =~= v@);
        if count != 1 {
            return Err(PartitionParseError::NotAPair);
        }
        assert(slash_index(v@) == slash) by {
            lemma_slash_index(v@, slash as int);
        }
        let lh = v.substring_char(0, slash);
        let rh = v.substring_char(slash + 1, len);
        let lh_v = parse_u32(lh);
        let rh_v = parse_u32(rh);
        match (lh_v, rh_v) {
            (Some(a), Some(b)) => {
                assert(v@.take(slash as int) == lh@ && v@.skip(slash + 1) == rh@);
                Ok(Partition { partition_number: a, num_partitions: b })
            },
            _ => Err(PartitionParseError::NotU32),
        }
    }
}

/// Why a partition text could not be read.
#[derive(Clone, Copy, PartialEq, Eq, Structural, Debug)]
pub enum PartitionParseError {
    /// The text is not two parts separated by one `/`.
    NotAPair,
    /// One of the two parts is not a `u32`.
    NotU32,
}

impl PartitionParseError {
    /// The message the deserializer reports for this error.
    pub fn message(&self) -> (r: &'static str)
        ensures
            r@ == (match self {
                PartitionParseError::NotAPair => "Expect a string on the form N/M"@,
                PartitionParseError::NotU32 => "Expected a string on the form u32/u32"@,
            }),
    {
        match self {
            PartitionParseError::NotAPair => "Expect a string on the form N/M",
            PartitionParseError::NotU32 => "Expected a string on the form u32/u32",
        }
    }
}

/// The text of a partition: `partition_number/num_partitions` in decimal.
pub open spec fn partition_text(p: Partition) -> Seq<char> {
    nat_to_decimal(p.partition_number as nat) + seq!['/'] + nat_to_decimal(p.num_partitions as nat)
}

/// Number of `/` characters in `s`.
pub open spec fn slash_count(s: Seq<char>) -> nat
    decreases s.len(),
{
    if s.len() == 0 {
        0
    } else {
        slash_count(s.drop_last()) + if s.last() == '/' { 1nat } else { 0nat }
    }
}

/// Position of the first `/` in `s`.
pub open spec fn slash_index(s: Seq<char>) -> int {
    choose|k: int| 0 <= k < s.len() && s[k] == '/' && slash_count(s.take(k)) == 0
}

proof fn lemma_slash_count_take(s: Seq<char>, a: int, b: int)
    requires
        0 <= a <= b <= s.len(),
    ensures
        slash_count(s.take(a)) <= slash_count(s.take(b)),
    decreases b - a,
{
    if a < b {
        lemma_slash_count_take(s, a, b - 1);
        assert(s.take(b).drop_last() =~= s.take(b - 1));
    }
}

proof fn lemma_slash_index(s: Seq<char>, k: int)
    requires
        0 <= k < s.len(),
        s[k] == '/',
        slash_count(s.take(k)) == 0,
    ensures
        slash_index(s) == k,
{
    let j = slash_index(s);
    assert(exists|k: int| 0 <= k < s.len() && s[k] == '/' && slash_count(s.take(k)) == 0);
    if j != k {
        if j < k {
            lemma_slash_count_take(s, j + 1, k);
            assert(s.take(j + 1).drop_last() =~= s.take(j));
        } else {
            lemma_slash_count_take(s, k + 1, j);
            assert(s.take(k + 1).drop_last() =~= s.take(k));
        }
    }
}

/// What reading a partition text gives: exactly one `/` is required, and
/// both sides must read as `u32`; the text is read as it is written,
/// `partition_number/num_partitions`.
pub open spec fn partition_parse_spec(v: Seq<char>) -> Result<Partition, PartitionParseError> {
    if slash_count(v) != 1 {
        Err(PartitionParseError::NotAPair)
    } else {
        let k = slash_index(v);
        match (parse_u32_spec(v.take(k)), parse_u32_spec(v.skip(k + 1))) {
            (Some(a), Some(b)) => Ok(Partition { partition_number: a, num_partitions: b }),
            _ => Err(PartitionParseError::NotU32),
        }
    }
}

proof fn lemma_digits_no_slash(d: Seq<char>)
    requires
        all_digits(d),
    ensures
        slash_count(d) == 0,
    decreases d.len(),
{
    if d.len() > 0 {
        assert(is_digit(d[d.len() - 1]));
        assert(all_digits(d.drop_last())) by {
            assert forall|i: int| 0 <= i < d.drop_last().len() implies is_digit(
                #[trigger] d.drop_last()[i],
            ) by {
                assert(d.drop_last()[i] == d[i]);
            }
        }
        lemma_digits_no_slash(d.drop_last());
    }
}

proof fn lemma_slash_count_concat(a: Seq<char>, b: Seq<char>)
    ensures
        slash_count(a + b) == slash_count(a) + slash_count(b),
    decreases b.len(),
{
    if b.len() > 0 {
        lemma_slash_count_concat(a, b.drop_last());
        assert((a + b).drop_last() =~= a + b.drop_last());
    } else {
        assert(a + b =~= a);
    }
}

/// Every partition reads back from its text unchanged.
pub proof fn lemma_partition_roundtrip(p: Partition)
    ensures
        partition_parse_spec(partition_text(p)) == Ok::<Partition, PartitionParseError>(p),
{
    let d1 = nat_to_decimal(p.partition_number as nat);
    let d2 = nat_to_decimal(p.num_partitions as nat);
    let t = partition_text(p);
    lemma_nat_to_decimal_digits(p.partition_number as nat);
    lemma_nat_to_decimal_digits(p.num_partitions as nat);
    lemma_digits_no_slash(d1);
    lemma_digits_no_slash(d2);
    lemma_slash_count_concat(d1, seq!['/']);
    lemma_slash_count_concat(d1 + seq!['/'], d2);
    assert(slash_count(seq!['/']) == 1) by {
        assert(seq!['/'].drop_last() =~= Seq::<char>::empty());
        assert(slash_count(Seq::<char>::empty()) == 0);
        assert(seq!['/'].last() == '/');
    }
    let k = d1.len() as int;
    assert(t.take(k) =~= d1);
    assert(t[k] == '/');
    lemma_slash_index(t, k);
    assert(t.skip(k + 1) =~= d2);
    lemma_parse_u32_of_decimal(p.partition_number);
    lemma_parse_u32_of_decimal(p.num_partitions);
}

/// The partitions of a partitioned read in `n` parts: `1/n`, `2/n`, ..., `n/n`.
pub fn partitions_for(n: u32) -> (r: Vec<Partition>)
    ensures
        r@ == Seq::new(
            n as nat,
            |i: int| Partition { partition_number: (i + 1) as u32, num_partitions: n },
        ),
{
    let mut r: Vec<Partition> = Vec::new();
    let mut i: u32 = 0;
    while i < n
        invariant
            i <= n,
            r@ =~= Seq::new(
                i as nat,
                |k: int| Partition { partition_number: (k + 1) as u32, num_partitions: n },
            ),
        decreases n - i,
    {
        r.push(Partition::new(i + 1, n));
        i = i + 1;
    }
    r
}

/// A wrapper around a filter, with cursor, limit, and partition.
pub struct PartitionedFilter<T> {
    /// The filter.
    pub filter: T,
    /// Optional cursor for pagination.
    pub cursor: Option<String>,
    /// Maximum number of results.
    pub limit: Option<u32>,
    /// Optional partition.
    pub partition: Option<Partition>,
}

impl<T> PartitionedFilter<T> {
    /// Wrap a filter with a cursor, a limit and a partition.
    pub fn new(filter: T, cursor: Option<String>, limit: Option<u32>, partition: Option<Partition>) -> (r:
        PartitionedFilter<T>)
        ensures
            r == (PartitionedFilter { filter, cursor, limit, partition }),
    {
        PartitionedFilter { filter, cursor, limit, partition }
    }
}

impl<T> SetCursor for PartitionedFilter<T> {
    open spec fn with_cursor_spec(self, cursor: Option<String>) -> Self {
        PartitionedFilter { cursor, ..self }
    }

    fn set_cursor(&mut self, cursor: Option<String>) {
        self.cursor = cursor;
    }
}

/// Trait implemented by types with a partition, to allow automatic handling of partitions.
pub trait WithPartition: Sized {
    /// The partition a value reads.
    spec fn partition_of(&self) -> Option<Partition>;

    /// Create a clone of self with given partition.
    fn with_partition(&self, partition: Partition) -> (r: Self)
        ensures
            r.partition_of() == Some(partition),
    ;
}

impl<T: Clone> WithPartition for PartitionedFilter<T> {
    open spec fn partition_of(&self) -> Option<Partition> {
        self.partition
    }

    fn with_partition(&self, partition: Partition) -> (r: Self)
        ensures
            r.partition == Some(partition),
            cloned::<T>(self.filter, r.filter),
            r.cursor.is_none(),
            r.limit == self.limit,
    {
        Self {
            filter: self.filter.clone(),
            cursor: None,
            limit: self.limit,
            partition: Some(partition),
        }
    }
}

} // verus!
