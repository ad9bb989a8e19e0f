//! Query parameters: the `(name, value)` pairs of a request's query string.

use vstd::prelude::*;

use crate::filter_types::{partition_text, Partition};
use crate::identity::{join_commas, json_array};
use crate::json::{json_string, write_json_string};
use crate::text::{i64_to_string, int_to_decimal, nat_to_decimal, push_str, u64_to_string};

verus! {

/// A value written as text in a query string.
pub trait ToQueryText {
    /// The text of the value.
    spec fn query_text(&self) -> Seq<char>;

    /// Write the value as text.
    fn to_query_text(&self) -> (r: String)
        ensures
            r@ == self.query_text(),
    ;
}

impl ToQueryText for i32 {
    open spec fn query_text(&self) -> Seq<char> {
        int_to_decimal(*self as int)
    }

    fn to_query_text(&self) -> (r: String) {
        i64_to_string(*self as i64)
    }
}

impl ToQueryText for i64 {
    open spec fn query_text(&self) -> Seq<char> {
        int_to_decimal(*self as int)
    }

    fn to_query_text(&self) -> (r: String) {
        i64_to_string(*self)
    }
}

impl ToQueryText for u32 {
    open spec fn query_text(&self) -> Seq<char> {
        nat_to_decimal(*self as nat)
    }

    fn to_query_text(&self) -> (r: String) {
        u64_to_string(*self as u64)
    }
}

impl ToQueryText for bool {
    open spec fn query_text(&self) -> Seq<char> {
        if *self {
            "true"@
        } else {
            "false"@
        }
    }

    fn to_query_text(&self) -> (r: String) {
        if *self {
            "true".to_owned()
        } else {
            "false".to_owned()
        }
    }
}

impl ToQueryText for String {
    open spec fn query_text(&self) -> Seq<char> {
        self@
    }

    fn to_query_text(&self) -> (r: String) {
        self.clone()
    }
}

impl ToQueryText for Partition {
    open spec fn query_text(&self) -> Seq<char> {
        partition_text(*self)
    }

    fn to_query_text(&self) -> (r: String) {
        self.to_string()
    }
}

/// The text of an optional value.
pub open spec fn opt_text<T: ToQueryText>(v: Option<T>) -> Option<Seq<char>> {
    match v {
        Some(x) => Some(x.query_text()),
        None => None,
    }
}

/// The parameters for one optional value: one pair when it is present,
/// none when it is absent.
pub open spec fn param(name: Seq<char>, value: Option<Seq<char>>) -> Seq<(Seq<char>, Seq<char>)> {
    match value {
        Some(v) => seq![(name, v)],
        None => Seq::empty(),
    }
}

/// The values of the pairs named `name`, in order.
#[verifier::opaque]
pub open spec fn named_values(ps: Seq<(Seq<char>, Seq<char>)>, name: Seq<char>) -> Seq<Seq<char>> {
    ps.filter(|p: (Seq<char>, Seq<char>)| p.0 == name).map_values(|p: (Seq<char>, Seq<char>)| p.1)
}

/// The present value as a sequence of one item, the absent one as an
/// empty sequence.
pub open spec fn present<T>(v: Option<T>) -> Seq<T> {
    match v {
        Some(x) => seq![x],
        None => Seq::empty(),
    }
}

/// The values named `name` in two lists of pairs put together are those of
/// the first list, then those of the second.
pub broadcast proof fn lemma_named_values_add(
    a: Seq<(Seq<char>, Seq<char>)>,
    b: Seq<(Seq<char>, Seq<char>)>,
    name: Seq<char>,
)
    ensures
        #[trigger] named_values(a + b, name) == named_values(a, name) + named_values(b, name),
{
    reveal(named_values);
    let pred = |p: (Seq<char>, Seq<char>)| p.0 == name;
    let f = |p: (Seq<char>, Seq<char>)| p.1;
    Seq::filter_distributes_over_add(a, b, pred);
    assert((a + b).filter(pred).map_values(f) =~= a.filter(pred).map_values(f) + b.filter(pred).map_values(f));
}

/// The parameters for one optional value hold its text under its own name,
/// and nothing under any other name.
pub broadcast proof fn lemma_named_values_param(n: Seq<char>, value: Option<Seq<char>>, name: Seq<char>)
    ensures
        #[trigger] named_values(param(n, value), name) == if n == name {
            present(value)
        } else {
            Seq::empty()
        },
{
    reveal(named_values);
    let pred = |p: (Seq<char>, Seq<char>)| p.0 == name;
    let f = |p: (Seq<char>, Seq<char>)| p.1;
    reveal_with_fuel(Seq::filter, 2);
    match value {
        Some(v) => {
            let s = seq![(n, v)];
            assert(s.drop_last() =~= Seq::<(Seq<char>, Seq<char>)>::empty());
            if n == name {
                assert(s.filter(pred).map_values(f) =~= seq![v]);
            } else {
                assert(s.filter(pred).map_values(f) =~= Seq::empty());
            }
        },
        None => {
            assert(Seq::<(Seq<char>, Seq<char>)>::empty().filter(pred).map_values(f) =~= Seq::empty());
        },
    }
}

/// Add `name` with the text of `value` to `params` when `value` is present.
pub fn to_query<T: ToQueryText>(name: &str, value: &Option<T>, params: &mut Vec<(String, String)>)
    ensures
        final(params).deep_view() == old(params).deep_view() + param(name@, opt_text(*value)),
{
    match value {
        Some(v) => {
            let t = v.to_query_text();
            let ghost before = params.deep_view();
            params.push((name.to_owned(), t));
            assert(params.deep_view() =~= before + param(name@, opt_text(*value)));
        },
        None => {
            assert(old(params).deep_view() + param(name@, opt_text(*value)) =~= old(
                params,
            ).deep_view());
        },
    }
}

/// JSON array text of a list of integers.
pub open spec fn int_array_text(v: Seq<i64>) -> Seq<char> {
    json_array(v.map_values(|x: i64| int_to_decimal(x as int)))
}

/// JSON array text of a list of strings.
pub open spec fn string_array_text(v: Seq<Seq<char>>) -> Seq<char> {
    json_array(v.map_values(|x: Seq<char>| json_string(x)))
}

/// The JSON array text of an optional list of integers.
pub open spec fn opt_int_array_text(value: Option<Vec<i64>>) -> Option<Seq<char>> {
    match value {
        Some(v) => Some(int_array_text(v@)),
        None => None,
    }
}

/// The JSON array text of an optional list of strings.
pub open spec fn opt_string_array_text(value: Option<Vec<String>>) -> Option<Seq<char>> {
    match value {
        Some(v) => Some(string_array_text(v.deep_view())),
        None => None,
    }
}

/// Add `name` with the JSON array of `value` to `params` when `value` is present.
pub fn to_query_vec_i64(name: &str, value: &Option<Vec<i64>>, params: &mut Vec<(String, String)>)
    ensures
        final(params).deep_view() == old(params).deep_view() + param(name@, opt_int_array_text(*value)),
{
    match value {
        Some(v) => {
            let mut s = String::new();
            push_str(&mut s, "[");
            let ghost start = s@;
            let ghost texts = v@.map_values(|x: i64| int_to_decimal(x as int));
            let mut i: usize = 0;
            while i < v.len()
                invariant
                    i <= v@.len(),
                    texts == v@.map_values(|x: i64| int_to_decimal(x as int)),
                    s@ == start + join_commas(texts.take(i as int)),
                decreases v@.len() - i,
            {
                if i > 0 {
                    push_str(&mut s, ",");
                }
                let t = i64_to_string(v[i]);
                push_str(&mut s, t.as_str());
                assert(texts.take(i + 1).drop_last() =~= texts.take(i as int));
                i = i + 1;
            }
            assert(texts.take(v@.len() as int) =~= texts);
            push_str(&mut s, "]");
            let ghost before = params.deep_view();
            params.push((name.to_owned(), s));
            assert(params.deep_view() =~= before + seq![(name@, int_array_text(v@))]);
        },
        None => {
            assert(old(params).deep_view() + param(name@, None) =~= old(params).deep_view());
        },
    }
}

/// Add `name` with the JSON array of `value` to `params` when `value` is present.
pub fn to_query_vec(name: &str, value: &Option<Vec<String>>, params: &mut Vec<(String, String)>)
    ensures
        final(params).deep_view() == old(params).deep_view() + param(name@, opt_string_array_text(*value)),
{
    match value {
        Some(v) => {
            let mut s = String::new();
            push_str(&mut s, "[");
            let ghost start = s@;
            let ghost texts = v.deep_view().map_values(|x: Seq<char>| json_string(x));
            let mut i: usize = 0;
            while i < v.len()
                invariant
                    i <= v@.len(),
                    texts == v.deep_view().map_values(|x: Seq<char>| json_string(x)),
                    s@ == start + join_commas(texts.take(i as int)),
                decreases v@.len() - i,
            {
                if i > 0 {
                    push_str(&mut s, ",");
                }
                write_json_string(&mut s, v[i].as_str());
                assert(texts.take(i + 1).drop_last() =~= texts.take(i as int));
                i = i + 1;
            }
            assert(texts.take(v@.len() as int) =~= texts);
            push_str(&mut s, "]");
            let ghost before = params.deep_view();
            params.push((name.to_owned(), s));
            assert(params.deep_view() =~= before + seq![(name@, string_array_text(v.deep_view()))]);
        },
        None => {
            assert(old(params).deep_view() + param(name@, None) =~= old(params).deep_view());
        },
    }
}

/// The strings joined with commas, as one string.
pub fn join_with_commas(v: &Vec<String>) -> (r: String)
    ensures
        r@ == join_commas(v.deep_view()),
{
    let mut s = String::new();
    let ghost texts = v.deep_view();
    let mut i: usize = 0;
    while i < v.len()
        invariant
            i <= v@.len(),
            texts == v.deep_view(),
            s@ == join_commas(texts.take(i as int)),
        decreases v@.len() - i,
    {
        if i > 0 {
            push_str(&mut s, ",");
        }
        push_str(&mut s, v[i].as_str());
        assert(texts.take(i + 1).drop_last() =~= texts.take(i as int));
        i = i + 1;
    }
    assert(texts.take(v@.len() as int) =~= texts);
    s
}

/// Types that are query parameters themselves.
pub trait IntoParams: Sized {
    /// The parameter pairs of the value, in order.
    spec fn params_spec(self) -> Seq<(Seq<char>, Seq<char>)>;

    /// The parameter pairs of the value, in order.
    fn into_params(self) -> (r: Vec<(String, String)>)
        ensures
            r.deep_view() == self.params_spec(),
    ;
}

/// Types that convert into a list of query parameter pairs.
pub trait AsParams: Sized {
    /// The parameter pairs of the value, in order.
    spec fn tuples_spec(self) -> Seq<(Seq<char>, Seq<char>)>;

    /// The parameter pairs of the value, in order.
    fn to_tuples(self) -> (r: Vec<(String, String)>)
        ensures
            r.deep_view() == self.tuples_spec(),
    ;
}

} // verus!
