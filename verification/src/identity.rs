//! Identities of CDF resources: internal IDs, external IDs and data modeling
//! instance IDs, and lists of them as sent in requests.

use vstd::prelude::*;

use crate::json::{json_string, write_json_string};
use crate::models::instances::{
    instance_id_json, write_instance_id_json, InstanceId, InstanceIdModel,
};
use crate::text::{i64_to_string, int_to_decimal, push_str};

verus! {

/// An Identity represents a CDF resource either by internal ID or external ID.
pub enum Identity {
    /// Identity by CDF internal ID.
    Id {
        /// Numerical internal ID.
        id: i64,
    },
    /// Identity by CDF external ID.
    ExternalId {
        /// External ID, unique for the given resource.
        external_id: String,
    },
}

/// The value an [`Identity`] stands for.
pub enum IdentityModel {
    /// Internal ID.
    Id(i64),
    /// External ID.
    ExternalId(Seq<char>),
}

impl View for Identity {
    type V = IdentityModel;

    open spec fn view(&self) -> IdentityModel {
        match self {
            Identity::Id { id } => IdentityModel::Id(*id),
            Identity::ExternalId { external_id } => IdentityModel::ExternalId(external_id@),
        }
    }
}

impl Clone for Identity {
    fn clone(&self) -> (r: Self)
        ensures
            r@ == self@,
    {
        match self {
            Identity::Id { id } => Identity::Id { id: *id },
            Identity::ExternalId { external_id } => Identity::ExternalId {
                external_id: external_id.clone(),
            },
        }
    }
}

impl PartialEq for Identity {
    fn eq(&self, other: &Self) -> (r: bool) {
        match (self, other) {
            (Identity::Id { id: a }, Identity::Id { id: b }) => *a == *b,
            (Identity::ExternalId { external_id: a }, Identity::ExternalId { external_id: b }) => {
                a.eq(b)
            },
            _ => false,
        }
    }
}

impl vstd::std_specs::cmp::PartialEqSpecImpl for Identity {
    open spec fn obeys_eq_spec() -> bool {
        true
    }

    open spec fn eq_spec(&self, other: &Identity) -> bool {
        self@ == other@
    }
}

impl Identity {
    /// Create an identity using a CDF internal ID.
    pub fn id(id: i64) -> (r: Self)
        ensures
            r == (Identity::Id { id }),
    {
        Identity::Id { id }
    }

    /// Create an identity using a CDF external ID.
    pub fn external_id(external_id: &str) -> (r: Self)
        ensures
            r@ == IdentityModel::ExternalId(external_id@),
    {
        Identity::ExternalId { external_id: external_id.to_owned() }
    }

    /// Consume self and return Some if this is an external ID.
    pub fn into_external_id(self) -> (r: Option<String>)
        ensures
            r == (match self {
                Identity::ExternalId { external_id } => Some(external_id),
                _ => None,
            }),
    {
        match self {
            Identity::ExternalId { external_id } => Some(external_id),
            _ => None,
        }
    }

    /// Consume self and return Some if this is an internal ID.
    pub fn into_id(self) -> (r: Option<i64>)
        ensures
            r == (match self {
                Identity::Id { id } => Some(id),
                _ => None,
            }),
    {
        match self {
            Identity::Id { id } => Some(id),
            _ => None,
        }
    }

    /// Get self as external ID.
    pub fn as_external_id(&self) -> (r: Option<&String>)
        ensures
            r == (match self {
                Identity::ExternalId { external_id } => Some(external_id),
                _ => None,
            }),
    {
        match self {
            Identity::ExternalId { external_id } => Some(external_id),
            _ => None,
        }
    }

    /// Get self as internal ID.
    pub fn as_id(&self) -> (r: Option<i64>)
        ensures
            r == (match self {
                Identity::Id { id } => Some(*id),
                _ => None,
            }),
    {
        match self {
            Identity::Id { id } => Some(*id),
            _ => None,
        }
    }
}

impl Default for Identity {
    fn default() -> (r: Self)
        ensures
            r == (Identity::Id { id: 0 }),
    {
        Identity::Id { id: 0 }
    }
}

impl From<i64> for Identity {
    fn from(id: i64) -> (r: Self) {
        Identity::Id { id }
    }
}

impl vstd::std_specs::convert::FromSpecImpl<i64> for Identity {
    open spec fn obeys_from_spec() -> bool {
        true
    }

    open spec fn from_spec(v: i64) -> Identity {
        Identity::Id { id: v }
    }
}

impl From<String> for Identity {
    fn from(external_id: String) -> (r: Self) {
        Identity::ExternalId { external_id }
    }
}

impl vstd::std_specs::convert::FromSpecImpl<String> for Identity {
    open spec fn obeys_from_spec() -> bool {
        true
    }

    open spec fn from_spec(v: String) -> Identity {
        Identity::ExternalId { external_id: v }
    }
}

/// Wrapper around a cognite internal ID.
pub struct CogniteId {
    /// Internal ID.
    pub id: i64,
}

impl From<i64> for CogniteId {
    fn from(id: i64) -> (r: Self) {
        CogniteId { id }
    }
}

impl vstd::std_specs::convert::FromSpecImpl<i64> for CogniteId {
    open spec fn obeys_from_spec() -> bool {
        true
    }

    open spec fn from_spec(v: i64) -> CogniteId {
        CogniteId { id: v }
    }
}

impl View for CogniteId {
    type V = i64;

    open spec fn view(&self) -> i64 {
        self.id
    }
}

/// Wrapper around a cognite external ID.
pub struct CogniteExternalId {
    /// External ID.
    pub external_id: String,
}

impl View for CogniteExternalId {
    type V = Seq<char>;

    open spec fn view(&self) -> Seq<char> {
        self.external_id@
    }
}

impl Clone for CogniteExternalId {
    fn clone(&self) -> (r: Self)
        ensures
            r.external_id@ == self.external_id@,
    {
        CogniteExternalId { external_id: self.external_id.clone() }
    }
}

impl From<String> for CogniteExternalId {
    fn from(external_id: String) -> (r: Self) {
        CogniteExternalId { external_id }
    }
}

impl vstd::std_specs::convert::FromSpecImpl<String> for CogniteExternalId {
    open spec fn obeys_from_spec() -> bool {
        true
    }

    open spec fn from_spec(v: String) -> CogniteExternalId {
        CogniteExternalId { external_id: v }
    }
}

impl CogniteExternalId {
    /// Create an external ID wrapper from a string slice.
    pub fn new(external_id: &str) -> (r: Self)
        ensures
            r.external_id@ == external_id@,
    {
        CogniteExternalId { external_id: external_id.to_owned() }
    }
}

/// Trait indicating that a type can be compared to an identity.
pub trait EqIdentity {
    /// Whether the identity `id` points to `self`.
    spec fn matches_identity(&self, id: IdentityModel) -> bool;

    /// Return true if the identity given by `id` points to self.
    fn eq(&self, id: &Identity) -> (r: bool)
        ensures
            r == self.matches_identity(id@),
    ;
}

/// Identity or instance ID.
pub enum IdentityOrInstance {
    /// Identity, external ID or internal ID.
    Identity(Identity),
    /// Instance ID, refering to a node in data modeling.
    InstanceId {
        /// Instance id.
        instance_id: InstanceId,
    },
}

/// The value an [`IdentityOrInstance`] stands for.
pub enum IdentityOrInstanceModel {
    /// Internal or external ID.
    Identity(IdentityModel),
    /// Data modeling instance ID.
    InstanceId(InstanceIdModel),
}

impl View for IdentityOrInstance {
    type V = IdentityOrInstanceModel;

    open spec fn view(&self) -> IdentityOrInstanceModel {
        match self {
            IdentityOrInstance::Identity(i) => IdentityOrInstanceModel::Identity(i@),
            IdentityOrInstance::InstanceId { instance_id } => IdentityOrInstanceModel::InstanceId(
                instance_id@,
            ),
        }
    }
}

impl Clone for IdentityOrInstance {
    fn clone(&self) -> (r: Self)
        ensures
            r@ == self@,
    {
        match self {
            IdentityOrInstance::Identity(i) => IdentityOrInstance::Identity(i.clone()),
            IdentityOrInstance::InstanceId { instance_id } => IdentityOrInstance::InstanceId {
                instance_id: instance_id.clone(),
            },
        }
    }
}

impl IdentityOrInstance {
    /// Create a new IdentityOrInstance using an internal ID.
    pub fn id(id: i64) -> (r: Self)
        ensures
            r == IdentityOrInstance::Identity(Identity::Id { id }),
    {
        Self::Identity(Identity::id(id))
    }

    /// Create a new IdentityOrInstance using an external ID.
    pub fn external_id(external_id: &str) -> (r: Self)
        ensures
            r@ == IdentityOrInstanceModel::Identity(IdentityModel::ExternalId(external_id@)),
    {
        Self::Identity(Identity::external_id(external_id))
    }

    /// Create a new IdentityOrInstance using an instance ID.
    pub fn instance_id(instance_id: InstanceId) -> (r: Self)
        ensures
            r == (IdentityOrInstance::InstanceId { instance_id }),
    {
        Self::InstanceId { instance_id }
    }

    /// Get self as internal ID.
    pub fn as_id(&self) -> (r: Option<i64>)
        ensures
            r == (match self {
                IdentityOrInstance::Identity(Identity::Id { id }) => Some(*id),
                _ => None,
            }),
    {
        match self {
            Self::Identity(i) => i.as_id(),
            _ => None,
        }
    }

    /// Get self as external ID.
    pub fn as_external_id(&self) -> (r: Option<&String>)
        ensures
            r == (match self {
                IdentityOrInstance::Identity(Identity::ExternalId { external_id }) => Some(
                    external_id,
                ),
                _ => None,
            }),
    {
        match self {
            Self::Identity(i) => i.as_external_id(),
            _ => None,
        }
    }

    /// Get self as identity.
    pub fn as_identity(&self) -> (r: Option<&Identity>)
        ensures
            r == (match self {
                IdentityOrInstance::Identity(i) => Some(i),
                _ => None,
            }),
    {
        match self {
            Self::Identity(i) => Some(i),
            _ => None,
        }
    }

    /// Get self as instance id.
    pub fn as_instance_id(&self) -> (r: Option<&InstanceId>)
        ensures
            r == (match self {
                IdentityOrInstance::InstanceId { instance_id } => Some(instance_id),
                _ => None,
            }),
    {
        match self {
            Self::InstanceId { instance_id: i } => Some(i),
            _ => None,
        }
    }

    /// Whether this is the internal ID `other` (`self == other` for an `i64`).
    pub fn eq_id(&self, other: i64) -> (r: bool)
        ensures
            r == (self@ == IdentityOrInstanceModel::Identity(IdentityModel::Id(other))),
    {
        match self.as_id() {
            Some(i) => i == other,
            None => false,
        }
    }

    /// Whether this is the external ID `other` (`self == other` for a `str`).
    pub fn eq_external_id(&self, other: &str) -> (r: bool)
        ensures
            r == (self@ == IdentityOrInstanceModel::Identity(IdentityModel::ExternalId(other@))),
    {
        match self.as_external_id() {
            Some(e) => crate::text::str_equal(e.as_str(), other),
            None => false,
        }
    }

    /// Whether this is the instance ID `other` (`self == other` for an `InstanceId`).
    pub fn eq_instance_id(&self, other: &InstanceId) -> (r: bool)
        ensures
            r == (self@ == IdentityOrInstanceModel::InstanceId(other@)),
    {
        match self.as_instance_id() {
            Some(i) => i.same_as(other),
            None => false,
        }
    }

    /// Whether this is the identity `other` (`self == other` for an `Identity`).
    pub fn eq_identity(&self, other: &Identity) -> (r: bool)
        ensures
            r == (self@ == IdentityOrInstanceModel::Identity(other@)),
    {
        match self.as_identity() {
            Some(i) => *i == *other,
            None => false,
        }
    }
}

impl Default for IdentityOrInstance {
    fn default() -> (r: Self)
        ensures
            r == IdentityOrInstance::Identity(Identity::Id { id: 0 }),
    {
        Self::Identity(Identity::Id { id: 0 })
    }
}

impl From<i64> for IdentityOrInstance {
    fn from(value: i64) -> (r: Self) {
        Self::Identity(Identity::Id { id: value })
    }
}

impl vstd::std_specs::convert::FromSpecImpl<i64> for IdentityOrInstance {
    open spec fn obeys_from_spec() -> bool {
        true
    }

    open spec fn from_spec(v: i64) -> IdentityOrInstance {
        IdentityOrInstance::Identity(Identity::Id { id: v })
    }
}

impl From<String> for IdentityOrInstance {
    fn from(value: String) -> (r: Self) {
        Self::Identity(Identity::ExternalId { external_id: value })
    }
}

impl vstd::std_specs::convert::FromSpecImpl<String> for IdentityOrInstance {
    open spec fn obeys_from_spec() -> bool {
        true
    }

    open spec fn from_spec(v: String) -> IdentityOrInstance {
        IdentityOrInstance::Identity(Identity::ExternalId { external_id: v })
    }
}

impl From<Identity> for IdentityOrInstance {
    fn from(value: Identity) -> (r: Self) {
        Self::Identity(value)
    }
}

impl vstd::std_specs::convert::FromSpecImpl<Identity> for IdentityOrInstance {
    open spec fn obeys_from_spec() -> bool {
        true
    }

    open spec fn from_spec(v: Identity) -> IdentityOrInstance {
        IdentityOrInstance::Identity(v)
    }
}

impl From<InstanceId> for IdentityOrInstance {
    fn from(value: InstanceId) -> (r: Self) {
        Self::InstanceId { instance_id: value }
    }
}

impl vstd::std_specs::convert::FromSpecImpl<InstanceId> for IdentityOrInstance {
    open spec fn obeys_from_spec() -> bool {
        true
    }

    open spec fn from_spec(v: InstanceId) -> IdentityOrInstance {
        IdentityOrInstance::InstanceId { instance_id: v }
    }
}


/// JSON object for an identity: `{"id":N}` or `{"externalId":"..."}`.
pub open spec fn identity_json(i: IdentityModel) -> Seq<char> {
    match i {
        IdentityModel::Id(n) => "{\"id\":"@ + int_to_decimal(n as int) + "}"@,
        IdentityModel::ExternalId(e) => "{\"externalId\":"@ + json_string(e) + "}"@,
    }
}

/// JSON object for an identity or an instance ID; an instance ID is
/// `{"instanceId":{"space":...,"externalId":...}}`.
pub open spec fn identity_or_instance_json(i: IdentityOrInstanceModel) -> Seq<char> {
    match i {
        IdentityOrInstanceModel::Identity(x) => identity_json(x),
        IdentityOrInstanceModel::InstanceId(x) => "{\"instanceId\":"@ + instance_id_json(x)
            + "}"@,
    }
}

/// The elements joined with commas.
pub open spec fn join_commas(items: Seq<Seq<char>>) -> Seq<char>
    decreases items.len(),
{
    if items.len() == 0 {
        Seq::empty()
    } else if items.len() == 1 {
        items[0]
    } else {
        join_commas(items.drop_last()) + ","@ + items.last()
    }
}

/// A JSON array of the given element texts.
pub open spec fn json_array(items: Seq<Seq<char>>) -> Seq<char> {
    "["@ + join_commas(items) + "]"@
}

/// Splits `s` into consecutive chunks of `n` elements; the last chunk holds
/// what is left and may be shorter. An empty sequence has no chunks.
pub open spec fn chunks_of<A>(s: Seq<A>, n: nat) -> Seq<Seq<A>>
    decreases s.len(),
{
    if s.len() == 0 || n == 0 {
        Seq::empty()
    } else if s.len() <= n {
        seq![s]
    } else {
        seq![s.take(n as int)] + chunks_of(s.skip(n as int), n)
    }
}

/// The chunks, put back together.
pub open spec fn flatten_chunks<A>(c: Seq<Seq<A>>) -> Seq<A>
    decreases c.len(),
{
    if c.len() == 0 {
        Seq::empty()
    } else {
        c[0] + flatten_chunks(c.drop_first())
    }
}

/// Chunking loses and reorders nothing: the chunks of `s`, put back
/// together, are `s`; every chunk holds between 1 and `n` elements, and
/// every chunk but the last holds exactly `n`.
pub proof fn lemma_chunks_of<A>(s: Seq<A>, n: nat)
    requires
        n > 0,
    ensures
        flatten_chunks(chunks_of(s, n)) == s,
        forall|k: int|
            0 <= k < chunks_of(s, n).len() ==> 0 < #[trigger] chunks_of(s, n)[k].len() <= n,
        forall|k: int|
            0 <= k < chunks_of(s, n).len() - 1 ==> #[trigger] chunks_of(s, n)[k].len() == n,
        chunks_of(s, n).len() == (s.len() + n - 1) / (n as int),
    decreases s.len(),
{
    let c = chunks_of(s, n);
    if s.len() == 0 {
        assert(c =~= Seq::<Seq<A>>::empty());
        assert(flatten_chunks(c) =~= s);
        assert((n - 1) / (n as int) == 0) by (nonlinear_arith)
            requires n > 0;
    } else if s.len() <= n {
        assert(c =~= seq![s]);
        assert(c.drop_first() =~= Seq::<Seq<A>>::empty());
        assert(flatten_chunks(Seq::<Seq<A>>::empty()) == Seq::<A>::empty());
        assert(flatten_chunks(c) == s + Seq::<A>::empty());
        assert(flatten_chunks(c) =~= s);
        let l = s.len();
        assert((l + n - 1) / (n as int) == 1) by (nonlinear_arith)
            requires 0 < l <= n;
    } else {
        let rest = s.skip(n as int);
        lemma_chunks_of(rest, n);
        assert(c =~= seq![s.take(n as int)] + chunks_of(rest, n));
        assert(c.drop_first() =~= chunks_of(rest, n));
        assert(c[0] == s.take(n as int));
        assert(flatten_chunks(c) == s.take(n as int) + flatten_chunks(chunks_of(rest, n)));
        assert(s.take(n as int) + rest =~= s);
        assert forall|k: int| 0 <= k < c.len() implies 0 < #[trigger] c[k].len() <= n by {
            if k > 0 {
                assert(c[k] == chunks_of(rest, n)[k - 1]);
            }
        }
        assert forall|k: int| 0 <= k < c.len() - 1 implies #[trigger] c[k].len() == n by {
            if k > 0 {
                assert(c[k] == chunks_of(rest, n)[k - 1]);
            }
        }
        let l = s.len();
        assert((l + n - 1) / (n as int) == (l - n + n - 1) / (n as int) + 1) by (nonlinear_arith)
            requires l > n, n > 0;
    }
}

/// A list of identities as sent in requests: serialises to a JSON array of
/// `{"id":..}` and `{"externalId":..}` objects, and can be split into chunks.
pub struct IdentityList {
    items: Vec<Identity>,
}

impl View for IdentityList {
    type V = Seq<IdentityModel>;

    closed spec fn view(&self) -> Seq<IdentityModel> {
        self.items@.map_values(|i: Identity| i@)
    }
}

fn clone_identities(s: &[Identity], from: usize, to: usize) -> (r: Vec<Identity>)
    requires
        from <= to <= s@.len(),
    ensures
        r@.map_values(|i: Identity| i@) == s@.subrange(from as int, to as int).map_values(
            |i: Identity| i@,
        ),
{
    let mut r: Vec<Identity> = Vec::new();
    let mut i = from;
    while i < to
        invariant
            from <= i <= to <= s@.len(),
            r@.len() == i - from,
            forall|k: int| 0 <= k < r@.len() ==> (#[trigger] r@[k])@ == s@[from + k]@,
        decreases to - i,
    {
        r.push(s[i].clone());
        i = i + 1;
    }
    assert(r@.map_values(|i: Identity| i@) =~= s@.subrange(from as int, to as int).map_values(
        |i: Identity| i@,
    ));
    r
}

impl From<Vec<Identity>> for IdentityList {
    /// A list holding these identities.
    fn from(items: Vec<Identity>) -> (r: Self)
        ensures
            r@ == items@.map_values(|i: Identity| i@),
    {
        IdentityList { items }
    }
}

impl vstd::std_specs::convert::FromSpecImpl<Vec<Identity>> for IdentityList {
    open spec fn obeys_from_spec() -> bool {
        true
    }

    closed spec fn from_spec(items: Vec<Identity>) -> IdentityList {
        IdentityList { items }
    }
}

impl IdentityList {
    /// A list holding these identities.
    pub fn new(items: Vec<Identity>) -> (r: Self)
        ensures
            r@ == items@.map_values(|i: Identity| i@),
    {
        IdentityList { items }
    }

    /// A list of copies of the identities in `s`.
    pub fn from_identities(s: &[Identity]) -> (r: Self)
        ensures
            r@ == s@.map_values(|i: Identity| i@),
    {
        let items = clone_identities(s, 0, s.len());
        assert(s@.subrange(0, s@.len() as int) =~= s@);
        IdentityList { items }
    }

    /// A list of internal IDs.
    pub fn from_ids(s: &[i64]) -> (r: Self)
        ensures
            r@ == s@.map_values(|i: i64| IdentityModel::Id(i)),
    {
        let mut items: Vec<Identity> = Vec::new();
        let mut i: usize = 0;
        while i < s.len()
            invariant
                i <= s@.len(),
                items@.len() == i,
                forall|k: int| 0 <= k < i ==> (#[trigger] items@[k])@ == (|x: i64| IdentityModel::Id(x))(s@[k]),
            decreases s@.len() - i,
        {
            items.push(Identity::Id { id: s[i] });
            i = i + 1;
        }
        assert(items@.map_values(|x: Identity| x@) =~= s@.map_values(|x: i64| IdentityModel::Id(x)));
        IdentityList { items }
    }

    /// A list of external IDs.
    pub fn from_external_ids(s: &[&str]) -> (r: Self)
        ensures
            r@ == s@.map_values(|e: &str| IdentityModel::ExternalId(e@)),
    {
        let mut items: Vec<Identity> = Vec::new();
        let mut i: usize = 0;
        while i < s.len()
            invariant
                i <= s@.len(),
                items@.len() == i,
                forall|k: int| 0 <= k < i ==> (#[trigger] items@[k])@ == (|e: &str| IdentityModel::ExternalId(e@))(s@[k]),
            decreases s@.len() - i,
        {
            items.push(Identity::external_id(s[i]));
            i = i + 1;
        }
        assert(items@.map_values(|x: Identity| x@) =~= s@.map_values(|e: &str| IdentityModel::ExternalId(e@)));
        IdentityList { items }
    }

    /// A list of external IDs, from their wrappers.
    pub fn from_cognite_external_ids(s: &[CogniteExternalId]) -> (r: Self)
        ensures
            r@ == s@.map_values(|e: CogniteExternalId| IdentityModel::ExternalId(e.external_id@)),
    {
        let mut items: Vec<Identity> = Vec::new();
        let mut i: usize = 0;
        while i < s.len()
            invariant
                i <= s@.len(),
                items@.len() == i,
                forall|k: int| 0 <= k < i ==> (#[trigger] items@[k])@ == (|e: CogniteExternalId| IdentityModel::ExternalId(e.external_id@))(s@[k]),
            decreases s@.len() - i,
        {
            items.push(Identity::external_id(s[i].external_id.as_str()));
            i = i + 1;
        }
        assert(items@.map_values(|x: Identity| x@) =~= s@.map_values(|e: CogniteExternalId| IdentityModel::ExternalId(e.external_id@)));
        IdentityList { items }
    }

    /// A list of internal IDs, from their wrappers.
    pub fn from_cognite_ids(s: &[CogniteId]) -> (r: Self)
        ensures
            r@ == s@.map_values(|e: CogniteId| IdentityModel::Id(e.id)),
    {
        let mut items: Vec<Identity> = Vec::new();
        let mut i: usize = 0;
        while i < s.len()
            invariant
                i <= s@.len(),
                items@.len() == i,
                forall|k: int| 0 <= k < i ==> (#[trigger] items@[k])@ == (|e: CogniteId| IdentityModel::Id(e.id))(s@[k]),
            decreases s@.len() - i,
        {
            items.push(Identity::Id { id: s[i].id });
            i = i + 1;
        }
        assert(items@.map_values(|x: Identity| x@) =~= s@.map_values(|e: CogniteId| IdentityModel::Id(e.id)));
        IdentityList { items }
    }

    /// The list holding the single internal ID `id`.
    pub fn single_id(id: i64) -> (r: Self)
        ensures
            r@ == seq![IdentityModel::Id(id)],
    {
        let mut items: Vec<Identity> = Vec::new();
        items.push(Identity::Id { id });
        assert(items@.map_values(|i: Identity| i@) =~= seq![IdentityModel::Id(id)]);
        IdentityList { items }
    }

    /// The list holding the single external ID `external_id`.
    pub fn single_external_id(external_id: &str) -> (r: Self)
        ensures
            r@ == seq![IdentityModel::ExternalId(external_id@)],
    {
        let mut items: Vec<Identity> = Vec::new();
        items.push(Identity::external_id(external_id));
        assert(items@.map_values(|i: Identity| i@) =~= seq![IdentityModel::ExternalId(external_id@)]);
        IdentityList { items }
    }

    /// Number of identities in the list.
    pub fn len(&self) -> (r: usize)
        ensures
            r == self@.len(),
    {
        self.items.len()
    }

    /// The identities in the list.
    pub fn items(&self) -> (r: &Vec<Identity>)
        ensures
            r@.map_values(|i: Identity| i@) == self@,
    {
        &self.items
    }

    /// Split the list into chunks of at most `chunk_size` identities, in
    /// order, each but the last holding exactly `chunk_size`. A list of one
    /// identity is one chunk whatever the size, as a single identity is
    /// sent whole; an empty list has no chunks.
    pub fn as_chunks(&self, chunk_size: usize) -> (r: Vec<IdentityList>)
        requires
            chunk_size > 0 || self@.len() <= 1,
        ensures
            r@.map_values(|c: IdentityList| c@) == chunks_of(
                self@,
                if chunk_size == 0 {
                    1nat
                } else {
                    chunk_size as nat
                },
            ),
    {
        let chunk_size = if chunk_size == 0 {
            1
        } else {
            chunk_size
        };
        let ghost whole = self@;
        let len = self.items.len();
        let mut r: Vec<IdentityList> = Vec::new();
        let mut i: usize = 0;
        assert(whole.skip(0) =~= whole);
        while i < len
            invariant
                i <= len,
                len == whole.len(),
                chunk_size > 0,
                whole == self.items@.map_values(|x: Identity| x@),
                chunks_of(whole, chunk_size as nat) == r@.map_values(|c: IdentityList| c@)
                    + chunks_of(whole.skip(i as int), chunk_size as nat),
            decreases len - i,
        {
            let end = if len - i <= chunk_size { len } else { i + chunk_size };
            let part = clone_identities(self.items.as_slice(), i, end);
            let chunk = IdentityList { items: part };
            let ghost rest = whole.skip(i as int);
            assert(chunk@ =~= if rest.len() <= chunk_size { rest } else {
                rest.take(chunk_size as int)
            });
            assert(chunks_of(rest, chunk_size as nat) =~= seq![chunk@] + chunks_of(
                whole.skip(end as int),
                chunk_size as nat,
            )) by {
                if rest.len() > chunk_size {
                    assert(rest.skip(chunk_size as int) =~= whole.skip(end as int));
                } else {
                    assert(whole.skip(end as int) =~= Seq::<IdentityModel>::empty());
                }
            }
            let ghost before = r@.map_values(|c: IdentityList| c@);
            r.push(chunk);
            assert(r@.map_values(|c: IdentityList| c@) =~= before.push(chunk@));
            i = end;
        }
        assert(whole.skip(len as int) =~= Seq::<IdentityModel>::empty());
        r
    }

    /// The JSON array sent for this list.
    pub fn to_json(&self) -> (r: String)
        ensures
            r@ == json_array(self@.map_values(|i: IdentityModel| identity_json(i))),
    {
        let mut s = String::new();
        push_str(&mut s, "[");
        let ghost start = s@;
        let len = self.items.len();
        let ghost texts = self@.map_values(|i: IdentityModel| identity_json(i));
        let mut i: usize = 0;
        while i < len
            invariant
                i <= len,
                len == self.items@.len(),
                texts == self.items@.map_values(|x: Identity| x@).map_values(
                    |m: IdentityModel| identity_json(m),
                ),
                s@ == start + join_commas(texts.take(i as int)),
            decreases len - i,
        {
            if i > 0 {
                push_str(&mut s, ",");
            }
            write_identity_json(&mut s, &self.items[i]);
            assert(texts.take(i + 1).drop_last() =~= texts.take(i as int));
            i = i + 1;
        }
        assert(texts.take(len as int) =~= texts);
        push_str(&mut s, "]");
        s
    }
}

/// Appends the JSON object for `i` to `s`.
pub fn write_identity_json(s: &mut String, i: &Identity)
    ensures
        final(s)@ == old(s)@ + identity_json(i@),
        i is Id ==> final(s)@ == old(s)@ + "{\"id\":"@ + int_to_decimal(i->id as int) + "}"@,
        i is ExternalId ==> final(s)@ == old(s)@ + "{\"externalId\":"@ + json_string(i->external_id@) + "}"@,
{
    match i {
        Identity::Id { id } => {
            push_str(s, "{\"id\":");
            let t = i64_to_string(*id);
            push_str(s, t.as_str());
            push_str(s, "}");
        },
        Identity::ExternalId { external_id } => {
            push_str(s, "{\"externalId\":");
            write_json_string(s, external_id.as_str());
            push_str(s, "}");
        },
    }
    assert(s@ =~= old(s)@ + identity_json(i@));
}


/// A list of identities or instance IDs as sent in requests: serialises to a
/// JSON array of `{"id":..}`, `{"externalId":..}` and `{"instanceId":..}`
/// objects, and can be split into chunks.
pub struct IdentityOrInstanceList {
    items: Vec<IdentityOrInstance>,
}

impl View for IdentityOrInstanceList {
    type V = Seq<IdentityOrInstanceModel>;

    closed spec fn view(&self) -> Seq<IdentityOrInstanceModel> {
        self.items@.map_values(|i: IdentityOrInstance| i@)
    }
}

fn clone_identity_or_instances(s: &[IdentityOrInstance], from: usize, to: usize) -> (r: Vec<
    IdentityOrInstance,
>)
    requires
        from <= to <= s@.len(),
    ensures
        r@.map_values(|i: IdentityOrInstance| i@) == s@.subrange(from as int, to as int).map_values(
            |i: IdentityOrInstance| i@,
        ),
{
    let mut r: Vec<IdentityOrInstance> = Vec::new();
    let mut i = from;
    while i < to
        invariant
            from <= i <= to <= s@.len(),
            r@.len() == i - from,
            forall|k: int| 0 <= k < r@.len() ==> (#[trigger] r@[k])@ == s@[from + k]@,
        decreases to - i,
    {
        r.push(s[i].clone());
        i = i + 1;
    }
    assert(r@.map_values(|i: IdentityOrInstance| i@) =~= s@.subrange(from as int, to as int).map_values(
        |i: IdentityOrInstance| i@,
    ));
    r
}

impl From<Vec<IdentityOrInstance>> for IdentityOrInstanceList {
    /// A list holding these identities or instance IDs.
    fn from(items: Vec<IdentityOrInstance>) -> (r: Self)
        ensures
            r@ == items@.map_values(|i: IdentityOrInstance| i@),
    {
        IdentityOrInstanceList { items }
    }
}

impl vstd::std_specs::convert::FromSpecImpl<Vec<IdentityOrInstance>> for IdentityOrInstanceList {
    open spec fn obeys_from_spec() -> bool {
        true
    }

    closed spec fn from_spec(items: Vec<IdentityOrInstance>) -> IdentityOrInstanceList {
        IdentityOrInstanceList { items }
    }
}

impl IdentityOrInstanceList {
    /// A list holding these identities or instance IDs.
    pub fn new(items: Vec<IdentityOrInstance>) -> (r: Self)
        ensures
            r@ == items@.map_values(|i: IdentityOrInstance| i@),
    {
        IdentityOrInstanceList { items }
    }

    /// A list of copies of the entries in `s`.
    pub fn from_entries(s: &[IdentityOrInstance]) -> (r: Self)
        ensures
            r@ == s@.map_values(|i: IdentityOrInstance| i@),
    {
        let items = clone_identity_or_instances(s, 0, s.len());
        assert(s@.subrange(0, s@.len() as int) =~= s@);
        IdentityOrInstanceList { items }
    }

    /// A list of instance IDs.
    pub fn from_instance_ids(s: &[InstanceId]) -> (r: Self)
        ensures
            r@ == s@.map_values(|x: InstanceId| IdentityOrInstanceModel::InstanceId(x@)),
    {
        let mut items: Vec<IdentityOrInstance> = Vec::new();
        let mut i: usize = 0;
        while i < s.len()
            invariant
                i <= s@.len(),
                items@.len() == i,
                forall|k: int|
                    0 <= k < i ==> (#[trigger] items@[k])@ == IdentityOrInstanceModel::InstanceId(
                        s@[k]@,
                    ),
            decreases s@.len() - i,
        {
            items.push(IdentityOrInstance::InstanceId { instance_id: s[i].clone() });
            i = i + 1;
        }
        assert(items@.map_values(|x: IdentityOrInstance| x@) =~= s@.map_values(
            |x: InstanceId| IdentityOrInstanceModel::InstanceId(x@),
        ));
        IdentityOrInstanceList { items }
    }

    /// A list of internal IDs.
    pub fn from_ids(s: &[i64]) -> (r: Self)
        ensures
            r@ == s@.map_values(|x: i64| IdentityOrInstanceModel::Identity(IdentityModel::Id(x))),
    {
        let mut items: Vec<IdentityOrInstance> = Vec::new();
        let mut i: usize = 0;
        while i < s.len()
            invariant
                i <= s@.len(),
                items@.len() == i,
                forall|k: int|
                    0 <= k < i ==> (#[trigger] items@[k])@ == IdentityOrInstanceModel::Identity(
                        IdentityModel::Id(s@[k]),
                    ),
            decreases s@.len() - i,
        {
            items.push(IdentityOrInstance::id(s[i]));
            i = i + 1;
        }
        assert(items@.map_values(|x: IdentityOrInstance| x@) =~= s@.map_values(
            |x: i64| IdentityOrInstanceModel::Identity(IdentityModel::Id(x)),
        ));
        IdentityOrInstanceList { items }
    }

    /// A list of external IDs.
    pub fn from_external_ids(s: &[&str]) -> (r: Self)
        ensures
            r@ == s@.map_values(
                |e: &str| IdentityOrInstanceModel::Identity(IdentityModel::ExternalId(e@)),
            ),
    {
        let mut items: Vec<IdentityOrInstance> = Vec::new();
        let mut i: usize = 0;
        while i < s.len()
            invariant
                i <= s@.len(),
                items@.len() == i,
                forall|k: int|
                    0 <= k < i ==> (#[trigger] items@[k])@ == IdentityOrInstanceModel::Identity(
                        IdentityModel::ExternalId(s@[k]@),
                    ),
            decreases s@.len() - i,
        {
            items.push(IdentityOrInstance::external_id(s[i]));
            i = i + 1;
        }
        assert(items@.map_values(|x: IdentityOrInstance| x@) =~= s@.map_values(
            |e: &str| IdentityOrInstanceModel::Identity(IdentityModel::ExternalId(e@)),
        ));
        IdentityOrInstanceList { items }
    }

    /// The list holding the single instance ID `instance_id`.
    pub fn single_instance_id(instance_id: &InstanceId) -> (r: Self)
        ensures
            r@ == seq![IdentityOrInstanceModel::InstanceId(instance_id@)],
    {
        let mut items: Vec<IdentityOrInstance> = Vec::new();
        items.push(IdentityOrInstance::InstanceId { instance_id: instance_id.clone() });
        assert(items@.map_values(|i: IdentityOrInstance| i@) =~= seq![
            IdentityOrInstanceModel::InstanceId(instance_id@),
        ]);
        IdentityOrInstanceList { items }
    }

    /// Number of entries in the list.
    pub fn len(&self) -> (r: usize)
        ensures
            r == self@.len(),
    {
        self.items.len()
    }

    /// The entries in the list.
    pub fn items(&self) -> (r: &Vec<IdentityOrInstance>)
        ensures
            r@.map_values(|i: IdentityOrInstance| i@) == self@,
    {
        &self.items
    }

    /// Split the list into chunks of at most `chunk_size` entries, in
    /// order, each but the last holding exactly `chunk_size`. A list of one
    /// entry is one chunk whatever the size, as a single entry is sent
    /// whole; an empty list has no chunks.
    pub fn as_chunks(&self, chunk_size: usize) -> (r: Vec<IdentityOrInstanceList>)
        requires
            chunk_size > 0 || self@.len() <= 1,
        ensures
            r@.map_values(|c: IdentityOrInstanceList| c@) == chunks_of(
                self@,
                if chunk_size == 0 {
                    1nat
                } else {
                    chunk_size as nat
                },
            ),
    {
        let chunk_size = if chunk_size == 0 {
            1
        } else {
            chunk_size
        };
        let ghost whole = self@;
        let len = self.items.len();
        let mut r: Vec<IdentityOrInstanceList> = Vec::new();
        let mut i: usize = 0;
        assert(whole.skip(0) =~= whole);
        while i < len
            invariant
                i <= len,
                len == whole.len(),
                chunk_size > 0,
                whole == self.items@.map_values(|x: IdentityOrInstance| x@),
                chunks_of(whole, chunk_size as nat) == r@.map_values(
                    |c: IdentityOrInstanceList| c@,
                ) + chunks_of(whole.skip(i as int), chunk_size as nat),
            decreases len - i,
        {
            let end = if len - i <= chunk_size { len } else { i + chunk_size };
            let part = clone_identity_or_instances(self.items.as_slice(), i, end);
            let chunk = IdentityOrInstanceList { items: part };
            let ghost rest = whole.skip(i as int);
            assert(chunk@ =~= if rest.len() <= chunk_size { rest } else {
                rest.take(chunk_size as int)
            });
            assert(chunks_of(rest, chunk_size as nat) =~= seq![chunk@] + chunks_of(
                whole.skip(end as int),
                chunk_size as nat,
            )) by {
                if rest.len() > chunk_size {
                    assert(rest.skip(chunk_size as int) =~= whole.skip(end as int));
                } else {
                    assert(whole.skip(end as int) =~= Seq::<IdentityOrInstanceModel>::empty());
                }
            }
            let ghost before = r@.map_values(|c: IdentityOrInstanceList| c@);
            r.push(chunk);
            assert(r@.map_values(|c: IdentityOrInstanceList| c@) =~= before.push(chunk@));
            i = end;
        }
        assert(whole.skip(len as int) =~= Seq::<IdentityOrInstanceModel>::empty());
        r
    }

    /// The JSON array sent for this list.
    pub fn to_json(&self) -> (r: String)
        ensures
            r@ == json_array(
                self@.map_values(|i: IdentityOrInstanceModel| identity_or_instance_json(i)),
            ),
    {
        let mut s = String::new();
        push_str(&mut s, "[");
        let ghost start = s@;
        let len = self.items.len();
        let ghost texts = self@.map_values(
            |i: IdentityOrInstanceModel| identity_or_instance_json(i),
        );
        let mut i: usize = 0;
        while i < len
            invariant
                i <= len,
                len == self.items@.len(),
                texts == self.items@.map_values(|x: IdentityOrInstance| x@).map_values(
                    |m: IdentityOrInstanceModel| identity_or_instance_json(m),
                ),
                s@ == start + join_commas(texts.take(i as int)),
            decreases len - i,
        {
            if i > 0 {
                push_str(&mut s, ",");
            }
            write_identity_or_instance_json(&mut s, &self.items[i]);
            assert(texts.take(i + 1).drop_last() =~= texts.take(i as int));
            i = i + 1;
        }
        assert(texts.take(len as int) =~= texts);
        push_str(&mut s, "]");
        s
    }
}

/// Appends the JSON object for `i` to `s`.
pub fn write_identity_or_instance_json(s: &mut String, i: &IdentityOrInstance)
    ensures
        final(s)@ == old(s)@ + identity_or_instance_json(i@),
{
    match i {
        IdentityOrInstance::Identity(x) => {
            write_identity_json(s, x);
        },
        IdentityOrInstance::InstanceId { instance_id } => {
            push_str(s, "{\"instanceId\":");
            write_instance_id_json(s, instance_id);
            push_str(s, "}");
        },
    }
    assert(s@ =~= old(s)@ + identity_or_instance_json(i@));
}

} // verus!
