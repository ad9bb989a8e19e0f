//! Errors from CDF, and the identities they report as missing or duplicated.

use vstd::prelude::*;

use crate::identity::{
    CogniteExternalId, CogniteId, Identity, IdentityModel, IdentityOrInstance,
    IdentityOrInstanceModel,
};
use crate::models::instances::{
    distinct_keys, lemma_lookup_distinct, lookup, InstanceId, InstanceIdModel,
};
use crate::text::str_equal;

verus! {

/// A value in an error detail object: an integer, a string, or a nested object.
pub enum IntegerStringOrObject {
    /// Integer value.
    Integer(i64),
    /// String value.
    String(String),
    /// Nested object.
    Object(ErrorDetail),
}

/// One object in an error detail list: keys with their values, in the order
/// CDF sent them. It stands for the map built by inserting the entries in
/// order, so that a key that occurs more than once is read at its last
/// entry (see [`lookup_last`]).
pub struct ErrorDetail {
    /// The entries of the object.
    pub entries: Vec<(String, IntegerStringOrObject)>,
}

/// The value under `key` in the map built by inserting `entries` in order:
/// that of the last entry with the key, if any.
pub open spec fn lookup_last<T>(entries: Seq<(String, T)>, key: Seq<char>) -> Option<T>
    decreases entries.len(),
{
    if entries.len() == 0 {
        None
    } else if entries.last().0@ == key {
        Some(entries.last().1)
    } else {
        lookup_last(entries.drop_last(), key)
    }
}

/// Where no key occurs twice, the last entry with a key is the only one,
/// and so also the first.
pub proof fn lemma_lookup_last_distinct<T>(entries: Seq<(String, T)>, key: Seq<char>)
    requires
        distinct_keys(entries),
    ensures
        lookup_last(entries, key) == lookup(entries, key),
    decreases entries.len(),
{
    if entries.len() > 0 {
        let init = entries.drop_last();
        assert(distinct_keys(init)) by {
            assert forall|i: int, j: int| 0 <= i < j < init.len() implies (#[trigger] init[i]).0@ != (#[trigger] init[j]).0@ by {
                assert(init[i] == entries[i] && init[j] == entries[j]);
            }
        }
        lemma_lookup_last_distinct(init, key);
        lemma_lookup_distinct(entries, key);
        lemma_lookup_distinct(init, key);
        if entries.last().0@ == key {
            assert(entries[entries.len() - 1] == entries.last());
        } else {
            match lookup(init, key) {
                Some(v) => {
                    let i = choose|i: int| 0 <= i < init.len() && (#[trigger] init[i]).0@ == key;
                    assert(init[i] == entries[i]);
                },
                None => {
                    assert forall|i: int| 0 <= i < entries.len() implies (#[trigger] entries[i]).0@ != key by {
                        if i < init.len() {
                            assert(init[i] == entries[i]);
                        }
                    }
                },
            }
        }
    }
}

fn lookup_last_entry<'a, T>(entries: &'a [(String, T)], key: &str) -> (r: Option<&'a T>)
    ensures
        match r {
            Some(v) => lookup_last(entries@, key@) == Some(*v),
            None => lookup_last(entries@, key@).is_none(),
        },
{
    let mut i: usize = entries.len();
    assert(entries@.take(i as int) =~= entries@);
    while i > 0
        invariant
            i <= entries@.len(),
            lookup_last(entries@, key@) == lookup_last(entries@.take(i as int), key@),
        decreases i,
    {
        i = i - 1;
        let ghost prefix = entries@.take(i + 1);
        assert(prefix.last() == entries@[i as int]);
        assert(prefix.drop_last() =~= entries@.take(i as int));
        if str_equal(entries[i].0.as_str(), key) {
            return Some(&entries[i].1);
        }
    }
    None
}

/// The integer stored under `key`, if the value there is an integer.
pub open spec fn detail_integer(d: ErrorDetail, key: Seq<char>) -> Option<i64> {
    match lookup_last(d.entries@, key) {
        Some(IntegerStringOrObject::Integer(i)) => Some(i),
        _ => None,
    }
}

/// The string stored under `key`, if the value there is a string.
pub open spec fn detail_string(d: ErrorDetail, key: Seq<char>) -> Option<Seq<char>> {
    match lookup_last(d.entries@, key) {
        Some(IntegerStringOrObject::String(s)) => Some(s@),
        _ => None,
    }
}

/// The object stored under `key`, if the value there is an object.
pub open spec fn detail_object(d: ErrorDetail, key: Seq<char>) -> Option<ErrorDetail> {
    match lookup_last(d.entries@, key) {
        Some(IntegerStringOrObject::Object(o)) => Some(o),
        _ => None,
    }
}

/// A list of error detail objects, as CDF reports missing or duplicated items.
pub struct ApiErrorDetail {
    /// The detail objects.
    pub details: Vec<ErrorDetail>,
}

impl ApiErrorDetail {
    /// Get an integer value from a detail object.
    pub fn get_integer(detail: &ErrorDetail, key: &str) -> (r: Option<i64>)
        ensures
            r == detail_integer(*detail, key@),
    {
        match lookup_last_entry(detail.entries.as_slice(), key) {
            Some(IntegerStringOrObject::Integer(i)) => Some(*i),
            _ => None,
        }
    }

    /// Get a string value from a detail object.
    pub fn get_string<'a>(detail: &'a ErrorDetail, key: &str) -> (r: Option<&'a String>)
        ensures
            match r {
                Some(s) => detail_string(*detail, key@) == Some(s@),
                None => detail_string(*detail, key@).is_none(),
            },
    {
        match lookup_last_entry(detail.entries.as_slice(), key) {
            Some(IntegerStringOrObject::String(s)) => Some(s),
            _ => None,
        }
    }

    /// Get a nested object from a detail object.
    pub fn get_object<'a>(detail: &'a ErrorDetail, key: &str) -> (r: Option<&'a ErrorDetail>)
        ensures
            match r {
                Some(o) => detail_object(*detail, key@) == Some(*o),
                None => detail_object(*detail, key@).is_none(),
            },
    {
        match lookup_last_entry(detail.entries.as_slice(), key) {
            Some(IntegerStringOrObject::Object(o)) => Some(o),
            _ => None,
        }
    }

    /// The identities named by the detail objects, in order, skipping
    /// objects that name none.
    pub fn get_identities(&self) -> (r: Vec<Identity>)
        ensures
            r@.map_values(|i: Identity| i@) == identities_of(self.details@),
    {
        let mut r: Vec<Identity> = Vec::new();
        let mut i: usize = 0;
        while i < self.details.len()
            invariant
                i <= self.details@.len(),
                r@.map_values(|x: Identity| x@) == identities_of(self.details@.take(i as int)),
            decreases self.details@.len() - i,
        {
            let ghost before = r@;
            let found = Identity::from_detail(&self.details[i]);
            assert(self.details@.take(i + 1).drop_last() =~= self.details@.take(i as int));
            assert(self.details@.take(i + 1).last() == self.details@[i as int]);
            match found {
                Some(id) => {
                    r.push(id);
                    assert(r@.map_values(|x: Identity| x@) =~= before.map_values(
                        |x: Identity| x@,
                    ).push(r@.last()@));
                },
                None => {},
            }
            i = i + 1;
        }
        assert(self.details@.take(self.details@.len() as int) =~= self.details@);
        r
    }
}

/// Conversion from one error detail object.
pub trait FromErrorDetail: Sized + View {
    /// What the detail object `detail` names, if anything.
    spec fn detail_model(detail: ErrorDetail) -> Option<Self::V>;

    /// Try to read a value from an error detail object.
    fn from_detail(detail: &ErrorDetail) -> (r: Option<Self>)
        ensures
            match r {
                Some(v) => Self::detail_model(*detail) == Some(v@),
                None => Self::detail_model(*detail).is_none(),
            },
    ;
}

/// The identity a detail object names: its integer `id` if there is one,
/// else its string `externalId`.
pub open spec fn identity_of_detail(d: ErrorDetail) -> Option<IdentityModel> {
    match detail_integer(d, "id"@) {
        Some(id) => Some(IdentityModel::Id(id)),
        None => match detail_string(d, "externalId"@) {
            Some(e) => Some(IdentityModel::ExternalId(e)),
            None => None,
        },
    }
}

/// The identities named by a list of detail objects, in order.
pub open spec fn identities_of(ds: Seq<ErrorDetail>) -> Seq<IdentityModel>
    decreases ds.len(),
{
    if ds.len() == 0 {
        Seq::empty()
    } else {
        match identity_of_detail(ds.last()) {
            Some(i) => identities_of(ds.drop_last()).push(i),
            None => identities_of(ds.drop_last()),
        }
    }
}

impl FromErrorDetail for Identity {
    open spec fn detail_model(detail: ErrorDetail) -> Option<IdentityModel> {
        identity_of_detail(detail)
    }

    fn from_detail(detail: &ErrorDetail) -> (r: Option<Identity>)
        ensures
            detail_integer(*detail, "id"@) matches Some(id) ==> r == Some(Identity::Id { id }),
            detail_integer(*detail, "id"@) is None ==> match detail_string(*detail, "externalId"@) {
                Some(e) => r matches Some(Identity::ExternalId { external_id }) && external_id@ == e,
                None => r is None,
            },
    {
        match ApiErrorDetail::get_integer(detail, "id") {
            Some(id) => Some(Identity::Id { id }),
            None => match ApiErrorDetail::get_string(detail, "externalId") {
                Some(e) => Some(Identity::ExternalId { external_id: e.clone() }),
                None => None,
            },
        }
    }
}

impl FromErrorDetail for CogniteId {
    open spec fn detail_model(detail: ErrorDetail) -> Option<i64> {
        detail_integer(detail, "id"@)
    }

    fn from_detail(detail: &ErrorDetail) -> (r: Option<CogniteId>) {
        match ApiErrorDetail::get_integer(detail, "id") {
            Some(id) => Some(CogniteId { id }),
            None => None,
        }
    }
}

impl FromErrorDetail for CogniteExternalId {
    open spec fn detail_model(detail: ErrorDetail) -> Option<Seq<char>> {
        detail_string(detail, "externalId"@)
    }

    fn from_detail(detail: &ErrorDetail) -> (r: Option<CogniteExternalId>) {
        match ApiErrorDetail::get_string(detail, "externalId") {
            Some(e) => Some(CogniteExternalId { external_id: e.clone() }),
            None => None,
        }
    }
}

/// What a detail object names as an identity or instance: when it has an
/// `instanceId` object, the instance ID made of that object's string `space`
/// and `externalId` (nothing if either is missing); otherwise its identity.
pub open spec fn identity_or_instance_of_detail(d: ErrorDetail) -> Option<IdentityOrInstanceModel> {
    match detail_object(d, "instanceId"@) {
        Some(o) => match (detail_string(o, "space"@), detail_string(o, "externalId"@)) {
            (Some(space), Some(external_id)) => Some(
                IdentityOrInstanceModel::InstanceId(InstanceIdModel { space, external_id }),
            ),
            _ => None,
        },
        None => match identity_of_detail(d) {
            Some(i) => Some(IdentityOrInstanceModel::Identity(i)),
            None => None,
        },
    }
}

impl FromErrorDetail for IdentityOrInstance {
    open spec fn detail_model(detail: ErrorDetail) -> Option<IdentityOrInstanceModel> {
        identity_or_instance_of_detail(detail)
    }

    fn from_detail(detail: &ErrorDetail) -> (r: Option<IdentityOrInstance>)
        ensures
            r matches Some(IdentityOrInstance::InstanceId { instance_id }) ==> detail_object(
                *detail,
                "instanceId"@,
            ) matches Some(o) && detail_string(o, "space"@) == Some(instance_id.space@) && detail_string(
                o,
                "externalId"@,
            ) == Some(instance_id.external_id@),
    {
        if let Some(object) = ApiErrorDetail::get_object(detail, "instanceId") {
            match (
                ApiErrorDetail::get_string(object, "space"),
                ApiErrorDetail::get_string(object, "externalId"),
            ) {
                (Some(space), Some(external_id)) => Some(
                    IdentityOrInstance::InstanceId {
                        instance_id: InstanceId {
                            space: space.clone(),
                            external_id: external_id.clone(),
                        },
                    },
                ),
                _ => None,
            }
        } else {
            match Identity::from_detail(detail) {
                Some(i) => Some(IdentityOrInstance::Identity(i)),
                None => None,
            }
        }
    }
}

/// An error message returned by the CDF API.
pub struct ApiErrorMessage {
    /// HTTP status code.
    pub code: u32,
    /// Error message.
    pub message: String,
    /// Items reported as missing.
    pub missing: Option<ApiErrorDetail>,
    /// Items reported as duplicated.
    pub duplicated: Option<ApiErrorDetail>,
}

/// Errors the library reports.
pub enum Error {
    /// A bad request (HTTP 400).
    BadRequest(ApiErrorMessage),
    /// A resource was not found (HTTP 404).
    NotFound(ApiErrorMessage),
    /// A conflict, such as a duplicated item (HTTP 409).
    Conflict(ApiErrorMessage),
    /// Any other error from the API.
    OtherApiError(ApiErrorMessage),
    /// A required environment variable is missing.
    EnvironmentVariableMissing(String),
    /// The client configuration is incomplete.
    Config(String),
    /// Any other error.
    Other(String),
}

/// The identities a result reports as duplicated: those of the `duplicated`
/// detail of a conflict error, and nothing for any other outcome.
pub open spec fn duplicates_of<T>(res: Result<T, Error>) -> Option<Seq<IdentityModel>> {
    match res {
        Err(Error::Conflict(c)) => match c.duplicated {
            Some(d) => Some(identities_of(d.details@)),
            None => None,
        },
        _ => None,
    }
}

/// The identities a result reports as missing: those of the `missing` detail
/// of a bad-request or not-found error, and nothing for any other outcome.
pub open spec fn missing_of<T>(res: Result<T, Error>) -> Option<Seq<IdentityModel>> {
    match res {
        Err(Error::BadRequest(c)) | Err(Error::NotFound(c)) => match c.missing {
            Some(d) => Some(identities_of(d.details@)),
            None => None,
        },
        _ => None,
    }
}

/// Given a result object from CDF, if it is a "conflict" error,
/// return the list of identities.
pub fn get_duplicates_from_result<T>(res: &Result<T, Error>) -> (r: Option<Vec<Identity>>)
    ensures
        match r {
            Some(v) => duplicates_of(*res) == Some(v@.map_values(|i: Identity| i@)),
            None => duplicates_of(*res).is_none(),
        },
{
    match res {
        Ok(_) => None,
        Err(e) => match e {
            Error::Conflict(c) => match &c.duplicated {
                Some(dup) => Some(dup.get_identities()),
                None => None,
            },
            _ => None,
        },
    }
}

/// Given a result object from CDF, if it is a "missing" error,
/// return the list of identities.
pub fn get_missing_from_result<T>(res: &Result<T, Error>) -> (r: Option<Vec<Identity>>)
    ensures
        match r {
            Some(v) => missing_of(*res) == Some(v@.map_values(|i: Identity| i@)),
            None => missing_of(*res).is_none(),
        },
{
    match res {
        Ok(_) => None,
        Err(e) => match e {
            Error::BadRequest(c) => match &c.missing {
                Some(mis) => Some(mis.get_identities()),
                None => None,
            },
            Error::NotFound(c) => match &c.missing {
                Some(mis) => Some(mis.get_identities()),
                None => None,
            },
            _ => None,
        },
    }
}

} // verus!
