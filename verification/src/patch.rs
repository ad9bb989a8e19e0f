//! Partial updates: how a field of a resource becomes an update item, under
//! the options of an upsert.

use vstd::prelude::*;

use std::collections::HashMap;

use crate::identity::{Identity, IdentityModel};

verus! {

/// Options for upserts: which fields are kept and which are overwritten.
#[derive(Clone, Copy, PartialEq, Eq, Structural)]
pub struct UpsertOptions {
    /// Leave fields that are absent in the input untouched, instead of
    /// clearing them.
    pub ignore_nulls: bool,
    /// Add metadata entries to the existing ones instead of replacing them.
    pub merge_metadata: bool,
    /// Add list entries to the existing ones instead of replacing them.
    pub merge_lists: bool,
}

impl Default for UpsertOptions {
    fn default() -> (r: Self)
        ensures
            r == (UpsertOptions { ignore_nulls: false, merge_metadata: false, merge_lists: false }),
    {
        UpsertOptions { ignore_nulls: false, merge_metadata: false, merge_lists: false }
    }
}

/// The default upsert options: absent fields are cleared, maps and lists
/// are replaced.
pub open spec fn default_options() -> UpsertOptions {
    UpsertOptions { ignore_nulls: false, merge_metadata: false, merge_lists: false }
}

/// Set a field to a value.
pub struct UpdateSet<T> {
    /// New value.
    pub set: T,
}

/// Set a field to a value, or clear it.
pub enum UpdateSetNull<T> {
    /// Set the field to a value.
    SetValue {
        /// New value.
        set: T,
    },
    /// Clear the field.
    SetNull {
        /// Always `true`.
        set_null: bool,
    },
}

/// Update a list: add and remove entries, or replace the whole list.
pub enum UpdateList<TAdd, TRemove> {
    /// Add and remove entries.
    AddRemove {
        /// Entries to add.
        add: Option<Vec<TAdd>>,
        /// Entries to remove.
        remove: Option<Vec<TRemove>>,
    },
    /// Replace the list.
    Replace {
        /// New list.
        set: Vec<TAdd>,
    },
}

/// Update a map: add and remove entries, or replace the whole map.
pub enum UpdateMap<TK, TV> {
    /// Add and remove entries.
    AddRemove {
        /// Entries to add.
        add: Option<HashMap<TK, TV>>,
        /// Keys to remove.
        remove: Option<Vec<TK>>,
    },
    /// Replace the map.
    Replace {
        /// New map.
        set: HashMap<TK, TV>,
    },
}

/// An update of one resource, identified by `id`.
pub struct Patch<T> {
    /// The resource to update.
    pub id: Identity,
    /// The update.
    pub update: T,
}

/// The update item for a required field: always set to the value.
pub fn patch_set<T>(v: T, options: &UpsertOptions) -> (r: Option<UpdateSet<T>>)
    ensures
        r == Some(UpdateSet { set: v }),
{
    Some(UpdateSet { set: v })
}

/// The update item for an optional field that can only be set: a present
/// value is set, an absent one is left out.
pub open spec fn set_spec<T>(v: Option<T>) -> Option<UpdateSet<T>> {
    match v {
        Some(x) => Some(UpdateSet { set: x }),
        None => None,
    }
}

/// The update item for an optional field that can only be set (see [`set_spec`]).
pub fn patch_opt_set<T>(v: Option<T>) -> (r: Option<UpdateSet<T>>)
    ensures
        r == set_spec(v),
{
    match v {
        Some(x) => Some(UpdateSet { set: x }),
        None => None,
    }
}

/// Types that convert into a partial update.
pub trait IntoPatch<P>: Sized {
    /// Whether `r` is the update that `self` becomes under `options`.
    spec fn is_patch(self, options: UpsertOptions, r: P) -> bool;

    /// The update that writes the fields of `self`.
    fn patch(self, options: &UpsertOptions) -> (r: P)
        ensures
            self.is_patch(*options, r),
    ;
}

/// The update item for an optional field: a present value is set; an absent
/// value clears the field, or is left out when nulls are ignored.
pub open spec fn set_null_spec<T>(v: Option<T>, options: UpsertOptions) -> Option<UpdateSetNull<T>> {
    match v {
        Some(x) => Some(UpdateSetNull::SetValue { set: x }),
        None => if options.ignore_nulls {
            None
        } else {
            Some(UpdateSetNull::SetNull { set_null: true })
        },
    }
}

/// With nulls ignored, an optional field is written exactly when it is
/// present, so absent fields are left as they are; without, every optional
/// field is written, and absent ones are cleared. A present value is always
/// the value set.
pub proof fn lemma_ignore_nulls<T>(v: Option<T>, o: UpsertOptions)
    ensures
        o.ignore_nulls ==> (set_null_spec(v, o).is_some() <==> v.is_some()),
        !o.ignore_nulls ==> set_null_spec(v, o).is_some(),
        v.is_none() && !o.ignore_nulls ==> set_null_spec(v, o) == Some(
            UpdateSetNull::<T>::SetNull { set_null: true },
        ),
        forall|x: T| v == Some(x) ==> set_null_spec(v, o) == Some(UpdateSetNull::SetValue { set: x }),
{
}

/// The update item for an optional field (see [`set_null_spec`]).
pub fn patch_set_null<T>(v: Option<T>, options: &UpsertOptions) -> (r: Option<UpdateSetNull<T>>)
    ensures
        r == set_null_spec(v, *options),
{
    match v {
        Some(x) => Some(UpdateSetNull::SetValue { set: x }),
        None => if options.ignore_nulls {
            None
        } else {
            Some(UpdateSetNull::SetNull { set_null: true })
        },
    }
}

/// Whether `r` is the update item for the optional list `v`: a present list
/// is added to the existing one when lists are merged and replaces it
/// otherwise; an absent list clears the field (sets an empty list), or is
/// left out when nulls are ignored.
pub open spec fn list_patch<T>(r: Option<UpdateList<T, T>>, v: Option<Vec<T>>, options: UpsertOptions) -> bool {
    match v {
        Some(x) => if options.merge_lists {
            r == Some(UpdateList::<T, T>::AddRemove { add: Some(x), remove: None })
        } else {
            r == Some(UpdateList::<T, T>::Replace { set: x })
        },
        None => if options.ignore_nulls {
            r.is_none()
        } else {
            r matches Some(UpdateList::Replace { set }) && set@.len() == 0
        },
    }
}

/// The update item for an optional list (see [`list_patch`]).
pub fn patch_list<T>(v: Option<Vec<T>>, options: &UpsertOptions) -> (r: Option<UpdateList<T, T>>)
    ensures
        list_patch(r, v, *options),
{
    match v {
        Some(x) => if options.merge_lists {
            Some(UpdateList::AddRemove { add: Some(x), remove: None })
        } else {
            Some(UpdateList::Replace { set: x })
        },
        None => if options.ignore_nulls {
            None
        } else {
            Some(UpdateList::Replace { set: Vec::new() })
        },
    }
}

/// Whether `r` is the update item for the optional map `v`: a present map
/// is added to the existing one when metadata is merged and replaces it
/// otherwise; an absent map clears the field (sets an empty map), or is
/// left out when nulls are ignored.
pub open spec fn map_patch<K, V>(r: Option<UpdateMap<K, V>>, v: Option<HashMap<K, V>>, options: UpsertOptions) -> bool {
    match v {
        Some(x) => if options.merge_metadata {
            r == Some(UpdateMap::<K, V>::AddRemove { add: Some(x), remove: None })
        } else {
            r == Some(UpdateMap::<K, V>::Replace { set: x })
        },
        None => if options.ignore_nulls {
            r.is_none()
        } else {
            r matches Some(UpdateMap::Replace { set }) && set@ == Map::<K, V>::empty()
        },
    }
}

/// The update item for an optional map (see [`map_patch`]).
pub fn patch_map<K, V>(v: Option<HashMap<K, V>>, options: &UpsertOptions) -> (r: Option<UpdateMap<K, V>>)
    ensures
        map_patch(r, v, *options),
{
    match v {
        Some(x) => if options.merge_metadata {
            Some(UpdateMap::AddRemove { add: Some(x), remove: None })
        } else {
            Some(UpdateMap::Replace { set: x })
        },
        None => if options.ignore_nulls {
            None
        } else {
            Some(UpdateMap::Replace { set: HashMap::new() })
        },
    }
}

/// Each merge option rules its own kind of field: a present list is added
/// to the existing one exactly when lists are merged, and a present map is
/// added to the existing one exactly when metadata is merged; otherwise the
/// value replaces what is there. What is written is the value given.
pub proof fn lemma_merge_options<T, K, V>(
    lr: Option<UpdateList<T, T>>,
    l: Vec<T>,
    mr: Option<UpdateMap<K, V>>,
    m: HashMap<K, V>,
    o: UpsertOptions,
)
    requires
        list_patch(lr, Some(l), o),
        map_patch(mr, Some(m), o),
    ensures
        o.merge_lists ==> lr == Some(UpdateList::<T, T>::AddRemove { add: Some(l), remove: None }),
        !o.merge_lists ==> lr == Some(UpdateList::<T, T>::Replace { set: l }),
        o.merge_metadata ==> mr == Some(UpdateMap::<K, V>::AddRemove { add: Some(m), remove: None }),
        !o.merge_metadata ==> mr == Some(UpdateMap::<K, V>::Replace { set: m }),
{
}

/// Without nulls ignored, an absent list or map clears the field: it is
/// replaced by an empty one, whatever the merge options; with nulls
/// ignored, it is left out.
pub proof fn lemma_absent_collections<T, K, V>(lr: Option<UpdateList<T, T>>, mr: Option<UpdateMap<K, V>>, o: UpsertOptions)
    requires
        list_patch(lr, None, o),
        map_patch(mr, None, o),
    ensures
        o.ignore_nulls ==> lr is None && mr is None,
        !o.ignore_nulls ==> (lr matches Some(UpdateList::Replace { set }) && set@.len() == 0),
        !o.ignore_nulls ==> (mr matches Some(UpdateMap::Replace { set }) && set@ == Map::<K, V>::empty()),
{
}

/// The identity used to address an existing resource in an update: its
/// internal ID when that is set (positive), else its external ID when
/// present, else the internal ID as it is.
pub open spec fn resource_identity(id: i64, external_id: Option<Seq<char>>) -> IdentityModel {
    if id > 0 {
        IdentityModel::Id(id)
    } else {
        match external_id {
            Some(e) => IdentityModel::ExternalId(e),
            None => IdentityModel::Id(id),
        }
    }
}

/// The identity used to address an existing resource (see [`resource_identity`]).
pub fn to_identity(id: i64, external_id: &Option<String>) -> (r: Identity)
    ensures
        r@ == resource_identity(id, external_id.deep_view()),
        id > 0 ==> r@ == IdentityModel::Id(id),
        id <= 0 && external_id is Some ==> r@ == IdentityModel::ExternalId(external_id->0@),
        id <= 0 && external_id is None ==> r@ == IdentityModel::Id(id),
{
    if id > 0 {
        Identity::Id { id }
    } else {
        match external_id {
            Some(e) => Identity::ExternalId { external_id: e.clone() },
            None => Identity::Id { id },
        }
    }
}

} // verus!
