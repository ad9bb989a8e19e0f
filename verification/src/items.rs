//! Wrappers for lists of items in requests and responses.

use vstd::prelude::*;

verus! {

/// A generic structure for handling items in requests and responses.
pub struct Items<C, E> {
    /// The items of the request or response.
    pub items: C,
    /// Additional fields, delegated to the `E` type.
    pub extra_fields: E,
}

impl<C> Items<C, ()> {
    /// Create a new `Items` instance with the provided items and no extra fields.
    pub fn new(items: C) -> (r: Self)
        ensures
            r == (Items { items, extra_fields: () }),
    {
        Self { items, extra_fields: () }
    }
}

impl<C, E> Items<C, E> {
    /// Create a new `Items` instance with the provided items and extra fields.
    pub fn new_with_extra_fields(items: C, extra_fields: E) -> (r: Self)
        ensures
            r == (Items { items, extra_fields }),
    {
        Self { items, extra_fields }
    }
}

/// Extra fields for `Items` types with cursor data.
pub struct Cursor {
    /// The cursor for the next page of items.
    pub next_cursor: Option<String>,
}

/// Extra fields for `Items` types with the `ignoreUnknownIds` field.
#[derive(Clone, Copy)]
pub struct IgnoreUnknownIds {
    /// Whether to ignore unknown IDs in the request.
    pub ignore_unknown_ids: bool,
}

} // verus!
