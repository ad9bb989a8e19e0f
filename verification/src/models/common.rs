//! Identifiers, references and property descriptions shared across data
//! modeling resources.

use vstd::prelude::*;

use std::collections::HashMap;

use crate::models::views::ViewReference;

verus! {

/// ID of a non-versioned resource in the data modeling API.
pub struct ItemId {
    /// Resource space.
    pub space: String,
    /// Resource external ID.
    pub external_id: String,
}

impl Clone for ItemId {
    fn clone(&self) -> (r: Self)
        ensures
            r == *self,
    {
        ItemId { space: self.space.clone(), external_id: self.external_id.clone() }
    }
}

/// ID of an optionally versioned resource in the data modelling API.
pub struct ItemIdOptionalVersion {
    /// Resource space.
    pub space: String,
    /// Resource external ID.
    pub external_id: String,
    /// Resource version.
    pub version: Option<String>,
}

/// A reference to the source of a property.
pub enum SourceReference {
    /// A view with a specific version.
    View(ViewReference),
    /// A container.
    Container(ItemId),
}

impl Clone for SourceReference {
    fn clone(&self) -> (r: Self)
        ensures
            r == *self,
    {
        match self {
            SourceReference::View(v) => SourceReference::View(v.clone()),
            SourceReference::Container(c) => SourceReference::Container(c.clone()),
        }
    }
}

/// A reference to a property in a source view or container.
pub struct SourcePropertyReference {
    /// ID of the view or container.
    pub source: SourceReference,
    /// Identifier of the property in the source.
    pub identifier: String,
}

/// ID of a space.
pub struct SpaceId {
    /// Space value
    pub space: String,
}

/// A reference to a view, but tagged with `type: view`
pub enum TaggedViewReference {
    /// Tagged view variant
    View(ViewReference),
}

impl From<ViewReference> for TaggedViewReference {
    fn from(value: ViewReference) -> (r: Self) {
        Self::View(value)
    }
}

impl vstd::std_specs::convert::FromSpecImpl<ViewReference> for TaggedViewReference {
    open spec fn obeys_from_spec() -> bool {
        true
    }

    open spec fn from_spec(v: ViewReference) -> TaggedViewReference {
        TaggedViewReference::View(v)
    }
}

/// A reference to a container, but tagged with `type: container`
pub enum TaggedContainerReference {
    /// Tagged container reference.
    Container(ItemId),
}

impl Clone for TaggedContainerReference {
    fn clone(&self) -> (r: Self)
        ensures
            r == *self,
    {
        match self {
            TaggedContainerReference::Container(c) => TaggedContainerReference::Container(
                c.clone(),
            ),
        }
    }
}

impl TaggedContainerReference {
    /// Create a new tagged container reference.
    pub fn new(space: &str, external_id: &str) -> (r: Self)
        ensures
            match r {
                TaggedContainerReference::Container(c) => c.space@ == space@ && c.external_id@
                    == external_id@,
            },
    {
        Self::Container(ItemId { space: space.to_owned(), external_id: external_id.to_owned() })
    }
}

impl From<ItemId> for TaggedContainerReference {
    fn from(value: ItemId) -> (r: Self) {
        Self::Container(value)
    }
}

impl vstd::std_specs::convert::FromSpecImpl<ItemId> for TaggedContainerReference {
    open spec fn obeys_from_spec() -> bool {
        true
    }

    open spec fn from_spec(v: ItemId) -> TaggedContainerReference {
        TaggedContainerReference::Container(v)
    }
}

/// Enum for whether a resource is used for nodes, edges, or both.
#[derive(Clone, Copy, PartialEq, Eq, Structural)]
pub enum UsedFor {
    /// Used for nodes.
    Node,
    /// Used for edges.
    Edge,
    /// Used for both nodes and edges.
    All,
}

/// Description of a text property.
pub struct TextProperty {
    /// Whether this is a list or not.
    pub list: Option<bool>,
    /// Optional text collation.
    pub collation: Option<String>,
    /// Maximum allowed length of the list.
    pub max_list_size: Option<i32>,
    /// Maximum allowed size of each text entry, as utf-8 bytes.
    pub max_text_size: Option<i32>,
}

/// Reference to a unit in the Cognite unit catalog.
pub struct UnitReference {
    /// The external ID of the unit in the Cognite unit catalog.
    pub external_id: String,
    /// The value of the unit in the source.
    pub source_unit: Option<String>,
}

/// Description of a primitive property
pub struct PrimitiveProperty {
    /// Whether this is a list or not.
    pub list: Option<bool>,
    /// The unit of the data stored in this property.
    pub unit: Option<UnitReference>,
    /// Maximum allowed length of the list.
    pub max_list_size: Option<i32>,
}

/// Description of an enum value in an enum property.
pub struct EnumValueDescription {
    /// Name of the enum value.
    pub name: Option<String>,
    /// Enum value description.
    pub description: Option<String>,
}

/// Description of an enum property.
pub struct EnumProperty {
    /// The value to use when the enum value is unknown.
    pub unknown_value: Option<String>,
    /// Map from enum value identifier to description.
    pub values: HashMap<String, EnumValueDescription>,
}

/// Description of a property referencing a CDF resource.
pub struct CDFExternalIdReference {
    /// Whether this is a list or not.
    pub list: Option<bool>,
    /// Maximum allowed length of the list.
    pub max_list_size: Option<i32>,
}

/// Direction to sort data modeling query results in.
#[derive(Clone, Copy, PartialEq, Eq, Structural)]
pub enum SortDirection {
    /// Sort ascending.
    Ascending,
    /// Sort descending.
    Descending,
}

/// Sort on a dynamic property
pub struct PropertySort {
    /// List of strings representing the property
    pub property: Vec<String>,
    /// Direction to sort.
    pub direction: Option<SortDirection>,
    /// Whether nulls are first or last.
    pub nulls_first: Option<bool>,
}

impl PropertySort {
    /// Create a new property sort object.
    pub fn new<P: PropertyIdentifier>(property: P, direction: SortDirection, nulls_first: bool) -> (r:
        Self)
        ensures
            r.property.deep_view() == property.identifier_spec(),
            r.direction == Some(direction),
            r.nulls_first == Some(nulls_first),
    {
        Self {
            property: property.into_identifier(),
            direction: Some(direction),
            nulls_first: Some(nulls_first),
        }
    }
}

/// Trait for values that can be converted into a property identifier.
pub trait PropertyIdentifier: Sized {
    /// The path of names the value stands for.
    spec fn identifier_spec(&self) -> Seq<Seq<char>>;

    /// Convert the value into an identifier.
    fn into_identifier(self) -> (r: Vec<String>)
        ensures
            r.deep_view() == self.identifier_spec(),
    ;
}

impl PropertyIdentifier for Vec<String> {
    open spec fn identifier_spec(&self) -> Seq<Seq<char>> {
        self.deep_view()
    }

    fn into_identifier(self) -> (r: Vec<String>) {
        self
    }
}

fn strs_to_strings(s: &[&str]) -> (r: Vec<String>)
    ensures
        r.deep_view() == s@.map_values(|x: &str| x@),
{
    let mut r: Vec<String> = Vec::new();
    let mut i: usize = 0;
    while i < s.len()
        invariant
            i <= s@.len(),
            r@.len() == i,
            forall|k: int| 0 <= k < i ==> (#[trigger] r@[k])@ == s@[k]@,
        decreases s@.len() - i,
    {
        r.push(s[i].to_owned());
        i = i + 1;
    }
    assert(r.deep_view() =~= s@.map_values(|x: &str| x@));
    r
}

impl<'a> PropertyIdentifier for &'a [&'a str] {
    open spec fn identifier_spec(&self) -> Seq<Seq<char>> {
        self@.map_values(|x: &str| x@)
    }

    fn into_identifier(self) -> (r: Vec<String>) {
        strs_to_strings(self)
    }
}

impl<'a, const N: usize> PropertyIdentifier for [&'a str; N] {
    open spec fn identifier_spec(&self) -> Seq<Seq<char>> {
        self@.map_values(|x: &str| x@)
    }

    fn into_identifier(self) -> (r: Vec<String>) {
        strs_to_strings(&self)
    }
}

} // verus!
