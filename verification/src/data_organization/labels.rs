//! Labels.

use vstd::prelude::*;

use crate::identity::Identity;

verus! {

/// Label, used for labeling CDF resources.
pub struct Label {
    /// Label external ID. Must be unique within the project.
    pub external_id: String,
    /// Human readable label name.
    pub name: String,
    /// Label description.
    pub description: Option<String>,
    /// Data set this label belongs to.
    pub data_set_id: Option<i64>,
    /// Time this file was created, in milliseconds since epoch.
    pub created_time: i64,
}

#[derive(Clone)]
/// Create a label.
pub struct AddLabel {
    /// Label external ID. Must be unique within the project.
    pub external_id: String,
    /// Human readable label name.
    pub name: String,
    /// Label description.
    pub description: Option<String>,
    /// Data set this label belongs to.
    pub data_set_id: Option<i64>,
}

impl From<Label> for AddLabel {
    fn from(label: Label) -> (r: Self)
        ensures
            r.external_id == label.external_id,
            r.name == label.name,
            r.description == label.description,
            r.data_set_id == label.data_set_id,
    {
        AddLabel {
            external_id: label.external_id,
            name: label.name,
            description: label.description,
            data_set_id: label.data_set_id,
        }
    }
}

impl vstd::std_specs::convert::FromSpecImpl<Label> for AddLabel {
    open spec fn obeys_from_spec() -> bool {
        true
    }

    /// The creation form keeps everything but the creation time.
    open spec fn from_spec(label: Label) -> AddLabel {
        AddLabel {
            external_id: label.external_id,
            name: label.name,
            description: label.description,
            data_set_id: label.data_set_id,
        }
    }
}

/// Filter used for listing labels.
pub struct LabelFilter {
    /// Include labels with this name.
    pub name: Option<String>,
    /// Include labels with this (case sensitive) prefix on external ID.
    pub external_id_prefix: Option<String>,
    /// Include labels with one of these data sets.
    pub data_set_ids: Option<Vec<Identity>>,
}

} // verus!
