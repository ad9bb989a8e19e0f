//! Data sets, labels and relationships: how data in CDF is grouped,
//! labelled and connected.

pub mod datasets;
pub mod labels;
pub mod relationships;
