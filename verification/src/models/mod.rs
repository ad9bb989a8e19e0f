//! Data modeling: spaces, containers, views, data models, instances and
//! records.

pub mod instances;
pub mod common;
pub mod views;
pub mod spaces;
pub mod containers;
pub mod streams;
pub mod query;
pub mod data_models;
pub mod records;
pub mod extensions;
