//! Data types and request-building logic for the Cognite Data Fusion API,
//! with the rules that shape identities, filters, query parameters and
//! patches stated as contracts and proved.

pub mod text;
pub mod json;
pub mod models;
pub mod identity;
pub mod error;
pub mod items;
pub mod filter_types;
pub mod params;
pub mod filter;
pub mod patch;
pub mod resource;
pub mod cdf_core;
pub mod raw;
pub mod extpipes;
pub mod data_organization;
pub mod iam;
pub mod client;
