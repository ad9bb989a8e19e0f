//! Access management: groups, security categories and sessions.

pub mod group;
pub mod security_category;
pub mod session;
