//! The data model of the source-hosting platform: tokens, projects, groups
//! and users, the paginated listing protocol, and the group hierarchy
//! resolver.

pub mod group;
pub mod pagination;
pub mod project;
pub mod token;
pub mod urls;
pub mod user;
