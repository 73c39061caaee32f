//! Generic Attribute Profile: the attribute schema of a server, its
//! structure, and the checks on access to it.

pub mod builder;
pub mod consts;
pub mod laws;
pub mod model;
pub mod schema;
