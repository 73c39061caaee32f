//! Generic Access Profile: UUIDs and assigned numbers.

pub mod consts;
pub mod uuid;
