//! The devlink family: device-level management of network hardware, bound to
//! the generic attribute codec as a second, larger schema.

pub mod family;
pub mod nldev;
