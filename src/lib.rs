//! Tasks of a small task service: the record that is stored, the identifier
//! that keys it, and what each request handler answers for each outcome of
//! its database statement.

pub mod uid;
pub mod model;
pub mod actions;
pub mod api;
