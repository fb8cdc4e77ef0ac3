//! Core of a URL-shortening service: random short identifiers, the mapping
//! record that ties one to a long URL, and the decisions taken around each
//! store operation.

pub mod config;
pub mod mapping;
pub mod models;
pub mod short_id;
