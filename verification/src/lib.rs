//! Core of a content-keyed build cache: an in-flight registry that collapses
//! concurrent duplicate uploads, a blob store keyed by id, and the per-key
//! handler that orchestrates GET and PUT against both under that guard.

pub mod cache;
pub mod handler;
pub mod registry;
pub mod store;
