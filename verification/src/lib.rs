//! Verified core of a handle-based filesystem watcher: the translation of
//! native change notifications into a portable event vocabulary, the
//! protocol by which a watcher is created over a list of paths, and the
//! handle table through which events are polled.

pub mod error;
pub mod event;
pub mod open;
pub mod table;
