//! A namespace-isolated, in-memory key-value store built from two kinds of
//! sequential actors: a registry that owns the namespace table, and one
//! bucket per namespace that owns that namespace's map.
//!
//! The modules hold the decisions of both actors as verified state-machine
//! steps; the tasks and queues that run them live outside this library.

pub mod bucket;
pub mod http_app;
pub mod supervisor;
