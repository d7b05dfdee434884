//! A typed deep-merge engine for structured resources.
//!
//! Given a *target* value and a *source* (patch) value of the same type, the
//! engine mutates the target in place so that it reflects the source's data
//! where the source provides any, and keeps the target's data elsewhere.
//! Collection fields are merged under one of a small set of named strategies
//! (atomic replace, list-as-map reconciliation, list-as-set append, granular
//! map merge), and untyped JSON trees are merged under the JSON Merge Patch
//! rules of RFC 7396.

pub mod deep_merge;
pub mod json;
pub mod resources;
pub mod strategies;
pub mod string_map;
pub mod types;
