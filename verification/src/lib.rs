//! Core of a small JavaScript runtime: the module loader's caching and
//! specifier resolution, the async task registry that pairs native futures
//! with engine promises, the value bridge between native results and engine
//! values, and the file built-in's request/outcome logic.
//!
//! Everything engine- or I/O-facing (the embedder's driver, the host
//! callbacks, the spawned futures) lives outside this crate and drives these
//! verified cores through plain values.

pub mod driver;
pub mod event_loop;
pub mod fs_builtin;
pub mod loader;
pub mod paths;
pub mod registry;
pub mod resolve;
pub mod task_id;
pub mod values;
