//! Bridge between a dynamic, label-driven metrics facade and a strict,
//! statically-labeled Prometheus-style client registry.
//!
//! The facade treats metric registration as create-or-fetch by name and
//! labels, retryable at every call; the client registry declares each metric
//! family once and rejects any later inconsistency.  This crate owns the
//! translation: per-kind name-to-bundle tables grown lazily on first use
//! ([`storage::Mutable`]), a read-only snapshot of those tables
//! ([`storage::Immutable`]), and recorder front-ends that apply a pluggable
//! [`failure::Strategy`] whenever the client registry refuses a request.

pub mod failure;
pub mod metric;
pub mod recorder;
pub mod storage;

pub use failure::RegistryError;
pub use metric::Metric;
pub use recorder::{Freezable as FreezableRecorder, Frozen as FrozenRecorder, Recorder};
