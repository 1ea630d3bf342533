//! Migration engine for moving a large file tree into a cold-archive object
//! store: chunk planning, resumable downloads, size reconciliation and the
//! per-file control loop, each stated and proved over plain values.
pub mod chunking;
pub mod record;
pub mod reconcile;
pub mod download;
pub mod upload;
pub mod orchestrator;
pub mod report;
pub mod catalog;
pub mod paths;
pub mod http;
