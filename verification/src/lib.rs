//! A deterministic job-attestation pipeline.
//!
//! A job names a task and a reference to its input. Processing a job derives
//! the task's output, hashes input and output, mints a content identifier for
//! the output and counts the job. An attestation binds a job's identity and
//! hashes to a signer and a timestamp; the bytes that are signed are a
//! canonical text that any verifier can rebuild from the same fields.
//!
//! Clock readings, the signer's identity and the signature itself come from
//! the host: every function here takes them as plain values.

pub mod cid;
pub mod decimal;
pub mod hashing;
pub mod payload;
pub mod payload_laws;
pub mod processor;
pub mod tasks;
pub mod text;
pub mod types;

pub use processor::{MunusJobProcessor, PendingJob};
pub use types::{Attestation, Event, JobResult, ProcessorError, ResultMetadata};
