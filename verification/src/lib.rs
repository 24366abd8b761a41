//! Supervision logic for local text-to-speech backends.
//!
//! A desktop application can delegate speech synthesis to one of several
//! local backends: a containerized HTTP service, a spawned server process,
//! or the platform speech engine.  This crate holds the verified core of the
//! supervisor for those backends: path resolution for the spawned backend's
//! resources, dependency probes with remediation hints, idempotent start and
//! stop decisions for the container and the child process, classification of
//! audio-fetch responses, and the mapping of normalized speech controls into
//! engine-native ranges.
//!
//! The crate itself performs no I/O.  Every operating-system interaction —
//! running a probe command, spawning or killing a process, an HTTP request,
//! a filesystem existence test — is carried out by the embedding program,
//! which hands the outcome (exit status, captured output, response status and
//! body) to the functions here as plain values and receives the decision,
//! the command to run next, or the finished result back.

pub mod audio;
pub mod command;
pub mod container;
pub mod deps;
pub mod engine;
pub mod paths;
pub mod platform;
pub mod setup;
pub mod subprocess;
pub mod text;
