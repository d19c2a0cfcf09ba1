//! Turns a video URL into an uploaded transcript and answers questions about it.
//!
//! The network work (starting a transcript job, polling it, uploading, asking)
//! is performed by the caller; this library decides every step of it through
//! the state machine in [`session`], and holds the pure parts (identifier
//! extraction, status classification, response interpretation) with their
//! contracts.
pub mod error;
pub mod resolver;
pub mod job;
pub mod http;
pub mod ingest;
pub mod answer;
pub mod session;
