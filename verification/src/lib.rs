//! Submission protocol of a command-line uploader for a music cataloguing
//! service: request signing, the duplicate-check / forced-retry workflow and
//! the upload handoff, with the rules around them (bit-rate gate, wire codes,
//! candidate table).
//!
//! Everything here computes on plain values. Network round trips, prompts,
//! the metadata probe and file access belong to the program that drives the
//! library: it performs the [`submission::Action`]s and reports back
//! [`submission::Event`]s.

pub mod constants;
pub mod interactive;
pub mod outcome;
pub mod signature;
pub mod submission;
pub mod text;
pub mod types;
pub mod upload;
pub mod util;
