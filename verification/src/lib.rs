//! A provider-agnostic client layer for cloud language-model HTTP APIs.
//!
//! The crate decides which headers a provider's authentication scheme needs,
//! where each request goes, how a response is turned into a typed outcome, and
//! how audio samples are framed for upload. Sending a request is left to the
//! caller.

pub mod error;
pub mod provider;
pub mod headers;
pub mod json;
pub mod models;
pub mod chat;
pub mod transcribe;
pub mod client;
