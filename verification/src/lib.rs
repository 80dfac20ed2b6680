//! Client library for copying remote videos into a cloud streaming account
//! and polling the uploaded asset until it is ready to stream.
//!
//! The library holds the decision logic of the uploader: credential
//! validation, construction of the authenticated requests, unwrapping of the
//! provider's response envelope, and the polling state machine. The network
//! itself (HTTP, sleeping between polls, environment variables) is driven by
//! the surrounding application, which feeds every response back into the
//! verified step functions defined here.

pub mod cloudflare;
pub mod config;
