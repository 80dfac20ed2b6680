//! The provider-facing client: request construction, response envelope
//! handling, and the upload/polling workflow.

pub mod stream;
