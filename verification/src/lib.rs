//! A minimal retrieval-augmented generation pipeline: chunking of page text
//! into bounded retrieval units, embedding-request construction, vector-store
//! upsert/query request and outcome handling, and prompt augmentation.
//!
//! All network transport stays outside this crate; the functions here build
//! the requests, decide what each response means, and assemble the prompt.

pub mod chunker;
pub mod decimal;
pub mod embedding;
pub mod pipeline;
pub mod prompt;
pub mod store;

