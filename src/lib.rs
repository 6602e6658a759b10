//! Write-path strategies for object storage: buffering adapters that reshape
//! chunk sizes, a multipart upload session, and an append/one-shot blob
//! writer. Every network exchange is described as a step for the caller to
//! perform; its outcome is handed back to the writer, which decides what
//! comes next.

pub mod error;
pub mod header;
pub mod op;
pub mod azblob;
pub mod buffer;
pub mod multipart;
pub mod strategy;
