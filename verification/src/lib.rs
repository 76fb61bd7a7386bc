//! Verified core of an image upload and recompression service.
//!
//! The crate has two components. The ingestion stream writer
//! ([`ingest`]) copies a multipart upload, chunk by chunk, into a
//! uniquely named file, holding at most one chunk in memory at a time.
//! The format compressor ([`optimizer`]) reads a stored image, decodes
//! it, re-encodes it as JPEG, PNG or WebP at a requested quality, and
//! writes the result, reporting exactly which stage failed if any.
//!
//! File system and codec calls go through small trusted wrappers in
//! [`storage`] and [`imagecodec`]; everything around them is verified.

pub mod imagecodec;
pub mod ingest;
pub mod optimizer;
pub mod storage;
