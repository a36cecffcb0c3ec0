//! Protocol engine of a blob-record store: chunked uploads are reassembled
//! into one record under a byte budget, identifiers are handed out in
//! strictly increasing order, and store outcomes are turned into responses.
pub mod allocator;
pub mod failure;
pub mod ingest;
pub mod record;
pub mod relay;
pub mod service;
pub mod status;
