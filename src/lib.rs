//! Ingestion and accumulation of channel subscriber-count updates.
//!
//! Decoded messages are expanded into timestamped rows, buffered in arrival
//! order, and handed out in fixed-size batches for persistence.
pub mod row;
pub mod accumulator;
pub mod ingest;
