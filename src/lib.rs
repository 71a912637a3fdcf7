//! Turns forensic file-timeline records into one search document per
//! distinct event instant, and batches those documents for bulk ingestion.
pub mod timestamp;
pub mod posix_file;
pub mod index;
pub mod index_builder;
