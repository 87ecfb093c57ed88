//! Safe-surface bridge logic for a dynamically loaded document-processing
//! library: an opaque-handle table, the two-phase buffer marshaling protocol
//! with UTF-16 and UTF-8 decoding, bounded outline traversal, link
//! resolution, and an in-memory capture sink for push-style serialization.
//!
//! The raw foreign calls themselves live outside this crate; everything here
//! works on plain values and carries a verified contract.

pub mod errors;
pub mod handle;
pub mod links;
pub mod marshal;
pub mod ops;
pub mod outline;
pub mod sink;
pub mod text16;
