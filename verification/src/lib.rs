//! A verified in-memory store of feeding records.
//!
//! The store keeps its records in insertion order, hands out identifiers
//! that are one above the largest identifier present, and describes the
//! steps by which its contents reach the backing file.

pub mod flush;
pub mod history;
pub mod model;
pub mod record;
pub mod store;
