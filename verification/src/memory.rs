//! Types shared with the stable-memory collections.

pub mod types;
