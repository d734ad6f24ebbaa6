//! Utilities for replicated canisters: a builder, cost model and dispatcher for
//! deterministic HTTP outcalls, a request counter, and the fixed-width byte
//! encodings under which counters and identifiers are persisted.

pub mod call;
pub mod endian;
pub mod http;
pub mod memory;
pub mod nonce;
pub mod subaccount;
pub mod timestamp;

pub use subaccount::Subaccount;
pub use timestamp::NanoTimeStamp;
