//! Durable storage for a consensus participant's safety-critical state.
//!
//! The library persists the private keys that sign votes and execution
//! results, the voting-progress record that prevents double voting, the
//! validator's identity, and the waypoint that anchors acceptable ledger
//! history. It exposes a typed facade, [`PersistentSafetyStorage`], over an
//! abstract key-value/crypto store, together with an optional read-through
//! cache decorator that never changes observable behaviour.

pub mod author;
pub mod codec;
pub mod error;
pub mod keys;
pub mod persistent;
pub mod safety_data;
pub mod storage;
pub mod util;
pub mod value;
pub mod waypoint;

pub use error::Error;
pub use persistent::PersistentSafetyStorage;
pub use storage::RecordName;
