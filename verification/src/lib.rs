//! An append-only log store.
//!
//! Entries are immutable once written. Each entry is tagged with its author,
//! a type and a timestamp, and is paid for with a storage fee that is burned.
//! The store keeps secondary indices by type and by author and answers
//! substring queries over the entries' content.
//!
//! The host that embeds the store supplies the caller's identity, the
//! current timestamp and the transferred amount with every call, and
//! collects the notifications that the store leaves for it.

pub mod types;
pub mod text;
pub mod model;
pub mod index;
pub mod table;
pub mod ledger;
pub mod store;
pub mod laws;

pub use crate::types::{
    AccountId, Balance, BlockNumber, Error, FeeBurned, LogEntry, LogStored, Notification,
    StorageFeeUpdated,
};
pub use crate::store::Eternalog;
