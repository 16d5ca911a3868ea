//! The plain data that crosses the store's boundary.

use vstd::prelude::*;

verus! {

/// An amount of the native token.
pub type Balance = u128;

/// A block number, used as the timestamp of an entry.
pub type BlockNumber = u32;

/// A 256-bit account identity, held as its two 128-bit halves.
#[derive(Clone, Copy, Debug, PartialEq, Eq, Structural, Hash)]
pub struct AccountId {
    /// The sixteen leading bytes, big-endian.
    pub hi: u128,
    /// The sixteen trailing bytes, big-endian.
    pub lo: u128,
}

/// Why an operation was refused.
#[derive(Clone, Copy, Debug, PartialEq, Eq, Structural)]
pub enum Error {
    /// The payment is below the current storage fee.
    InsufficientBalance,
    /// No entry is stored under the requested identifier.
    LogNotFound,
    /// The log type is zero.
    InvalidLogType,
    /// The content is empty.
    EmptyLogData,
    /// The caller is not the administrator.
    Unauthorized,
}

/// One stored entry.
#[derive(Debug, Clone, PartialEq, Eq)]
pub struct LogEntry {
    /// The entry's identifier, unique and never reused.
    pub id: u64,
    /// The content.
    pub data: String,
    /// The type tag, never zero.
    pub log_type: u32,
    /// Who stored the entry.
    pub author: AccountId,
    /// The block at which the entry was stored.
    pub timestamp: BlockNumber,
}

/// The mathematical value of a [`LogEntry`].
pub struct LogEntryView {
    pub id: u64,
    pub data: Seq<char>,
    pub log_type: u32,
    pub author: AccountId,
    pub timestamp: BlockNumber,
}

impl View for LogEntry {
    type V = LogEntryView;

    open spec fn view(&self) -> LogEntryView {
        LogEntryView {
            id: self.id,
            data: self.data@,
            log_type: self.log_type,
            author: self.author,
            timestamp: self.timestamp,
        }
    }
}

/// Tells observers that an entry was stored.
#[derive(Debug, Clone, PartialEq, Eq)]
pub struct LogStored {
    pub log_id: u64,
    pub author: AccountId,
    pub log_type: u32,
    pub data: String,
}

/// The mathematical value of a [`LogStored`].
pub struct LogStoredView {
    pub log_id: u64,
    pub author: AccountId,
    pub log_type: u32,
    pub data: Seq<char>,
}

impl View for LogStored {
    type V = LogStoredView;

    open spec fn view(&self) -> LogStoredView {
        LogStoredView {
            log_id: self.log_id,
            author: self.author,
            log_type: self.log_type,
            data: self.data@,
        }
    }
}

/// Tells observers that a payment was burned.
#[derive(Debug, Clone, Copy, PartialEq, Eq, Structural)]
pub struct FeeBurned {
    pub amount: Balance,
    pub burner: AccountId,
}

/// Tells observers that the administrator changed the storage fee.
#[derive(Debug, Clone, Copy, PartialEq, Eq, Structural)]
pub struct StorageFeeUpdated {
    pub old_fee: Balance,
    pub new_fee: Balance,
    pub updated_by: AccountId,
}

/// A notification that the store leaves for its host to deliver.
#[derive(Debug, Clone, PartialEq, Eq)]
pub enum Notification {
    LogStored(LogStored),
    FeeBurned(FeeBurned),
    StorageFeeUpdated(StorageFeeUpdated),
}

/// The mathematical value of a [`Notification`].
pub enum NotificationView {
    LogStored(LogStoredView),
    FeeBurned(FeeBurned),
    StorageFeeUpdated(StorageFeeUpdated),
}

impl View for Notification {
    type V = NotificationView;

    open spec fn view(&self) -> NotificationView {
        match *self {
            Notification::LogStored(e) => NotificationView::LogStored(e@),
            Notification::FeeBurned(e) => NotificationView::FeeBurned(e),
            Notification::StorageFeeUpdated(e) => NotificationView::StorageFeeUpdated(e),
        }
    }
}

} // verus!
