//! The entry table: the entries themselves, each under its identifier.

use vstd::prelude::*;
use crate::model::entries_valid;
use crate::types::{AccountId, BlockNumber, Error, LogEntry, LogEntryView};

verus! {

/// The values of a sequence of entries.
pub open spec fn entry_views(entries: Seq<LogEntry>) -> Seq<LogEntryView> {
    Seq::new(entries.len(), |i: int| entries[i]@)
}

/// Every entry ever stored. Entries are only ever added.
pub struct EntryTable {
    entries: Vec<LogEntry>,
}

impl View for EntryTable {
    type V = Seq<LogEntryView>;

    /// The entries in the order of their identifiers; the entry at
    /// position `i` has identifier `i + 1`.
    closed spec fn view(&self) -> Seq<LogEntryView> {
        entry_views(self.entries@)
    }
}

impl EntryTable {
    /// The entries are numbered from one without gaps, and each is complete.
    pub open spec fn wf(&self) -> bool {
        entries_valid(self@)
    }

    /// An empty table.
    pub fn new() -> (table: EntryTable)
        ensures
            table.wf(),
            table@ == Seq::<LogEntryView>::empty(),
    {
        EntryTable { entries: Vec::new() }
    }

    /// Whether an entry is stored under `id`.
    pub open spec fn has(&self, id: u64) -> bool {
        1 <= id <= self@.len()
    }

    /// The number of entries.
    pub fn len(&self) -> (count: usize)
        ensures
            count == self@.len(),
    {
        self.entries.len()
    }

    /// Stores an entry under `id`, the first identifier not yet in use.
    pub fn create(
        &mut self,
        id: u64,
        data: String,
        log_type: u32,
        author: AccountId,
        timestamp: BlockNumber,
    )
        requires
            old(self).wf(),
            id == old(self)@.len() + 1,
            data@.len() > 0,
            log_type > 0,
        ensures
            final(self).wf(),
            final(self)@ == old(self)@.push(
                LogEntryView { id, data: data@, log_type, author, timestamp },
            ),
    {
        self.entries.push(LogEntry { id, data, log_type, author, timestamp });
        assert(self@ =~= old(self)@.push(
            LogEntryView { id, data: data@, log_type, author, timestamp },
        ));
    }

    /// The entry stored under `id`, where there is one.
    pub fn peek(&self, id: u64) -> (found: Option<&LogEntry>)
        requires
            self.wf(),
        ensures
            match found {
                Some(entry) => self.has(id) && entry@ == self@[id - 1] && entry.id == id,
                None => !self.has(id),
            },
    {
        let count: usize = self.entries.len();
        if id == 0 || id - 1 >= count as u64 {
            return None;
        }
        let at: usize = (id - 1) as usize;
        Some(&self.entries[at])
    }

    /// A copy of the entry stored under `id`.
    pub fn get(&self, id: u64) -> (result: Result<LogEntry, Error>)
        requires
            self.wf(),
        ensures
            match result {
                Ok(entry) => self.has(id) && entry@ == self@[id - 1] && entry.id == id,
                Err(error) => error == Error::LogNotFound && !self.has(id),
            },
    {
        match self.peek(id) {
            Some(entry) => Ok(
                LogEntry {
                    id: entry.id,
                    data: entry.data.clone(),
                    log_type: entry.log_type,
                    author: entry.author,
                    timestamp: entry.timestamp,
                },
            ),
            None => Err(Error::LogNotFound),
        }
    }
}

} // verus!
