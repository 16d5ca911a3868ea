//! The store itself: the entry table, its indices, the fee ledger and the
//! administrator, held as one value.

use vstd::prelude::*;
use crate::index::{intersect, BucketIndex, IndexKey};
use crate::ledger::{AccessControl, FeeLedger};
use crate::model::{
    entries_valid, keep_common, lemma_select_ids_push, select_ids, total_burned, Query,
};
use crate::table::EntryTable;
use crate::text::contains_text;
use crate::types::{
    AccountId, Balance, BlockNumber, Error, FeeBurned, LogEntry, LogEntryView, LogStored,
    LogStoredView, Notification, NotificationView, StorageFeeUpdated,
};

verus! {

/// The storage fee of a store made by [`Eternalog::default`].
pub const DEFAULT_STORAGE_FEE: Balance = 10;

/// The append-only log store.
pub struct Eternalog {
    access: AccessControl,
    ledger: FeeLedger,
    table: EntryTable,
    index: BucketIndex,
    next_log_id: u64,
    total_logs: u64,
    outbox: Vec<Notification>,
}

/// The mathematical value of a store.
pub struct StateView {
    /// The administrator, fixed when the store is made.
    pub owner: AccountId,
    /// The payment that storing an entry requires.
    pub storage_fee: Balance,
    /// Every entry ever stored; the entry at position `i` has identifier `i + 1`.
    pub entries: Seq<LogEntryView>,
    /// The payment that came with each stored entry, in the same order.
    pub payments: Seq<Balance>,
    /// The notifications that the host has not collected yet, oldest first.
    pub pending: Seq<NotificationView>,
}

/// The values of a sequence of notifications.
pub open spec fn notification_views(notes: Seq<Notification>) -> Seq<NotificationView> {
    Seq::new(notes.len(), |i: int| notes[i]@)
}

/// The condition on entries that an index key stands for.
pub open spec fn query_of(key: IndexKey) -> Query {
    match key {
        IndexKey::Type(t) => Query::OfType(t),
        IndexKey::Author(a) => Query::ByAuthor(a),
    }
}

impl StateView {
    /// The identifier that the next stored entry gets.
    pub open spec fn next_log_id(self) -> nat {
        self.entries.len() + 1
    }

    /// One payment is recorded for each entry, and the entries are numbered
    /// from one without gaps.
    pub open spec fn consistent(self) -> bool {
        &&& entries_valid(self.entries)
        &&& self.payments.len() == self.entries.len()
    }

    /// Why a request to store is refused, if it is. Empty content is
    /// reported first, then a zero type, then a payment below the fee.
    pub open spec fn refusal(self, data: Seq<char>, log_type: u32, payment: Balance) -> Option<
        Error,
    > {
        if data.len() == 0 {
            Some(Error::EmptyLogData)
        } else if log_type == 0 {
            Some(Error::InvalidLogType)
        } else if payment < self.storage_fee {
            Some(Error::InsufficientBalance)
        } else {
            None
        }
    }

    /// The entry that an accepted request to store writes.
    pub open spec fn new_entry(
        self,
        data: Seq<char>,
        log_type: u32,
        author: AccountId,
        timestamp: BlockNumber,
    ) -> LogEntryView {
        LogEntryView { id: self.next_log_id() as u64, data, log_type, author, timestamp }
    }

    /// The store after an accepted request: the entry is appended, the whole
    /// payment is recorded as burned, and two notifications are left, the
    /// stored entry first and the burned fee second.
    pub open spec fn after_store(
        self,
        data: Seq<char>,
        log_type: u32,
        author: AccountId,
        timestamp: BlockNumber,
        payment: Balance,
    ) -> StateView {
        StateView {
            entries: self.entries.push(self.new_entry(data, log_type, author, timestamp)),
            payments: self.payments.push(payment),
            pending: self.pending.push(
                NotificationView::LogStored(
                    LogStoredView { log_id: self.next_log_id() as u64, author, log_type, data },
                ),
            ).push(NotificationView::FeeBurned(FeeBurned { amount: payment, burner: author })),
            ..self
        }
    }

    /// The store after the administrator has set the fee to `new_fee`.
    pub open spec fn after_fee_update(self, new_fee: Balance) -> StateView {
        StateView {
            storage_fee: new_fee,
            pending: self.pending.push(
                NotificationView::StorageFeeUpdated(
                    StorageFeeUpdated {
                        old_fee: self.storage_fee,
                        new_fee,
                        updated_by: self.owner,
                    },
                ),
            ),
            ..self
        }
    }
}

impl View for Eternalog {
    type V = StateView;

    closed spec fn view(&self) -> StateView {
        StateView {
            owner: self.access.administrator(),
            storage_fee: self.ledger@.storage_fee,
            entries: self.table@,
            payments: self.ledger@.payments,
            pending: notification_views(self.outbox@),
        }
    }
}

impl Eternalog {
    /// The counters and the indices agree with the entry table.
    pub closed spec fn wf(&self) -> bool {
        &&& self.table.wf()
        &&& self.ledger.wf()
        &&& self.index.wf()
        &&& self.next_log_id == self.table@.len() + 1
        &&& self.total_logs == self.table@.len()
        &&& self.ledger@.payments.len() == self.table@.len()
        &&& forall|key: IndexKey| #[trigger]
            self.index.ids(key) == select_ids(self.table@, query_of(key))
    }

    /// A well-formed store has a consistent value, and room for its next
    /// identifier.
    pub proof fn lemma_wf_consistent(&self)
        requires
            self.wf(),
        ensures
            self@.consistent(),
            self@.next_log_id() <= u64::MAX,
    {
    }

    /// An empty store with the given fee, administered by `caller`.
    pub fn new(storage_fee: Balance, caller: AccountId) -> (store: Eternalog)
        ensures
            store.wf(),
            store@ == (StateView {
                owner: caller,
                storage_fee,
                entries: Seq::empty(),
                payments: Seq::empty(),
                pending: Seq::empty(),
            }),
    {
        let store = Eternalog {
            access: AccessControl::new(caller),
            ledger: FeeLedger::new(storage_fee),
            table: EntryTable::new(),
            index: BucketIndex::new(),
            next_log_id: 1,
            total_logs: 0,
            outbox: Vec::new(),
        };
        assert(store@.pending =~= Seq::empty());
        store
    }

    /// An empty store with the default fee, administered by `caller`.
    pub fn default(caller: AccountId) -> (store: Eternalog)
        ensures
            store.wf(),
            store@ == (StateView {
                owner: caller,
                storage_fee: DEFAULT_STORAGE_FEE,
                entries: Seq::empty(),
                payments: Seq::empty(),
                pending: Seq::empty(),
            }),
    {
        Eternalog::new(DEFAULT_STORAGE_FEE, caller)
    }

    /// Stores an entry for `caller` at `timestamp`, paid for with `payment`.
    ///
    /// A refused request changes nothing. An accepted one gets the next
    /// identifier, and the whole payment is burned, whatever it exceeds the
    /// fee by.
    ///
    /// The identifiers must not be exhausted: the next identifier is always
    /// above every identifier in use, so nothing is ever stored under the
    /// largest one. A caller in doubt compares [`Eternalog::get_next_log_id`]
    /// with `u64::MAX` first.
    pub fn store_log(
        &mut self,
        data: String,
        log_type: u32,
        caller: AccountId,
        timestamp: BlockNumber,
        payment: Balance,
    ) -> (result: Result<u64, Error>)
        requires
            old(self).wf(),
            old(self)@.next_log_id() < u64::MAX,
        ensures
            final(self).wf(),
            match old(self)@.refusal(data@, log_type, payment) {
                Some(error) => result == Err::<u64, Error>(error) && final(self)@ == old(self)@,
                None => result == Ok::<u64, Error>(old(self)@.next_log_id() as u64) && final(self)@
                    == old(self)@.after_store(data@, log_type, caller, timestamp, payment),
            },
    {
        if data.as_str().is_empty() {
            return Err(Error::EmptyLogData);
        }
        if log_type == 0 {
            return Err(Error::InvalidLogType);
        }
        match self.ledger.charge(payment) {
            Err(error) => {
                return Err(error);
            },
            Ok(()) => {},
        }
        let ghost before = *self;
        let log_id: u64 = self.next_log_id;
        let announced = data.clone();

        self.table.create(log_id, data, log_type, caller, timestamp);
        self.index.append(IndexKey::Type(log_type), log_id);
        self.index.append(IndexKey::Author(caller), log_id);

        self.next_log_id = self.next_log_id.saturating_add(1);
        self.total_logs = self.total_logs.saturating_add(1);
        self.ledger.record_burn(payment);

        self.outbox.push(
            Notification::LogStored(
                LogStored { log_id, author: caller, log_type, data: announced },
            ),
        );
        self.outbox.push(Notification::FeeBurned(FeeBurned { amount: payment, burner: caller }));

        proof {
            let next = before@.after_store(data@, log_type, caller, timestamp, payment);
            let entry = before@.new_entry(data@, log_type, caller, timestamp);
            assert(self@.pending =~= next.pending);
            assert forall|key: IndexKey| #[trigger]
                self.index.ids(key) == select_ids(self.table@, query_of(key)) by {
                lemma_select_ids_push(before@.entries, entry, query_of(key));
            }
        }
        Ok(log_id)
    }

    /// Stores an entry as [`Eternalog::store_log`] does, unless the
    /// identifiers are exhausted: then nothing changes and the answer is
    /// `None`.
    pub fn try_store_log(
        &mut self,
        data: String,
        log_type: u32,
        caller: AccountId,
        timestamp: BlockNumber,
        payment: Balance,
    ) -> (outcome: Option<Result<u64, Error>>)
        requires
            old(self).wf(),
        ensures
            final(self).wf(),
            old(self)@.next_log_id() >= u64::MAX ==> outcome is None && final(self)@ == old(self)@,
            old(self)@.next_log_id() < u64::MAX ==> match old(self)@.refusal(
                data@,
                log_type,
                payment,
            ) {
                Some(error) => outcome == Some(Err::<u64, Error>(error)) && final(self)@ == old(
                    self,
                )@,
                None => outcome == Some(Ok::<u64, Error>(old(self)@.next_log_id() as u64))
                    && final(self)@ == old(self)@.after_store(
                    data@,
                    log_type,
                    caller,
                    timestamp,
                    payment,
                ),
            },
    {
        if self.next_log_id == u64::MAX {
            return None;
        }
        Some(self.store_log(data, log_type, caller, timestamp, payment))
    }

    /// The entry stored under `log_id`.
    pub fn get_log(&self, log_id: u64) -> (result: Result<LogEntry, Error>)
        requires
            self.wf(),
        ensures
            match result {
                Ok(entry) => 1 <= log_id < self@.next_log_id() && entry@ == self@.entries[log_id
                    - 1] && entry.id == log_id,
                Err(error) => error == Error::LogNotFound && !(1 <= log_id
                    < self@.next_log_id()),
            },
    {
        self.table.get(log_id)
    }

    /// The identifiers of the entries of type `log_type`, in the order in
    /// which they were stored; none where the type is unseen.
    pub fn get_logs_by_type(&self, log_type: u32) -> (ids: Vec<u64>)
        requires
            self.wf(),
        ensures
            ids@ == select_ids(self@.entries, Query::OfType(log_type)),
    {
        let key = IndexKey::Type(log_type);
        self.index.lookup(key)
    }

    /// The identifiers of the entries stored by `author`, in the order in
    /// which they were stored; none where the author is unseen.
    pub fn get_logs_by_author(&self, author: AccountId) -> (ids: Vec<u64>)
        requires
            self.wf(),
        ensures
            ids@ == select_ids(self@.entries, Query::ByAuthor(author)),
    {
        let key = IndexKey::Author(author);
        self.index.lookup(key)
    }

    /// The identifiers of the entries whose content contains `search_term`,
    /// ascending.
    pub fn search_logs_by_content(&self, search_term: String) -> (ids: Vec<u64>)
        requires
            self.wf(),
        ensures
            ids@ == select_ids(self@.entries, Query::Containing(search_term@)),
    {
        let ghost query = Query::Containing(search_term@);
        let mut results: Vec<u64> = Vec::new();
        let mut log_id: u64 = 1;
        while log_id < self.next_log_id
            invariant
                self.wf(),
                1 <= log_id <= self.next_log_id,
                query == Query::Containing(search_term@),
                results@ == select_ids(self@.entries.take(log_id - 1), query),
            decreases self.next_log_id - log_id,
        {
            proof {
                let seen = self@.entries.take(log_id - 1);
                assert(self@.entries.take(log_id as int) =~= seen.push(
                    self@.entries[log_id - 1],
                ));
                lemma_select_ids_push(seen, self@.entries[log_id - 1], query);
            }
            if let Some(entry) = self.table.peek(log_id) {
                if contains_text(entry.data.as_str(), search_term.as_str()) {
                    results.push(log_id);
                }
            }
            log_id += 1;
        }
        assert(self@.entries.take(log_id - 1) =~= self@.entries);
        results
    }

    /// The identifiers filed under `log_type` that are also filed under
    /// `author`, in the order of the type's list.
    pub fn get_logs_by_type_and_author(&self, log_type: u32, author: AccountId) -> (ids: Vec<u64>)
        requires
            self.wf(),
        ensures
            ids@ == keep_common(
                select_ids(self@.entries, Query::OfType(log_type)),
                select_ids(self@.entries, Query::ByAuthor(author)),
            ),
    {
        let type_logs = self.get_logs_by_type(log_type);
        let author_logs = self.get_logs_by_author(author);
        intersect(&type_logs, &author_logs)
    }

    /// The payment that storing an entry requires.
    pub fn get_storage_fee(&self) -> (fee: Balance)
        ensures
            fee == self@.storage_fee,
    {
        self.ledger.quote()
    }

    /// How many entries were stored.
    pub fn get_total_logs(&self) -> (count: u64)
        requires
            self.wf(),
        ensures
            count == self@.entries.len(),
            count == self@.payments.len(),
    {
        self.total_logs
    }

    /// The sum of the payments of all stored entries, capped at the largest
    /// balance.
    pub fn get_total_fees_burned(&self) -> (total: Balance)
        requires
            self.wf(),
        ensures
            total == total_burned(self@.payments),
    {
        self.ledger.burned()
    }

    /// The identifier that the next stored entry gets.
    pub fn get_next_log_id(&self) -> (next: u64)
        requires
            self.wf(),
        ensures
            next == self@.next_log_id(),
    {
        self.next_log_id
    }

    /// The administrator.
    pub fn get_owner(&self) -> (owner: AccountId)
        ensures
            owner == self@.owner,
    {
        self.access.owner()
    }

    /// Whether `caller` is the administrator.
    pub fn is_owner(&self, caller: AccountId) -> (yes: bool)
        ensures
            yes == (caller == self@.owner),
    {
        self.access.is_owner(caller)
    }

    /// Sets the storage fee to `new_fee`, for the administrator only.
    /// Any fee is accepted. Another caller changes nothing.
    pub fn update_storage_fee(&mut self, new_fee: Balance, caller: AccountId) -> (result: Result<
        (),
        Error,
    >)
        requires
            old(self).wf(),
        ensures
            final(self).wf(),
            caller == old(self)@.owner ==> result == Ok::<(), Error>(()) && final(self)@ == old(
                self,
            )@.after_fee_update(new_fee),
            caller != old(self)@.owner ==> result == Err::<(), Error>(Error::Unauthorized)
                && final(self)@ == old(self)@,
    {
        let ghost before = *self;
        match self.ledger.set_fee(new_fee, caller, &self.access) {
            Err(error) => Err(error),
            Ok(old_fee) => {
                self.outbox.push(
                    Notification::StorageFeeUpdated(
                        StorageFeeUpdated { old_fee, new_fee, updated_by: caller },
                    ),
                );
                assert(self@.pending =~= before@.after_fee_update(new_fee).pending);
                Ok(())
            },
        }
    }

    /// Hands the pending notifications to the host, oldest first, and
    /// leaves none pending.
    pub fn take_notifications(&mut self) -> (notes: Vec<Notification>)
        requires
            old(self).wf(),
        ensures
            final(self).wf(),
            notification_views(notes@) == old(self)@.pending,
            notes@.len() == old(self)@.pending.len(),
            final(self)@ == (StateView { pending: Seq::empty(), ..old(self)@ }),
    {
        let mut notes: Vec<Notification> = Vec::new();
        std::mem::swap(&mut self.outbox, &mut notes);
        assert(self@.pending =~= Seq::empty());
        notes
    }
}

} // verus!
