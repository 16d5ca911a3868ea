//! The mathematical model of the store: what its queries mean over the
//! sequence of entries, and the laws that hold of them.

use vstd::prelude::*;
use crate::text::occurs_in;
use crate::types::{AccountId, LogEntryView};

verus! {

/// A condition on a single entry.
pub enum Query {
    /// The entry has this type.
    OfType(u32),
    /// The entry was stored by this author.
    ByAuthor(AccountId),
    /// The entry has this type and was stored by this author.
    OfTypeByAuthor(u32, AccountId),
    /// The entry's content contains this text.
    Containing(Seq<char>),
}

impl Query {
    /// Whether the entry meets the condition.
    pub open spec fn admits(self, entry: LogEntryView) -> bool {
        match self {
            Query::OfType(t) => entry.log_type == t,
            Query::ByAuthor(a) => entry.author == a,
            Query::OfTypeByAuthor(t, a) => entry.log_type == t && entry.author == a,
            Query::Containing(term) => occurs_in(entry.data, term),
        }
    }
}

/// The entries of a store are numbered from one, in the order in which they
/// were written; each has content and a type above zero.
pub open spec fn entries_valid(entries: Seq<LogEntryView>) -> bool {
    forall|i: int|
        0 <= i < entries.len() ==> {
            &&& (#[trigger] entries[i]).id == i + 1
            &&& entries[i].data.len() > 0
            &&& entries[i].log_type > 0
        }
}

/// The identifiers of the entries that meet `query`, ascending.
/// The entry at position `i` has identifier `i + 1`.
pub open spec fn select_ids(entries: Seq<LogEntryView>, query: Query) -> Seq<u64>
    decreases entries.len(),
{
    if entries.len() == 0 {
        Seq::empty()
    } else {
        let earlier = select_ids(entries.drop_last(), query);
        if query.admits(entries.last()) {
            earlier.push(entries.len() as u64)
        } else {
            earlier
        }
    }
}

/// The members of `left` that also occur in `right`, in the order of `left`.
pub open spec fn keep_common(left: Seq<u64>, right: Seq<u64>) -> Seq<u64>
    decreases left.len(),
{
    if left.len() == 0 {
        Seq::empty()
    } else {
        let earlier = keep_common(left.drop_last(), right);
        if right.contains(left.last()) {
            earlier.push(left.last())
        } else {
            earlier
        }
    }
}

/// The sum of all payments.
pub open spec fn total_paid(payments: Seq<u128>) -> nat
    decreases payments.len(),
{
    if payments.len() == 0 {
        0
    } else {
        total_paid(payments.drop_last()) + payments.last() as nat
    }
}

/// The sum of all payments, capped at the largest amount a balance can hold.
pub open spec fn total_burned(payments: Seq<u128>) -> u128 {
    if total_paid(payments) > u128::MAX {
        u128::MAX
    } else {
        total_paid(payments) as u128
    }
}

/// Appending an entry appends its identifier to the selections that admit
/// it and leaves every other selection as it was.
pub proof fn lemma_select_ids_push(entries: Seq<LogEntryView>, entry: LogEntryView, query: Query)
    ensures
        select_ids(entries.push(entry), query) == if query.admits(entry) {
            select_ids(entries, query).push((entries.len() + 1) as u64)
        } else {
            select_ids(entries, query)
        },
{
    assert(entries.push(entry).drop_last() =~= entries);
}

/// A burned total grows by saturating addition.
pub proof fn lemma_total_burned_push(payments: Seq<u128>, payment: u128)
    ensures
        total_burned(payments.push(payment)) == if total_burned(payments) + payment > u128::MAX {
            u128::MAX
        } else {
            (total_burned(payments) + payment) as u128
        },
{
    assert(payments.push(payment).drop_last() =~= payments);
}

/// A selection holds exactly the identifiers of the entries that meet the
/// query, each once, in ascending order.
pub proof fn lemma_select_ids_exact(entries: Seq<LogEntryView>, query: Query)
    requires
        entries.len() < u64::MAX,
    ensures
        forall|id: u64|
            select_ids(entries, query).contains(id) <==> (1 <= id <= entries.len() && query.admits(
                entries[id - 1],
            )),
        forall|i: int, j: int|
            0 <= i < j < select_ids(entries, query).len() ==> select_ids(entries, query)[i]
                < select_ids(entries, query)[j],
        forall|i: int|
            0 <= i < select_ids(entries, query).len() ==> 1 <= #[trigger] select_ids(
                entries,
                query,
            )[i] <= entries.len(),
        select_ids(entries, query).len() <= entries.len(),
    decreases entries.len(),
{
    let ids = select_ids(entries, query);
    if entries.len() > 0 {
        let front = entries.drop_last();
        let earlier = select_ids(front, query);
        lemma_select_ids_exact(front, query);
        assert forall|id: u64|
            ids.contains(id) <==> (1 <= id <= entries.len() && query.admits(
                entries[id - 1],
            )) by {
            if query.admits(entries.last()) {
                let top = entries.len() as u64;
                if id == top {
                    assert(ids[ids.len() - 1] == top);
                } else if earlier.contains(id) {
                    let k = choose|k: int| 0 <= k < earlier.len() && earlier[k] == id;
                    assert(ids[k] == id);
                }
            }
        }
    }
}

/// Where no entry meets the query, the selection is empty.
pub proof fn lemma_select_ids_none(entries: Seq<LogEntryView>, query: Query)
    requires
        forall|i: int| 0 <= i < entries.len() ==> !query.admits(#[trigger] entries[i]),
    ensures
        select_ids(entries, query) == Seq::<u64>::empty(),
    decreases entries.len(),
{
    if entries.len() > 0 {
        lemma_select_ids_none(entries.drop_last(), query);
    }
}

/// An identifier is kept exactly when both sequences hold it.
pub proof fn lemma_keep_common_exact(left: Seq<u64>, right: Seq<u64>)
    ensures
        forall|id: u64|
            keep_common(left, right).contains(id) <==> (left.contains(id) && right.contains(id)),
    decreases left.len(),
{
    let kept = keep_common(left, right);
    if left.len() > 0 {
        let front = left.drop_last();
        let earlier = keep_common(front, right);
        lemma_keep_common_exact(front, right);
        assert forall|id: u64|
            kept.contains(id) <==> (left.contains(id) && right.contains(id)) by {
            if front.contains(id) {
                let k = choose|k: int| 0 <= k < front.len() && front[k] == id;
                assert(left[k] == id);
            }
            if left.contains(id) {
                let k = choose|k: int| 0 <= k < left.len() && left[k] == id;
                if k < front.len() {
                    assert(front[k] == id);
                } else {
                    assert(id == left.last());
                }
            }
            if right.contains(left.last()) {
                assert(kept == earlier.push(left.last()));
                assert(kept[kept.len() - 1] == left.last());
                if kept.contains(id) {
                    let k = choose|k: int| 0 <= k < kept.len() && kept[k] == id;
                    if k < earlier.len() {
                        assert(earlier[k] == id);
                    }
                }
                if earlier.contains(id) {
                    let k = choose|k: int| 0 <= k < earlier.len() && earlier[k] == id;
                    assert(kept[k] == id);
                }
            }
        }
    } else {
        assert forall|id: u64| !kept.contains(id) by {
            if kept.contains(id) {
                let k = choose|k: int| 0 <= k < kept.len() && kept[k] == id;
            }
        }
    }
}

} // verus!
