//! Laws that relate the operations of the store to one another, stated
//! over the store's mathematical value.

use vstd::prelude::*;
use crate::model::{
    keep_common, lemma_select_ids_exact, select_ids, total_burned, total_paid, Query,
};
use crate::store::StateView;
use crate::types::{AccountId, Balance, BlockNumber, LogEntryView};

verus! {

/// An accepted request to store takes the next identifier and moves it up by
/// one; the entry read back under that identifier holds exactly what was
/// stored; and every earlier entry stays as it was.
pub proof fn law_store_then_get(
    store: StateView,
    data: Seq<char>,
    log_type: u32,
    author: AccountId,
    timestamp: BlockNumber,
    payment: Balance,
)
    requires
        store.consistent(),
        store.next_log_id() < u64::MAX,
        store.refusal(data, log_type, payment) is None,
    ensures
        ({
            let after = store.after_store(data, log_type, author, timestamp, payment);
            &&& after.consistent()
            &&& after.next_log_id() == store.next_log_id() + 1
            &&& after.entries[store.next_log_id() - 1] == (LogEntryView {
                id: store.next_log_id() as u64,
                data,
                log_type,
                author,
                timestamp,
            })
            &&& forall|i: int| 0 <= i < store.entries.len() ==> after.entries[i] == store.entries[i]
        }),
{
}

/// An accepted request to store adds one to the count of entries and its
/// whole payment to the sum of the payments; the burned total follows the
/// sum up to the largest balance and stays there. A refused request leaves
/// both as they were, since it leaves the store as it was.
pub proof fn law_totals_follow_store(
    store: StateView,
    data: Seq<char>,
    log_type: u32,
    author: AccountId,
    timestamp: BlockNumber,
    payment: Balance,
)
    requires
        store.consistent(),
    ensures
        ({
            let after = store.after_store(data, log_type, author, timestamp, payment);
            &&& after.entries.len() == store.entries.len() + 1
            &&& after.payments.len() == after.entries.len()
            &&& total_paid(after.payments) == total_paid(store.payments) + payment
            &&& total_burned(after.payments) == if total_burned(store.payments) + payment
                > u128::MAX {
                u128::MAX
            } else {
                (total_burned(store.payments) + payment) as u128
            }
            &&& total_paid(after.payments) <= u128::MAX ==> total_burned(after.payments)
                == total_paid(after.payments)
        }),
{
    assert(store.payments.push(payment).drop_last() =~= store.payments);
}

/// A member of the second sequence that the first does not hold changes
/// nothing in what the two have in common.
proof fn lemma_keep_common_absent(left: Seq<u64>, right: Seq<u64>, id: u64)
    requires
        !left.contains(id),
    ensures
        keep_common(left, right.push(id)) == keep_common(left, right),
    decreases left.len(),
{
    if left.len() > 0 {
        let front = left.drop_last();
        let last = left.last();
        assert forall|k: int| 0 <= k < front.len() implies front[k] != id by {
            assert(left[k] == front[k]);
        }
        lemma_keep_common_absent(front, right, id);
        if right.contains(last) {
            let k = choose|k: int| 0 <= k < right.len() && right[k] == last;
            assert(right.push(id)[k] == last);
        }
        if right.push(id).contains(last) {
            let k = choose|k: int| 0 <= k < right.push(id).len() && right.push(id)[k] == last;
            assert(right[k] == last);
        }
    }
}

/// What the list of a type and the list of an author have in common is the
/// ascending list of the entries of that type by that author: the
/// intersection of the two lists, with nothing twice.
pub proof fn law_common_is_both(entries: Seq<LogEntryView>, log_type: u32, author: AccountId)
    requires
        entries.len() < u64::MAX,
    ensures
        keep_common(
            select_ids(entries, Query::OfType(log_type)),
            select_ids(entries, Query::ByAuthor(author)),
        ) == select_ids(entries, Query::OfTypeByAuthor(log_type, author)),
    decreases entries.len(),
{
    if entries.len() > 0 {
        let front = entries.drop_last();
        let top = entries.len() as u64;
        let by_type = select_ids(front, Query::OfType(log_type));
        let by_author = select_ids(front, Query::ByAuthor(author));
        law_common_is_both(front, log_type, author);
        lemma_select_ids_exact(front, Query::OfType(log_type));
        lemma_select_ids_exact(front, Query::ByAuthor(author));
        lemma_keep_common_absent(by_type, by_author, top);
        if entries.last().log_type == log_type {
            assert(by_type.push(top).drop_last() =~= by_type);
            if entries.last().author == author {
                assert(by_author.push(top)[by_author.len() as int] == top);
            }
        }
    }
}

} // verus!
