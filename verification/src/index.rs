//! The secondary indices: for each type and for each author, the
//! identifiers of the entries filed under it, in the order of filing.

use vstd::prelude::*;
use crate::model::keep_common;
use crate::types::AccountId;

verus! {

/// What an entry is filed under.
#[derive(Clone, Copy, Debug, PartialEq, Eq, Structural)]
pub enum IndexKey {
    /// The entry's type.
    Type(u32),
    /// The entry's author.
    Author(AccountId),
}

/// The identifiers filed under one key.
struct Bucket {
    key: IndexKey,
    ids: Vec<u64>,
}

/// A set of buckets, at most one for each key. A key that nothing was
/// filed under has no bucket and stands for the empty sequence.
pub struct BucketIndex {
    buckets: Vec<Bucket>,
}

/// A copy of `ids`.
pub fn copy_ids(ids: &Vec<u64>) -> (copy: Vec<u64>)
    ensures
        copy@ == ids@,
{
    let mut copy: Vec<u64> = Vec::new();
    let mut i: usize = 0;
    while i < ids.len()
        invariant
            i <= ids.len(),
            copy@ == ids@.take(i as int),
        decreases ids.len() - i,
    {
        copy.push(ids[i]);
        i += 1;
    }
    copy
}

/// Whether `ids` holds `id`.
pub fn holds_id(ids: &Vec<u64>, id: u64) -> (found: bool)
    ensures
        found == ids@.contains(id),
{
    let mut i: usize = 0;
    while i < ids.len()
        invariant
            i <= ids.len(),
            forall|k: int| 0 <= k < i ==> ids@[k] != id,
        decreases ids.len() - i,
    {
        if ids[i] == id {
            return true;
        }
        i += 1;
    }
    false
}

/// The members of `left` that `right` holds too, in the order of `left`.
pub fn intersect(left: &Vec<u64>, right: &Vec<u64>) -> (common: Vec<u64>)
    ensures
        common@ == keep_common(left@, right@),
{
    let mut common: Vec<u64> = Vec::new();
    let mut i: usize = 0;
    while i < left.len()
        invariant
            i <= left.len(),
            common@ == keep_common(left@.take(i as int), right@),
        decreases left.len() - i,
    {
        let id: u64 = left[i];
        assert(left@.take(i + 1).drop_last() =~= left@.take(i as int));
        if holds_id(right, id) {
            common.push(id);
        }
        i += 1;
    }
    assert(left@.take(i as int) =~= left@);
    common
}

impl BucketIndex {
    /// No key has two buckets.
    pub closed spec fn wf(&self) -> bool {
        forall|i: int, j: int|
            0 <= i < j < self.buckets.len() ==> (#[trigger] self.buckets[i]).key
                != (#[trigger] self.buckets[j]).key
    }

    /// Whether a bucket exists for `key`.
    pub closed spec fn has_bucket(&self, key: IndexKey) -> bool {
        exists|i: int| 0 <= i < self.buckets.len() && (#[trigger] self.buckets[i]).key == key
    }

    /// The identifiers filed under `key`, in the order of filing.
    pub closed spec fn ids(&self, key: IndexKey) -> Seq<u64> {
        if self.has_bucket(key) {
            let i = choose|i: int|
                0 <= i < self.buckets.len() && (#[trigger] self.buckets[i]).key == key;
            self.buckets[i].ids@
        } else {
            Seq::empty()
        }
    }

    /// An index with nothing filed.
    pub fn new() -> (index: BucketIndex)
        ensures
            index.wf(),
            forall|key: IndexKey| index.ids(key) == Seq::<u64>::empty(),
    {
        BucketIndex { buckets: Vec::new() }
    }

    /// The position of the bucket for `key`, if there is one.
    fn position(&self, key: IndexKey) -> (found: Option<usize>)
        ensures
            match found {
                Some(i) => i < self.buckets.len() && self.buckets[i as int].key == key,
                None => !self.has_bucket(key),
            },
    {
        let mut i: usize = 0;
        while i < self.buckets.len()
            invariant
                i <= self.buckets.len(),
                forall|k: int| 0 <= k < i ==> (#[trigger] self.buckets[k]).key != key,
            decreases self.buckets.len() - i,
        {
            if self.buckets[i].key == key {
                return Some(i);
            }
            i += 1;
        }
        None
    }

    /// The identifiers filed under `key`; none where the key is unseen.
    pub fn lookup(&self, key: IndexKey) -> (ids: Vec<u64>)
        requires
            self.wf(),
        ensures
            ids@ == self.ids(key),
    {
        match self.position(key) {
            Some(i) => {
                proof {
                    self.lemma_bucket_at(i as int);
                }
                copy_ids(&self.buckets[i].ids)
            },
            None => Vec::new(),
        }
    }

    /// Files `id` under `key`, behind what is filed there already.
    pub fn append(&mut self, key: IndexKey, id: u64)
        requires
            old(self).wf(),
        ensures
            final(self).wf(),
            forall|k: IndexKey|
                #[trigger] final(self).ids(k) == if k == key {
                    old(self).ids(k).push(id)
                } else {
                    old(self).ids(k)
                },
    {
        let ghost before = *self;
        match self.position(key) {
            Some(i) => {
                proof {
                    before.lemma_bucket_at(i as int);
                }
                self.buckets[i].ids.push(id);
                assert forall|k: IndexKey|
                    #[trigger] self.ids(k) == if k == key {
                        before.ids(k).push(id)
                    } else {
                        before.ids(k)
                    } by {
                    if before.has_bucket(k) {
                        let j = choose|j: int|
                            0 <= j < before.buckets.len() && (#[trigger] before.buckets[j]).key
                                == k;
                        before.lemma_bucket_at(j);
                        self.lemma_bucket_at(j);
                    } else if self.has_bucket(k) {
                        let j = choose|j: int|
                            0 <= j < self.buckets.len() && (#[trigger] self.buckets[j]).key == k;
                        assert(before.buckets[j].key == k);
                    }
                }
            },
            None => {
                let mut ids: Vec<u64> = Vec::new();
                ids.push(id);
                self.buckets.push(Bucket { key, ids });
                let ghost last = before.buckets@.len() as int;
                assert forall|k: IndexKey|
                    #[trigger] self.ids(k) == if k == key {
                        before.ids(k).push(id)
                    } else {
                        before.ids(k)
                    } by {
                    if k == key {
                        self.lemma_bucket_at(last);
                    } else if before.has_bucket(k) {
                        let j = choose|j: int|
                            0 <= j < before.buckets.len() && (#[trigger] before.buckets[j]).key
                                == k;
                        before.lemma_bucket_at(j);
                        self.lemma_bucket_at(j);
                    } else if self.has_bucket(k) {
                        let j = choose|j: int|
                            0 <= j < self.buckets.len() && (#[trigger] self.buckets[j]).key == k;
                        assert(before.buckets[j].key == k);
                    }
                }
            },
        }
    }

    /// The bucket at position `i` is the one that its key stands for.
    proof fn lemma_bucket_at(&self, i: int)
        requires
            self.wf(),
            0 <= i < self.buckets.len(),
        ensures
            self.has_bucket(self.buckets[i].key),
            self.ids(self.buckets[i].key) == self.buckets[i].ids@,
    {
        let key = self.buckets[i].key;
        let j = choose|j: int|
            0 <= j < self.buckets.len() && (#[trigger] self.buckets[j]).key == key;
        assert(j == i);
    }
}

} // verus!
