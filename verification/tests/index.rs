use eternalog::index::{copy_ids, holds_id, intersect, BucketIndex, IndexKey};
use eternalog::AccountId;

#[test]
fn an_unseen_key_has_no_identifiers() {
    let index = BucketIndex::new();
    assert_eq!(index.lookup(IndexKey::Type(1)), Vec::<u64>::new());
    assert_eq!(index.lookup(IndexKey::Author(AccountId { hi: 0, lo: 1 })), Vec::<u64>::new());
}

#[test]
fn identifiers_are_filed_in_order_under_their_key() {
    let who = AccountId { hi: 0, lo: 1 };
    let mut index = BucketIndex::new();
    index.append(IndexKey::Type(1), 1);
    index.append(IndexKey::Author(who), 1);
    index.append(IndexKey::Type(2), 2);
    index.append(IndexKey::Type(1), 3);
    index.append(IndexKey::Author(who), 3);
    assert_eq!(index.lookup(IndexKey::Type(1)), vec![1, 3]);
    assert_eq!(index.lookup(IndexKey::Type(2)), vec![2]);
    assert_eq!(index.lookup(IndexKey::Author(who)), vec![1, 3]);
    assert_eq!(index.lookup(IndexKey::Author(AccountId { hi: 1, lo: 0 })), Vec::<u64>::new());
    assert_eq!(index.lookup(IndexKey::Type(3)), Vec::<u64>::new());
}

#[test]
fn a_type_and_an_author_with_equal_numbers_are_different_keys() {
    let mut index = BucketIndex::new();
    index.append(IndexKey::Type(7), 1);
    index.append(IndexKey::Author(AccountId { hi: 0, lo: 7 }), 2);
    assert_eq!(index.lookup(IndexKey::Type(7)), vec![1]);
    assert_eq!(index.lookup(IndexKey::Author(AccountId { hi: 0, lo: 7 })), vec![2]);
}

#[test]
fn intersect_keeps_the_order_of_the_left_list() {
    assert_eq!(intersect(&vec![5, 1, 9, 3], &vec![3, 9, 5]), vec![5, 9, 3]);
    assert_eq!(intersect(&vec![1, 2, 3], &vec![]), Vec::<u64>::new());
    assert_eq!(intersect(&vec![], &vec![1, 2, 3]), Vec::<u64>::new());
    assert_eq!(intersect(&vec![1, 2], &vec![3, 4]), Vec::<u64>::new());
    assert_eq!(intersect(&vec![2, 2, 1], &vec![2]), vec![2, 2]);
}

#[test]
fn holds_id_is_membership() {
    assert!(holds_id(&vec![4, 8, 15], 15));
    assert!(holds_id(&vec![4, 8, 15], 4));
    assert!(!holds_id(&vec![4, 8, 15], 16));
    assert!(!holds_id(&vec![], 0));
}

#[test]
fn copy_ids_copies() {
    assert_eq!(copy_ids(&vec![3, 1, 2]), vec![3, 1, 2]);
    assert_eq!(copy_ids(&vec![]), Vec::<u64>::new());
}
