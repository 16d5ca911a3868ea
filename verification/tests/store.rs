use eternalog::{
    AccountId, Error, Eternalog, FeeBurned, LogStored, Notification, StorageFeeUpdated,
};

fn alice() -> AccountId {
    AccountId { hi: 0x0101_0101_0101_0101_0101_0101_0101_0101, lo: 0x0101_0101_0101_0101_0101_0101_0101_0101 }
}

fn bob() -> AccountId {
    AccountId { hi: 0x0202_0202_0202_0202_0202_0202_0202_0202, lo: 0x0202_0202_0202_0202_0202_0202_0202_0202 }
}

fn charlie() -> AccountId {
    AccountId { hi: 3, lo: 0 }
}

#[test]
fn default_works() {
    let eternalog = Eternalog::default(alice());
    assert_eq!(eternalog.get_storage_fee(), 10);
    assert_eq!(eternalog.get_total_logs(), 0);
}

#[test]
fn lib_default_works() {
    let eternalog = Eternalog::default(alice());
    assert_eq!(eternalog.get_storage_fee(), 10);
}

#[test]
fn new_works() {
    let eternalog = Eternalog::new(100, alice());
    assert_eq!(eternalog.get_storage_fee(), 100);
    assert_eq!(eternalog.get_total_logs(), 0);
}

#[test]
fn store_log_works() {
    let mut eternalog = Eternalog::new(10, alice());
    let result = eternalog.store_log("Test log entry".to_string(), 1, alice(), 0, 0);
    assert_eq!(result, Err(Error::InsufficientBalance));
}

#[test]
fn validate_inputs() {
    let mut eternalog = Eternalog::new(10, alice());

    let result = eternalog.store_log("".to_string(), 1, alice(), 0, 0);
    assert_eq!(result, Err(Error::EmptyLogData));

    let result = eternalog.store_log("Test".to_string(), 0, alice(), 0, 0);
    assert_eq!(result, Err(Error::InvalidLogType));
}

#[test]
fn get_nonexistent_log() {
    let eternalog = Eternalog::default(alice());
    let result = eternalog.get_log(999);
    assert_eq!(result, Err(Error::LogNotFound));
}

#[test]
fn only_owner_can_update_fee() {
    let mut eternalog = Eternalog::new(100, alice());

    let result = eternalog.update_storage_fee(200, alice());
    assert_eq!(result, Ok(()));
    assert_eq!(eternalog.get_storage_fee(), 200);
}

#[test]
fn store_and_retrieve_log() {
    let mut eternalog = Eternalog::new(100, bob());

    let log_id = eternalog
        .store_log("Hello, eternal world!".to_string(), 42, bob(), 7, 200)
        .unwrap();
    assert_eq!(log_id, 1);

    let retrieved_log = eternalog.get_log(log_id).unwrap();
    assert_eq!(retrieved_log.id, 1);
    assert_eq!(retrieved_log.data, "Hello, eternal world!");
    assert_eq!(retrieved_log.log_type, 42);
    assert_eq!(retrieved_log.author, bob());
    assert_eq!(retrieved_log.timestamp, 7);
}

#[test]
fn a_new_store_is_empty() {
    let store = Eternalog::new(5, alice());
    assert_eq!(store.get_owner(), alice());
    assert_eq!(store.get_next_log_id(), 1);
    assert_eq!(store.get_total_logs(), 0);
    assert_eq!(store.get_total_fees_burned(), 0);
    assert_eq!(store.get_logs_by_type(1), Vec::<u64>::new());
    assert_eq!(store.get_logs_by_author(alice()), Vec::<u64>::new());
    assert_eq!(store.search_logs_by_content("".to_string()), Vec::<u64>::new());
    assert_eq!(store.get_log(1), Err(Error::LogNotFound));
}

#[test]
fn identifiers_start_at_one_and_increase() {
    let mut store = Eternalog::new(10, alice());
    assert_eq!(store.store_log("first".to_string(), 1, alice(), 100, 10), Ok(1));
    assert_eq!(store.get_next_log_id(), 2);
    assert_eq!(store.store_log("second".to_string(), 2, bob(), 101, 11), Ok(2));
    assert_eq!(store.store_log("third".to_string(), 3, alice(), 102, 12), Ok(3));
    assert_eq!(store.get_next_log_id(), 4);

    let second = store.get_log(2).unwrap();
    assert_eq!(second.id, 2);
    assert_eq!(second.data, "second");
    assert_eq!(second.log_type, 2);
    assert_eq!(second.author, bob());
    assert_eq!(second.timestamp, 101);

    let first = store.get_log(1).unwrap();
    assert_eq!(first.data, "first");
    assert_eq!(first.author, alice());
    assert_eq!(first.timestamp, 100);
}

#[test]
fn refused_requests_do_not_consume_identifiers() {
    let mut store = Eternalog::new(10, alice());
    assert_eq!(store.store_log("x".to_string(), 1, alice(), 0, 9), Err(Error::InsufficientBalance));
    assert_eq!(store.store_log("".to_string(), 1, alice(), 0, 10), Err(Error::EmptyLogData));
    assert_eq!(store.get_next_log_id(), 1);
    assert_eq!(store.get_total_logs(), 0);
    assert_eq!(store.get_total_fees_burned(), 0);
    assert_eq!(store.take_notifications(), Vec::<Notification>::new());
    assert_eq!(store.get_logs_by_type(1), Vec::<u64>::new());
    assert_eq!(store.store_log("x".to_string(), 1, alice(), 0, 10), Ok(1));
}

#[test]
fn validation_follows_its_priority_order() {
    let fee: u128 = 10;
    let mut store = Eternalog::new(fee, alice());
    assert_eq!(store.store_log("".to_string(), 1, alice(), 0, fee), Err(Error::EmptyLogData));
    assert_eq!(store.store_log("x".to_string(), 0, alice(), 0, fee), Err(Error::InvalidLogType));
    assert_eq!(
        store.store_log("x".to_string(), 1, alice(), 0, fee - 1),
        Err(Error::InsufficientBalance)
    );
    // several violations at once
    assert_eq!(store.store_log("".to_string(), 0, alice(), 0, 0), Err(Error::EmptyLogData));
    assert_eq!(store.store_log("".to_string(), 1, alice(), 0, 0), Err(Error::EmptyLogData));
    assert_eq!(store.store_log("x".to_string(), 0, alice(), 0, 0), Err(Error::InvalidLogType));
}

#[test]
fn a_payment_equal_to_the_fee_is_enough() {
    let mut store = Eternalog::new(10, alice());
    assert_eq!(store.store_log("x".to_string(), 1, alice(), 0, 10), Ok(1));
    let mut free = Eternalog::new(0, alice());
    assert_eq!(free.store_log("x".to_string(), 1, alice(), 0, 0), Ok(1));
}

#[test]
fn types_are_indexed_in_creation_order() {
    let mut store = Eternalog::new(1, alice());
    let a = store.store_log("a".to_string(), 1, alice(), 0, 1).unwrap();
    let b = store.store_log("b".to_string(), 1, alice(), 0, 1).unwrap();
    let c = store.store_log("c".to_string(), 2, alice(), 0, 1).unwrap();
    assert_eq!(store.get_logs_by_type(1), vec![a, b]);
    assert_eq!(store.get_logs_by_type(2), vec![c]);
    assert_eq!(store.get_logs_by_type(3), Vec::<u64>::new());
    assert_eq!(store.get_logs_by_author(alice()), vec![1, 2, 3]);
    assert_eq!(store.get_logs_by_author(bob()), Vec::<u64>::new());
}

fn mixed_store() -> Eternalog {
    let mut store = Eternalog::new(1, alice());
    store.store_log("alpha one".to_string(), 1, alice(), 0, 1).unwrap();
    store.store_log("beta two".to_string(), 2, bob(), 1, 1).unwrap();
    store.store_log("gamma one".to_string(), 1, bob(), 2, 1).unwrap();
    store.store_log("delta three".to_string(), 3, alice(), 3, 1).unwrap();
    store.store_log("Alpha ONE".to_string(), 1, alice(), 4, 1).unwrap();
    store.store_log("épsilon ünö".to_string(), 2, charlie(), 5, 1).unwrap();
    store
}

#[test]
fn authors_are_indexed_in_creation_order() {
    let store = mixed_store();
    assert_eq!(store.get_logs_by_author(alice()), vec![1, 4, 5]);
    assert_eq!(store.get_logs_by_author(bob()), vec![2, 3]);
    assert_eq!(store.get_logs_by_author(charlie()), vec![6]);
    assert_eq!(store.get_logs_by_type(1), vec![1, 3, 5]);
    assert_eq!(store.get_logs_by_type(2), vec![2, 6]);
}

#[test]
fn type_and_author_is_the_intersection() {
    let store = mixed_store();
    assert_eq!(store.get_logs_by_type_and_author(1, alice()), vec![1, 5]);
    assert_eq!(store.get_logs_by_type_and_author(1, bob()), vec![3]);
    assert_eq!(store.get_logs_by_type_and_author(2, alice()), Vec::<u64>::new());
    assert_eq!(store.get_logs_by_type_and_author(9, alice()), Vec::<u64>::new());
    assert_eq!(store.get_logs_by_type_and_author(1, charlie()), Vec::<u64>::new());
    for log_type in 0..5u32 {
        for author in [alice(), bob(), charlie()] {
            let by_type = store.get_logs_by_type(log_type);
            let by_author = store.get_logs_by_author(author);
            let expected: Vec<u64> =
                by_type.iter().copied().filter(|id| by_author.contains(id)).collect();
            assert_eq!(store.get_logs_by_type_and_author(log_type, author), expected);
        }
    }
}

#[test]
fn search_finds_substrings_in_ascending_order() {
    let store = mixed_store();
    assert_eq!(store.search_logs_by_content("one".to_string()), vec![1, 3]);
    assert_eq!(store.search_logs_by_content("a".to_string()), vec![1, 2, 3, 4, 5]);
    assert_eq!(store.search_logs_by_content("ta t".to_string()), vec![2, 4]);
    assert_eq!(store.search_logs_by_content("delta three".to_string()), vec![4]);
    assert_eq!(store.search_logs_by_content("delta three!".to_string()), Vec::<u64>::new());
}

#[test]
fn search_is_case_sensitive() {
    let store = mixed_store();
    assert_eq!(store.search_logs_by_content("ONE".to_string()), vec![5]);
    assert_eq!(store.search_logs_by_content("Alpha".to_string()), vec![5]);
    assert_eq!(store.search_logs_by_content("alpha".to_string()), vec![1]);
}

#[test]
fn search_for_an_absent_term_is_empty() {
    let store = mixed_store();
    assert_eq!(store.search_logs_by_content("omega".to_string()), Vec::<u64>::new());
    assert_eq!(store.search_logs_by_content("oen".to_string()), Vec::<u64>::new());
}

#[test]
fn search_for_the_empty_term_finds_everything() {
    let store = mixed_store();
    assert_eq!(store.search_logs_by_content("".to_string()), vec![1, 2, 3, 4, 5, 6]);
}

#[test]
fn search_handles_text_beyond_ascii() {
    let store = mixed_store();
    assert_eq!(store.search_logs_by_content("ün".to_string()), vec![6]);
    assert_eq!(store.search_logs_by_content("é".to_string()), vec![6]);
    assert_eq!(store.search_logs_by_content("e".to_string()), vec![1, 2, 3, 4]);
    assert_eq!(store.search_logs_by_content("ö".to_string()), vec![6]);
    assert_eq!(store.search_logs_by_content("o".to_string()), vec![1, 2, 3, 6]);
}

#[test]
fn only_the_administrator_updates_the_fee() {
    let mut store = Eternalog::new(100, alice());
    assert_eq!(store.update_storage_fee(1, bob()), Err(Error::Unauthorized));
    assert_eq!(store.get_storage_fee(), 100);
    assert_eq!(store.take_notifications(), Vec::<Notification>::new());
    assert_eq!(store.update_storage_fee(0, alice()), Ok(()));
    assert_eq!(store.get_storage_fee(), 0);
    assert_eq!(store.update_storage_fee(u128::MAX, alice()), Ok(()));
    assert_eq!(store.get_storage_fee(), u128::MAX);
    assert_eq!(store.get_owner(), alice());
    assert!(store.is_owner(alice()));
    assert!(!store.is_owner(bob()));
}

#[test]
fn a_new_fee_applies_to_later_requests() {
    let mut store = Eternalog::new(10, alice());
    assert_eq!(store.store_log("x".to_string(), 1, bob(), 0, 10), Ok(1));
    assert_eq!(store.update_storage_fee(20, alice()), Ok(()));
    assert_eq!(store.store_log("x".to_string(), 1, bob(), 0, 19), Err(Error::InsufficientBalance));
    assert_eq!(store.store_log("x".to_string(), 1, bob(), 0, 20), Ok(2));
}

#[test]
fn totals_count_successful_requests_only() {
    let mut store = Eternalog::new(10, alice());
    store.store_log("a".to_string(), 1, alice(), 0, 10).unwrap();
    store.store_log("b".to_string(), 1, alice(), 0, 25).unwrap();
    assert_eq!(store.store_log("c".to_string(), 1, alice(), 0, 9), Err(Error::InsufficientBalance));
    assert_eq!(store.store_log("".to_string(), 1, alice(), 0, 50), Err(Error::EmptyLogData));
    store.store_log("d".to_string(), 2, bob(), 0, 1000).unwrap();
    assert_eq!(store.get_total_logs(), 3);
    assert_eq!(store.get_total_fees_burned(), 1035);
    assert_eq!(store.get_next_log_id(), 4);
}

#[test]
fn the_burned_total_saturates() {
    let mut store = Eternalog::new(0, alice());
    store.store_log("a".to_string(), 1, alice(), 0, u128::MAX - 1).unwrap();
    assert_eq!(store.get_total_fees_burned(), u128::MAX - 1);
    store.store_log("b".to_string(), 1, alice(), 0, 5).unwrap();
    assert_eq!(store.get_total_fees_burned(), u128::MAX);
    store.store_log("c".to_string(), 1, alice(), 0, u128::MAX).unwrap();
    assert_eq!(store.get_total_fees_burned(), u128::MAX);
    assert_eq!(store.get_total_logs(), 3);
}

#[test]
fn unassigned_identifiers_are_not_found() {
    let mut store = Eternalog::new(0, alice());
    store.store_log("a".to_string(), 1, alice(), 0, 0).unwrap();
    store.store_log("b".to_string(), 1, alice(), 0, 0).unwrap();
    assert_eq!(store.get_log(0), Err(Error::LogNotFound));
    assert_eq!(store.get_log(store.get_next_log_id()), Err(Error::LogNotFound));
    assert_eq!(store.get_log(3), Err(Error::LogNotFound));
    assert_eq!(store.get_log(u64::MAX), Err(Error::LogNotFound));
    assert!(store.get_log(2).is_ok());
}

#[test]
fn a_store_leaves_two_notifications_in_order() {
    let mut store = Eternalog::new(10, alice());
    store.store_log("payload".to_string(), 4, bob(), 9, 15).unwrap();
    let notes = store.take_notifications();
    assert_eq!(
        notes,
        vec![
            Notification::LogStored(LogStored {
                log_id: 1,
                author: bob(),
                log_type: 4,
                data: "payload".to_string(),
            }),
            Notification::FeeBurned(FeeBurned { amount: 15, burner: bob() }),
        ]
    );
    assert_eq!(store.take_notifications(), Vec::<Notification>::new());
    assert_eq!(store.get_total_logs(), 1);
    assert_eq!(store.get_log(1).unwrap().data, "payload");
}

#[test]
fn a_fee_update_leaves_one_notification() {
    let mut store = Eternalog::new(10, alice());
    store.update_storage_fee(30, alice()).unwrap();
    store.update_storage_fee(40, alice()).unwrap();
    assert_eq!(
        store.take_notifications(),
        vec![
            Notification::StorageFeeUpdated(StorageFeeUpdated {
                old_fee: 10,
                new_fee: 30,
                updated_by: alice(),
            }),
            Notification::StorageFeeUpdated(StorageFeeUpdated {
                old_fee: 30,
                new_fee: 40,
                updated_by: alice(),
            }),
        ]
    );
}

#[test]
fn independent_stores_do_not_share_state() {
    let mut one = Eternalog::new(1, alice());
    let mut two = Eternalog::new(2, bob());
    one.store_log("in one".to_string(), 1, alice(), 0, 1).unwrap();
    assert_eq!(two.get_total_logs(), 0);
    assert_eq!(two.store_log("in two".to_string(), 1, alice(), 0, 2), Ok(1));
    assert_eq!(one.search_logs_by_content("two".to_string()), Vec::<u64>::new());
    assert_eq!(two.search_logs_by_content("two".to_string()), vec![1]);
}

#[test]
fn try_store_log_stores_while_identifiers_remain() {
    let mut store = Eternalog::new(10, alice());
    assert_eq!(store.try_store_log("a".to_string(), 1, alice(), 0, 10), Some(Ok(1)));
    assert_eq!(
        store.try_store_log("b".to_string(), 1, alice(), 0, 9),
        Some(Err(Error::InsufficientBalance))
    );
    assert_eq!(store.try_store_log("".to_string(), 0, alice(), 0, 0), Some(Err(Error::EmptyLogData)));
    assert_eq!(store.try_store_log("c".to_string(), 2, bob(), 1, 11), Some(Ok(2)));
    assert_eq!(store.get_total_logs(), 2);
    assert_eq!(store.get_total_fees_burned(), 21);
    assert_eq!(store.get_logs_by_author(bob()), vec![2]);
}
