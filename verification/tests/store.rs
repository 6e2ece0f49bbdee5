use jrnl_back::cipher::MasterKey;
use jrnl_back::entry::{ActiveEntry, CalendarDate};
use jrnl_back::error::MigrationError;
use jrnl_back::migration::{encrypt_batch, Migration, MigrationAction, MigrationEvent, Selector};
use jrnl_back::requests::read_entry;
use jrnl_back::store::MemoryStore;

const U: u128 = 0xaaaa_0000_0000_0000_0000_0000_0000_0001;
const V: u128 = 0xaaaa_0000_0000_0000_0000_0000_0000_0002;
const MIDNIGHT_JAN_2: i64 = 1_704_153_600;
const FIVE_PAST: i64 = 1_704_153_900;

fn key() -> MasterKey {
    MasterKey::from_slice(&[1u8; 32]).unwrap()
}

fn jan(day: u8) -> CalendarDate {
    CalendarDate { year: 2024, month: 1, day }
}

fn live(id: u128, author: u128, day: u8, expiry: i64, text: &str) -> ActiveEntry {
    ActiveEntry {
        id,
        author,
        date: jan(day),
        emotion_scale: 7.5f32.to_bits(),
        text: Some(text.to_string()),
        expiry,
        ephemeral: false,
    }
}

#[test]
fn expired_entry_is_sealed_and_leaves_the_live_store() {
    let mut store = MemoryStore::new();
    store.upsert_active(live(1, U, 1, MIDNIGHT_JAN_2, "good day"));
    assert_eq!(store.migrate(Selector::AllUsers, FIVE_PAST, &key()), Ok(1));
    assert_eq!(store.get_active(U, jan(1)), None);
    assert!(store.active_entries().is_empty());
    let sealed = store.sealed_entries();
    assert_eq!(sealed.iter().filter(|r| r.author == U && r.date == jan(1)).count(), 1);
    let opened = sealed[0].decrypt(&key()).unwrap();
    assert_eq!(f32::from_bits(opened.emotion_scale), 7.5);
    assert_eq!(opened.text, Some("good day".to_string()));
    assert_eq!(opened.id, 1);
    assert_eq!(opened.author, U);
    assert_eq!(opened.date, jan(1));
}

#[test]
fn ephemeral_entry_is_never_claimed_nor_sealed() {
    let mut store = MemoryStore::new();
    let mut draft = live(1, U, 1, MIDNIGHT_JAN_2, "draft");
    draft.ephemeral = true;
    store.upsert_active(draft.clone());
    store.upsert_active(live(2, U, 2, MIDNIGHT_JAN_2, "kept"));
    store.begin();
    let claimed = store.claim(Selector::AllUsers, FIVE_PAST);
    assert_eq!(claimed.len(), 1);
    assert!(claimed.iter().all(|e| !e.ephemeral));
    store.rollback();
    assert_eq!(store.migrate(Selector::AllUsers, FIVE_PAST, &key()), Ok(1));
    assert_eq!(store.migrate(Selector::User(U), FIVE_PAST + 1_000_000, &key()), Ok(0));
    assert_eq!(store.active_entries(), vec![draft]);
    assert_eq!(store.sealed_entries().len(), 1);
    assert_eq!(store.sealed_entries()[0].id, 2);
}

#[test]
fn failed_sealing_leaves_both_stores_as_they_were() {
    for size in 1..=5usize {
        for bad in 0..size {
            let mut store = MemoryStore::new();
            store.upsert_active(live(100, U, 31, MIDNIGHT_JAN_2, "live"));
            store.import(vec![live(200, V, 30, 0, "sealed before")], &key()).unwrap();
            let active_before = store.active_entries();
            let sealed_before = store.sealed_entries();
            let mut batch: Vec<ActiveEntry> =
                (0..size).map(|i| live(i as u128, U, 1 + i as u8, 0, "text")).collect();
            batch[bad].ephemeral = true;
            assert_eq!(store.import(batch, &key()), Err(MigrationError::EncryptionFailed));
            assert_eq!(store.active_entries(), active_before);
            assert_eq!(store.sealed_entries(), sealed_before);
            assert!(!store.is_in_transaction());
        }
    }
}

#[test]
fn refused_insert_restores_the_claimed_entries() {
    let mut store = MemoryStore::new();
    store.import(vec![live(9, U, 2, 0, "already sealed")], &key()).unwrap();
    store.upsert_active(live(1, U, 1, MIDNIGHT_JAN_2, "first"));
    store.upsert_active(live(2, U, 2, MIDNIGHT_JAN_2, "clashes"));
    store.upsert_active(live(3, U, 3, MIDNIGHT_JAN_2, "third"));
    let active_before = store.active_entries();
    let sealed_before = store.sealed_entries();
    assert_eq!(
        store.migrate(Selector::AllUsers, FIVE_PAST, &key()),
        Err(MigrationError::PersistFailed)
    );
    assert_eq!(store.active_entries(), active_before);
    assert_eq!(store.sealed_entries(), sealed_before);
    assert!(!store.is_in_transaction());
}

#[test]
fn second_migration_claims_nothing() {
    let mut store = MemoryStore::new();
    store.upsert_active(live(1, U, 1, MIDNIGHT_JAN_2, "one"));
    store.upsert_active(live(2, U, 2, MIDNIGHT_JAN_2 + 86_400, "two"));
    assert_eq!(store.migrate(Selector::User(U), FIVE_PAST, &key()), Ok(1));
    let sealed_after_first = store.sealed_entries();
    let active_after_first = store.active_entries();
    assert_eq!(store.migrate(Selector::User(U), FIVE_PAST, &key()), Ok(0));
    assert_eq!(store.sealed_entries(), sealed_after_first);
    assert_eq!(store.active_entries(), active_after_first);
    assert_eq!(
        store.sealed_entries().iter().filter(|r| r.author == U && r.date == jan(1)).count(),
        1
    );
}

#[test]
fn migration_of_nothing_returns_zero_and_changes_nothing() {
    let mut store = MemoryStore::new();
    assert_eq!(store.migrate(Selector::AllUsers, FIVE_PAST, &key()), Ok(0));
    store.upsert_active(live(1, U, 2, FIVE_PAST, "not yet"));
    store.import(vec![live(9, V, 1, 0, "old")], &key()).unwrap();
    let active_before = store.active_entries();
    let sealed_before = store.sealed_entries();
    assert_eq!(store.migrate(Selector::AllUsers, FIVE_PAST, &key()), Ok(0));
    assert_eq!(store.migrate(Selector::User(U), FIVE_PAST, &key()), Ok(0));
    assert_eq!(store.active_entries(), active_before);
    assert_eq!(store.sealed_entries(), sealed_before);
}

#[test]
fn entry_is_claimed_only_after_its_expiry() {
    let mut store = MemoryStore::new();
    store.upsert_active(live(1, U, 1, MIDNIGHT_JAN_2, "good day"));
    assert_eq!(store.migrate(Selector::AllUsers, MIDNIGHT_JAN_2 - 1, &key()), Ok(0));
    assert_eq!(store.migrate(Selector::AllUsers, MIDNIGHT_JAN_2, &key()), Ok(0));
    assert_eq!(store.migrate(Selector::AllUsers, MIDNIGHT_JAN_2 + 1, &key()), Ok(1));
}

#[test]
fn user_migration_leaves_other_users_alone() {
    let mut store = MemoryStore::new();
    store.upsert_active(live(1, U, 1, MIDNIGHT_JAN_2, "mine"));
    store.upsert_active(live(2, V, 1, MIDNIGHT_JAN_2, "theirs"));
    assert_eq!(store.migrate(Selector::User(U), FIVE_PAST, &key()), Ok(1));
    assert_eq!(store.get_active(U, jan(1)), None);
    assert_eq!(store.get_active(V, jan(1)).unwrap().id, 2);
    assert_eq!(store.sealed_entries().len(), 1);
    assert_eq!(store.sealed_entries()[0].author, U);
    assert_eq!(store.migrate(Selector::AllUsers, FIVE_PAST, &key()), Ok(1));
    assert_eq!(store.sealed_entries().len(), 2);
    assert_eq!(store.sealed_entries()[1].author, V);
}

#[test]
fn migrated_entries_keep_their_order() {
    let mut store = MemoryStore::new();
    for day in 1..=4u8 {
        store.upsert_active(live(day as u128, U, day, MIDNIGHT_JAN_2, "text"));
    }
    assert_eq!(store.migrate(Selector::AllUsers, FIVE_PAST, &key()), Ok(4));
    let ids: Vec<u128> = store.sealed_entries().iter().map(|r| r.id).collect();
    assert_eq!(ids, vec![1, 2, 3, 4]);
}

#[test]
fn upsert_overwrites_mood_and_text_of_the_day() {
    let mut store = MemoryStore::new();
    let first = store.upsert_active(live(1, U, 1, MIDNIGHT_JAN_2, "morning"));
    assert_eq!(first, live(1, U, 1, MIDNIGHT_JAN_2, "morning"));
    let mut again = live(2, U, 1, MIDNIGHT_JAN_2 + 5, "evening");
    again.emotion_scale = 2.5f32.to_bits();
    again.ephemeral = true;
    let stored = store.upsert_active(again);
    assert_eq!(stored.id, 1);
    assert_eq!(stored.expiry, MIDNIGHT_JAN_2);
    assert!(!stored.ephemeral);
    assert_eq!(stored.text, Some("evening".to_string()));
    assert_eq!(f32::from_bits(stored.emotion_scale), 2.5);
    assert_eq!(store.active_entries(), vec![stored.clone()]);
    store.upsert_active(live(3, U, 2, MIDNIGHT_JAN_2, "next day"));
    store.upsert_active(live(4, V, 1, MIDNIGHT_JAN_2, "other user"));
    assert_eq!(store.active_entries().len(), 3);
    assert_eq!(store.get_active(U, jan(1)), Some(stored));
    assert_eq!(store.get_active(V, jan(2)), None);
}

#[test]
fn sealed_store_takes_one_entry_per_author_and_day() {
    let mut store = MemoryStore::new();
    let a = live(1, U, 1, 0, "a").encrypt(&key()).unwrap();
    let b = live(2, U, 1, 0, "b").encrypt(&key()).unwrap();
    let c = live(3, V, 1, 0, "c").encrypt(&key()).unwrap();
    assert!(store.insert_sealed(a.clone()));
    assert!(!store.insert_sealed(b));
    assert!(store.insert_sealed(c.clone()));
    assert_eq!(store.sealed_entries(), vec![a, c]);
}

#[test]
fn one_sealed_entry_is_found_by_author_and_identifier() {
    let mut store = MemoryStore::new();
    store.import(vec![live(1, U, 1, 0, "mine"), live(2, V, 1, 0, "theirs")], &key()).unwrap();
    assert_eq!(store.get_entry(U, 1).unwrap().id, 1);
    assert_eq!(store.get_entry(U, 2), None);
    assert_eq!(store.get_entry(V, 1), None);
    let read = read_entry(store.get_entry(U, 1), &key()).unwrap().unwrap();
    assert_eq!(read.text, Some("mine".to_string()));
    assert_eq!(read_entry(store.get_entry(U, 5), &key()), Ok(None));
}

#[test]
fn rollback_restores_and_commit_keeps() {
    let mut store = MemoryStore::new();
    store.upsert_active(live(1, U, 1, 0, "one"));
    assert!(!store.is_in_transaction());
    assert!(store.begin());
    assert!(store.is_in_transaction());
    assert!(!store.begin());
    let claimed = store.claim(Selector::AllUsers, 10);
    assert_eq!(claimed.len(), 1);
    assert!(store.active_entries().is_empty());
    assert!(store.insert_sealed(claimed[0].encrypt(&key()).unwrap()));
    assert!(store.rollback());
    assert!(!store.rollback());
    assert!(!store.commit());
    assert_eq!(store.active_entries(), vec![live(1, U, 1, 0, "one")]);
    assert!(store.sealed_entries().is_empty());
    assert!(store.begin());
    store.claim(Selector::AllUsers, 10);
    assert!(store.commit());
    assert!(store.active_entries().is_empty());
}

#[test]
fn store_with_an_open_transaction_refuses_a_migration() {
    let mut store = MemoryStore::new();
    store.upsert_active(live(1, U, 1, 0, "one"));
    store.begin();
    assert_eq!(store.migrate(Selector::AllUsers, 10, &key()), Err(MigrationError::PersistFailed));
    assert_eq!(store.import(Vec::new(), &key()), Err(MigrationError::PersistFailed));
    assert!(store.is_in_transaction());
    assert_eq!(store.active_entries().len(), 1);
}

#[test]
fn import_of_one_day_twice_is_refused_whole() {
    let mut store = MemoryStore::new();
    let batch = vec![live(1, U, 1, 0, "a"), live(2, U, 2, 0, "b"), live(3, U, 1, 0, "again")];
    assert_eq!(store.import(batch, &key()), Err(MigrationError::PersistFailed));
    assert!(store.sealed_entries().is_empty());
    assert_eq!(store.import(vec![live(1, U, 1, 0, "a"), live(2, U, 2, 0, "b")], &key()), Ok(2));
    assert_eq!(store.import(Vec::new(), &key()), Ok(0));
    assert_eq!(store.sealed_entries().len(), 2);
}

fn drive(
    store: &mut MemoryStore,
    selector: Selector,
    now: i64,
    spoil: Option<usize>,
) -> (Result<usize, MigrationError>, Vec<&'static str>) {
    let mut trace = Vec::new();
    let (mut migration, mut action) = Migration::start(selector);
    loop {
        let event = match action {
            MigrationAction::Begin => {
                trace.push("begin");
                if store.begin() {
                    MigrationEvent::Done
                } else {
                    MigrationEvent::StoreFailed
                }
            }
            MigrationAction::Claim(selector) => {
                trace.push("claim");
                let mut claimed = store.claim(selector, now);
                if let Some(at) = spoil {
                    if at < claimed.len() {
                        claimed[at].ephemeral = true;
                    }
                }
                MigrationEvent::Claimed(claimed)
            }
            MigrationAction::Encrypt(entries) => {
                trace.push("encrypt");
                MigrationEvent::from_sealing(encrypt_batch(&entries, &key()))
            }
            MigrationAction::Insert(record) => {
                trace.push("insert");
                if store.insert_sealed(record) {
                    MigrationEvent::Done
                } else {
                    MigrationEvent::StoreFailed
                }
            }
            MigrationAction::Commit => {
                trace.push("commit");
                if store.commit() {
                    MigrationEvent::Done
                } else {
                    MigrationEvent::StoreFailed
                }
            }
            MigrationAction::Rollback => {
                trace.push("rollback");
                if store.rollback() {
                    MigrationEvent::Done
                } else {
                    MigrationEvent::StoreFailed
                }
            }
            MigrationAction::Finish(outcome) => return (outcome, trace),
        };
        let next = migration.step(event);
        migration = next.0;
        action = next.1;
    }
}

#[test]
fn draft_among_the_claimed_restores_every_claimed_entry() {
    for size in 1..=4usize {
        for spoiled in 0..size {
            let mut store = MemoryStore::new();
            store.import(vec![live(500, V, 9, 0, "sealed before")], &key()).unwrap();
            for i in 0..size {
                store.upsert_active(live(i as u128, U, 1 + i as u8, MIDNIGHT_JAN_2, "text"));
            }
            store.upsert_active(live(99, U, 20, FIVE_PAST + 10, "not yet"));
            let active_before = store.active_entries();
            let sealed_before = store.sealed_entries();
            let (outcome, trace) = drive(&mut store, Selector::AllUsers, FIVE_PAST, Some(spoiled));
            assert_eq!(outcome, Err(MigrationError::EncryptionFailed));
            assert_eq!(trace, vec!["begin", "claim", "encrypt", "rollback"]);
            assert_eq!(store.active_entries(), active_before);
            assert_eq!(store.sealed_entries(), sealed_before);
            assert!(!store.is_in_transaction());
            assert_eq!(store.migrate(Selector::AllUsers, FIVE_PAST, &key()), Ok(size));
        }
    }
}

#[test]
fn driven_migration_does_what_the_store_does_itself() {
    let mut driven = MemoryStore::new();
    let mut direct = MemoryStore::new();
    for store in [&mut driven, &mut direct] {
        for day in 1..=3u8 {
            store.upsert_active(live(day as u128, U, day, MIDNIGHT_JAN_2, "text"));
        }
    }
    let (outcome, trace) = drive(&mut driven, Selector::User(U), FIVE_PAST, None);
    assert_eq!(outcome, Ok(3));
    assert_eq!(trace, vec!["begin", "claim", "encrypt", "insert", "insert", "insert", "commit"]);
    assert_eq!(direct.migrate(Selector::User(U), FIVE_PAST, &key()), Ok(3));
    assert_eq!(driven.active_entries(), direct.active_entries());
    let read = |store: &MemoryStore| -> Vec<_> {
        store.sealed_entries().iter().map(|r| r.decrypt(&key()).unwrap()).collect()
    };
    assert_eq!(read(&driven), read(&direct));
    let (outcome, trace) = drive(&mut driven, Selector::User(U), FIVE_PAST, None);
    assert_eq!(outcome, Ok(0));
    assert_eq!(trace, vec!["begin", "claim", "commit"]);
}
