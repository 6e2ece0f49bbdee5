use jrnl_back::cipher::MasterKey;
use jrnl_back::entry::{ActiveEntry, CalendarDate, EncryptedEntry};
use jrnl_back::error::MigrationError;
use jrnl_back::migration::{
    encrypt_batch, Migration, MigrationAction, MigrationEvent, Selector,
};

fn key() -> MasterKey {
    MasterKey::from_slice(&[1u8; 32]).unwrap()
}

fn live(id: u128, author: u128, day: u8, expiry: i64, ephemeral: bool) -> ActiveEntry {
    ActiveEntry {
        id,
        author,
        date: CalendarDate { year: 2024, month: 1, day },
        emotion_scale: 5.0f32.to_bits(),
        text: Some(format!("entry {id}")),
        expiry,
        ephemeral,
    }
}

fn sealed_of(entries: &[ActiveEntry]) -> Vec<EncryptedEntry> {
    entries.iter().map(|e| e.encrypt(&key()).unwrap()).collect()
}

#[test]
fn selector_claims_expired_entries_that_are_no_drafts() {
    let now = 100;
    assert!(Selector::AllUsers.selects(&live(1, 7, 1, 99, false), now));
    assert!(!Selector::AllUsers.selects(&live(1, 7, 1, 100, false), now));
    assert!(!Selector::AllUsers.selects(&live(1, 7, 1, 101, false), now));
    assert!(!Selector::AllUsers.selects(&live(1, 7, 1, 99, true), now));
    assert!(Selector::User(7).selects(&live(1, 7, 1, 99, false), now));
    assert!(!Selector::User(8).selects(&live(1, 7, 1, 99, false), now));
    assert!(!Selector::User(7).selects(&live(1, 7, 1, 99, true), now));
    assert!(!Selector::User(7).selects(&live(1, 7, 1, 100, false), now));
}

#[test]
fn batch_is_sealed_entry_for_entry() {
    let entries = vec![live(1, 7, 1, 0, false), live(2, 7, 2, 0, false), live(3, 8, 1, 0, false)];
    let sealed = encrypt_batch(&entries, &key()).unwrap();
    assert_eq!(sealed.len(), 3);
    for (record, entry) in sealed.iter().zip(entries.iter()) {
        assert_eq!(record.id, entry.id);
        assert_eq!(record.author, entry.author);
        assert_eq!(record.date, entry.date);
        assert_eq!(record.emotion_scale, entry.emotion_scale);
        assert_eq!(record.decrypt(&key()).unwrap().text, entry.text);
    }
}

#[test]
fn empty_batch_is_sealed_to_nothing() {
    assert_eq!(encrypt_batch(&Vec::new(), &key()), Ok(Vec::new()));
}

#[test]
fn one_draft_fails_the_whole_batch() {
    for position in 0..3 {
        let mut entries =
            vec![live(1, 7, 1, 0, false), live(2, 7, 2, 0, false), live(3, 7, 3, 0, false)];
        entries[position].ephemeral = true;
        assert_eq!(encrypt_batch(&entries, &key()), Err(MigrationError::EncryptionFailed));
    }
}

#[test]
fn migration_walks_begin_claim_encrypt_insert_commit() {
    let entries = vec![live(1, 7, 1, 0, false), live(2, 7, 2, 0, false)];
    let records = sealed_of(&entries);
    let (m, action) = Migration::start(Selector::User(7));
    assert!(matches!(action, MigrationAction::Begin));
    let (m, action) = m.step(MigrationEvent::Done);
    assert!(matches!(action, MigrationAction::Claim(Selector::User(7))));
    let (m, action) = m.step(MigrationEvent::Claimed(entries.clone()));
    match action {
        MigrationAction::Encrypt(batch) => assert_eq!(batch, entries),
        other => panic!("unexpected action {other:?}"),
    }
    let (m, action) = m.step(MigrationEvent::Sealed(records.clone()));
    match action {
        MigrationAction::Insert(record) => assert_eq!(record, records[0]),
        other => panic!("unexpected action {other:?}"),
    }
    let (m, action) = m.step(MigrationEvent::Done);
    match action {
        MigrationAction::Insert(record) => assert_eq!(record, records[1]),
        other => panic!("unexpected action {other:?}"),
    }
    let (m, action) = m.step(MigrationEvent::Done);
    assert!(matches!(action, MigrationAction::Commit));
    let (m, action) = m.step(MigrationEvent::Done);
    assert!(matches!(action, MigrationAction::Finish(Ok(2))));
    let (_, action) = m.step(MigrationEvent::Done);
    assert!(matches!(action, MigrationAction::Finish(Ok(2))));
}

#[test]
fn migration_of_nothing_commits_at_once() {
    let (m, _) = Migration::start(Selector::AllUsers);
    let (m, action) = m.step(MigrationEvent::Done);
    assert!(matches!(action, MigrationAction::Claim(Selector::AllUsers)));
    let (m, action) = m.step(MigrationEvent::Claimed(Vec::new()));
    assert!(matches!(action, MigrationAction::Commit));
    let (_, action) = m.step(MigrationEvent::Done);
    assert!(matches!(action, MigrationAction::Finish(Ok(0))));
}

#[test]
fn refused_begin_ends_without_rollback() {
    let (m, _) = Migration::start(Selector::AllUsers);
    let (_, action) = m.step(MigrationEvent::StoreFailed);
    assert!(matches!(action, MigrationAction::Finish(Err(MigrationError::PersistFailed))));
}

#[test]
fn refused_claim_rolls_back() {
    let (m, _) = Migration::start(Selector::AllUsers);
    let (m, _) = m.step(MigrationEvent::Done);
    let (m, action) = m.step(MigrationEvent::StoreFailed);
    assert!(matches!(action, MigrationAction::Rollback));
    let (_, action) = m.step(MigrationEvent::Done);
    assert!(matches!(action, MigrationAction::Finish(Err(MigrationError::PersistFailed))));
}

#[test]
fn failed_sealing_rolls_back_and_reports_it() {
    let (m, _) = Migration::start(Selector::AllUsers);
    let (m, _) = m.step(MigrationEvent::Done);
    let (m, _) = m.step(MigrationEvent::Claimed(vec![live(1, 7, 1, 0, false)]));
    let (m, action) = m.step(MigrationEvent::from_sealing(Err(MigrationError::EncryptionFailed)));
    assert!(matches!(action, MigrationAction::Rollback));
    let (_, action) = m.step(MigrationEvent::Done);
    assert!(matches!(action, MigrationAction::Finish(Err(MigrationError::EncryptionFailed))));
}

#[test]
fn refused_insert_rolls_back() {
    let entries = vec![live(1, 7, 1, 0, false), live(2, 7, 2, 0, false)];
    let (m, _) = Migration::start(Selector::AllUsers);
    let (m, _) = m.step(MigrationEvent::Done);
    let (m, _) = m.step(MigrationEvent::Claimed(entries.clone()));
    let (m, _) = m.step(MigrationEvent::from_sealing(encrypt_batch(&entries, &key())));
    let (m, action) = m.step(MigrationEvent::Done);
    assert!(matches!(action, MigrationAction::Insert(_)));
    let (m, action) = m.step(MigrationEvent::StoreFailed);
    assert!(matches!(action, MigrationAction::Rollback));
    let (_, action) = m.step(MigrationEvent::Done);
    assert!(matches!(action, MigrationAction::Finish(Err(MigrationError::PersistFailed))));
}

#[test]
fn refused_commit_is_reported() {
    let (m, _) = Migration::start(Selector::AllUsers);
    let (m, _) = m.step(MigrationEvent::Done);
    let (m, action) = m.step(MigrationEvent::Claimed(Vec::new()));
    assert!(matches!(action, MigrationAction::Commit));
    let (_, action) = m.step(MigrationEvent::StoreFailed);
    assert!(matches!(action, MigrationAction::Finish(Err(MigrationError::PersistFailed))));
}

#[test]
fn refused_rollback_is_reported_as_a_store_failure() {
    let (m, _) = Migration::start(Selector::AllUsers);
    let (m, _) = m.step(MigrationEvent::Done);
    let (m, _) = m.step(MigrationEvent::Claimed(vec![live(1, 7, 1, 0, false)]));
    let (m, action) = m.step(MigrationEvent::SealingFailed);
    assert!(matches!(action, MigrationAction::Rollback));
    let (_, action) = m.step(MigrationEvent::StoreFailed);
    assert!(matches!(action, MigrationAction::Finish(Err(MigrationError::PersistFailed))));
}

#[test]
fn an_event_out_of_turn_counts_as_a_refusal() {
    let (m, _) = Migration::start(Selector::AllUsers);
    let (m, _) = m.step(MigrationEvent::Done);
    let (m, action) = m.step(MigrationEvent::Sealed(Vec::new()));
    assert!(matches!(action, MigrationAction::Rollback));
    let (_, action) = m.step(MigrationEvent::Done);
    assert!(matches!(action, MigrationAction::Finish(Err(MigrationError::PersistFailed))));
}

#[test]
fn import_seals_what_it_is_given_without_a_claim() {
    let entries = vec![live(1, 7, 1, 0, false)];
    let (m, action) = Migration::import(entries.clone());
    assert!(matches!(action, MigrationAction::Begin));
    let (m, action) = m.step(MigrationEvent::Done);
    match action {
        MigrationAction::Encrypt(batch) => assert_eq!(batch, entries),
        other => panic!("unexpected action {other:?}"),
    }
    let (m, action) = m.step(MigrationEvent::from_sealing(encrypt_batch(&entries, &key())));
    assert!(matches!(action, MigrationAction::Insert(_)));
    let (m, action) = m.step(MigrationEvent::Done);
    assert!(matches!(action, MigrationAction::Commit));
    let (_, action) = m.step(MigrationEvent::Done);
    assert!(matches!(action, MigrationAction::Finish(Ok(1))));
}

#[test]
fn import_of_nothing_commits_at_once() {
    let (m, _) = Migration::import(Vec::new());
    let (m, action) = m.step(MigrationEvent::Done);
    assert!(matches!(action, MigrationAction::Commit));
    let (_, action) = m.step(MigrationEvent::Done);
    assert!(matches!(action, MigrationAction::Finish(Ok(0))));
}

#[test]
fn sealed_batch_of_another_size_counts_as_a_failure_to_seal() {
    let entries = vec![live(1, 7, 1, 0, false), live(2, 7, 2, 0, false)];
    for records in [Vec::new(), sealed_of(&entries[..1]), sealed_of(&[
        live(1, 7, 1, 0, false),
        live(2, 7, 2, 0, false),
        live(3, 7, 3, 0, false),
    ])] {
        let (m, _) = Migration::start(Selector::AllUsers);
        let (m, _) = m.step(MigrationEvent::Done);
        let (m, _) = m.step(MigrationEvent::Claimed(entries.clone()));
        let (m, action) = m.step(MigrationEvent::Sealed(records));
        assert!(matches!(action, MigrationAction::Rollback));
        let (_, action) = m.step(MigrationEvent::Done);
        assert!(matches!(action, MigrationAction::Finish(Err(MigrationError::EncryptionFailed))));
    }
}
