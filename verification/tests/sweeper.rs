use jrnl_back::cipher::MasterKey;
use jrnl_back::entry::{ActiveEntry, CalendarDate};
use jrnl_back::error::MigrationError;
use jrnl_back::migration::Selector;
use jrnl_back::store::MemoryStore;
use jrnl_back::sweeper::{SweeperAction, SweeperEvent, SweeperState, SWEEP_PERIOD_SECS};

#[test]
fn sweeper_goes_round_idle_waiting_running() {
    let state = SweeperState::new();
    assert_eq!(state, SweeperState::Idle);
    let (state, action) = state.step(SweeperEvent::Wake);
    assert_eq!((state, action), (SweeperState::Waiting, SweeperAction::ArmTimer(300)));
    let (state, action) = state.step(SweeperEvent::TimerElapsed);
    assert_eq!(
        (state, action),
        (SweeperState::Running, SweeperAction::Migrate(Selector::AllUsers))
    );
    let (state, action) = state.step(SweeperEvent::MigrationFinished(Ok(3)));
    assert_eq!((state, action), (SweeperState::Idle, SweeperAction::Report(Ok(3))));
    let (state, action) = state.step(SweeperEvent::Wake);
    assert_eq!((state, action), (SweeperState::Waiting, SweeperAction::ArmTimer(300)));
}

#[test]
fn sweep_period_is_five_minutes() {
    assert_eq!(SWEEP_PERIOD_SECS, 5 * 60);
}

#[test]
fn failed_batch_does_not_stop_the_sweeper() {
    for error in [MigrationError::EncryptionFailed, MigrationError::PersistFailed] {
        let (state, action) = SweeperState::Running.step(SweeperEvent::MigrationFinished(Err(error)));
        assert_eq!(state, SweeperState::Idle);
        assert_eq!(action, SweeperAction::Report(Err(error)));
        let (state, action) = state.step(SweeperEvent::Wake);
        assert_eq!((state, action), (SweeperState::Waiting, SweeperAction::ArmTimer(300)));
        let (state, action) = state.step(SweeperEvent::TimerElapsed);
        assert_eq!(
            (state, action),
            (SweeperState::Running, SweeperAction::Migrate(Selector::AllUsers))
        );
    }
}

#[test]
fn shutdown_stops_the_sweeper_from_any_state() {
    for state in
        [SweeperState::Idle, SweeperState::Waiting, SweeperState::Running, SweeperState::Stopped]
    {
        assert_eq!(
            state.step(SweeperEvent::Shutdown),
            (SweeperState::Stopped, SweeperAction::Exit)
        );
    }
    for event in [
        SweeperEvent::Wake,
        SweeperEvent::TimerElapsed,
        SweeperEvent::MigrationFinished(Ok(0)),
        SweeperEvent::Shutdown,
    ] {
        assert_eq!(
            SweeperState::Stopped.step(event),
            (SweeperState::Stopped, SweeperAction::Exit)
        );
    }
}

#[test]
fn event_out_of_turn_changes_nothing() {
    assert_eq!(
        SweeperState::Idle.step(SweeperEvent::TimerElapsed),
        (SweeperState::Idle, SweeperAction::KeepWaiting)
    );
    assert_eq!(
        SweeperState::Idle.step(SweeperEvent::MigrationFinished(Ok(1))),
        (SweeperState::Idle, SweeperAction::KeepWaiting)
    );
    assert_eq!(
        SweeperState::Waiting.step(SweeperEvent::Wake),
        (SweeperState::Waiting, SweeperAction::KeepWaiting)
    );
    assert_eq!(
        SweeperState::Waiting.step(SweeperEvent::MigrationFinished(Ok(1))),
        (SweeperState::Waiting, SweeperAction::KeepWaiting)
    );
    assert_eq!(
        SweeperState::Running.step(SweeperEvent::Wake),
        (SweeperState::Running, SweeperAction::KeepWaiting)
    );
    assert_eq!(
        SweeperState::Running.step(SweeperEvent::TimerElapsed),
        (SweeperState::Running, SweeperAction::KeepWaiting)
    );
}

#[test]
fn three_ticks_seal_what_expires_between_them() {
    let key = MasterKey::from_slice(&[1u8; 32]).unwrap();
    let mut store = MemoryStore::new();
    for day in 1..=3u8 {
        store.upsert_active(ActiveEntry {
            id: day as u128,
            author: 7,
            date: CalendarDate { year: 2024, month: 1, day },
            emotion_scale: 0,
            text: None,
            expiry: if day == 3 { 5_000 } else { 1_000 * day as i64 },
            ephemeral: false,
        });
    }
    let mut clock: i64 = 700;
    let mut state = SweeperState::new();
    let mut event = SweeperEvent::Wake;
    let mut reports = Vec::new();
    let mut ticks = 0;
    loop {
        let (next, action) = state.step(event);
        state = next;
        event = match action {
            SweeperAction::ArmTimer(seconds) => {
                if ticks == 3 {
                    SweeperEvent::Shutdown
                } else {
                    ticks += 1;
                    clock += seconds as i64 * 3;
                    SweeperEvent::TimerElapsed
                }
            }
            SweeperAction::Migrate(selector) => {
                SweeperEvent::MigrationFinished(store.migrate(selector, clock, &key))
            }
            SweeperAction::Report(outcome) => {
                reports.push(outcome);
                SweeperEvent::Wake
            }
            SweeperAction::KeepWaiting => unreachable!(),
            SweeperAction::Exit => break,
        };
    }
    assert_eq!(state, SweeperState::Stopped);
    assert_eq!(reports, vec![Ok(1), Ok(1), Ok(0)]);
    assert_eq!(store.sealed_entries().len(), 2);
    assert_eq!(store.active_entries().len(), 1);
}
