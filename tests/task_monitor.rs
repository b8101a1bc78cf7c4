use state_bridge_relay::database::BridgeStatus;
use state_bridge_relay::task_monitor::{
    check_if_propagated, check_sync, check_synced_state, on_wake, should_propagate,
    status_after_submission, SyncAction, WakeSignal,
};
use state_bridge_relay::types::Root;

#[test]
fn decision_table() {
    assert_eq!(check_sync(true, true), SyncAction::MarkSynced);
    assert_eq!(check_sync(true, false), SyncAction::Idle);
    assert_eq!(check_sync(false, true), SyncAction::AwaitPropagation);
    assert_eq!(check_sync(false, false), SyncAction::MarkUnsyncedAndWake);
    assert_eq!(SyncAction::MarkSynced.new_status(), Some(BridgeStatus::Synced));
    assert_eq!(SyncAction::MarkUnsyncedAndWake.new_status(), Some(BridgeStatus::Unsynced));
    assert_eq!(SyncAction::Idle.new_status(), None);
    assert!(SyncAction::MarkUnsyncedAndWake.wakes_propagator());
    assert!(!SyncAction::AwaitPropagation.wakes_propagator());
}

#[test]
fn sync_inputs() {
    let a = Root::from_halves(0, 1);
    let b = Root::from_halves(1, 1);
    assert!(check_synced_state(&a, &a));
    assert!(!check_synced_state(&a, &b));
    assert!(check_if_propagated(BridgeStatus::Pending));
    assert!(!check_if_propagated(BridgeStatus::Synced));
}

#[test]
fn many_raises_wake_once() {
    let mut w = WakeSignal::new();
    for _ in 0..5 {
        w.notify_one();
    }
    let mut attempts = 0;
    for _ in 0..3 {
        if w.notified() && should_propagate(BridgeStatus::Unsynced) {
            attempts += 1;
        }
    }
    assert_eq!(attempts, 1);
}

#[test]
fn propagator_revalidates() {
    assert!(should_propagate(BridgeStatus::Unsynced));
    assert!(!should_propagate(BridgeStatus::Pending));
    assert!(!should_propagate(BridgeStatus::Synced));
}

#[test]
fn raises_while_busy_give_one_attempt() {
    let mut w = WakeSignal::new();
    for _ in 0..4 {
        w.notify_one();
    }
    assert!(on_wake(&mut w, BridgeStatus::Unsynced));
    assert!(!on_wake(&mut w, BridgeStatus::Unsynced));
    w.notify_one();
    assert!(!on_wake(&mut w, BridgeStatus::Pending));
    assert!(!w.raised);
    assert_eq!(status_after_submission(), BridgeStatus::Pending);
}
