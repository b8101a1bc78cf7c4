use state_bridge_relay::database::{BridgeStatus, ServerStatus};

#[test]
fn fresh_store_then_sync_then_pending() {
    let mut s = ServerStatus::initialize_server(None);
    assert_eq!(s.status, BridgeStatus::Unsynced);
    assert_eq!(s.last_synced, None);
    s.update_server_status(BridgeStatus::Synced, 1_000);
    assert_eq!(s.status, BridgeStatus::Synced);
    assert_eq!(s.last_synced, Some(1_000));
    s.update_server_status(BridgeStatus::Pending, 2_000);
    assert_eq!(s.status, BridgeStatus::Pending);
    assert_eq!(s.last_synced, Some(1_000));
}

#[test]
fn initialize_keeps_existing_record() {
    let existing = ServerStatus { status: BridgeStatus::Pending, last_synced: Some(5) };
    assert_eq!(ServerStatus::initialize_server(Some(existing)), existing);
    let once = ServerStatus::initialize_server(None);
    assert_eq!(ServerStatus::initialize_server(Some(once)), once);
}

#[test]
fn unsynced_leaves_timestamp() {
    let mut s = ServerStatus { status: BridgeStatus::Synced, last_synced: Some(7) };
    s.update_server_status(BridgeStatus::Unsynced, 9);
    assert_eq!(s, ServerStatus { status: BridgeStatus::Unsynced, last_synced: Some(7) });
}

#[test]
fn status_text_round_trip() {
    assert_eq!(BridgeStatus::Unsynced.as_str(), "unsynced");
    assert_eq!(BridgeStatus::Pending.as_str(), "pending");
    assert_eq!(BridgeStatus::Synced.as_str(), "synced");
    for s in [BridgeStatus::Unsynced, BridgeStatus::Pending, BridgeStatus::Synced] {
        assert_eq!(BridgeStatus::parse(s.as_str()), Some(s));
    }
    assert_eq!(BridgeStatus::parse("Synced"), None);
    assert_eq!(BridgeStatus::parse(""), None);
    assert!(BridgeStatus::Synced.stamps_last_synced());
    assert!(!BridgeStatus::Pending.stamps_last_synced());
}

#[test]
fn row_created_only_when_absent() {
    let fresh = ServerStatus { status: BridgeStatus::Unsynced, last_synced: None };
    assert_eq!(ServerStatus::row_to_create(None), Some(fresh));
    let existing = ServerStatus { status: BridgeStatus::Synced, last_synced: Some(3) };
    assert_eq!(ServerStatus::row_to_create(Some(existing)), None);
}
