use state_bridge_relay::events::{decode_root, TrackedEvent};
use state_bridge_relay::processor::{extract_roots_from_bridge_logs, extract_roots_from_scroll_logs};
use state_bridge_relay::types::{LogEvent, Root};

fn word(v: u128, hi: u128) -> Vec<u8> {
    let mut w = hi.to_be_bytes().to_vec();
    w.extend_from_slice(&v.to_be_bytes());
    w
}

fn propagated(block_number: u64, root_lo: u128, root_hi: u128) -> LogEvent {
    LogEvent {
        block_number,
        contract_address: [8u8; 20],
        topics: vec![ethers::utils::keccak256("RootPropagated(uint256)")],
        data: word(root_lo, root_hi),
    }
}

fn added(block_number: u64, root_lo: u128) -> LogEvent {
    let mut data = word(root_lo, 0);
    data.extend_from_slice(&word(1_700_000_000, 0));
    LogEvent {
        block_number,
        contract_address: [5u8; 20],
        topics: vec![ethers::utils::keccak256("RootAdded(uint256,uint128)")],
        data,
    }
}

#[test]
fn decodes_propagated_root() {
    let log = propagated(1, 42, 7);
    assert_eq!(
        decode_root(TrackedEvent::RootPropagated, &log),
        Some(Root::from_halves(7, 42))
    );
}

#[test]
fn other_event_does_not_decode() {
    let log = added(1, 42);
    assert_eq!(decode_root(TrackedEvent::RootPropagated, &log), None);
}

#[test]
fn bridge_and_scroll_roots_in_order() {
    let logs = vec![propagated(1, 1, 0), added(2, 9), propagated(3, 2, 0)];
    assert_eq!(
        extract_roots_from_bridge_logs(&logs),
        vec![Root::from_halves(0, 1), Root::from_halves(0, 2)]
    );
    assert_eq!(extract_roots_from_scroll_logs(&logs), vec![Root::from_halves(0, 9)]);
}
