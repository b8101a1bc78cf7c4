use state_bridge_relay::config::{AppConfig, NetworkConfig, ProvidersConfig, RelayerConfig};
use state_bridge_relay::contracts::{BridgeDeployment, ScrollBridge};
use state_bridge_relay::ethereum::{Ethereum, ReceiptPoll};
use state_bridge_relay::processor::{extract_roots, BridgeProcessor};
use state_bridge_relay::scanner::BlockRange;
use state_bridge_relay::types::{LogEvent, Root};

fn processor() -> BridgeProcessor {
    let providers = ProvidersConfig {
        primary_network_provider: "http://a".to_string(),
        world_id_network_provider: "http://b".to_string(),
    };
    let e = Ethereum::new(Some(providers), Some(RelayerConfig { signer_address: [1u8; 20] }), 0)
        .ok()
        .unwrap();
    let d = BridgeDeployment {
        owner: [1u8; 20],
        scroll_world_id_address: [5u8; 20],
        world_id_address: [6u8; 20],
    };
    let b = ScrollBridge::new(Some(NetworkConfig { scroll_bridge_address: [8u8; 20] }), e, d)
        .ok()
        .unwrap();
    let config = AppConfig {
        scanning_window_size: 100,
        scanning_chain_head_offset: 2,
        time_between_scans_secs: 30,
        sync_check_interval_secs: 600,
    };
    BridgeProcessor::new(b, config, 500, 700)
}

#[test]
fn roots_of_decoded_logs_in_order() {
    let a = Root::from_halves(0, 1);
    let b = Root::from_halves(2, 3);
    assert_eq!(extract_roots(&vec![Some(a), None, Some(b), None]), vec![a, b]);
    assert_eq!(extract_roots(&vec![None, None]), vec![]);
    assert_eq!(extract_roots(&vec![]), vec![]);
}

#[test]
fn scanners_start_at_head_with_offset() {
    let mut p = processor();
    assert_eq!(p.bridge_address(), [8u8; 20]);
    assert_eq!(p.scroll_world_id_address(), [5u8; 20]);
    assert_eq!(p.plan_bridge_logs(502), None);
    let r = p.plan_bridge_logs(700).unwrap();
    assert_eq!(r, BlockRange { from: 501, to: 600 });
    let log = LogEvent { block_number: 550, contract_address: [8u8; 20], topics: vec![], data: vec![] };
    assert_eq!(p.fetch_bridge_logs(700, Some(Ok(vec![log]))).unwrap().len(), 1);
    assert_eq!(p.plan_bridge_logs(700), Some(BlockRange { from: 601, to: 698 }));
    assert_eq!(p.plan_scroll_logs(710), Some(BlockRange { from: 701, to: 708 }));
    assert!(p.fetch_scroll_logs(710, Some(Err(()))).is_err());
    assert_eq!(p.plan_scroll_logs(710), Some(BlockRange { from: 701, to: 708 }));
}

#[test]
fn clean_slate_drains_pending() {
    let mut p = processor();
    p.record_propagation([4u8; 32], 0, 1);
    assert_eq!(p.fetch_pending_identities(), vec![[4u8; 32]]);
    assert_eq!(p.mine_transaction([4u8; 32], ReceiptPoll::Included { success: true }), Ok(true));
    assert!(p.fetch_pending_identities().is_empty());
}

#[test]
fn processor_scan_with_window_and_offset() {
    let providers = ProvidersConfig {
        primary_network_provider: "http://a".to_string(),
        world_id_network_provider: "http://b".to_string(),
    };
    let e = Ethereum::new(Some(providers), Some(RelayerConfig { signer_address: [1u8; 20] }), 0)
        .ok()
        .unwrap();
    let d = BridgeDeployment {
        owner: [1u8; 20],
        scroll_world_id_address: [5u8; 20],
        world_id_address: [6u8; 20],
    };
    let b = ScrollBridge::new(Some(NetworkConfig { scroll_bridge_address: [8u8; 20] }), e, d)
        .ok()
        .unwrap();
    let config = AppConfig {
        scanning_window_size: 1000,
        scanning_chain_head_offset: 5,
        time_between_scans_secs: 30,
        sync_check_interval_secs: 600,
    };
    let mut p = BridgeProcessor::new(b, config, 1000, 1000);
    let r = p.plan_bridge_logs(2005).unwrap();
    assert_eq!(r, BlockRange { from: 1001, to: 2000 });
    let log = LogEvent { block_number: 2000, contract_address: [8u8; 20], topics: vec![], data: vec![] };
    assert_eq!(p.fetch_bridge_logs(2005, Some(Ok(vec![log]))).unwrap().len(), 1);
    assert_eq!(p.plan_bridge_logs(2005), None);
    assert!(p.fetch_bridge_logs(2005, None).unwrap().is_empty());
    assert_eq!(p.plan_bridge_logs(2006), Some(BlockRange { from: 2001, to: 2001 }));
}

#[test]
fn reconcile_moves_next_nonce_forward() {
    let mut p = processor();
    p.reconcile_nonce(12);
    assert!(matches!(
        p.propagate_root(),
        Ok(state_bridge_relay::ethereum::SubmitPlan::Fresh { nonce: 12 })
    ));
}

#[test]
fn planned_scan_without_fetch_fails_and_keeps_cursor() {
    let mut p = processor();
    assert!(p.fetch_bridge_logs(700, None).is_err());
    assert_eq!(p.plan_bridge_logs(700), Some(BlockRange { from: 501, to: 600 }));
}
