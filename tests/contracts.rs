use state_bridge_relay::config::{ConfigSection, NetworkConfig, ProvidersConfig, RelayerConfig};
use state_bridge_relay::contracts::{BridgeDeployment, BridgeError, ChainSide, ScrollBridge};
use state_bridge_relay::ethereum::{Ethereum, SubmitPlan};
use state_bridge_relay::types::Root;

fn ethereum(signer: [u8; 20]) -> Ethereum {
    let providers = ProvidersConfig {
        primary_network_provider: "http://a".to_string(),
        world_id_network_provider: "http://b".to_string(),
    };
    Ethereum::new(Some(providers), Some(RelayerConfig { signer_address: signer }), 3).ok().unwrap()
}

fn deployment(owner: [u8; 20]) -> BridgeDeployment {
    BridgeDeployment { owner, scroll_world_id_address: [5u8; 20], world_id_address: [6u8; 20] }
}

fn network() -> Option<NetworkConfig> {
    Some(NetworkConfig { scroll_bridge_address: [8u8; 20] })
}

fn r(v: u128) -> Root {
    Root::from_halves(0, v)
}

#[test]
fn zero_root_is_never_mined() {
    assert!(!ScrollBridge::is_root_mined(&Root::zero(), &r(5), 9, &Root::zero()));
    assert!(!ScrollBridge::is_root_mined(&Root::zero(), &Root::zero(), 0, &Root::zero()));
}

#[test]
fn latest_root_is_mined() {
    assert!(ScrollBridge::is_root_mined(&r(42), &r(42), 0, &r(42)));
}

#[test]
fn superseded_root_is_mined() {
    assert!(ScrollBridge::is_root_mined(&r(42), &r(42), 1_700_000_000, &r(43)));
}

#[test]
fn unknown_root_is_not_mined() {
    assert!(!ScrollBridge::is_root_mined(&r(42), &Root::zero(), 0, &r(43)));
}

#[test]
fn recorded_but_neither_latest_nor_superseded_is_not_mined() {
    assert!(!ScrollBridge::is_root_mined(&r(42), &r(42), 0, &r(43)));
}

#[test]
fn high_half_counts_for_zero_and_equality() {
    let a = Root::from_halves(1, 0);
    assert!(!a.is_zero());
    assert!(ScrollBridge::is_root_mined(&a, &a, 0, &a));
    assert!(!ScrollBridge::is_root_mined(&a, &a, 0, &r(0)));
}

#[test]
fn canonical_lookup_decides_early() {
    assert!(!ScrollBridge::root_known_on_canonical(&r(1), &Root::zero()));
    assert!(ScrollBridge::root_known_on_canonical(&r(1), &r(1)));
}

#[test]
fn owner_must_be_signer() {
    let e = ethereum([1u8; 20]);
    let err = ScrollBridge::new(network(), e, deployment([2u8; 20])).err().unwrap();
    assert_eq!(err, BridgeError::SignerNotOwner);
}

#[test]
fn network_section_is_required() {
    let e = ethereum([1u8; 20]);
    let err = ScrollBridge::new(None, e, deployment([1u8; 20])).err().unwrap();
    assert_eq!(err, BridgeError::MissingConfig(ConfigSection::Network));
}

#[test]
fn connects_and_propagates_once() {
    let e = ethereum([1u8; 20]);
    let mut b = ScrollBridge::new(network(), e, deployment([1u8; 20])).ok().unwrap();
    assert_eq!(b.abi().address, [8u8; 20]);
    assert_eq!(b.secondary_abis().address, [5u8; 20]);
    assert_eq!(b.secondary_abis().chain, ChainSide::Primary);
    assert_eq!(b.tertiary_abis().address, [6u8; 20]);
    assert_eq!(b.tertiary_abis().chain, ChainSide::Secondary);
    let nonce = match b.propagate_root().unwrap() {
        SubmitPlan::Fresh { nonce } => nonce,
        SubmitPlan::Existing(_) => panic!("nothing pending yet"),
    };
    assert_eq!(nonce, 3);
    b.record_propagation([7u8; 32], nonce, 10);
    assert!(matches!(b.propagate_root(), Ok(SubmitPlan::Existing(id)) if id == [7u8; 32]));
}
