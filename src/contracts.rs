use vstd::prelude::*;

use crate::config::{ConfigSection, NetworkConfig};
use crate::ethereum::{id_pending, pending_after_poll, pending_after_send, Ethereum, PendingTransaction, ReceiptPoll, SubmitPlan, TxError};
use crate::types::{same_bytes, Address, Root, TransactionId};

verus! {

/// Which read endpoint of [`Ethereum`] a contract is reached through.
#[derive(Clone, Copy, Debug, PartialEq, Eq, Structural)]
pub enum ChainSide {
    Primary,
    Secondary,
}

/// A deployed contract: its address and the chain it lives on.
#[derive(Clone, Copy, Debug)]
pub struct ContractHandle {
    pub address: Address,
    pub chain: ChainSide,
}

/// What was read from chain while connecting to the bridge.
#[derive(Clone, Copy, Debug)]
pub struct BridgeDeployment {
    /// Owner of the state bridge contract.
    pub owner: Address,
    /// Registry that the state bridge reports for the rollup side.
    pub scroll_world_id_address: Address,
    /// Canonical registry that the state bridge reports.
    pub world_id_address: Address,
}

/// Why the bridge refuses to start.
#[derive(Clone, Copy, Debug, PartialEq, Eq, Structural)]
pub enum BridgeError {
    /// A required configuration section is absent.
    MissingConfig(ConfigSection),
    /// The configured signer does not own the state bridge contract, so every
    /// propagation would fail.
    SignerNotOwner,
}

/// Whether `root` counts as finalized on the rollup side, given the
/// canonical registry's record for it, its superseded timestamp in the rollup
/// registry's history, and the rollup registry's latest root.
pub open spec fn root_mined(root: Root, recorded: Root, superseded_at: u128, latest: Root) -> bool {
    &&& !root.is_zero_spec()
    &&& !recorded.is_zero_spec()
    &&& (superseded_at != 0 || root == latest)
}

/// The cross-chain state oracle: the state bridge, the rollup registry and
/// the canonical registry, with the endpoints that reach them.
pub struct ScrollBridge {
    ethereum: Ethereum,
    abi: ContractHandle,
    secondary_abi: ContractHandle,
    tertiary_abi: ContractHandle,
}

impl ScrollBridge {
    pub closed spec fn ethereum_spec(&self) -> Ethereum {
        self.ethereum
    }

    pub closed spec fn abi_spec(&self) -> ContractHandle {
        self.abi
    }

    pub closed spec fn secondary_abi_spec(&self) -> ContractHandle {
        self.secondary_abi
    }

    pub closed spec fn tertiary_abi_spec(&self) -> ContractHandle {
        self.tertiary_abi
    }

    /// Connects to the bridge described by `network`, refusing to start when
    /// the section is absent or the signer is not the bridge's owner.
    pub fn new(network: Option<NetworkConfig>, ethereum: Ethereum, deployment: BridgeDeployment) -> (r:
        Result<ScrollBridge, BridgeError>)
        ensures
            network is None ==> r == Err::<ScrollBridge, BridgeError>(
                BridgeError::MissingConfig(ConfigSection::Network),
            ),
            network is Some && deployment.owner@ != ethereum.write_spec().address_spec()@ ==> r
                == Err::<ScrollBridge, BridgeError>(BridgeError::SignerNotOwner),
            r is Ok <==> network is Some && deployment.owner@
                == ethereum.write_spec().address_spec()@,
            r matches Ok(b) ==> {
                &&& b.ethereum_spec() == ethereum
                &&& b.abi_spec().address == network->0.scroll_bridge_address
                &&& b.abi_spec().chain == ChainSide::Primary
                &&& b.secondary_abi_spec().address == deployment.scroll_world_id_address
                &&& b.secondary_abi_spec().chain == ChainSide::Primary
                &&& b.tertiary_abi_spec().address == deployment.world_id_address
                &&& b.tertiary_abi_spec().chain == ChainSide::Secondary
            },
    {
        let network = match network {
            None => return Err(BridgeError::MissingConfig(ConfigSection::Network)),
            Some(n) => n,
        };
        let signer = ethereum.address();
        if !same_bytes(&deployment.owner, &signer) {
            return Err(BridgeError::SignerNotOwner);
        }
        Ok(ScrollBridge {
            ethereum,
            abi: ContractHandle { address: network.scroll_bridge_address, chain: ChainSide::Primary },
            secondary_abi: ContractHandle {
                address: deployment.scroll_world_id_address,
                chain: ChainSide::Primary,
            },
            tertiary_abi: ContractHandle {
                address: deployment.world_id_address,
                chain: ChainSide::Secondary,
            },
        })
    }

    /// The state bridge contract.
    pub fn abi(&self) -> (r: &ContractHandle)
        ensures
            *r == self.abi_spec(),
    {
        &self.abi
    }

    /// The rollup-side registry.
    pub fn secondary_abis(&self) -> (r: &ContractHandle)
        ensures
            *r == self.secondary_abi_spec(),
    {
        &self.secondary_abi
    }

    /// The canonical registry.
    pub fn tertiary_abis(&self) -> (r: &ContractHandle)
        ensures
            *r == self.tertiary_abi_spec(),
    {
        &self.tertiary_abi
    }

    /// The endpoints the oracle reads and writes through.
    pub fn ethereum(&self) -> (r: &Ethereum)
        ensures
            *r == self.ethereum_spec(),
    {
        &self.ethereum
    }

    /// Records a propagation transaction broadcast with the planned nonce.
    pub fn record_propagation(&mut self, id: TransactionId, nonce: u64, now: u64)
        requires
            nonce == old(self).ethereum_spec().write_spec().next_nonce_spec(),
            nonce < u64::MAX,
        ensures
            final(self).ethereum_spec().write_spec().pending_spec() == pending_after_send(
                old(self).ethereum_spec().write_spec().pending_spec(),
                PendingTransaction { id, nonce, submitted_at: now },
            ),
            final(self).ethereum_spec().write_spec().next_nonce_spec() == if id_pending(old(self).ethereum_spec().write_spec().pending_spec(), id) {
                nonce
            } else {
                (nonce + 1) as u64
            },
            final(self).abi_spec() == old(self).abi_spec(),
            final(self).secondary_abi_spec() == old(self).secondary_abi_spec(),
            final(self).tertiary_abi_spec() == old(self).tertiary_abi_spec(),
    {
        self.ethereum.record_sent(id, nonce, now);
    }

    /// Brings the signer's next nonce up to its account nonce on chain.
    pub fn reconcile_nonce(&mut self, account_nonce: u64)
        ensures
            final(self).ethereum_spec().write_spec().next_nonce_spec() == if account_nonce > old(
                self,
            ).ethereum_spec().write_spec().next_nonce_spec() {
                account_nonce
            } else {
                old(self).ethereum_spec().write_spec().next_nonce_spec()
            },
            final(self).ethereum_spec().write_spec().pending_spec() == old(
                self,
            ).ethereum_spec().write_spec().pending_spec(),
            final(self).abi_spec() == old(self).abi_spec(),
            final(self).secondary_abi_spec() == old(self).secondary_abi_spec(),
            final(self).tertiary_abi_spec() == old(self).tertiary_abi_spec(),
    {
        self.ethereum.reconcile_nonce(account_nonce);
    }

    /// Settles a pending transaction with the result of a receipt poll.
    pub fn mine_transaction(&mut self, id: TransactionId, poll: ReceiptPoll) -> (r:
        Result<bool, TxError>)
        ensures
            r == (match poll {
                ReceiptPoll::Included { success } => Ok::<bool, TxError>(success),
                ReceiptPoll::NodeFailure => Err(TxError::Mining),
                _ => Ok(false),
            }),
            final(self).abi_spec() == old(self).abi_spec(),
            final(self).secondary_abi_spec() == old(self).secondary_abi_spec(),
            final(self).tertiary_abi_spec() == old(self).tertiary_abi_spec(),
            final(self).ethereum_spec().write_spec().next_nonce_spec() == old(
                self,
            ).ethereum_spec().write_spec().next_nonce_spec(),
            final(self).ethereum_spec().write_spec().pending_spec() == pending_after_poll(
                old(self).ethereum_spec().write_spec().pending_spec(),
                id,
                poll,
            ),
    {
        self.ethereum.mine_transaction(id, poll)
    }

    /// Plans the propagation transaction to the state bridge. It is submitted
    /// at most once: while one is in flight its id is handed back instead.
    pub fn propagate_root(&self) -> (r: Result<SubmitPlan, TxError>)
        ensures
            r == self.ethereum_spec().write_spec().submit_plan(true),
    {
        self.ethereum.send_transaction(true)
    }

    /// Whether the canonical registry's record for `root` calls for the
    /// rollup registry to be consulted; when not, `root` is not mined.
    pub fn root_known_on_canonical(root: &Root, recorded: &Root) -> (r: bool)
        ensures
            r == (!root.is_zero_spec() && !recorded.is_zero_spec()),
            !r ==> forall|t: u128, l: Root| !#[trigger] root_mined(*root, *recorded, t, l),
    {
        !root.is_zero() && !recorded.is_zero()
    }

    /// Decides whether `root` is already propagated and finalized.
    ///
    /// `recorded` is the canonical registry's record for `root` (zero when it
    /// was never observed there), `superseded_at` the rollup registry's
    /// history timestamp for it (zero when it was never superseded), and
    /// `latest` the rollup registry's current root.
    pub fn is_root_mined(root: &Root, recorded: &Root, superseded_at: u128, latest: &Root) -> (r:
        bool)
        ensures
            r == root_mined(*root, *recorded, superseded_at, *latest),
            root.is_zero_spec() ==> !r,
            !root.is_zero_spec() && !recorded.is_zero_spec() && *root == *latest ==> r,
            !root.is_zero_spec() && !recorded.is_zero_spec() && superseded_at != 0 ==> r,
            recorded.is_zero_spec() && superseded_at == 0 && *root != *latest ==> !r,
            superseded_at == 0 && *root != *latest ==> !r,
    {
        if !Self::root_known_on_canonical(root, recorded) {
            return false;
        }
        if superseded_at == 0 && *root != *latest {
            return false;
        }
        true
    }
}

} // verus!
