use vstd::prelude::*;

use crate::config::AppConfig;
use crate::contracts::ScrollBridge;
use crate::events::{event_declaration, extract_event_roots, log_root, TrackedEvent};
use crate::ethereum::{id_pending, pending_after_poll, pending_after_send, PendingTransaction, ReceiptPoll, SubmitPlan, TxError};
use crate::scanner::{next_outcome, planned_range, BlockRange, BlockScanner, ScanError};
use crate::types::{Address, LogEvent, Root, TransactionId};

verus! {

/// The roots carried by the logs that decoded as the tracked event, in log
/// order; logs that did not decode (`None`) are skipped.
pub open spec fn decoded_roots(s: Seq<Option<Root>>) -> Seq<Root>
    decreases s.len(),
{
    if s.len() == 0 {
        Seq::<Root>::empty()
    } else {
        let rest = decoded_roots(s.drop_last());
        match s.last() {
            Some(r) => rest.push(r),
            None => rest,
        }
    }
}

/// Keeps the roots of the logs that decoded, in order.
pub fn extract_roots(decoded: &Vec<Option<Root>>) -> (r: Vec<Root>)
    ensures
        r@ == decoded_roots(decoded@),
{
    let mut roots: Vec<Root> = Vec::new();
    let mut i: usize = 0;
    while i < decoded.len()
        invariant
            0 <= i <= decoded@.len(),
            roots@ == decoded_roots(decoded@.subrange(0, i as int)),
        decreases decoded@.len() - i,
    {
        proof {
            assert(decoded@.subrange(0, i + 1).drop_last() =~= decoded@.subrange(0, i as int));
        }
        if let Some(root) = decoded[i] {
            roots.push(root);
        }
        i = i + 1;
    }
    assert(decoded@.subrange(0, decoded@.len() as int) =~= decoded@);
    roots
}

/// The roots of the bridge's propagation events among `logs`, in order.
pub fn extract_roots_from_bridge_logs(logs: &Vec<LogEvent>) -> (r: Vec<Root>)
    ensures
        r@ == decoded_roots(logs@.map_values(|l: LogEvent| log_root(event_declaration(TrackedEvent::RootPropagated), l))),
{
    extract_event_roots(TrackedEvent::RootPropagated, logs)
}

/// The roots of the rollup registry's root-added events among `logs`, in
/// order.
pub fn extract_roots_from_scroll_logs(logs: &Vec<LogEvent>) -> (r: Vec<Root>)
    ensures
        r@ == decoded_roots(logs@.map_values(|l: LogEvent| log_root(event_declaration(TrackedEvent::RootAdded), l))),
{
    extract_event_roots(TrackedEvent::RootAdded, logs)
}

/// Drives propagation and the scanning of the bridge's and the rollup
/// registry's events.
pub struct BridgeProcessor {
    scroll_bridge: ScrollBridge,
    config: AppConfig,
    bridge_scanner: BlockScanner,
    bridge_address: Address,
    scroll_world_id_scanner: BlockScanner,
    scroll_world_id_address: Address,
}

impl BridgeProcessor {
    /// Both scanners run with the configured window and head offset.
    pub closed spec fn wf(&self) -> bool {
        &&& self.bridge_scanner.window_size == self.config.scanning_window_size
        &&& self.bridge_scanner.chain_head_offset == self.config.scanning_chain_head_offset
        &&& self.scroll_world_id_scanner.window_size == self.config.scanning_window_size
        &&& self.scroll_world_id_scanner.chain_head_offset
            == self.config.scanning_chain_head_offset
    }

    /// What every change of the processor keeps: the invariant, the
    /// configuration and the scanned addresses.
    pub open spec fn keeps_setup(&self, after: &BridgeProcessor) -> bool {
        &&& after.wf()
        &&& after.config_spec() == self.config_spec()
        &&& after.bridge_address_spec() == self.bridge_address_spec()
        &&& after.scroll_address_spec() == self.scroll_address_spec()
    }

    pub closed spec fn bridge_spec(&self) -> ScrollBridge {
        self.scroll_bridge
    }

    pub closed spec fn config_spec(&self) -> AppConfig {
        self.config
    }

    pub closed spec fn bridge_scanner_spec(&self) -> BlockScanner {
        self.bridge_scanner
    }

    pub closed spec fn scroll_scanner_spec(&self) -> BlockScanner {
        self.scroll_world_id_scanner
    }

    pub closed spec fn bridge_address_spec(&self) -> Address {
        self.bridge_address
    }

    pub closed spec fn scroll_address_spec(&self) -> Address {
        self.scroll_world_id_address
    }

    /// Sets up both scanners at the current chain heads, so that only new
    /// events are seen, with the configured window and head offset.
    pub fn new(
        scroll_bridge: ScrollBridge,
        config: AppConfig,
        bridge_chain_head: u64,
        scroll_chain_head: u64,
    ) -> (r: BridgeProcessor)
        ensures
            r.wf(),
            r.bridge_spec() == scroll_bridge,
            r.config_spec() == config,
            r.bridge_scanner_spec() == (BlockScanner {
                last_synced_block: bridge_chain_head,
                window_size: config.scanning_window_size,
                chain_head_offset: config.scanning_chain_head_offset,
            }),
            r.scroll_scanner_spec() == (BlockScanner {
                last_synced_block: scroll_chain_head,
                window_size: config.scanning_window_size,
                chain_head_offset: config.scanning_chain_head_offset,
            }),
            r.bridge_address_spec() == scroll_bridge.abi_spec().address,
            r.scroll_address_spec() == scroll_bridge.secondary_abi_spec().address,
    {
        let bridge_scanner = BlockScanner::new_latest(
            bridge_chain_head,
            config.scanning_window_size,
        ).with_offset(config.scanning_chain_head_offset);
        let scroll_world_id_scanner = BlockScanner::new_latest(
            scroll_chain_head,
            config.scanning_window_size,
        ).with_offset(config.scanning_chain_head_offset);
        let bridge_address = scroll_bridge.abi().address;
        let scroll_world_id_address = scroll_bridge.secondary_abis().address;
        BridgeProcessor {
            scroll_bridge,
            config,
            bridge_scanner,
            bridge_address,
            scroll_world_id_scanner,
            scroll_world_id_address,
        }
    }

    pub fn scroll_bridge(&self) -> (r: &ScrollBridge)
        ensures
            *r == self.bridge_spec(),
    {
        &self.scroll_bridge
    }

    pub fn config(&self) -> (r: AppConfig)
        ensures
            r == self.config_spec(),
    {
        self.config
    }

    /// Address whose propagation events are scanned.
    pub fn bridge_address(&self) -> (r: Address)
        ensures
            r == self.bridge_address_spec(),
    {
        self.bridge_address
    }

    /// Address whose root-added events are scanned.
    pub fn scroll_world_id_address(&self) -> (r: Address)
        ensures
            r == self.scroll_address_spec(),
    {
        self.scroll_world_id_address
    }

    /// Plans the propagation; see [`ScrollBridge::propagate_root`].
    pub fn propagate_root(&self) -> (r: Result<SubmitPlan, TxError>)
        ensures
            r == self.bridge_spec().ethereum_spec().write_spec().submit_plan(true),
    {
        self.scroll_bridge.propagate_root()
    }

    /// Records the propagation transaction broadcast with the planned nonce.
    pub fn record_propagation(&mut self, id: TransactionId, nonce: u64, now: u64)
        requires
            nonce == old(self).bridge_spec().ethereum_spec().write_spec().next_nonce_spec(),
            nonce < u64::MAX,
            old(self).wf(),
        ensures
            old(self).keeps_setup(&*final(self)),
            final(self).bridge_spec().ethereum_spec().write_spec().pending_spec() == pending_after_send(
                old(self).bridge_spec().ethereum_spec().write_spec().pending_spec(),
                PendingTransaction { id, nonce, submitted_at: now },
            ),
            final(self).bridge_spec().ethereum_spec().write_spec().next_nonce_spec() == if id_pending(old(self).bridge_spec().ethereum_spec().write_spec().pending_spec(), id) {
                nonce
            } else {
                (nonce + 1) as u64
            },
            final(self).bridge_scanner_spec() == old(self).bridge_scanner_spec(),
            final(self).scroll_scanner_spec() == old(self).scroll_scanner_spec(),
    {
        self.scroll_bridge.record_propagation(id, nonce, now);
    }

    /// Brings the signer's next nonce up to its account nonce on chain, so a
    /// transaction left in flight by an earlier run is not overwritten.
    pub fn reconcile_nonce(&mut self, account_nonce: u64)
        requires
            old(self).wf(),
        ensures
            old(self).keeps_setup(&*final(self)),
            final(self).bridge_spec().ethereum_spec().write_spec().next_nonce_spec() == if account_nonce
                > old(self).bridge_spec().ethereum_spec().write_spec().next_nonce_spec() {
                account_nonce
            } else {
                old(self).bridge_spec().ethereum_spec().write_spec().next_nonce_spec()
            },
            final(self).bridge_spec().ethereum_spec().write_spec().pending_spec() == old(
                self,
            ).bridge_spec().ethereum_spec().write_spec().pending_spec(),
            final(self).bridge_scanner_spec() == old(self).bridge_scanner_spec(),
            final(self).scroll_scanner_spec() == old(self).scroll_scanner_spec(),
    {
        self.scroll_bridge.reconcile_nonce(account_nonce);
    }

    /// The ids of all transactions in flight, which must settle before the
    /// slate is clean.
    pub fn fetch_pending_identities(&self) -> (r: Vec<TransactionId>)
        ensures
            r@.len() == self.bridge_spec().ethereum_spec().write_spec().pending_spec().len(),
            forall|i: int|
                0 <= i < r@.len() ==> r@[i]
                    == #[trigger] self.bridge_spec().ethereum_spec().write_spec().pending_spec()[i].id,
            forall|i: int, j: int| 0 <= i < j < r@.len() ==> #[trigger] r@[i]@ != #[trigger] r@[j]@,
    {
        self.scroll_bridge.ethereum().fetch_pending_transactions()
    }

    /// Settles a pending transaction with the result of a receipt poll.
    pub fn mine_transaction(&mut self, id: TransactionId, poll: ReceiptPoll) -> (r: Result<
        bool,
        TxError,
    >)
        requires
            old(self).wf(),
        ensures
            old(self).keeps_setup(&*final(self)),
            r == (match poll {
                ReceiptPoll::Included { success } => Ok::<bool, TxError>(success),
                ReceiptPoll::NodeFailure => Err(TxError::Mining),
                _ => Ok(false),
            }),
            final(self).bridge_scanner_spec() == old(self).bridge_scanner_spec(),
            final(self).scroll_scanner_spec() == old(self).scroll_scanner_spec(),
            final(self).bridge_spec().ethereum_spec().write_spec().pending_spec() == pending_after_poll(
                old(self).bridge_spec().ethereum_spec().write_spec().pending_spec(),
                id,
                poll,
            ),
    {
        self.scroll_bridge.mine_transaction(id, poll)
    }

    /// The next range of the bridge's propagation events to fetch.
    pub fn plan_bridge_logs(&self, chain_head: u64) -> (r: Option<BlockRange>)
        ensures
            r == planned_range(self.bridge_scanner_spec(), chain_head),
    {
        self.bridge_scanner.plan(chain_head)
    }

    /// One scan step at `chain_head`; see [`BlockScanner::next`]. `fetched`
    /// holds what the node returned for the range [`Self::plan_bridge_logs`]
    /// gave, or `None` when nothing was fetched.
    pub fn fetch_bridge_logs(
        &mut self,
        chain_head: u64,
        fetched: Option<Result<Vec<LogEvent>, ()>>,
    ) -> (r: Result<Vec<LogEvent>, ScanError>)
        requires
            old(self).wf(),
        ensures
            old(self).keeps_setup(&*final(self)),
            final(self).scroll_scanner_spec() == old(self).scroll_scanner_spec(),
            final(self).bridge_spec() == old(self).bridge_spec(),
            next_outcome(old(self).bridge_scanner_spec(), chain_head, fetched, r, final(self).bridge_scanner_spec()),
            planned_range(old(self).bridge_scanner_spec(), chain_head) matches Some(range) ==> {
                &&& range.from == old(self).bridge_scanner_spec().last_synced_block + 1
                &&& range.len() <= old(self).config_spec().scanning_window_size
                &&& range.to <= chain_head - old(self).config_spec().scanning_chain_head_offset
            },
            r matches Ok(out) ==> forall|i: int|
                0 <= i < out@.len() ==> #[trigger] out@[i].block_number <= chain_head
                    - old(self).config_spec().scanning_chain_head_offset,
    {
        self.bridge_scanner.next(chain_head, fetched)
    }

    /// The next range of the rollup registry's root-added events to fetch.
    pub fn plan_scroll_logs(&self, chain_head: u64) -> (r: Option<BlockRange>)
        ensures
            r == planned_range(self.scroll_scanner_spec(), chain_head),
    {
        self.scroll_world_id_scanner.plan(chain_head)
    }

    /// One scan step at `chain_head`; see [`BlockScanner::next`]. `fetched`
    /// holds what the node returned for the range [`Self::plan_scroll_logs`]
    /// gave, or `None` when nothing was fetched.
    pub fn fetch_scroll_logs(
        &mut self,
        chain_head: u64,
        fetched: Option<Result<Vec<LogEvent>, ()>>,
    ) -> (r: Result<Vec<LogEvent>, ScanError>)
        requires
            old(self).wf(),
        ensures
            old(self).keeps_setup(&*final(self)),
            final(self).bridge_scanner_spec() == old(self).bridge_scanner_spec(),
            final(self).bridge_spec() == old(self).bridge_spec(),
            next_outcome(old(self).scroll_scanner_spec(), chain_head, fetched, r, final(self).scroll_scanner_spec()),
            planned_range(old(self).scroll_scanner_spec(), chain_head) matches Some(range) ==> {
                &&& range.from == old(self).scroll_scanner_spec().last_synced_block + 1
                &&& range.len() <= old(self).config_spec().scanning_window_size
                &&& range.to <= chain_head - old(self).config_spec().scanning_chain_head_offset
            },
            r matches Ok(out) ==> forall|i: int|
                0 <= i < out@.len() ==> #[trigger] out@[i].block_number <= chain_head
                    - old(self).config_spec().scanning_chain_head_offset,
    {
        self.scroll_world_id_scanner.next(chain_head, fetched)
    }
}

} // verus!
