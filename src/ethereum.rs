use vstd::prelude::*;

use crate::config::{ConfigSection, ProvidersConfig, RelayerConfig};
use crate::types::{same_bytes, Address, TransactionId};

verus! {

/// A read-only node endpoint.
#[derive(Debug)]
pub struct ReadEndpoint {
    pub url: String,
}

/// A transaction that was broadcast and whose inclusion is not settled yet.
#[derive(Clone, Copy, Debug)]
pub struct PendingTransaction {
    pub id: TransactionId,
    pub nonce: u64,
    pub submitted_at: u64,
}

/// What a submission should do, decided before anything is signed.
#[derive(Clone, Copy, Debug)]
pub enum SubmitPlan {
    /// A transaction is already in flight: hand back its id, send nothing.
    Existing(TransactionId),
    /// Sign and broadcast a new transaction with this nonce.
    Fresh { nonce: u64 },
}

/// Failures of the transaction lifecycle.
#[derive(Clone, Copy, Debug, PartialEq, Eq, Structural)]
pub enum TxError {
    /// Signing or broadcasting failed, or no nonce is left to allocate.
    Submission,
    /// The receipt poll failed irrecoverably.
    Mining,
}

/// What a receipt poll for a pending transaction found.
#[derive(Clone, Copy, Debug, PartialEq, Eq, Structural)]
pub enum ReceiptPoll {
    /// Included in a block, with the execution status.
    Included { success: bool },
    /// Permanently dropped by the network.
    Dropped,
    /// Not included yet.
    NotYet,
    /// The node failed to answer.
    NodeFailure,
}

/// The pending entries other than those with the given id.
pub open spec fn without_id(s: Seq<PendingTransaction>, id: TransactionId) -> Seq<
    PendingTransaction,
> {
    s.filter(|p: PendingTransaction| p.id@ != id@)
}

/// The pending entries after a receipt poll for `id`: settled transactions
/// leave, anything else stays.
pub open spec fn pending_after_poll(
    s: Seq<PendingTransaction>,
    id: TransactionId,
    poll: ReceiptPoll,
) -> Seq<PendingTransaction> {
    match poll {
        ReceiptPoll::Included { .. } | ReceiptPoll::Dropped => without_id(s, id),
        _ => s,
    }
}

/// Whether a transaction with this id is among the entries.
pub open spec fn id_pending(s: Seq<PendingTransaction>, id: TransactionId) -> bool {
    exists|i: int| 0 <= i < s.len() && #[trigger] s[i].id@ == id@
}

/// No two entries share an id.
pub open spec fn ids_distinct(s: Seq<PendingTransaction>) -> bool {
    forall|i: int, j: int| 0 <= i < j < s.len() ==> #[trigger] s[i].id@ != #[trigger] s[j].id@
}

/// The entries after recording a broadcast: a new id joins at the end, an
/// id already pending leaves them as they are.
pub open spec fn pending_after_send(
    s: Seq<PendingTransaction>,
    p: PendingTransaction,
) -> Seq<PendingTransaction> {
    if id_pending(s, p.id) {
        s
    } else {
        s.push(p)
    }
}

/// Signs and submits transactions on one chain and tracks those in flight.
pub struct WriteEndpoint {
    address: Address,
    pending: Vec<PendingTransaction>,
    next_nonce: u64,
}

impl WriteEndpoint {
    #[verifier::type_invariant]
    closed spec fn inv(self) -> bool {
        ids_distinct(self.pending@)
    }

    pub closed spec fn pending_spec(&self) -> Seq<PendingTransaction> {
        self.pending@
    }

    pub closed spec fn next_nonce_spec(&self) -> u64 {
        self.next_nonce
    }

    pub closed spec fn address_spec(&self) -> Address {
        self.address
    }

    /// The decision `prepare_submit` takes.
    pub open spec fn submit_plan(&self, only_once: bool) -> Result<SubmitPlan, TxError> {
        if only_once && self.pending_spec().len() > 0 {
            Ok(SubmitPlan::Existing(self.pending_spec()[0].id))
        } else if self.next_nonce_spec() == u64::MAX {
            Err(TxError::Submission)
        } else {
            Ok(SubmitPlan::Fresh { nonce: self.next_nonce_spec() })
        }
    }

    /// An endpoint for `address` whose account has sent `account_nonce`
    /// transactions so far, with nothing in flight.
    pub fn new(address: Address, account_nonce: u64) -> (r: WriteEndpoint)
        ensures
            r.address_spec() == address,
            r.pending_spec() == Seq::<PendingTransaction>::empty(),
            r.next_nonce_spec() == account_nonce,
    {
        WriteEndpoint { address, pending: Vec::new(), next_nonce: account_nonce }
    }

    pub fn address(&self) -> (r: Address)
        ensures
            r == self.address_spec(),
    {
        self.address
    }

    /// Decides whether a submission reuses the transaction in flight
    /// (`only_once` with something pending) or sends a new one.
    pub fn prepare_submit(&self, only_once: bool) -> (r: Result<SubmitPlan, TxError>)
        ensures
            r == self.submit_plan(only_once),
    {
        if only_once && self.pending.len() > 0 {
            Ok(SubmitPlan::Existing(self.pending[0].id))
        } else if self.next_nonce == u64::MAX {
            Err(TxError::Submission)
        } else {
            Ok(SubmitPlan::Fresh { nonce: self.next_nonce })
        }
    }

    /// Whether a transaction with this id is in flight.
    pub fn is_pending(&self, id: TransactionId) -> (r: bool)
        ensures
            r == id_pending(self.pending_spec(), id),
    {
        let mut i: usize = 0;
        while i < self.pending.len()
            invariant
                0 <= i <= self.pending@.len(),
                forall|k: int| 0 <= k < i ==> #[trigger] self.pending@[k].id@ != id@,
            decreases self.pending@.len() - i,
        {
            if same_bytes(&self.pending[i].id, &id) {
                return true;
            }
            i = i + 1;
        }
        false
    }

    /// Records a transaction that was broadcast with the planned nonce. An id
    /// that is already pending is not recorded twice, and then nothing
    /// changes.
    pub fn record_sent(&mut self, id: TransactionId, nonce: u64, submitted_at: u64)
        requires
            nonce == old(self).next_nonce_spec(),
            nonce < u64::MAX,
        ensures
            final(self).pending_spec() == pending_after_send(
                old(self).pending_spec(),
                PendingTransaction { id, nonce, submitted_at },
            ),
            final(self).next_nonce_spec() == if id_pending(old(self).pending_spec(), id) {
                nonce
            } else {
                (nonce + 1) as u64
            },
            final(self).address_spec() == old(self).address_spec(),
    {
        proof { use_type_invariant(&*self); }
        if self.is_pending(id) {
            return;
        }
        let mut pending: Vec<PendingTransaction> = Vec::new();
        std::mem::swap(&mut self.pending, &mut pending);
        pending.push(PendingTransaction { id, nonce, submitted_at });
        self.pending = pending;
        self.next_nonce = nonce + 1;
    }

    /// Brings the next nonce up to the account's nonce on chain, so that
    /// transactions sent before a restart are not reused.
    pub fn reconcile_nonce(&mut self, account_nonce: u64)
        ensures
            final(self).next_nonce_spec() == if account_nonce > old(self).next_nonce_spec() {
                account_nonce
            } else {
                old(self).next_nonce_spec()
            },
            final(self).pending_spec() == old(self).pending_spec(),
            final(self).address_spec() == old(self).address_spec(),
    {
        proof { use_type_invariant(&*self); }
        if account_nonce > self.next_nonce {
            self.next_nonce = account_nonce;
        }
    }

    /// The ids of all transactions in flight, oldest first.
    pub fn fetch_pending_transactions(&self) -> (r: Vec<TransactionId>)
        ensures
            r@.len() == self.pending_spec().len(),
            forall|i: int| 0 <= i < r@.len() ==> r@[i] == #[trigger] self.pending_spec()[i].id,
            forall|i: int, j: int| 0 <= i < j < r@.len() ==> #[trigger] r@[i]@ != #[trigger] r@[j]@,
    {
        proof { use_type_invariant(self); }
        let mut ids: Vec<TransactionId> = Vec::new();
        let mut i: usize = 0;
        while i < self.pending.len()
            invariant
                0 <= i <= self.pending@.len(),
                ids@.len() == i,
                forall|k: int| 0 <= k < i ==> ids@[k] == #[trigger] self.pending@[k].id,
            decreases self.pending@.len() - i,
        {
            ids.push(self.pending[i].id);
            i = i + 1;
        }
        assert forall|i: int, j: int| 0 <= i < j < ids@.len() implies #[trigger] ids@[i]@
            != #[trigger] ids@[j]@ by {
            assert(ids@[i] == self.pending@[i].id);
            assert(ids@[j] == self.pending@[j].id);
        }
        ids
    }

    /// Settles the transaction `id` with the result of a receipt poll.
    ///
    /// Returns `true` once it is included and succeeded, `false` while it is
    /// not included or when it failed or was dropped. Settled transactions
    /// leave the pending set; on a node failure the set is unchanged.
    pub fn mine_transaction(&mut self, id: TransactionId, poll: ReceiptPoll) -> (r: Result<
        bool,
        TxError,
    >)
        ensures
            final(self).next_nonce_spec() == old(self).next_nonce_spec(),
            final(self).address_spec() == old(self).address_spec(),
            match poll {
                ReceiptPoll::Included { success } => r == Ok::<bool, TxError>(success)
                    && final(self).pending_spec() == without_id(old(self).pending_spec(), id),
                ReceiptPoll::Dropped => r == Ok::<bool, TxError>(false)
                    && final(self).pending_spec() == without_id(old(self).pending_spec(), id),
                ReceiptPoll::NotYet => r == Ok::<bool, TxError>(false)
                    && final(self).pending_spec() == old(self).pending_spec(),
                ReceiptPoll::NodeFailure => r == Err::<bool, TxError>(TxError::Mining)
                    && final(self).pending_spec() == old(self).pending_spec(),
            },
    {
        match poll {
            ReceiptPoll::NotYet => Ok(false),
            ReceiptPoll::NodeFailure => Err(TxError::Mining),
            ReceiptPoll::Included { success } => {
                self.forget(id);
                Ok(success)
            },
            ReceiptPoll::Dropped => {
                self.forget(id);
                Ok(false)
            },
        }
    }

    fn forget(&mut self, id: TransactionId)
        ensures
            final(self).pending@ == without_id(old(self).pending@, id),
            final(self).next_nonce == old(self).next_nonce,
            final(self).address == old(self).address,
    {
        proof { use_type_invariant(&*self); }
        let ghost s = self.pending@;
        let mut kept: Vec<PendingTransaction> = Vec::new();
        let mut i: usize = 0;
        while i < self.pending.len()
            invariant
                self.pending@ == s,
                0 <= i <= s.len(),
                kept@ == without_id(s.subrange(0, i as int), id),
                ids_distinct(s),
                ids_distinct(kept@),
                forall|a: int|
                    0 <= a < kept@.len() ==> exists|k: int|
                        0 <= k < i && #[trigger] kept@[a] == #[trigger] s[k],
            decreases s.len() - i,
        {
            let p = self.pending[i];
            assert(forall|a: int| 0 <= a < kept@.len() ==> kept@[a].id@ != p.id@) by {
                assert forall|a: int| 0 <= a < kept@.len() implies kept@[a].id@ != p.id@ by {
                    let k = choose|k: int| 0 <= k < i && #[trigger] kept@[a] == #[trigger] s[k];
                    assert(s[k].id@ != s[i as int].id@);
                }
            }
            proof {
                reveal(Seq::filter);
                assert(s.subrange(0, i + 1).drop_last() =~= s.subrange(0, i as int));
            }
            if !same_bytes(&p.id, &id) {
                kept.push(p);
            }
            i = i + 1;
        }
        assert(s.subrange(0, s.len() as int) =~= s);
        self.pending = kept;
    }
}

/// Node access for both chains, and the signer on the primary chain.
pub struct Ethereum {
    read_provider: ReadEndpoint,
    secondary_read_provider: ReadEndpoint,
    write_provider: WriteEndpoint,
}

impl Ethereum {
    pub closed spec fn read_spec(&self) -> ReadEndpoint {
        self.read_provider
    }

    pub closed spec fn secondary_read_spec(&self) -> ReadEndpoint {
        self.secondary_read_provider
    }

    pub closed spec fn write_spec(&self) -> WriteEndpoint {
        self.write_provider
    }

    /// Sets up both chains' endpoints and the signer; fails when the
    /// providers or the relayer section of the configuration is absent.
    pub fn new(
        providers: Option<ProvidersConfig>,
        relayer: Option<RelayerConfig>,
        account_nonce: u64,
    ) -> (r: Result<Ethereum, ConfigSection>)
        ensures
            providers is None ==> r == Err::<Ethereum, ConfigSection>(ConfigSection::Providers),
            providers is Some && relayer is None ==> r == Err::<Ethereum, ConfigSection>(
                ConfigSection::Relayer,
            ),
            providers is Some && relayer is Some <==> r is Ok,
            r matches Ok(e) ==> {
                &&& e.read_spec().url@ == providers->0.primary_network_provider@
                &&& e.secondary_read_spec().url@ == providers->0.world_id_network_provider@
                &&& e.write_spec().address_spec() == relayer->0.signer_address
                &&& e.write_spec().pending_spec() == Seq::<PendingTransaction>::empty()
                &&& e.write_spec().next_nonce_spec() == account_nonce
            },
    {
        let providers = match providers {
            None => return Err(ConfigSection::Providers),
            Some(p) => p,
        };
        let relayer = match relayer {
            None => return Err(ConfigSection::Relayer),
            Some(r) => r,
        };
        Ok(Ethereum {
            read_provider: ReadEndpoint { url: providers.primary_network_provider },
            secondary_read_provider: ReadEndpoint { url: providers.world_id_network_provider },
            write_provider: WriteEndpoint::new(relayer.signer_address, account_nonce),
        })
    }

    /// The primary chain's read endpoint.
    pub fn provider(&self) -> (r: &ReadEndpoint)
        ensures
            *r == self.read_spec(),
    {
        &self.read_provider
    }

    /// The secondary chain's read endpoint.
    pub fn secondary_provider(&self) -> (r: &ReadEndpoint)
        ensures
            *r == self.secondary_read_spec(),
    {
        &self.secondary_read_provider
    }

    /// The signer's address.
    pub fn address(&self) -> (r: Address)
        ensures
            r == self.write_spec().address_spec(),
    {
        self.write_provider.address()
    }

    /// Decides how a submission proceeds; see [`WriteEndpoint::prepare_submit`].
    pub fn send_transaction(&self, only_once: bool) -> (r: Result<SubmitPlan, TxError>)
        ensures
            r == self.write_spec().submit_plan(only_once),
    {
        self.write_provider.prepare_submit(only_once)
    }

    /// Records a transaction broadcast with the planned nonce.
    pub fn record_sent(&mut self, id: TransactionId, nonce: u64, submitted_at: u64)
        requires
            nonce == old(self).write_spec().next_nonce_spec(),
            nonce < u64::MAX,
        ensures
            final(self).write_spec().pending_spec() == pending_after_send(
                old(self).write_spec().pending_spec(),
                PendingTransaction { id, nonce, submitted_at },
            ),
            final(self).write_spec().next_nonce_spec() == if id_pending(old(self).write_spec().pending_spec(), id) {
                nonce
            } else {
                (nonce + 1) as u64
            },
            final(self).write_spec().address_spec() == old(self).write_spec().address_spec(),
            final(self).read_spec() == old(self).read_spec(),
            final(self).secondary_read_spec() == old(self).secondary_read_spec(),
    {
        self.write_provider.record_sent(id, nonce, submitted_at);
    }

    /// Brings the signer's next nonce up to its account nonce on chain.
    pub fn reconcile_nonce(&mut self, account_nonce: u64)
        ensures
            final(self).write_spec().next_nonce_spec() == if account_nonce > old(
                self,
            ).write_spec().next_nonce_spec() {
                account_nonce
            } else {
                old(self).write_spec().next_nonce_spec()
            },
            final(self).write_spec().pending_spec() == old(self).write_spec().pending_spec(),
            final(self).write_spec().address_spec() == old(self).write_spec().address_spec(),
            final(self).read_spec() == old(self).read_spec(),
            final(self).secondary_read_spec() == old(self).secondary_read_spec(),
    {
        self.write_provider.reconcile_nonce(account_nonce);
    }

    /// The ids of all transactions in flight, oldest first.
    pub fn fetch_pending_transactions(&self) -> (r: Vec<TransactionId>)
        ensures
            r@.len() == self.write_spec().pending_spec().len(),
            forall|i: int|
                0 <= i < r@.len() ==> r@[i] == #[trigger] self.write_spec().pending_spec()[i].id,
            forall|i: int, j: int| 0 <= i < j < r@.len() ==> #[trigger] r@[i]@ != #[trigger] r@[j]@,
    {
        self.write_provider.fetch_pending_transactions()
    }

    /// Settles a pending transaction; see [`WriteEndpoint::mine_transaction`].
    pub fn mine_transaction(&mut self, id: TransactionId, poll: ReceiptPoll) -> (r: Result<
        bool,
        TxError,
    >)
        ensures
            final(self).read_spec() == old(self).read_spec(),
            final(self).secondary_read_spec() == old(self).secondary_read_spec(),
            final(self).write_spec().next_nonce_spec() == old(self).write_spec().next_nonce_spec(),
            match poll {
                ReceiptPoll::Included { success } => r == Ok::<bool, TxError>(success)
                    && final(self).write_spec().pending_spec() == without_id(
                    old(self).write_spec().pending_spec(),
                    id,
                ),
                ReceiptPoll::Dropped => r == Ok::<bool, TxError>(false)
                    && final(self).write_spec().pending_spec() == without_id(
                    old(self).write_spec().pending_spec(),
                    id,
                ),
                ReceiptPoll::NotYet => r == Ok::<bool, TxError>(false)
                    && final(self).write_spec().pending_spec() == old(
                    self,
                ).write_spec().pending_spec(),
                ReceiptPoll::NodeFailure => r == Err::<bool, TxError>(TxError::Mining)
                    && final(self).write_spec().pending_spec() == old(
                    self,
                ).write_spec().pending_spec(),
            },
    {
        self.write_provider.mine_transaction(id, poll)
    }
}

/// The id a submission ends up with: the one in flight when the plan reuses
/// it, otherwise the id the broadcast produced.
pub open spec fn submitted_id(plan: SubmitPlan, broadcast_id: TransactionId) -> TransactionId {
    match plan {
        SubmitPlan::Existing(id) => id,
        SubmitPlan::Fresh { .. } => broadcast_id,
    }
}

/// Two `only_once` submissions in succession, the first still pending, yield
/// the same transaction id: whatever the first returned, the second reuses it.
pub proof fn lemma_only_once_reuses_pending(
    e: WriteEndpoint,
    broadcast_id: TransactionId,
    submitted_at: u64,
    after: WriteEndpoint,
)
    requires
        e.submit_plan(true) is Ok,
        match e.submit_plan(true)->Ok_0 {
            SubmitPlan::Existing(_) => after == e,
            SubmitPlan::Fresh { nonce } => {
                &&& after.pending_spec() == pending_after_send(
                    e.pending_spec(),
                    PendingTransaction { id: broadcast_id, nonce, submitted_at },
                )
                &&& after.next_nonce_spec() == nonce + 1
            },
        },
    ensures
        after.submit_plan(true) == Ok::<SubmitPlan, TxError>(
            SubmitPlan::Existing(submitted_id(e.submit_plan(true)->Ok_0, broadcast_id)),
        ),
{
}

} // verus!
