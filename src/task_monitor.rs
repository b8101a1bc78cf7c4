use vstd::prelude::*;

use crate::database::BridgeStatus;
use crate::types::Root;

verus! {

/// What the periodic sync check does after comparing the chains.
#[derive(Clone, Copy, Debug, PartialEq, Eq, Structural)]
pub enum SyncAction {
    /// The propagation landed: mark the store `Synced`.
    MarkSynced,
    /// Already in agreement and nothing outstanding: do nothing.
    Idle,
    /// A propagation is outstanding: wait for it.
    AwaitPropagation,
    /// The chains diverged: mark the store `Unsynced` and wake the propagator.
    MarkUnsyncedAndWake,
}

/// The decision table of the sync check.
pub open spec fn sync_action(is_synced: bool, is_pending: bool) -> SyncAction {
    if is_synced && is_pending {
        SyncAction::MarkSynced
    } else if is_synced {
        SyncAction::Idle
    } else if is_pending {
        SyncAction::AwaitPropagation
    } else {
        SyncAction::MarkUnsyncedAndWake
    }
}

/// Whether the two registries agree on the latest root.
pub fn check_synced_state(canonical_latest: &Root, rollup_latest: &Root) -> (r: bool)
    ensures
        r == (*canonical_latest == *rollup_latest),
{
    *canonical_latest == *rollup_latest
}

/// Whether a propagation is outstanding according to the store.
pub fn check_if_propagated(status: BridgeStatus) -> (r: bool)
    ensures
        r == (status == BridgeStatus::Pending),
{
    status == BridgeStatus::Pending
}

/// Whether the store says the chains are out of agreement.
pub fn check_if_unsynced(status: BridgeStatus) -> (r: bool)
    ensures
        r == (status == BridgeStatus::Unsynced),
{
    status == BridgeStatus::Unsynced
}

/// One round of the sync check: what to do given whether the chains agree
/// and whether a propagation is outstanding.
pub fn check_sync(is_synced: bool, is_pending: bool) -> (r: SyncAction)
    ensures
        r == sync_action(is_synced, is_pending),
        is_synced && is_pending ==> r == SyncAction::MarkSynced,
        is_synced && !is_pending ==> r == SyncAction::Idle,
        !is_synced && is_pending ==> r == SyncAction::AwaitPropagation,
        !is_synced && !is_pending ==> r == SyncAction::MarkUnsyncedAndWake,
{
    if is_synced && is_pending {
        SyncAction::MarkSynced
    } else if is_synced {
        SyncAction::Idle
    } else if is_pending {
        SyncAction::AwaitPropagation
    } else {
        SyncAction::MarkUnsyncedAndWake
    }
}

/// The status the store should move to after a sync check, if any.
pub open spec fn status_after_check(a: SyncAction) -> Option<BridgeStatus> {
    match a {
        SyncAction::MarkSynced => Some(BridgeStatus::Synced),
        SyncAction::MarkUnsyncedAndWake => Some(BridgeStatus::Unsynced),
        _ => None,
    }
}

impl SyncAction {
    /// The status this action writes to the store, if it writes one.
    pub fn new_status(&self) -> (r: Option<BridgeStatus>)
        ensures
            r == status_after_check(*self),
    {
        match self {
            SyncAction::MarkSynced => Some(BridgeStatus::Synced),
            SyncAction::MarkUnsyncedAndWake => Some(BridgeStatus::Unsynced),
            _ => None,
        }
    }

    /// Whether this action wakes the propagator.
    pub fn wakes_propagator(&self) -> (r: bool)
        ensures
            r == (*self == SyncAction::MarkUnsyncedAndWake),
    {
        match self {
            SyncAction::MarkUnsyncedAndWake => true,
            _ => false,
        }
    }
}

/// A single-slot, coalescing wake-up flag: raising it while it is already
/// raised changes nothing.
#[derive(Clone, Copy, Debug, PartialEq, Eq, Structural)]
pub struct WakeSignal {
    pub raised: bool,
}

/// The signal after `n` raises.
pub open spec fn raised_times(w: WakeSignal, n: nat) -> WakeSignal
    decreases n,
{
    if n == 0 {
        w
    } else {
        WakeSignal { raised: true, ..raised_times(w, (n - 1) as nat) }
    }
}

impl WakeSignal {
    pub fn new() -> (r: WakeSignal)
        ensures
            !r.raised,
    {
        WakeSignal { raised: false }
    }

    /// Raises the signal.
    pub fn notify_one(&mut self)
        ensures
            final(self).raised,
    {
        self.raised = true;
    }

    /// Consumes the signal: returns whether it was raised and lowers it.
    pub fn notified(&mut self) -> (r: bool)
        ensures
            r == old(self).raised,
            !final(self).raised,
    {
        let r = self.raised;
        self.raised = false;
        r
    }
}

/// Whether the propagator, once woken, goes on to propagate: only when the
/// store still says `Unsynced`, since the wake is a hint and not a command.
pub fn should_propagate(status: BridgeStatus) -> (r: bool)
    ensures
        r == (status == BridgeStatus::Unsynced),
{
    check_if_unsynced(status)
}

/// How many of `k` consecutive consumptions of the signal report a wake-up,
/// when nothing raises it in between.
pub open spec fn wakeups(w: WakeSignal, k: nat) -> nat
    decreases k,
{
    if k == 0 {
        0
    } else {
        (if w.raised {
            1nat
        } else {
            0nat
        }) + wakeups(WakeSignal { raised: false }, (k - 1) as nat)
    }
}

proof fn lemma_lowered_never_wakes(k: nat)
    ensures
        wakeups(WakeSignal { raised: false }, k) == 0,
    decreases k,
{
    if k > 0 {
        lemma_lowered_never_wakes((k - 1) as nat);
    }
}

/// Any number `n >= 1` of raises before the propagator consumes the signal
/// leads to exactly one wake-up, however often the propagator then waits.
pub proof fn lemma_raises_coalesce(w: WakeSignal, n: nat, k: nat)
    requires
        n >= 1,
        k >= 1,
    ensures
        raised_times(w, n).raised,
        wakeups(raised_times(w, n), k) == 1,
{
    lemma_lowered_never_wakes((k - 1) as nat);
}

/// One wake-up of the propagator: consumes the signal and decides, from
/// the status read after waking, whether to attempt a propagation.
pub fn on_wake(wake: &mut WakeSignal, status: BridgeStatus) -> (attempt: bool)
    ensures
        attempt == (old(wake).raised && status == BridgeStatus::Unsynced),
        !final(wake).raised,
{
    let woken = wake.notified();
    woken && should_propagate(status)
}

/// The status recorded once a propagation was submitted.
pub fn status_after_submission() -> (r: BridgeStatus)
    ensures
        r == BridgeStatus::Pending,
{
    BridgeStatus::Pending
}

/// How many propagations the propagator attempts over successive wake-ups
/// that read `statuses`, when nothing raises the signal in between.
pub open spec fn attempts(w: WakeSignal, statuses: Seq<BridgeStatus>) -> nat
    decreases statuses.len(),
{
    if statuses.len() == 0 {
        0
    } else {
        (if w.raised && statuses[0] == BridgeStatus::Unsynced {
            1nat
        } else {
            0nat
        }) + attempts(WakeSignal { raised: false }, statuses.drop_first())
    }
}

proof fn lemma_lowered_never_attempts(statuses: Seq<BridgeStatus>)
    ensures
        attempts(WakeSignal { raised: false }, statuses) == 0,
    decreases statuses.len(),
{
    if statuses.len() > 0 {
        lemma_lowered_never_attempts(statuses.drop_first());
    }
}

/// Any number `n >= 1` of raises while the propagator is busy lead to at
/// most one propagation attempt over all later wake-ups, and to exactly one
/// when the store says `Unsynced` at the first of them.
pub proof fn lemma_raises_give_one_attempt(w: WakeSignal, n: nat, statuses: Seq<BridgeStatus>)
    requires
        n >= 1,
        statuses.len() >= 1,
    ensures
        attempts(raised_times(w, n), statuses) <= 1,
        statuses[0] == BridgeStatus::Unsynced ==> attempts(raised_times(w, n), statuses) == 1,
{
    lemma_raises_coalesce(w, n, 1);
    lemma_lowered_never_attempts(statuses.drop_first());
}

} // verus!
