use vstd::prelude::*;
use vstd::string::StrSliceExecFns;

verus! {

/// The persisted synchronization status.
#[derive(Clone, Copy, Debug, PartialEq, Eq, Structural)]
pub enum BridgeStatus {
    Unsynced,
    Pending,
    Synced,
}

/// The text under which a status is stored.
pub open spec fn status_text(s: BridgeStatus) -> Seq<char> {
    match s {
        BridgeStatus::Unsynced => "unsynced"@,
        BridgeStatus::Pending => "pending"@,
        BridgeStatus::Synced => "synced"@,
    }
}

/// Compares two strings character by character.
pub fn same_text(a: &str, b: &str) -> (r: bool)
    ensures
        r == (a@ == b@),
{
    let n = a.unicode_len();
    if n != b.unicode_len() {
        return false;
    }
    let mut i: usize = 0;
    while i < n
        invariant
            n == a@.len(),
            n == b@.len(),
            0 <= i <= n,
            forall|j: int| 0 <= j < i ==> a@[j] == b@[j],
        decreases n - i,
    {
        if a.get_char(i) != b.get_char(i) {
            return false;
        }
        i = i + 1;
    }
    assert(a@ =~= b@);
    true
}

impl BridgeStatus {
    /// The stored text of the status.
    pub fn as_str(&self) -> (r: &'static str)
        ensures
            r@ == status_text(*self),
    {
        match self {
            BridgeStatus::Unsynced => "unsynced",
            BridgeStatus::Pending => "pending",
            BridgeStatus::Synced => "synced",
        }
    }

    /// Reads a status from its stored text.
    pub fn parse(s: &str) -> (r: Option<BridgeStatus>)
        ensures
            forall|b: BridgeStatus| r == Some(b) <==> s@ == #[trigger] status_text(b),
            r is None <==> forall|b: BridgeStatus| s@ != #[trigger] status_text(b),
    {
        proof {
            reveal_strlit("unsynced");
            reveal_strlit("pending");
            reveal_strlit("synced");
            assert(status_text(BridgeStatus::Unsynced).len() == 8);
            assert(status_text(BridgeStatus::Pending).len() == 7);
            assert(status_text(BridgeStatus::Synced).len() == 6);
        }
        if same_text(s, "unsynced") {
            Some(BridgeStatus::Unsynced)
        } else if same_text(s, "pending") {
            Some(BridgeStatus::Pending)
        } else if same_text(s, "synced") {
            Some(BridgeStatus::Synced)
        } else {
            None
        }
    }

    /// Whether moving to this status stamps the last-synced time.
    pub fn stamps_last_synced(&self) -> (r: bool)
        ensures
            r == (*self == BridgeStatus::Synced),
    {
        match self {
            BridgeStatus::Synced => true,
            _ => false,
        }
    }
}

/// The singleton status record: the status and, once synced, when that
/// last happened (seconds since the Unix epoch).
#[derive(Clone, Copy, Debug, PartialEq, Eq, Structural)]
pub struct ServerStatus {
    pub status: BridgeStatus,
    pub last_synced: Option<i64>,
}

/// The record after a transition to `to` at time `now`.
pub open spec fn transitioned(s: ServerStatus, to: BridgeStatus, now: i64) -> ServerStatus {
    ServerStatus {
        status: to,
        last_synced: if to == BridgeStatus::Synced {
            Some(now)
        } else {
            s.last_synced
        },
    }
}

impl ServerStatus {
    /// The record as first created.
    pub open spec fn fresh() -> ServerStatus {
        ServerStatus { status: BridgeStatus::Unsynced, last_synced: None }
    }

    /// The record after initialization: an existing record is kept as it is,
    /// otherwise a fresh unsynced one without a timestamp is created.
    pub fn initialize_server(existing: Option<ServerStatus>) -> (r: ServerStatus)
        ensures
            r == initialized(existing),
            existing matches Some(s) ==> r == s,
            existing is None ==> r == ServerStatus::fresh(),
    {
        match existing {
            Some(s) => s,
            None => ServerStatus { status: BridgeStatus::Unsynced, last_synced: None },
        }
    }

    /// The row initialization has to insert: none when one is stored
    /// already, else the fresh record.
    pub fn row_to_create(existing: Option<ServerStatus>) -> (r: Option<ServerStatus>)
        ensures
            existing is Some ==> r is None,
            existing is None ==> r == Some(ServerStatus::fresh()),
            r matches Some(s) ==> s == initialized(existing),
    {
        match existing {
            Some(_) => None,
            None => Some(Self::initialize_server(None)),
        }
    }

    /// Moves to `status`; only a move to `Synced` stamps `last_synced`.
    pub fn update_server_status(&mut self, status: BridgeStatus, now: i64)
        ensures
            *final(self) == transitioned(*old(self), status, now),
    {
        self.status = status;
        if status.stamps_last_synced() {
            self.last_synced = Some(now);
        }
    }
}

/// The record that initialization leaves, given the one already stored.
pub open spec fn initialized(existing: Option<ServerStatus>) -> ServerStatus {
    match existing {
        Some(s) => s,
        None => ServerStatus::fresh(),
    }
}

/// Initializing twice changes nothing: the second initialization keeps the
/// record that the first produced.
pub proof fn lemma_initialize_idempotent(existing: Option<ServerStatus>)
    ensures
        initialized(Some(initialized(existing))) == initialized(existing),
{
}

/// Transitions other than to `Synced` never touch the timestamp, so the time
/// of the last sync survives any number of later moves to `Pending` or
/// `Unsynced`.
pub proof fn lemma_timestamp_kept(s: ServerStatus, t: i64, to: BridgeStatus, later: i64)
    requires
        to != BridgeStatus::Synced,
    ensures
        transitioned(transitioned(s, BridgeStatus::Synced, t), to, later).last_synced == Some(t),
        transitioned(s, to, later).last_synced == s.last_synced,
{
}

} // verus!
