use vstd::prelude::*;

use crate::processor::{decoded_roots, extract_roots};
use crate::types::{LogEvent, Root, Topic};

verus! {

/// The 64-bit limbs (least significant first) of the first parameter of the
/// event declared by `event`, decoded from a log with `topics` and `data`;
/// `None` when the log is not that event.
pub uninterp spec fn parsed_first_word(event: Seq<char>, topics: Seq<Topic>, data: Seq<u8>) -> Option<
    [u64; 4],
>;

/// The two events the relayer tracks.
#[derive(Clone, Copy, Debug, PartialEq, Eq, Structural)]
pub enum TrackedEvent {
    /// Emitted by the state bridge when it propagates a root.
    RootPropagated,
    /// Emitted by the rollup registry when it receives a root.
    RootAdded,
}

/// The declaration of a tracked event.
pub open spec fn event_declaration(e: TrackedEvent) -> Seq<char> {
    match e {
        TrackedEvent::RootPropagated => "event RootPropagated(uint256 root)"@,
        TrackedEvent::RootAdded => "event RootAdded(uint256 root, uint128 timestamp)"@,
    }
}

impl TrackedEvent {
    /// The declaration the event is decoded against.
    pub fn declaration(&self) -> (r: &'static str)
        ensures
            r@ == event_declaration(*self),
    {
        match self {
            TrackedEvent::RootPropagated => "event RootPropagated(uint256 root)",
            TrackedEvent::RootAdded => "event RootAdded(uint256 root, uint128 timestamp)",
        }
    }
}

/// Relies on ethers' `HumanReadableParser::parse_event` to read the event
/// declaration and on ethabi's `Event::parse_log` to decode the log against
/// it; hands back the first decoded parameter as an unsigned integer's limbs.
#[verifier::external_body]
fn parse_first_word(event: &str, log: &LogEvent) -> (r: Option<[u64; 4]>)
    requires
        event@ == event_declaration(TrackedEvent::RootPropagated) || event@ == event_declaration(
            TrackedEvent::RootAdded,
        ),
    ensures
        r == parsed_first_word(event@, log.topics@, log.data@),
{
    let ev = ethers::abi::HumanReadableParser::parse_event(event).ok()?;
    let topics = log.topics.iter().map(|t| ethers::types::H256(*t)).collect();
    let raw = ethers::abi::RawLog { topics, data: log.data.clone() };
    let token = ev.parse_log(raw).ok()?.params.into_iter().next()?.value;
    Some(token.into_uint()?.0)
}

pub open spec fn two_pow_64() -> nat {
    0x1_0000_0000_0000_0000nat
}

/// The root whose 64-bit limbs, least significant first, are `w`.
pub open spec fn root_of_limbs(w: [u64; 4]) -> Root {
    Root {
        hi: (w[2] as nat + w[3] as nat * two_pow_64()) as u128,
        lo: (w[0] as nat + w[1] as nat * two_pow_64()) as u128,
    }
}

fn join_limbs(low: u64, high: u64) -> (r: u128)
    ensures
        r == low as nat + high as nat * two_pow_64(),
{
    assert(high as nat * two_pow_64() + low as nat <= u128::MAX) by (nonlinear_arith)
        requires
            high <= u64::MAX,
            low <= u64::MAX,
    ;
    (high as u128) * 0x1_0000_0000_0000_0000u128 + (low as u128)
}

/// Builds a root from its 64-bit limbs, least significant first.
pub fn root_from_limbs(w: [u64; 4]) -> (r: Root)
    ensures
        r == root_of_limbs(w),
{
    Root { hi: join_limbs(w[2], w[3]), lo: join_limbs(w[0], w[1]) }
}

/// The root a log carries as the first parameter of the declared event.
pub open spec fn log_root(event: Seq<char>, log: LogEvent) -> Option<Root> {
    match parsed_first_word(event, log.topics@, log.data@) {
        Some(w) => Some(root_of_limbs(w)),
        None => None,
    }
}

/// Decodes the root that `log` carries as the first parameter of `event`,
/// or `None` when the log is not that event.
pub fn decode_root(event: TrackedEvent, log: &LogEvent) -> (r: Option<Root>)
    ensures
        r == log_root(event_declaration(event), *log),
{
    match parse_first_word(event.declaration(), log) {
        Some(w) => Some(root_from_limbs(w)),
        None => None,
    }
}

/// The roots carried by those of `logs` that are the declared event, in order.
pub fn extract_event_roots(event: TrackedEvent, logs: &Vec<LogEvent>) -> (r: Vec<Root>)
    ensures
        r@ == decoded_roots(
            logs@.map_values(|l: LogEvent| log_root(event_declaration(event), l)),
        ),
{
    let mut decoded: Vec<Option<Root>> = Vec::new();
    let mut i: usize = 0;
    while i < logs.len()
        invariant
            0 <= i <= logs@.len(),
            decoded@ =~= logs@.subrange(0, i as int).map_values(
                |l: LogEvent| log_root(event_declaration(event), l),
            ),
        decreases logs@.len() - i,
    {
        decoded.push(decode_root(event, &logs[i]));
        i = i + 1;
    }
    assert(logs@.subrange(0, logs@.len() as int) =~= logs@);
    extract_roots(&decoded)
}

} // verus!
