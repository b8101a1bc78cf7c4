use vstd::prelude::*;

verus! {

/// An account or contract address on either chain.
pub type Address = [u8; 20];

/// A transaction hash, used to identify a submitted transaction.
pub type TransactionId = [u8; 32];

/// A 32-byte log topic.
pub type Topic = [u8; 32];

/// A 256-bit Merkle root, held as its high and low 128-bit halves.
/// The root zero is the sentinel for "unknown / never recorded".
#[derive(Clone, Copy, Debug, PartialEq, Eq, Structural)]
pub struct Root {
    pub hi: u128,
    pub lo: u128,
}

pub open spec fn two_pow_128() -> nat {
    0x1_0000_0000_0000_0000_0000_0000_0000_0000nat
}

impl View for Root {
    type V = nat;

    open spec fn view(&self) -> nat {
        self.hi as nat * two_pow_128() + self.lo as nat
    }
}

impl Root {
    pub fn zero() -> (r: Root)
        ensures
            r@ == 0,
    {
        Root { hi: 0, lo: 0 }
    }

    pub fn from_halves(hi: u128, lo: u128) -> (r: Root)
        ensures
            r.hi == hi,
            r.lo == lo,
            r@ == hi as nat * two_pow_128() + lo as nat,
    {
        Root { hi, lo }
    }

    pub open spec fn is_zero_spec(&self) -> bool {
        self.hi == 0 && self.lo == 0
    }

    pub fn is_zero(&self) -> (r: bool)
        ensures
            r == self.is_zero_spec(),
            r == (self@ == 0),
    {
        if self.hi != 0 {
            assert(self.hi as nat * two_pow_128() >= two_pow_128()) by (nonlinear_arith)
                requires
                    self.hi as nat >= 1,
            ;
        }
        self.hi == 0 && self.lo == 0
    }
}

/// Compares two byte arrays element by element.
pub fn same_bytes<const N: usize>(a: &[u8; N], b: &[u8; N]) -> (r: bool)
    ensures
        r == (a@ == b@),
{
    let mut i: usize = 0;
    while i < N
        invariant
            a@.len() == N,
            b@.len() == N,
            0 <= i <= N,
            forall|j: int| 0 <= j < i ==> a@[j] == b@[j],
        decreases N - i,
    {
        if a[i] != b[i] {
            return false;
        }
        i = i + 1;
    }
    assert(a@ =~= b@);
    true
}

/// A log entry returned by a chain node for a block range query.
#[derive(Debug)]
pub struct LogEvent {
    pub block_number: u64,
    pub contract_address: Address,
    pub topics: Vec<Topic>,
    pub data: Vec<u8>,
}

} // verus!
