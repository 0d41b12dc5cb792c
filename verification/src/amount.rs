//! Unbounded non-negative amounts of the native currency or of a token.
//!
//! An [`Amount`] keeps a natural number as its big-endian bytes without a
//! leading zero byte, so that every number has exactly one representation
//! and zero is the empty sequence.

use crate::bytes::{copy_bytes, same_bytes};
use vstd::prelude::*;

verus! {

/// The number that `bytes` denotes when read as big-endian base-256 digits.
pub open spec fn be_value(bytes: Seq<u8>) -> nat
    decreases bytes.len(),
{
    if bytes.len() == 0 {
        0
    } else {
        be_value(bytes.drop_last()) * 256 + bytes.last() as nat
    }
}

/// The shortest big-endian representation of `n`: empty for zero, otherwise
/// starting with a non-zero byte.
pub open spec fn minimal_be_bytes(n: nat) -> Seq<u8>
    decreases n,
{
    if n == 0 {
        Seq::empty()
    } else {
        minimal_be_bytes(n / 256).push((n % 256) as u8)
    }
}

/// `bytes` has no leading zero byte.
pub open spec fn is_minimal(bytes: Seq<u8>) -> bool {
    bytes.len() == 0 || bytes[0] != 0
}

/// A leading zero byte does not change the value.
pub proof fn lemma_leading_zero(bytes: Seq<u8>)
    requires
        bytes.len() > 0,
        bytes[0] == 0,
    ensures
        be_value(bytes) == be_value(bytes.drop_first()),
    decreases bytes.len(),
{
    let rest = bytes.drop_first();
    if bytes.len() == 1 {
        assert(be_value(bytes.drop_last()) == 0);
        assert(be_value(rest) == 0);
    } else {
        lemma_leading_zero(bytes.drop_last());
        assert(rest.drop_last() =~= bytes.drop_last().drop_first());
        assert(rest.last() == bytes.last());
    }
}

/// A non-empty sequence without a leading zero denotes a positive number.
pub proof fn lemma_minimal_positive(bytes: Seq<u8>)
    requires
        is_minimal(bytes),
        bytes.len() > 0,
    ensures
        be_value(bytes) > 0,
    decreases bytes.len(),
{
    if bytes.len() > 1 {
        lemma_minimal_positive(bytes.drop_last());
    }
}

/// Two sequences without leading zeros that denote the same number are the
/// same sequence.
pub proof fn lemma_minimal_unique(a: Seq<u8>, b: Seq<u8>)
    requires
        is_minimal(a),
        is_minimal(b),
        be_value(a) == be_value(b),
    ensures
        a == b,
    decreases a.len(),
{
    if a.len() == 0 {
        if b.len() > 0 {
            lemma_minimal_positive(b);
        }
        assert(a =~= b);
    } else if b.len() == 0 {
        lemma_minimal_positive(a);
    } else {
        let (a0, b0) = (a.drop_last(), b.drop_last());
        assert(be_value(a) == be_value(a0) * 256 + a.last() as nat);
        assert(be_value(b) == be_value(b0) * 256 + b.last() as nat);
        assert(a.last() == b.last() && be_value(a0) == be_value(b0));
        lemma_minimal_unique(a0, b0);
        assert(a =~= a0.push(a.last()));
        assert(b =~= b0.push(b.last()));
    }
}

/// The shortest representation of `n` has no leading zero and denotes `n`.
pub proof fn lemma_minimal_be_bytes(n: nat)
    ensures
        is_minimal(minimal_be_bytes(n)),
        be_value(minimal_be_bytes(n)) == n,
    decreases n,
{
    if n > 0 {
        let high = minimal_be_bytes(n / 256);
        lemma_minimal_be_bytes(n / 256);
        let all = high.push((n % 256) as u8);
        assert(all.drop_last() =~= high);
        if high.len() > 0 {
            assert(all[0] == high[0]);
        }
    }
}

/// A non-negative integer of any size.
#[derive(Debug, PartialEq, Eq)]
pub struct Amount {
    digits: Vec<u8>,
}

impl View for Amount {
    type V = nat;

    closed spec fn view(&self) -> nat {
        be_value(self.digits@)
    }
}

impl Amount {
    #[verifier::type_invariant]
    spec fn minimal(&self) -> bool {
        is_minimal(self.digits@)
    }

    /// The amount zero.
    pub fn zero() -> (amount: Amount)
        ensures
            amount@ == 0,
    {
        Amount { digits: Vec::new() }
    }

    /// The amount that `bytes` denotes as a big-endian number; leading zero
    /// bytes are allowed and ignored.
    pub fn from_be_bytes(bytes: &[u8]) -> (amount: Amount)
        ensures
            amount@ == be_value(bytes@),
    {
        let mut start: usize = 0;
        assert(bytes@.subrange(0, bytes@.len() as int) =~= bytes@);
        while start < bytes.len() && bytes[start] == 0
            invariant
                start <= bytes.len(),
                be_value(bytes@.subrange(start as int, bytes@.len() as int)) == be_value(bytes@),
            decreases bytes.len() - start,
        {
            proof {
                let rest = bytes@.subrange(start as int, bytes@.len() as int);
                lemma_leading_zero(rest);
                assert(rest.drop_first() =~= bytes@.subrange(start + 1, bytes@.len() as int));
            }
            start += 1;
        }
        let mut digits: Vec<u8> = Vec::new();
        let mut i: usize = start;
        while i < bytes.len()
            invariant
                start <= i <= bytes.len(),
                digits@ == bytes@.subrange(start as int, i as int),
            decreases bytes.len() - i,
        {
            digits.push(bytes[i]);
            i += 1;
        }
        assert(digits@ =~= bytes@.subrange(start as int, bytes@.len() as int));
        Amount { digits }
    }

    /// The amount `value`.
    pub fn from_u64(value: u64) -> (amount: Amount)
        ensures
            amount@ == value,
    {
        let digits = be_digits(value);
        proof {
            lemma_minimal_be_bytes(value as nat);
        }
        Amount { digits }
    }

    /// The shortest big-endian representation: no byte at all for zero.
    pub fn to_be_bytes(&self) -> (bytes: Vec<u8>)
        ensures
            bytes@ == minimal_be_bytes(self@),
    {
        proof {
            use_type_invariant(self);
            lemma_minimal_be_bytes(self@);
            lemma_minimal_unique(self.digits@, minimal_be_bytes(self@));
        }
        copy_bytes(&self.digits)
    }

    /// Whether the amount is zero.
    pub fn is_zero(&self) -> (zero: bool)
        ensures
            zero == (self@ == 0),
    {
        proof {
            use_type_invariant(self);
            if self.digits@.len() > 0 {
                lemma_minimal_positive(self.digits@);
            }
        }
        self.digits.len() == 0
    }

    /// Whether both amounts are the same number.
    pub fn equals(&self, other: &Amount) -> (same: bool)
        ensures
            same == (self@ == other@),
    {
        proof {
            use_type_invariant(self);
            use_type_invariant(other);
            if self@ == other@ {
                lemma_minimal_unique(self.digits@, other.digits@);
            }
        }
        same_bytes(&self.digits, &other.digits)
    }
}

impl Clone for Amount {
    fn clone(&self) -> (copy: Amount)
        ensures
            copy@ == self@,
    {
        proof {
            use_type_invariant(self);
        }
        Amount { digits: copy_bytes(&self.digits) }
    }
}

/// The shortest big-endian representation of `value`.
fn be_digits(value: u64) -> (digits: Vec<u8>)
    ensures
        digits@ == minimal_be_bytes(value as nat),
    decreases value,
{
    if value == 0 {
        Vec::new()
    } else {
        let mut digits = be_digits(value / 256);
        digits.push((value % 256) as u8);
        digits
    }
}

} // verus!
