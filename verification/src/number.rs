//! Unsigned integers written as big-endian bytes.

use vstd::prelude::*;
use vstd::arithmetic::power2::lemma2_to64;
use vstd::arithmetic::power2::lemma_pow2_pos;
use vstd::arithmetic::power2::lemma_pow2_unfold;
use vstd::arithmetic::power2::pow2;

verus! {

/// The unsigned integer that `bytes` spell, most significant byte first.
pub open spec fn be_value(bytes: Seq<u8>) -> nat
    decreases bytes.len(),
{
    if bytes.len() == 0 {
        0
    } else {
        be_value(bytes.drop_last()) * 256 + bytes.last() as nat
    }
}

/// The number of binary digits of `n`; zero has none.
pub open spec fn bit_len(n: nat) -> nat
    decreases n,
{
    if n == 0 {
        0
    } else {
        1 + bit_len(n / 2)
    }
}

/// The number of bytes needed to write `n`.
pub open spec fn byte_len(n: nat) -> nat {
    (bit_len(n) + 7) / 8
}

/// Leading zero bytes do not change the value.
pub proof fn lemma_be_value_leading_zero(bytes: Seq<u8>)
    ensures
        be_value(seq![0u8] + bytes) == be_value(bytes),
    decreases bytes.len(),
{
    if bytes.len() == 0 {
        assert((seq![0u8] + bytes).drop_last() =~= Seq::<u8>::empty());
        assert(be_value(Seq::<u8>::empty()) == 0);
    } else {
        assert((seq![0u8] + bytes).drop_last() =~= seq![0u8] + bytes.drop_last());
        lemma_be_value_leading_zero(bytes.drop_last());
    }
}

/// A number has at most `k` binary digits exactly where it is below 2^k.
pub proof fn lemma_bit_len_bound(n: nat, k: nat)
    ensures
        bit_len(n) <= k <==> n < pow2(k),
    decreases k,
{
    lemma_pow2_pos(k);
    if k == 0 {
        lemma2_to64();
    } else if n > 0 {
        lemma_pow2_unfold(k);
        lemma_bit_len_bound(n / 2, (k - 1) as nat);
    }
}

} // verus!
