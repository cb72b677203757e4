//! A verified core for a decentralized-exchange liquidity-pool mirror:
//! checkpoint encoding and decoding, constant-product pool arithmetic, a
//! request throttle, and the decision logic of the synchronization engine.

use vstd::prelude::*;

pub mod address;
pub mod error;
pub mod checkpoint;
pub mod dex;
pub mod json;
pub mod json_text;
pub mod pool;
pub mod sync;
pub mod throttle;
pub mod uniswap_v2;
pub mod uniswap_v3;

verus! {

/// Raises 10 to the power `n`, as a mathematical integer.
pub open spec fn pow10(n: nat) -> nat
    decreases n,
{
    if n == 0 {
        1
    } else {
        10 * pow10((n - 1) as nat)
    }
}

pub proof fn lemma_pow10_pos(n: nat)
    ensures
        pow10(n) >= 1,
    decreases n,
{
    if n > 0 {
        lemma_pow10_pos((n - 1) as nat);
    }
}

pub proof fn lemma_pow10_mono(a: nat, b: nat)
    requires
        a <= b,
    ensures
        pow10(a) <= pow10(b),
    decreases b,
{
    if a < b {
        lemma_pow10_mono(a, (b - 1) as nat);
    }
}

/// Computes a power of ten that fits the machine word.
pub fn pow10_u128(n: u8) -> (r: u128)
    requires
        pow10(n as nat) <= u128::MAX,
    ensures
        r == pow10(n as nat),
        r >= 1,
{
    let mut acc: u128 = 1;
    let mut i: u8 = 0;
    while i < n
        invariant
            i <= n,
            acc == pow10(i as nat),
            pow10(n as nat) <= u128::MAX,
        decreases n - i,
    {
        proof {
            lemma_pow10_mono((i + 1) as nat, n as nat);
            lemma_pow10_pos(i as nat);
        }
        acc = acc * 10;
        i = i + 1;
    }
    proof {
        lemma_pow10_pos(n as nat);
    }
    acc
}

} // verus!
