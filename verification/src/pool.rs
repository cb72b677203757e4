use vstd::prelude::*;
use crate::address::Address;
use crate::dex::DexVariant;
use crate::uniswap_v2::UniswapV2Pool;
use crate::uniswap_v3::{Uint256, UniswapV3Pool};

verus! {

/// A pool of either supported variant: a closed sum, so that every
/// variant-specific behavior is checked for exhaustiveness.
#[derive(Debug, Clone, PartialEq, Eq)]
pub enum Pool {
    UniswapV2(UniswapV2Pool),
    UniswapV3(UniswapV3Pool),
}

/// The dynamic state one reserve refresh hands a pool: what the chain
/// returned for the pool's variant.
#[derive(Debug, Clone, Copy, PartialEq, Eq, Structural)]
pub enum ReserveSnapshot {
    ConstantProduct { reserve_0: u128, reserve_1: u128 },
    ConcentratedLiquidity { sqrt_price: Uint256, liquidity: u128, tick: i32 },
}

impl Pool {
    pub open spec fn wf(&self) -> bool {
        match self {
            Pool::UniswapV2(p) => p.wf(),
            Pool::UniswapV3(p) => p.wf(),
        }
    }

    pub open spec fn variant(&self) -> DexVariant {
        match self {
            Pool::UniswapV2(_) => DexVariant::UniswapV2,
            Pool::UniswapV3(_) => DexVariant::UniswapV3,
        }
    }

    pub open spec fn addr(&self) -> Address {
        match self {
            Pool::UniswapV2(p) => p.address,
            Pool::UniswapV3(p) => p.address,
        }
    }

    pub open spec fn tok_a(&self) -> Address {
        match self {
            Pool::UniswapV2(p) => p.token_a,
            Pool::UniswapV3(p) => p.token_a,
        }
    }

    pub open spec fn tok_a_dec(&self) -> u8 {
        match self {
            Pool::UniswapV2(p) => p.token_a_decimals,
            Pool::UniswapV3(p) => p.token_a_decimals,
        }
    }

    pub open spec fn tok_b(&self) -> Address {
        match self {
            Pool::UniswapV2(p) => p.token_b,
            Pool::UniswapV3(p) => p.token_b,
        }
    }

    pub open spec fn tok_b_dec(&self) -> u8 {
        match self {
            Pool::UniswapV2(p) => p.token_b_decimals,
            Pool::UniswapV3(p) => p.token_b_decimals,
        }
    }

    pub open spec fn pool_fee(&self) -> u32 {
        match self {
            Pool::UniswapV2(p) => p.fee,
            Pool::UniswapV3(p) => p.fee,
        }
    }

    pub fn address(&self) -> (r: &Address)
        ensures
            *r == self.addr(),
    {
        match self {
            Pool::UniswapV2(p) => &p.address,
            Pool::UniswapV3(p) => &p.address,
        }
    }

    /// The pool after a refresh hands it `s`, or `None` when the snapshot is
    /// for the other variant (a malformed reply).
    pub open spec fn with_snapshot(self, s: ReserveSnapshot) -> Option<Pool> {
        match self {
            Pool::UniswapV2(p) => match s {
                ReserveSnapshot::ConstantProduct { reserve_0, reserve_1 } => Some(
                    Pool::UniswapV2(UniswapV2Pool { reserve_0, reserve_1, ..p }),
                ),
                _ => None,
            },
            Pool::UniswapV3(p) => match s {
                ReserveSnapshot::ConcentratedLiquidity { sqrt_price, liquidity, tick } => Some(
                    Pool::UniswapV3(UniswapV3Pool { sqrt_price, liquidity, tick, ..p }),
                ),
                _ => None,
            },
        }
    }

    /// Overwrites the dynamic fields with the snapshot a refresh returned.
    /// Reports `false`, changing nothing, when the snapshot belongs to the
    /// other variant.
    pub fn apply_snapshot(&mut self, s: &ReserveSnapshot) -> (r: bool)
        ensures
            r ==> Some(*final(self)) == old(self).with_snapshot(*s),
            !r ==> *final(self) == *old(self),
            r <==> old(self).with_snapshot(*s) is Some,
    {
        match self {
            Pool::UniswapV2(p) => match s {
                ReserveSnapshot::ConstantProduct { reserve_0, reserve_1 } => {
                    p.set_reserves(*reserve_0, *reserve_1);
                    true
                },
                _ => false,
            },
            Pool::UniswapV3(p) => match s {
                ReserveSnapshot::ConcentratedLiquidity { sqrt_price, liquidity, tick } => {
                    p.set_slot_state(*sqrt_price, *liquidity, *tick);
                    true
                },
                _ => false,
            },
        }
    }
}

} // verus!
