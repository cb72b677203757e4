use vstd::prelude::*;
use crate::address::Address;

verus! {

/// A 256-bit unsigned quantity held as two machine words; wide enough for a
/// Q64.96 square-root price.
#[derive(Debug, Clone, Copy, PartialEq, Eq, Structural)]
pub struct Uint256 {
    pub high: u128,
    pub low: u128,
}

impl Uint256 {
    pub open spec fn as_int(&self) -> int {
        self.high * 0x100000000000000000000000000000000 + self.low
    }

    pub fn zero() -> (r: Uint256)
        ensures
            r.high == 0 && r.low == 0,
    {
        Uint256 { high: 0, low: 0 }
    }
}

/// One concentrated-liquidity pool: identity fields plus the slot state a
/// sync refreshes. `sqrt_price` and `liquidity` are zero only before the
/// first sync. Tick-crossing simulation is out of this core's scope; the
/// fields here are what a checkpoint and a resync need.
#[derive(Debug, Clone, PartialEq, Eq)]
pub struct UniswapV3Pool {
    pub address: Address,
    pub token_a: Address,
    pub token_a_decimals: u8,
    pub token_b: Address,
    pub token_b_decimals: u8,
    pub fee: u32,
    pub liquidity: u128,
    pub sqrt_price: Uint256,
    pub tick: i32,
    pub tick_spacing: u32,
}

impl UniswapV3Pool {
    pub open spec fn wf(&self) -> bool {
        self.address.wf() && self.token_a.wf() && self.token_b.wf()
    }

    #[allow(clippy::too_many_arguments)]
    pub fn new(
        address: Address,
        token_a: Address,
        token_a_decimals: u8,
        token_b: Address,
        token_b_decimals: u8,
        fee: u32,
        liquidity: u128,
        sqrt_price: Uint256,
        tick: i32,
        tick_spacing: u32,
    ) -> (r: UniswapV3Pool)
        ensures
            r == (UniswapV3Pool {
                address,
                token_a,
                token_a_decimals,
                token_b,
                token_b_decimals,
                fee,
                liquidity,
                sqrt_price,
                tick,
                tick_spacing,
            }),
    {
        UniswapV3Pool {
            address,
            token_a,
            token_a_decimals,
            token_b,
            token_b_decimals,
            fee,
            liquidity,
            sqrt_price,
            tick,
            tick_spacing,
        }
    }

    /// Overwrites the slot state a resync refreshes; identity fields are
    /// untouched.
    pub fn set_slot_state(&mut self, sqrt_price: Uint256, liquidity: u128, tick: i32)
        ensures
            *final(self) == (UniswapV3Pool { sqrt_price, liquidity, tick, ..*old(self) }),
    {
        self.sqrt_price = sqrt_price;
        self.liquidity = liquidity;
        self.tick = tick;
    }
}

} // verus!
