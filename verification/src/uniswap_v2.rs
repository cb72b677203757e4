use vstd::prelude::*;
use vstd::arithmetic::div_mod::{
    lemma_div_is_ordered,
    lemma_div_multiples_vanish,
    lemma_div_of0,
    lemma_fundamental_div_mod,
};
use vstd::arithmetic::mul::lemma_mul_inequality;
use crate::address::Address;
use crate::error::CFMMError;
use crate::{pow10, pow10_u128};

verus! {

/// One constant-product pool: identity fields, the orientation flag, and the
/// two live reserves. `a_to_b` records whether the on-chain `token0` equals
/// `token_a`; factories do not guarantee ordering.
#[derive(Debug, Clone, PartialEq, Eq)]
pub struct UniswapV2Pool {
    pub address: Address,
    pub token_a: Address,
    pub token_a_decimals: u8,
    pub token_b: Address,
    pub token_b_decimals: u8,
    pub a_to_b: bool,
    pub reserve_0: u128,
    pub reserve_1: u128,
    pub fee: u32,
}

/// An exact quote-per-base price: the ratio of the two reserves, each
/// normalized by its token's decimal count. The ratio itself is
/// `num() / den()`; no rounding is performed here.
#[derive(Debug, Clone, Copy, PartialEq, Eq, Structural)]
pub struct Price {
    pub quote_reserve: u128,
    pub quote_decimals: u8,
    pub base_reserve: u128,
    pub base_decimals: u8,
}

impl Price {
    /// Exact numerator of the quote-per-base ratio.
    pub open spec fn num(&self) -> int {
        self.quote_reserve * pow10(self.base_decimals as nat)
    }

    /// Exact denominator of the quote-per-base ratio.
    pub open spec fn den(&self) -> int {
        self.base_reserve * pow10(self.quote_decimals as nat)
    }
}

/// The price of one unit of `base` in the other token's units, or `None`
/// when `base` is neither of the pool's tokens.
pub open spec fn spec_price(p: UniswapV2Pool, base: Seq<u8>) -> Option<Price> {
    if base == p.token_a@ {
        Some(
            Price {
                quote_reserve: p.reserve_of_b(),
                quote_decimals: p.token_b_decimals,
                base_reserve: p.reserve_of_a(),
                base_decimals: p.token_a_decimals,
            },
        )
    } else if base == p.token_b@ {
        Some(
            Price {
                quote_reserve: p.reserve_of_a(),
                quote_decimals: p.token_a_decimals,
                base_reserve: p.reserve_of_b(),
                base_decimals: p.token_b_decimals,
            },
        )
    } else {
        None
    }
}

impl UniswapV2Pool {
    pub open spec fn wf(&self) -> bool {
        self.address.wf() && self.token_a.wf() && self.token_b.wf()
    }

    /// The live reserve of `token_a`, honoring the orientation flag.
    pub open spec fn reserve_of_a(&self) -> u128 {
        if self.a_to_b {
            self.reserve_0
        } else {
            self.reserve_1
        }
    }

    /// The live reserve of `token_b`, honoring the orientation flag.
    pub open spec fn reserve_of_b(&self) -> u128 {
        if self.a_to_b {
            self.reserve_1
        } else {
            self.reserve_0
        }
    }

    #[allow(clippy::too_many_arguments)]
    pub fn new(
        address: Address,
        token_a: Address,
        token_a_decimals: u8,
        token_b: Address,
        token_b_decimals: u8,
        a_to_b: bool,
        reserve_0: u128,
        reserve_1: u128,
        fee: u32,
    ) -> (r: UniswapV2Pool)
        ensures
            r == (UniswapV2Pool {
                address,
                token_a,
                token_a_decimals,
                token_b,
                token_b_decimals,
                a_to_b,
                reserve_0,
                reserve_1,
                fee,
            }),
    {
        UniswapV2Pool {
            address,
            token_a,
            token_a_decimals,
            token_b,
            token_b_decimals,
            a_to_b,
            reserve_0,
            reserve_1,
            fee,
        }
    }

    pub fn address(&self) -> (r: &Address)
        ensures
            r == self.address,
    {
        &self.address
    }

    /// Overwrites the two live reserves; the only mutation a resync performs
    /// on an already-constructed pool.
    pub fn set_reserves(&mut self, reserve_0: u128, reserve_1: u128)
        ensures
            *final(self) == (UniswapV2Pool { reserve_0, reserve_1, ..*old(self) }),
    {
        self.reserve_0 = reserve_0;
        self.reserve_1 = reserve_1;
    }

    /// Fills the identity fields fetched when a discovered pool is first
    /// populated; the reserves are left as they are.
    pub fn set_pool_data(
        &mut self,
        token_a: Address,
        token_a_decimals: u8,
        token_b: Address,
        token_b_decimals: u8,
        a_to_b: bool,
    )
        ensures
            *final(self) == (UniswapV2Pool {
                token_a,
                token_a_decimals,
                token_b,
                token_b_decimals,
                a_to_b,
                ..*old(self)
            }),
    {
        self.token_a = token_a;
        self.token_a_decimals = token_a_decimals;
        self.token_b = token_b;
        self.token_b_decimals = token_b_decimals;
        self.a_to_b = a_to_b;
    }

    /// The current price of one unit of `base_token`, as an exact ratio of
    /// decimal-normalized reserves; rejects a token the pool does not hold.
    pub fn calculate_price(&self, base_token: &Address) -> (r: Result<Price, CFMMError>)
        ensures
            r is Ok <==> spec_price(*self, base_token@) is Some,
            r is Ok ==> r->Ok_0 == spec_price(*self, base_token@)->0,
            r is Err ==> (match r->Err_0 {
                CFMMError::DomainInvariantFailure(a) => a@ == base_token@,
                _ => false,
            }),
    {
        if base_token.same(&self.token_a) {
            Ok(
                Price {
                    quote_reserve: if self.a_to_b {
                        self.reserve_1
                    } else {
                        self.reserve_0
                    },
                    quote_decimals: self.token_b_decimals,
                    base_reserve: if self.a_to_b {
                        self.reserve_0
                    } else {
                        self.reserve_1
                    },
                    base_decimals: self.token_a_decimals,
                },
            )
        } else if base_token.same(&self.token_b) {
            Ok(
                Price {
                    quote_reserve: if self.a_to_b {
                        self.reserve_0
                    } else {
                        self.reserve_1
                    },
                    quote_decimals: self.token_a_decimals,
                    base_reserve: if self.a_to_b {
                        self.reserve_1
                    } else {
                        self.reserve_0
                    },
                    base_decimals: self.token_b_decimals,
                },
            )
        } else {
            Err(CFMMError::DomainInvariantFailure(base_token.duplicate()))
        }
    }
}

/// The common decimal base both reserves are rescaled to before the
/// constant-product rule is applied: the larger of the two decimal counts.
pub open spec fn common_decimals(p: UniswapV2Pool) -> nat {
    if p.token_a_decimals > p.token_b_decimals {
        p.token_a_decimals as nat
    } else {
        p.token_b_decimals as nat
    }
}

/// The swap output in common-decimal units, with the 0.3% protocol fee taken
/// from the input first, rounding down at each division as the executable
/// arithmetic does. A pool drained to zero gives zero.
pub open spec fn swap_out_spec(reserve_in: int, reserve_out: int, amount_in: int) -> int {
    let fee_adjusted = amount_in * 997 / 1000;
    if reserve_in + fee_adjusted <= 0 {
        0
    } else {
        reserve_out * fee_adjusted / (reserve_in + fee_adjusted)
    }
}

/// The amount of the other token a swap of `amount_in` units of `token_in`
/// returns, in the output token's own decimals; `None` when `token_in` is
/// neither of the pool's tokens.
pub open spec fn spec_swap(p: UniswapV2Pool, token_in: Seq<u8>, amount_in: u128) -> Option<int> {
    let cd = common_decimals(p);
    if token_in == p.token_a@ {
        let up_in = pow10((cd - p.token_a_decimals) as nat);
        let up_out = pow10((cd - p.token_b_decimals) as nat);
        Some(
            swap_out_spec(
                p.reserve_of_a() * up_in,
                p.reserve_of_b() * up_out,
                amount_in * up_in,
            ) / up_out as int,
        )
    } else if token_in == p.token_b@ {
        let up_in = pow10((cd - p.token_b_decimals) as nat);
        let up_out = pow10((cd - p.token_a_decimals) as nat);
        Some(
            swap_out_spec(
                p.reserve_of_b() * up_in,
                p.reserve_of_a() * up_out,
                amount_in * up_in,
            ) / up_out as int,
        )
    } else {
        None
    }
}

/// The machine-word bounds one direction of a swap needs: every intermediate
/// product of the executable arithmetic fits a `u128`.
pub open spec fn swap_fits_dir(
    reserve_in: u128,
    dec_in: nat,
    reserve_out: u128,
    dec_out: nat,
    cd: nat,
    amount_in: u128,
) -> bool {
    let up_in = pow10((cd - dec_in) as nat);
    let up_out = pow10((cd - dec_out) as nat);
    &&& up_in <= u128::MAX
    &&& up_out <= u128::MAX
    &&& reserve_in * up_in <= u128::MAX
    &&& reserve_out * up_out <= u128::MAX
    &&& amount_in * up_in * 997 <= u128::MAX
    &&& reserve_in * up_in + amount_in * up_in * 997 / 1000 <= u128::MAX
    &&& reserve_out * up_out * (amount_in * up_in * 997 / 1000) <= u128::MAX
}

/// The machine-word bounds `simulate_swap` needs for the direction `token_in`
/// selects; trivially true for a token the pool does not hold, where no
/// arithmetic is performed.
pub open spec fn swap_fits(p: UniswapV2Pool, token_in: Seq<u8>, amount_in: u128) -> bool {
    let cd = common_decimals(p);
    if token_in == p.token_a@ {
        swap_fits_dir(
            p.reserve_of_a(),
            p.token_a_decimals as nat,
            p.reserve_of_b(),
            p.token_b_decimals as nat,
            cd,
            amount_in,
        )
    } else if token_in == p.token_b@ {
        swap_fits_dir(
            p.reserve_of_b(),
            p.token_b_decimals as nat,
            p.reserve_of_a(),
            p.token_a_decimals as nat,
            cd,
            amount_in,
        )
    } else {
        true
    }
}

impl UniswapV2Pool {
    /// Simulates swapping `amount_in` units of `token_in` against the pool:
    /// the 0.3% fee is taken from the input, the constant-product rule is
    /// applied over reserves rescaled to a common decimal base, and the
    /// output is returned in the output token's own decimals. Pure: the pool
    /// is not touched.
    pub fn simulate_swap(&self, token_in: &Address, amount_in: u128) -> (r: Result<
        u128,
        CFMMError,
    >)
        requires
            swap_fits(*self, token_in@, amount_in),
        ensures
            r is Ok <==> spec_swap(*self, token_in@, amount_in) is Some,
            r is Ok ==> r->Ok_0 == spec_swap(*self, token_in@, amount_in)->0,
            r is Err ==> (match r->Err_0 {
                CFMMError::DomainInvariantFailure(a) => a@ == token_in@,
                _ => false,
            }),
    {
        let da = self.token_a_decimals;
        let db = self.token_b_decimals;
        let cd = if da > db {
            da
        } else {
            db
        };
        let a_in = token_in.same(&self.token_a);
        let b_in = token_in.same(&self.token_b);
        if !a_in && !b_in {
            return Err(CFMMError::DomainInvariantFailure(token_in.duplicate()));
        }
        let (reserve_in, dec_in, reserve_out, dec_out) = if a_in {
            (
                if self.a_to_b {
                    self.reserve_0
                } else {
                    self.reserve_1
                },
                da,
                if self.a_to_b {
                    self.reserve_1
                } else {
                    self.reserve_0
                },
                db,
            )
        } else {
            (
                if self.a_to_b {
                    self.reserve_1
                } else {
                    self.reserve_0
                },
                db,
                if self.a_to_b {
                    self.reserve_0
                } else {
                    self.reserve_1
                },
                da,
            )
        };
        let up_in = pow10_u128(cd - dec_in);
        let up_out = pow10_u128(cd - dec_out);
        proof {
            assert(amount_in * up_in >= 0 && amount_in * up_in * 997 >= amount_in * up_in)
                by (nonlinear_arith)
                requires
                    amount_in >= 0,
                    up_in >= 0,
            ;
        }
        let reserve_in_c = reserve_in * up_in;
        let reserve_out_c = reserve_out * up_out;
        let amount_in_c = amount_in * up_in;
        let fee_adjusted = amount_in_c * 997 / 1000;
        let denom = reserve_in_c + fee_adjusted;
        let out_c = if denom == 0 {
            0
        } else {
            reserve_out_c * fee_adjusted / denom
        };
        Ok(out_c / up_out)
    }
}

/// In common-decimal units, a swap of zero input gives zero output.
proof fn lemma_swap_out_zero(reserve_in: int, reserve_out: int)
    requires
        reserve_in >= 0,
        reserve_out >= 0,
    ensures
        swap_out_spec(reserve_in, reserve_out, 0) == 0,
{
    lemma_div_of0(1000);
    if reserve_in > 0 {
        lemma_div_of0(reserve_in);
    }
}

/// A swap of zero input returns zero output, in either direction.
pub proof fn lemma_swap_zero_input(p: UniswapV2Pool, token_in: Seq<u8>)
    requires
        spec_swap(p, token_in, 0) is Some,
    ensures
        spec_swap(p, token_in, 0)->0 == 0,
{
    let cd = common_decimals(p);
    let up_a = pow10((cd - p.token_a_decimals) as nat);
    let up_b = pow10((cd - p.token_b_decimals) as nat);
    crate::lemma_pow10_pos((cd - p.token_a_decimals) as nat);
    crate::lemma_pow10_pos((cd - p.token_b_decimals) as nat);
    assert(p.reserve_of_a() * up_a >= 0) by (nonlinear_arith)
        requires
            p.reserve_of_a() >= 0,
            up_a >= 0,
    ;
    assert(p.reserve_of_b() * up_b >= 0) by (nonlinear_arith)
        requires
            p.reserve_of_b() >= 0,
            up_b >= 0,
    ;
    if token_in == p.token_a@ {
        lemma_swap_out_zero(p.reserve_of_a() * up_a, p.reserve_of_b() * up_b);
        lemma_div_of0(up_b as int);
    } else {
        lemma_swap_out_zero(p.reserve_of_b() * up_b, p.reserve_of_a() * up_a);
        lemma_div_of0(up_a as int);
    }
}

/// If the exact ratio `a/b` is at most `c/d`, the floored quotients are
/// ordered the same way.
proof fn lemma_div_cross_ordered(a: int, b: int, c: int, d: int)
    requires
        0 <= a,
        0 < b,
        0 <= c,
        0 < d,
        a * d <= c * b,
    ensures
        a / b <= c / d,
{
    let q = a / b;
    lemma_fundamental_div_mod(a, b);
    assert(q * b <= a);
    assert(q * d <= c) by (nonlinear_arith)
        requires
            q * b <= a,
            a * d <= c * b,
            0 < b,
            0 < d,
    ;
    lemma_div_is_ordered(q * d, c, d);
    lemma_div_multiples_vanish(q, d);
}

/// In common-decimal units, the swap output never decreases when the input
/// grows (the executable, floor-rounded arithmetic is monotone).
pub proof fn lemma_swap_out_monotone(reserve_in: int, reserve_out: int, x1: int, x2: int)
    requires
        reserve_in >= 0,
        reserve_out >= 0,
        0 <= x1 <= x2,
    ensures
        swap_out_spec(reserve_in, reserve_out, x1) <= swap_out_spec(reserve_in, reserve_out, x2),
{
    let f1 = x1 * 997 / 1000;
    let f2 = x2 * 997 / 1000;
    lemma_mul_inequality(x1, x2, 997);
    lemma_div_is_ordered(x1 * 997, x2 * 997, 1000);
    assert(f1 >= 0) by {
        lemma_div_is_ordered(0, x1 * 997, 1000);
    }
    if reserve_in + f1 <= 0 {
        assert(swap_out_spec(reserve_in, reserve_out, x1) == 0);
        if reserve_in + f2 > 0 {
            assert(reserve_out * f2 >= 0) by (nonlinear_arith)
                requires
                    reserve_out >= 0,
                    f2 >= 0,
            ;
            lemma_div_is_ordered(0, reserve_out * f2, reserve_in + f2);
        }
    } else {
        assert(reserve_out * f1 * (reserve_in + f2) <= reserve_out * f2 * (reserve_in + f1))
            by (nonlinear_arith)
            requires
                reserve_out >= 0,
                reserve_in >= 0,
                0 <= f1 <= f2,
        ;
        assert(reserve_out * f1 >= 0) by (nonlinear_arith)
            requires
                reserve_out >= 0,
                f1 >= 0,
        ;
        assert(reserve_out * f2 >= 0) by (nonlinear_arith)
            requires
                reserve_out >= 0,
                f2 >= 0,
        ;
        lemma_div_cross_ordered(
            reserve_out * f1,
            reserve_in + f1,
            reserve_out * f2,
            reserve_in + f2,
        );
    }
}

/// Monotonicity lifted to a whole pool: for a fixed pool state and token
/// direction, a larger input never yields a smaller output.
pub proof fn lemma_simulate_swap_monotone(
    p: UniswapV2Pool,
    token_in: Seq<u8>,
    x1: u128,
    x2: u128,
)
    requires
        spec_swap(p, token_in, x1) is Some,
        x1 <= x2,
    ensures
        spec_swap(p, token_in, x1)->0 <= spec_swap(p, token_in, x2)->0,
{
    let cd = common_decimals(p);
    let da = p.token_a_decimals;
    let db = p.token_b_decimals;
    if token_in == p.token_a@ {
        let up_in = pow10((cd - da) as nat);
        let up_out = pow10((cd - db) as nat);
        crate::lemma_pow10_pos((cd - da) as nat);
        crate::lemma_pow10_pos((cd - db) as nat);
        lemma_mul_inequality(x1 as int, x2 as int, up_in as int);
        lemma_swap_out_monotone(
            p.reserve_of_a() * up_in,
            p.reserve_of_b() * up_out,
            x1 * up_in,
            x2 * up_in,
        );
        lemma_div_is_ordered(
            swap_out_spec(p.reserve_of_a() * up_in, p.reserve_of_b() * up_out, x1 * up_in),
            swap_out_spec(p.reserve_of_a() * up_in, p.reserve_of_b() * up_out, x2 * up_in),
            up_out as int,
        );
    } else {
        let up_in = pow10((cd - db) as nat);
        let up_out = pow10((cd - da) as nat);
        crate::lemma_pow10_pos((cd - db) as nat);
        crate::lemma_pow10_pos((cd - da) as nat);
        lemma_mul_inequality(x1 as int, x2 as int, up_in as int);
        lemma_swap_out_monotone(
            p.reserve_of_b() * up_in,
            p.reserve_of_a() * up_out,
            x1 * up_in,
            x2 * up_in,
        );
        lemma_div_is_ordered(
            swap_out_spec(p.reserve_of_b() * up_in, p.reserve_of_a() * up_out, x1 * up_in),
            swap_out_spec(p.reserve_of_b() * up_in, p.reserve_of_a() * up_out, x2 * up_in),
            up_out as int,
        );
    }
}

/// Over the exact (unrounded) constant-product ratio, the output is
/// *strictly* increasing in the input: for `0 <= x1 < x2` and positive
/// reserves, the exact output `reserve_out * 997 * x / (1000 * reserve_in +
/// 997 * x)` grows, stated here cross-multiplied to stay in integers. The
/// executable arithmetic floors each division, so it is monotone but may
/// repeat a value on adjacent inputs.
pub proof fn lemma_swap_strictly_increasing_exact(
    reserve_in: int,
    reserve_out: int,
    x1: int,
    x2: int,
)
    requires
        reserve_in > 0,
        reserve_out > 0,
        0 <= x1 < x2,
    ensures
        reserve_out * (997 * x1) * (1000 * reserve_in + 997 * x2) < reserve_out * (997 * x2) * (
        1000 * reserve_in + 997 * x1),
{
    assert(reserve_out * (997 * x2) * (1000 * reserve_in + 997 * x1) - reserve_out * (997 * x1) * (
    1000 * reserve_in + 997 * x2) == reserve_out * 997 * 1000 * reserve_in * (x2 - x1))
        by (nonlinear_arith);
    assert(reserve_out * 997 * 1000 * reserve_in * (x2 - x1) > 0) by (nonlinear_arith)
        requires
            reserve_in > 0,
            reserve_out > 0,
            x2 - x1 > 0,
    ;
}

/// Price symmetry: on a pool whose two tokens differ, the price of `token_a`
/// is exactly the reciprocal of the price of `token_b` — the numerator of
/// one is the denominator of the other, so the product of the two exact
/// ratios is one.
pub proof fn lemma_price_symmetry(p: UniswapV2Pool)
    requires
        p.token_a@ != p.token_b@,
    ensures
        spec_price(p, p.token_a@) is Some,
        spec_price(p, p.token_b@) is Some,
        spec_price(p, p.token_a@)->0.num() == spec_price(p, p.token_b@)->0.den(),
        spec_price(p, p.token_a@)->0.den() == spec_price(p, p.token_b@)->0.num(),
        spec_price(p, p.token_a@)->0.num() * spec_price(p, p.token_b@)->0.num() == spec_price(
            p,
            p.token_a@,
        )->0.den() * spec_price(p, p.token_b@)->0.den(),
{
}

/// With both reserves nonzero, both sides of the price ratio are positive,
/// so the ratio and its reciprocal are well defined.
pub proof fn lemma_price_positive(p: UniswapV2Pool, base: Seq<u8>)
    requires
        spec_price(p, base) is Some,
        p.reserve_0 > 0,
        p.reserve_1 > 0,
    ensures
        spec_price(p, base)->0.num() > 0,
        spec_price(p, base)->0.den() > 0,
{
    let pr = spec_price(p, base)->0;
    crate::lemma_pow10_pos(pr.base_decimals as nat);
    crate::lemma_pow10_pos(pr.quote_decimals as nat);
    assert(pr.quote_reserve * pow10(pr.base_decimals as nat) > 0) by (nonlinear_arith)
        requires
            pr.quote_reserve > 0,
            pow10(pr.base_decimals as nat) >= 1,
    ;
    assert(pr.base_reserve * pow10(pr.quote_decimals as nat) > 0) by (nonlinear_arith)
        requires
            pr.base_reserve > 0,
            pow10(pr.quote_decimals as nat) >= 1,
    ;
}

} // verus!
