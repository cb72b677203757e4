use cfmms::address::{address_to_text, parse_address, Address};
use cfmms::error::CFMMError;
use cfmms::uniswap_v2::{Price, UniswapV2Pool};

fn addr(last: u8) -> Address {
    let mut bytes = vec![0u8; 20];
    bytes[19] = last;
    Address::new(bytes)
}

fn price_to_f64(p: &Price) -> f64 {
    let quote = p.quote_reserve as f64 / 10f64.powi(p.quote_decimals as i32);
    let base = p.base_reserve as f64 / 10f64.powi(p.base_decimals as i32);
    quote / base
}

fn example_pool() -> UniswapV2Pool {
    // reserve_0 = 1000 units of an 18-decimals token,
    // reserve_1 = 2000 units of a 6-decimals token, token0 == token_a
    UniswapV2Pool::new(
        addr(1),
        addr(2),
        18,
        addr(3),
        6,
        true,
        1_000_000_000_000_000_000_000u128,
        2_000_000_000u128,
        300,
    )
}

#[test]
fn price_example_two_quote_per_base() {
    let pool = example_pool();
    let p = pool.calculate_price(&addr(2)).unwrap();
    let v = price_to_f64(&p);
    assert!((v - 2.0).abs() < 1e-12, "price was {}", v);
}

#[test]
fn price_symmetry_is_exact_reciprocal() {
    let pool = example_pool();
    let pa = pool.calculate_price(&addr(2)).unwrap();
    let pb = pool.calculate_price(&addr(3)).unwrap();
    // the exact ratio of one is the flipped ratio of the other
    assert_eq!(pa.quote_reserve, pb.base_reserve);
    assert_eq!(pa.quote_decimals, pb.base_decimals);
    assert_eq!(pa.base_reserve, pb.quote_reserve);
    assert_eq!(pa.base_decimals, pb.quote_decimals);
    let va = price_to_f64(&pa);
    let vb = price_to_f64(&pb);
    assert!((va * vb - 1.0).abs() < 1e-12);
}

#[test]
fn price_orientation_flag_is_honored() {
    // same reserves, but token0 is token_b: the price flips
    let pool = UniswapV2Pool::new(
        addr(1),
        addr(2),
        18,
        addr(3),
        6,
        false,
        2_000_000_000u128,
        1_000_000_000_000_000_000_000u128,
        300,
    );
    let p = pool.calculate_price(&addr(2)).unwrap();
    let v = price_to_f64(&p);
    assert!((v - 2.0).abs() < 1e-12, "price was {}", v);
}

#[test]
fn price_rejects_foreign_token() {
    let pool = example_pool();
    match pool.calculate_price(&addr(9)) {
        Err(CFMMError::DomainInvariantFailure(a)) => assert_eq!(a, addr(9)),
        other => panic!("expected a domain error, got {:?}", other),
    }
}

#[test]
fn swap_zero_input_gives_zero_output() {
    let pool = UniswapV2Pool::new(addr(1), addr(2), 0, addr(3), 0, true, 1000, 1000, 300);
    assert_eq!(pool.simulate_swap(&addr(2), 0).unwrap(), 0);
    assert_eq!(pool.simulate_swap(&addr(3), 0).unwrap(), 0);
}

#[test]
fn swap_exact_value_small_pool() {
    // x*y=k with the 0.3% fee: in = 1000, fee-adjusted 997,
    // out = 1000 * 997 / (1000 + 997) = 499 (floored)
    let pool = UniswapV2Pool::new(addr(1), addr(2), 0, addr(3), 0, true, 1000, 1000, 300);
    assert_eq!(pool.simulate_swap(&addr(2), 1000).unwrap(), 499);
}

#[test]
fn swap_is_monotone_in_input() {
    let pool = UniswapV2Pool::new(addr(1), addr(2), 0, addr(3), 0, true, 100_000, 50_000, 300);
    let mut last = 0u128;
    for x in [0u128, 1, 2, 10, 100, 1000, 10_000, 100_000] {
        let out = pool.simulate_swap(&addr(2), x).unwrap();
        assert!(out >= last, "output fell from {} to {} at input {}", last, out, x);
        last = out;
    }
}

#[test]
fn swap_rescales_across_decimals() {
    // 6- and 3-decimals tokens: the invariant is computed on a common base
    // and the result comes back in the output token's own decimals
    let pool = UniswapV2Pool::new(
        addr(1),
        addr(2),
        6,
        addr(3),
        3,
        true,
        1_000_000_000u128, // 1000 units at 6 decimals
        1_000_000u128,     // 1000 units at 3 decimals
        300,
    );
    // swap 1 unit of token_a: out = 10^9 * 997000 / (10^9 + 997000) floored
    // on the common 6-decimal base is 996006, which is 996 thousandths
    // in the output token's own 3 decimals
    let out = pool.simulate_swap(&addr(2), 1_000_000).unwrap();
    assert_eq!(out, 996);
}

#[test]
fn swap_rejects_foreign_token() {
    let pool = example_pool();
    match pool.simulate_swap(&addr(9), 1) {
        Err(CFMMError::DomainInvariantFailure(a)) => assert_eq!(a, addr(9)),
        other => panic!("expected a domain error, got {:?}", other),
    }
}

#[test]
fn address_text_round_trip() {
    let a = Address::new((0u8..20u8).map(|i| i * 13).collect());
    let text = address_to_text(&a);
    assert_eq!(text.len(), 42);
    assert_eq!(&text[0..2], &b"0x"[..]);
    let back = parse_address(&text).unwrap();
    assert_eq!(back, a);
}

#[test]
fn address_parse_accepts_either_case() {
    let lower = b"0x00000000000000000000000000000000000000ff".to_vec();
    let upper = b"0x00000000000000000000000000000000000000FF".to_vec();
    let a = parse_address(&lower).unwrap();
    let b = parse_address(&upper).unwrap();
    assert_eq!(a, b);
    assert_eq!(a.bytes[19], 0xff);
}

#[test]
fn address_parse_rejects_malformed_text() {
    assert!(parse_address(&b"".to_vec()).is_none());
    assert!(parse_address(&b"0x1234".to_vec()).is_none());
    assert!(parse_address(&b"1200000000000000000000000000000000000000ff".to_vec()).is_none());
    assert!(parse_address(&b"0x00000000000000000000000000000000000000zz".to_vec()).is_none());
}
