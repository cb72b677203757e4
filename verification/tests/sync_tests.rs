use cfmms::address::Address;
use cfmms::error::CFMMError;
use cfmms::pool::{Pool, ReserveSnapshot};
use cfmms::sync::{aggregate_pool_results, sync_pools_with_outcomes, SyncOutcome, TaskOutcome};
use cfmms::uniswap_v2::UniswapV2Pool;
use cfmms::uniswap_v3::{Uint256, UniswapV3Pool};

fn addr(last: u8) -> Address {
    let mut bytes = vec![0u8; 20];
    bytes[19] = last;
    Address::new(bytes)
}

fn v2_pool(last: u8, r0: u128, r1: u128) -> Pool {
    Pool::UniswapV2(UniswapV2Pool::new(
        addr(last),
        addr(2),
        18,
        addr(3),
        6,
        true,
        r0,
        r1,
        300,
    ))
}

fn reserves(p: &Pool) -> (u128, u128) {
    match p {
        Pool::UniswapV2(v2) => (v2.reserve_0, v2.reserve_1),
        other => panic!("wrong variant: {:?}", other),
    }
}

#[test]
fn warm_resync_skips_failed_pool_and_keeps_going() {
    // three pools; the second one's reserve call fails: the run continues,
    // the first and third are refreshed, the second keeps its stale values,
    // and no error is returned
    let mut pools = vec![v2_pool(10, 1, 2), v2_pool(11, 7, 8), v2_pool(12, 3, 4)];
    let outcomes = vec![
        SyncOutcome::Synced(ReserveSnapshot::ConstantProduct { reserve_0: 100, reserve_1: 200 }),
        SyncOutcome::CallFailed,
        SyncOutcome::Synced(ReserveSnapshot::ConstantProduct { reserve_0: 300, reserve_1: 400 }),
    ];
    assert!(sync_pools_with_outcomes(&mut pools, &outcomes).is_ok());
    assert_eq!(pools.len(), 3);
    assert_eq!(reserves(&pools[0]), (100, 200));
    assert_eq!(reserves(&pools[1]), (7, 8));
    assert_eq!(reserves(&pools[2]), (300, 400));
}

#[test]
fn warm_resync_transport_failure_aborts() {
    let mut pools = vec![v2_pool(10, 1, 2), v2_pool(11, 7, 8), v2_pool(12, 3, 4)];
    let outcomes = vec![
        SyncOutcome::Synced(ReserveSnapshot::ConstantProduct { reserve_0: 100, reserve_1: 200 }),
        SyncOutcome::TransportFailed,
        SyncOutcome::Synced(ReserveSnapshot::ConstantProduct { reserve_0: 300, reserve_1: 400 }),
    ];
    assert_eq!(
        sync_pools_with_outcomes(&mut pools, &outcomes),
        Err(CFMMError::TransportFailure)
    );
    // the run is discarded: nothing was touched
    assert_eq!(reserves(&pools[0]), (1, 2));
    assert_eq!(reserves(&pools[1]), (7, 8));
    assert_eq!(reserves(&pools[2]), (3, 4));
}

#[test]
fn warm_resync_skips_snapshot_of_wrong_variant() {
    let mut pools = vec![v2_pool(10, 1, 2)];
    let outcomes = vec![SyncOutcome::Synced(ReserveSnapshot::ConcentratedLiquidity {
        sqrt_price: Uint256 { high: 0, low: 99 },
        liquidity: 5,
        tick: 1,
    })];
    assert!(sync_pools_with_outcomes(&mut pools, &outcomes).is_ok());
    assert_eq!(reserves(&pools[0]), (1, 2));
}

#[test]
fn warm_resync_refreshes_concentrated_pool() {
    let mut pools = vec![Pool::UniswapV3(UniswapV3Pool::new(
        addr(20),
        addr(2),
        18,
        addr(3),
        6,
        500,
        0,
        Uint256 { high: 0, low: 0 },
        0,
        60,
    ))];
    let outcomes = vec![SyncOutcome::Synced(ReserveSnapshot::ConcentratedLiquidity {
        sqrt_price: Uint256 { high: 1, low: 2 },
        liquidity: 777,
        tick: -3,
    })];
    assert!(sync_pools_with_outcomes(&mut pools, &outcomes).is_ok());
    match &pools[0] {
        Pool::UniswapV3(p) => {
            assert_eq!(p.sqrt_price, Uint256 { high: 1, low: 2 });
            assert_eq!(p.liquidity, 777);
            assert_eq!(p.tick, -3);
            assert_eq!(p.tick_spacing, 60); // identity untouched
        }
        other => panic!("wrong variant: {:?}", other),
    }
}

#[test]
fn discovery_pages_tile_the_block_range() {
    let pages = cfmms::dex::discovery_pages(100, 120_000);
    assert_eq!(pages.first().unwrap().0, 100);
    assert_eq!(pages.last().unwrap().1, 120_000);
    for w in pages.windows(2) {
        assert_eq!(w[0].1 + 1, w[1].0);
    }
    for (s, e) in &pages {
        assert!(s <= e && e - s < 50_000);
    }
    assert_eq!(pages.len(), 3);
    assert!(cfmms::dex::discovery_pages(10, 9).is_empty());
    assert_eq!(cfmms::dex::discovery_pages(7, 7), vec![(7, 7)]);
}

#[test]
fn cold_generation_aborts_on_first_task_error() {
    // one of the parallel dex tasks fails with a transport error: the whole
    // generation returns that error and no pool list (the caller then writes
    // no checkpoint)
    let results = vec![
        TaskOutcome::Completed(vec![v2_pool(10, 1, 2)]),
        TaskOutcome::Failed(CFMMError::TransportFailure),
        TaskOutcome::Completed(vec![v2_pool(11, 3, 4)]),
    ];
    assert_eq!(aggregate_pool_results(results), Err(CFMMError::TransportFailure));
}

#[test]
fn cold_generation_reports_the_first_error() {
    let results = vec![
        TaskOutcome::Failed(CFMMError::CallFailure),
        TaskOutcome::Failed(CFMMError::TransportFailure),
    ];
    assert_eq!(aggregate_pool_results(results), Err(CFMMError::CallFailure));
}

#[test]
fn cold_generation_concatenates_in_task_order() {
    let results = vec![
        TaskOutcome::Completed(vec![v2_pool(10, 0, 0), v2_pool(11, 0, 0)]),
        TaskOutcome::Completed(vec![]),
        TaskOutcome::Completed(vec![v2_pool(12, 0, 0)]),
    ];
    let pools = aggregate_pool_results(results).unwrap();
    let last_bytes: Vec<u8> = pools
        .iter()
        .map(|p| match p {
            Pool::UniswapV2(v2) => v2.address.bytes[19],
            Pool::UniswapV3(v3) => v3.address.bytes[19],
        })
        .collect();
    assert_eq!(last_bytes, vec![10, 11, 12]);
}
