use cfmms::address::Address;
use cfmms::checkpoint::{construct_checkpoint, deconstruct_checkpoint};
use cfmms::dex::{Dex, DexVariant};
use cfmms::error::{CFMMError, CodecFault};
use cfmms::json::JsonValue;
use cfmms::json_text::{checkpoint_from_str, checkpoint_to_string};
use cfmms::pool::Pool;
use cfmms::uniswap_v2::UniswapV2Pool;
use cfmms::uniswap_v3::{Uint256, UniswapV3Pool};

fn addr(last: u8) -> Address {
    let mut bytes = vec![0u8; 20];
    bytes[19] = last;
    Address::new(bytes)
}

fn sample_dexes() -> Vec<Dex> {
    vec![
        Dex::new(addr(0xaa), DexVariant::UniswapV2, 17),
        Dex::new(addr(0xbb), DexVariant::UniswapV3, 29),
    ]
}

fn sample_pools() -> Vec<Pool> {
    vec![
        Pool::UniswapV2(UniswapV2Pool::new(
            addr(1),
            addr(2),
            18,
            addr(3),
            6,
            true,
            123_456,
            789_000,
            300,
        )),
        Pool::UniswapV3(UniswapV3Pool::new(
            addr(4),
            addr(5),
            8,
            addr(6),
            12,
            500,
            42,
            Uint256 { high: 1, low: 2 },
            -7,
            60,
        )),
    ]
}

fn check_decoded(dexes: &[Dex], pools: &[Pool]) {
    assert_eq!(dexes.len(), 2);
    assert_eq!(dexes[0].factory_address, addr(0xaa));
    assert_eq!(dexes[0].dex_variant, DexVariant::UniswapV2);
    assert_eq!(dexes[1].factory_address, addr(0xbb));
    assert_eq!(dexes[1].dex_variant, DexVariant::UniswapV3);
    // every dex's cursor is the single run-end block, not its own
    assert_eq!(dexes[0].latest_synced_block, 555);
    assert_eq!(dexes[1].latest_synced_block, 555);

    assert_eq!(pools.len(), 2);
    match &pools[0] {
        Pool::UniswapV2(p) => {
            assert_eq!(p.address, addr(1));
            assert_eq!(p.token_a, addr(2));
            assert_eq!(p.token_a_decimals, 18);
            assert_eq!(p.token_b, addr(3));
            assert_eq!(p.token_b_decimals, 6);
            assert_eq!(p.fee, 300);
            // dynamic fields reset, never preserved
            assert_eq!(p.reserve_0, 0);
            assert_eq!(p.reserve_1, 0);
            assert!(!p.a_to_b);
        }
        other => panic!("wrong variant: {:?}", other),
    }
    match &pools[1] {
        Pool::UniswapV3(p) => {
            assert_eq!(p.address, addr(4));
            assert_eq!(p.token_a, addr(5));
            assert_eq!(p.token_a_decimals, 8);
            assert_eq!(p.token_b, addr(6));
            assert_eq!(p.token_b_decimals, 12);
            assert_eq!(p.fee, 500);
            assert_eq!(p.liquidity, 0);
            assert_eq!(p.sqrt_price, Uint256 { high: 0, low: 0 });
            assert_eq!(p.tick, 0);
            assert_eq!(p.tick_spacing, 0);
        }
        other => panic!("wrong variant: {:?}", other),
    }
}

#[test]
fn checkpoint_round_trip_document() {
    let doc = construct_checkpoint(&sample_dexes(), &sample_pools(), 555, 1_700_000_000);
    let (dexes, pools) = deconstruct_checkpoint(&doc).unwrap();
    check_decoded(&dexes, &pools);
}

#[test]
fn checkpoint_round_trip_through_text() {
    let text = checkpoint_to_string(&sample_dexes(), &sample_pools(), 555, 1_700_000_000);
    // the rendered text carries the canonical spellings
    assert!(text.contains("\"checkpoint_timestamp\""));
    assert!(text.contains("\"UniswapV2\""));
    assert!(text.contains("\"UniswapV3\""));
    assert!(text.contains("0x00000000000000000000000000000000000000aa"));
    let (dexes, pools) = checkpoint_from_str(&text).unwrap();
    check_decoded(&dexes, &pools);
}

fn obj(entries: Vec<(&str, JsonValue)>) -> JsonValue {
    JsonValue::Object(
        entries
            .into_iter()
            .map(|(k, v)| (k.as_bytes().to_vec(), v))
            .collect(),
    )
}

fn text(s: &str) -> JsonValue {
    JsonValue::Text(s.as_bytes().to_vec())
}

fn dex_record(variant: &str, factory: &str, block: u64) -> JsonValue {
    obj(vec![
        ("dex_variant", text(variant)),
        ("factory_address", text(factory)),
        ("latest_synced_block", JsonValue::UInt(block)),
    ])
}

const FACTORY: &str = "0x00000000000000000000000000000000000000aa";

#[test]
fn decode_rejects_missing_factory_address() {
    let doc = obj(vec![
        (
            "dexes",
            JsonValue::Array(vec![obj(vec![
                ("dex_variant", text("UniswapV2")),
                ("latest_synced_block", JsonValue::UInt(1)),
            ])]),
        ),
        ("pools", JsonValue::Array(vec![])),
    ]);
    match deconstruct_checkpoint(&doc) {
        Err(CFMMError::CodecFailure(CodecFault::MissingField)) => {}
        other => panic!("expected a missing-field failure, got {:?}", other),
    }
}

#[test]
fn decode_rejects_unknown_variant() {
    let doc = obj(vec![
        (
            "dexes",
            JsonValue::Array(vec![dex_record("sushiswap", FACTORY, 1)]),
        ),
        ("pools", JsonValue::Array(vec![])),
    ]);
    match deconstruct_checkpoint(&doc) {
        Err(CFMMError::CodecFailure(CodecFault::UnknownVariant)) => {}
        other => panic!("expected an unknown-variant failure, got {:?}", other),
    }
}

#[test]
fn decode_yields_no_partial_state() {
    // the first dex is fine; the second is malformed; nothing comes back
    let doc = obj(vec![
        (
            "dexes",
            JsonValue::Array(vec![
                dex_record("UniswapV2", FACTORY, 1),
                dex_record("sushiswap", FACTORY, 1),
            ]),
        ),
        ("pools", JsonValue::Array(vec![])),
    ]);
    assert!(deconstruct_checkpoint(&doc).is_err());
}

#[test]
fn decode_accepts_tags_case_insensitively() {
    let doc = obj(vec![
        (
            "dexes",
            JsonValue::Array(vec![
                dex_record("uniswapv2", FACTORY, 1),
                dex_record("UNISWAPV3", FACTORY, 2),
            ]),
        ),
        ("pools", JsonValue::Array(vec![])),
    ]);
    let (dexes, _) = deconstruct_checkpoint(&doc).unwrap();
    assert_eq!(dexes[0].dex_variant, DexVariant::UniswapV2);
    assert_eq!(dexes[1].dex_variant, DexVariant::UniswapV3);
}

#[test]
fn decode_rejects_bad_address_text() {
    let doc = obj(vec![
        (
            "dexes",
            JsonValue::Array(vec![dex_record("UniswapV2", "0x1234", 1)]),
        ),
        ("pools", JsonValue::Array(vec![])),
    ]);
    match deconstruct_checkpoint(&doc) {
        Err(CFMMError::CodecFailure(CodecFault::BadAddress)) => {}
        other => panic!("expected a bad-address failure, got {:?}", other),
    }
}

#[test]
fn decode_rejects_wrong_field_type() {
    let doc = obj(vec![
        (
            "dexes",
            JsonValue::Array(vec![obj(vec![
                ("dex_variant", JsonValue::UInt(2)),
                ("factory_address", text(FACTORY)),
                ("latest_synced_block", JsonValue::UInt(1)),
            ])]),
        ),
        ("pools", JsonValue::Array(vec![])),
    ]);
    match deconstruct_checkpoint(&doc) {
        Err(CFMMError::CodecFailure(CodecFault::WrongFieldType)) => {}
        other => panic!("expected a wrong-type failure, got {:?}", other),
    }
}

#[test]
fn decode_rejects_non_object_document() {
    match deconstruct_checkpoint(&JsonValue::Array(vec![])) {
        Err(CFMMError::CodecFailure(CodecFault::NotAnObject)) => {}
        other => panic!("expected a not-an-object failure, got {:?}", other),
    }
}

#[test]
fn text_decode_of_handwritten_checkpoint() {
    let text = r#"{
        "checkpoint_timestamp": 1700000000,
        "dexes": [
            { "dex_variant": "UniswapV2",
              "factory_address": "0x00000000000000000000000000000000000000AA",
              "latest_synced_block": 99 }
        ],
        "pools": [
            { "dex_variant": "uniswapv2",
              "address": "0x0000000000000000000000000000000000000001",
              "token_a": "0x0000000000000000000000000000000000000002",
              "token_a_decimals": 18,
              "token_b": "0x0000000000000000000000000000000000000003",
              "token_b_decimals": 6,
              "fee": 300 }
        ]
    }"#;
    let (dexes, pools) = checkpoint_from_str(text).unwrap();
    assert_eq!(dexes.len(), 1);
    assert_eq!(dexes[0].factory_address, addr(0xaa));
    assert_eq!(dexes[0].latest_synced_block, 99);
    assert_eq!(pools.len(), 1);
    match &pools[0] {
        Pool::UniswapV2(p) => {
            assert_eq!(p.address, addr(1));
            assert_eq!(p.token_a_decimals, 18);
            assert_eq!(p.reserve_0, 0);
        }
        other => panic!("wrong variant: {:?}", other),
    }
}

#[test]
fn text_decode_rejects_non_json() {
    match checkpoint_from_str("this is not json at all") {
        Err(CFMMError::CodecFailure(CodecFault::Malformed)) => {}
        other => panic!("expected a malformed failure, got {:?}", other),
    }
}

#[test]
fn text_decode_rejects_sushiswap_tag() {
    let text = r#"{
        "dexes": [
            { "dex_variant": "sushiswap",
              "factory_address": "0x00000000000000000000000000000000000000aa",
              "latest_synced_block": 99 }
        ],
        "pools": []
    }"#;
    match checkpoint_from_str(text) {
        Err(CFMMError::CodecFailure(CodecFault::UnknownVariant)) => {}
        other => panic!("expected an unknown-variant failure, got {:?}", other),
    }
}

#[test]
fn dex_cursor_never_goes_backwards() {
    let mut dex = Dex::new(addr(0xaa), DexVariant::UniswapV2, 100);
    dex.record_synced_block(50);
    assert_eq!(dex.latest_synced_block, 100);
    dex.record_synced_block(150);
    assert_eq!(dex.latest_synced_block, 150);
}

#[test]
fn decode_keeps_low_bits_of_oversized_decimals() {
    let doc = obj(vec![
        ("dexes", JsonValue::Array(vec![])),
        (
            "pools",
            JsonValue::Array(vec![obj(vec![
                ("dex_variant", text("UniswapV2")),
                ("address", text("0x0000000000000000000000000000000000000001")),
                ("token_a", text("0x0000000000000000000000000000000000000002")),
                ("token_a_decimals", JsonValue::UInt(300)),
                ("token_b", text("0x0000000000000000000000000000000000000003")),
                ("token_b_decimals", JsonValue::UInt(6)),
                ("fee", JsonValue::UInt(300)),
            ])]),
        ),
    ]);
    let (_, pools) = deconstruct_checkpoint(&doc).unwrap();
    match &pools[0] {
        Pool::UniswapV2(p) => assert_eq!(p.token_a_decimals, 44), // 300 mod 256
        other => panic!("wrong variant: {:?}", other),
    }
}
