use vstd::prelude::*;
use crate::address::{addr_text, addr_text_wf, address_to_text, parse_address, parsed_addr, Address};
use crate::dex::{canonical_tag, parse_variant, tag_variant, variant_tag, Dex, DexVariant};
use crate::error::{CFMMError, CodecFault};
use crate::json::{lookup, lookup_spec, JsonValue};
use crate::pool::Pool;
use crate::uniswap_v2::UniswapV2Pool;
use crate::uniswap_v3::{Uint256, UniswapV3Pool};

verus! {

// The checkpoint document's field names, as byte sequences. Each spec
// function gives the name; the matching executable function builds it.
/// `checkpoint_timestamp`
pub open spec fn k_timestamp() -> Seq<u8> {
    seq![
        99u8,
        104u8,
        101u8,
        99u8,
        107u8,
        112u8,
        111u8,
        105u8,
        110u8,
        116u8,
        95u8,
        116u8,
        105u8,
        109u8,
        101u8,
        115u8,
        116u8,
        97u8,
        109u8,
        112u8,
    ]
}

/// `dexes`
pub open spec fn k_dexes() -> Seq<u8> {
    seq![100u8, 101u8, 120u8, 101u8, 115u8]
}

/// `pools`
pub open spec fn k_pools() -> Seq<u8> {
    seq![112u8, 111u8, 111u8, 108u8, 115u8]
}

/// `dex_variant`
pub open spec fn k_dex_variant() -> Seq<u8> {
    seq![100u8, 101u8, 120u8, 95u8, 118u8, 97u8, 114u8, 105u8, 97u8, 110u8, 116u8]
}

/// `factory_address`
pub open spec fn k_factory_address() -> Seq<u8> {
    seq![
        102u8,
        97u8,
        99u8,
        116u8,
        111u8,
        114u8,
        121u8,
        95u8,
        97u8,
        100u8,
        100u8,
        114u8,
        101u8,
        115u8,
        115u8,
    ]
}

/// `latest_synced_block`
pub open spec fn k_latest_synced_block() -> Seq<u8> {
    seq![
        108u8,
        97u8,
        116u8,
        101u8,
        115u8,
        116u8,
        95u8,
        115u8,
        121u8,
        110u8,
        99u8,
        101u8,
        100u8,
        95u8,
        98u8,
        108u8,
        111u8,
        99u8,
        107u8,
    ]
}

/// `address`
pub open spec fn k_address() -> Seq<u8> {
    seq![97u8, 100u8, 100u8, 114u8, 101u8, 115u8, 115u8]
}

/// `token_a`
pub open spec fn k_token_a() -> Seq<u8> {
    seq![116u8, 111u8, 107u8, 101u8, 110u8, 95u8, 97u8]
}

/// `token_a_decimals`
pub open spec fn k_token_a_decimals() -> Seq<u8> {
    seq![
        116u8,
        111u8,
        107u8,
        101u8,
        110u8,
        95u8,
        97u8,
        95u8,
        100u8,
        101u8,
        99u8,
        105u8,
        109u8,
        97u8,
        108u8,
        115u8,
    ]
}

/// `token_b`
pub open spec fn k_token_b() -> Seq<u8> {
    seq![116u8, 111u8, 107u8, 101u8, 110u8, 95u8, 98u8]
}

/// `token_b_decimals`
pub open spec fn k_token_b_decimals() -> Seq<u8> {
    seq![
        116u8,
        111u8,
        107u8,
        101u8,
        110u8,
        95u8,
        98u8,
        95u8,
        100u8,
        101u8,
        99u8,
        105u8,
        109u8,
        97u8,
        108u8,
        115u8,
    ]
}

/// `fee`
pub open spec fn k_fee() -> Seq<u8> {
    seq![102u8, 101u8, 101u8]
}

pub fn key_timestamp() -> (r: Vec<u8>)
    ensures
        r@ == k_timestamp(),
{
    let v: Vec<u8> = vec![
        99u8, 104u8, 101u8, 99u8, 107u8, 112u8, 111u8, 105u8, 110u8, 116u8, 95u8, 116u8, 105u8,
        109u8, 101u8, 115u8, 116u8, 97u8, 109u8, 112u8,
    ];
    proof {
        assert(v@ =~= k_timestamp());
    }
    v
}

pub fn key_dexes() -> (r: Vec<u8>)
    ensures
        r@ == k_dexes(),
{
    let v: Vec<u8> = vec![100u8, 101u8, 120u8, 101u8, 115u8];
    proof {
        assert(v@ =~= k_dexes());
    }
    v
}

pub fn key_pools() -> (r: Vec<u8>)
    ensures
        r@ == k_pools(),
{
    let v: Vec<u8> = vec![112u8, 111u8, 111u8, 108u8, 115u8];
    proof {
        assert(v@ =~= k_pools());
    }
    v
}

pub fn key_dex_variant() -> (r: Vec<u8>)
    ensures
        r@ == k_dex_variant(),
{
    let v: Vec<u8> = vec![100u8, 101u8, 120u8, 95u8, 118u8, 97u8, 114u8, 105u8, 97u8, 110u8, 116u8];
    proof {
        assert(v@ =~= k_dex_variant());
    }
    v
}

pub fn key_factory_address() -> (r: Vec<u8>)
    ensures
        r@ == k_factory_address(),
{
    let v: Vec<u8> = vec![
        102u8, 97u8, 99u8, 116u8, 111u8, 114u8, 121u8, 95u8, 97u8, 100u8, 100u8, 114u8, 101u8,
        115u8, 115u8,
    ];
    proof {
        assert(v@ =~= k_factory_address());
    }
    v
}

pub fn key_latest_synced_block() -> (r: Vec<u8>)
    ensures
        r@ == k_latest_synced_block(),
{
    let v: Vec<u8> = vec![
        108u8, 97u8, 116u8, 101u8, 115u8, 116u8, 95u8, 115u8, 121u8, 110u8, 99u8, 101u8, 100u8,
        95u8, 98u8, 108u8, 111u8, 99u8, 107u8,
    ];
    proof {
        assert(v@ =~= k_latest_synced_block());
    }
    v
}

pub fn key_address() -> (r: Vec<u8>)
    ensures
        r@ == k_address(),
{
    let v: Vec<u8> = vec![97u8, 100u8, 100u8, 114u8, 101u8, 115u8, 115u8];
    proof {
        assert(v@ =~= k_address());
    }
    v
}

pub fn key_token_a() -> (r: Vec<u8>)
    ensures
        r@ == k_token_a(),
{
    let v: Vec<u8> = vec![116u8, 111u8, 107u8, 101u8, 110u8, 95u8, 97u8];
    proof {
        assert(v@ =~= k_token_a());
    }
    v
}

pub fn key_token_a_decimals() -> (r: Vec<u8>)
    ensures
        r@ == k_token_a_decimals(),
{
    let v: Vec<u8> = vec![
        116u8, 111u8, 107u8, 101u8, 110u8, 95u8, 97u8, 95u8, 100u8, 101u8, 99u8, 105u8, 109u8,
        97u8, 108u8, 115u8,
    ];
    proof {
        assert(v@ =~= k_token_a_decimals());
    }
    v
}

pub fn key_token_b() -> (r: Vec<u8>)
    ensures
        r@ == k_token_b(),
{
    let v: Vec<u8> = vec![116u8, 111u8, 107u8, 101u8, 110u8, 95u8, 98u8];
    proof {
        assert(v@ =~= k_token_b());
    }
    v
}

pub fn key_token_b_decimals() -> (r: Vec<u8>)
    ensures
        r@ == k_token_b_decimals(),
{
    let v: Vec<u8> = vec![
        116u8, 111u8, 107u8, 101u8, 110u8, 95u8, 98u8, 95u8, 100u8, 101u8, 99u8, 105u8, 109u8,
        97u8, 108u8, 115u8,
    ];
    proof {
        assert(v@ =~= k_token_b_decimals());
    }
    v
}

pub fn key_fee() -> (r: Vec<u8>)
    ensures
        r@ == k_fee(),
{
    let v: Vec<u8> = vec![102u8, 101u8, 101u8];
    proof {
        assert(v@ =~= k_fee());
    }
    v
}

// Destructuring helpers over the document model.
/// The entries of `j` when `j` is an object.
pub open spec fn obj_entries(j: JsonValue) -> Option<Seq<(Vec<u8>, JsonValue)>> {
    match j {
        JsonValue::Object(e) => Some(e@),
        _ => None,
    }
}

/// The text under `key`, when present and a string.
pub open spec fn field_text(e: Seq<(Vec<u8>, JsonValue)>, key: Seq<u8>) -> Option<Seq<u8>> {
    match lookup_spec(e, key) {
        Some(JsonValue::Text(t)) => Some(t@),
        _ => None,
    }
}

/// The integer under `key`, when present and a number.
pub open spec fn field_uint(e: Seq<(Vec<u8>, JsonValue)>, key: Seq<u8>) -> Option<u64> {
    match lookup_spec(e, key) {
        Some(JsonValue::UInt(n)) => Some(n),
        _ => None,
    }
}

/// The elements under `key`, when present and an array.
pub open spec fn field_array(e: Seq<(Vec<u8>, JsonValue)>, key: Seq<u8>) -> Option<
    Seq<JsonValue>,
> {
    match lookup_spec(e, key) {
        Some(JsonValue::Array(a)) => Some(a@),
        _ => None,
    }
}

// What a well-formed record is, and what it denotes.
/// A dex record carries a recognized variant tag, a well-formed factory
/// address, and a resume cursor.
pub open spec fn dex_record_wf(j: JsonValue) -> bool {
    &&& obj_entries(j) is Some
    &&& field_text(obj_entries(j)->0, k_dex_variant()) is Some
    &&& tag_variant(field_text(obj_entries(j)->0, k_dex_variant())->0) is Some
    &&& field_text(obj_entries(j)->0, k_factory_address()) is Some
    &&& addr_text_wf(field_text(obj_entries(j)->0, k_factory_address())->0)
    &&& field_uint(obj_entries(j)->0, k_latest_synced_block()) is Some
}

pub open spec fn dex_record_variant(j: JsonValue) -> DexVariant {
    tag_variant(field_text(obj_entries(j)->0, k_dex_variant())->0)->0
}

pub open spec fn dex_record_factory(j: JsonValue) -> Seq<u8> {
    parsed_addr(field_text(obj_entries(j)->0, k_factory_address())->0)
}

pub open spec fn dex_record_block(j: JsonValue) -> u64 {
    field_uint(obj_entries(j)->0, k_latest_synced_block())->0
}

/// A pool record carries a recognized variant tag, three well-formed
/// addresses, two decimal counts, and a fee.
pub open spec fn pool_record_wf(j: JsonValue) -> bool {
    &&& obj_entries(j) is Some
    &&& field_text(obj_entries(j)->0, k_dex_variant()) is Some
    &&& tag_variant(field_text(obj_entries(j)->0, k_dex_variant())->0) is Some
    &&& field_text(obj_entries(j)->0, k_address()) is Some
    &&& addr_text_wf(field_text(obj_entries(j)->0, k_address())->0)
    &&& field_text(obj_entries(j)->0, k_token_a()) is Some
    &&& addr_text_wf(field_text(obj_entries(j)->0, k_token_a())->0)
    &&& field_uint(obj_entries(j)->0, k_token_a_decimals()) is Some
    &&& field_text(obj_entries(j)->0, k_token_b()) is Some
    &&& addr_text_wf(field_text(obj_entries(j)->0, k_token_b())->0)
    &&& field_uint(obj_entries(j)->0, k_token_b_decimals()) is Some
    &&& field_uint(obj_entries(j)->0, k_fee()) is Some
}

pub open spec fn pool_record_variant(j: JsonValue) -> DexVariant {
    tag_variant(field_text(obj_entries(j)->0, k_dex_variant())->0)->0
}

pub open spec fn pool_record_address(j: JsonValue) -> Seq<u8> {
    parsed_addr(field_text(obj_entries(j)->0, k_address())->0)
}

pub open spec fn pool_record_token_a(j: JsonValue) -> Seq<u8> {
    parsed_addr(field_text(obj_entries(j)->0, k_token_a())->0)
}

/// Decimal counts are stored as numbers and read back into a byte, keeping
/// the low eight bits.
pub open spec fn pool_record_token_a_decimals(j: JsonValue) -> u8 {
    (field_uint(obj_entries(j)->0, k_token_a_decimals())->0 % 256) as u8
}

pub open spec fn pool_record_token_b(j: JsonValue) -> Seq<u8> {
    parsed_addr(field_text(obj_entries(j)->0, k_token_b())->0)
}

pub open spec fn pool_record_token_b_decimals(j: JsonValue) -> u8 {
    (field_uint(obj_entries(j)->0, k_token_b_decimals())->0 % 256) as u8
}

pub open spec fn pool_record_fee(j: JsonValue) -> u32 {
    (field_uint(obj_entries(j)->0, k_fee())->0 % 0x100000000) as u32
}

/// What a freshly decoded dex looks like: identity fields from the record.
pub open spec fn dex_decoded_matches(j: JsonValue, d: Dex) -> bool {
    &&& d.dex_variant == dex_record_variant(j)
    &&& d.factory_address@ == dex_record_factory(j)
    &&& d.latest_synced_block == dex_record_block(j)
    &&& d.wf()
}

/// What a freshly decoded pool looks like: identity fields from the record,
/// dynamic fields at their defaults, pending a refresh.
pub open spec fn pool_decoded_matches(j: JsonValue, p: Pool) -> bool {
    &&& p.variant() == pool_record_variant(j)
    &&& p.addr()@ == pool_record_address(j)
    &&& p.tok_a()@ == pool_record_token_a(j)
    &&& p.tok_a_dec() == pool_record_token_a_decimals(j)
    &&& p.tok_b()@ == pool_record_token_b(j)
    &&& p.tok_b_dec() == pool_record_token_b_decimals(j)
    &&& p.pool_fee() == pool_record_fee(j)
    &&& p.wf()
    &&& match p {
        Pool::UniswapV2(v2) => v2.a_to_b == false && v2.reserve_0 == 0 && v2.reserve_1 == 0,
        Pool::UniswapV3(v3) => v3.liquidity == 0 && v3.sqrt_price == (Uint256 {
            high: 0,
            low: 0,
        }) && v3.tick == 0 && v3.tick_spacing == 0,
    }
}

/// A checkpoint document holds a `dexes` array and a `pools` array, all of
/// whose records are well formed. (The timestamp is written on encode but
/// nothing in a decode depends on it.)
pub open spec fn checkpoint_wf(doc: JsonValue) -> bool {
    &&& obj_entries(doc) is Some
    &&& field_array(obj_entries(doc)->0, k_dexes()) is Some
    &&& forall|i: int| 0 <= i < field_array(obj_entries(doc)->0, k_dexes())->0.len()
        ==> dex_record_wf(#[trigger] field_array(obj_entries(doc)->0, k_dexes())->0[i])
    &&& field_array(obj_entries(doc)->0, k_pools()) is Some
    &&& forall|i: int| 0 <= i < field_array(obj_entries(doc)->0, k_pools())->0.len()
        ==> pool_record_wf(#[trigger] field_array(obj_entries(doc)->0, k_pools())->0[i])
}

/// The dex records of a checkpoint document.
pub open spec fn cp_dex_records(doc: JsonValue) -> Seq<JsonValue> {
    field_array(obj_entries(doc)->0, k_dexes())->0
}

/// The pool records of a checkpoint document.
pub open spec fn cp_pool_records(doc: JsonValue) -> Seq<JsonValue> {
    field_array(obj_entries(doc)->0, k_pools())->0
}

/// Reads one dex record. Accepts exactly the well-formed records and
/// returns the dex they denote; any fault is a `CodecFailure`.
pub fn deconstruct_dex_from_checkpoint(record: &JsonValue) -> (r: Result<Dex, CFMMError>)
    ensures
        r is Ok <==> dex_record_wf(*record),
        r is Ok ==> dex_decoded_matches(*record, r->Ok_0),
        r is Err ==> r->Err_0 matches CFMMError::CodecFailure(_),
{
    let entries = match record {
        JsonValue::Object(e) => e,
        _ => {
            return Err(CFMMError::CodecFailure(CodecFault::NotAnObject));
        },
    };
    let kv = key_dex_variant();
    let tag = match lookup(entries, &kv) {
        Some(JsonValue::Text(t)) => t,
        Some(_) => {
            return Err(CFMMError::CodecFailure(CodecFault::WrongFieldType));
        },
        None => {
            return Err(CFMMError::CodecFailure(CodecFault::MissingField));
        },
    };
    let dex_variant = match parse_variant(tag) {
        Some(v) => v,
        None => {
            return Err(CFMMError::CodecFailure(CodecFault::UnknownVariant));
        },
    };
    let kf = key_factory_address();
    let factory_text = match lookup(entries, &kf) {
        Some(JsonValue::Text(t)) => t,
        Some(_) => {
            return Err(CFMMError::CodecFailure(CodecFault::WrongFieldType));
        },
        None => {
            return Err(CFMMError::CodecFailure(CodecFault::MissingField));
        },
    };
    let factory_address = match parse_address(factory_text) {
        Some(a) => a,
        None => {
            return Err(CFMMError::CodecFailure(CodecFault::BadAddress));
        },
    };
    let kb = key_latest_synced_block();
    let latest_synced_block = match lookup(entries, &kb) {
        Some(JsonValue::UInt(n)) => *n,
        Some(_) => {
            return Err(CFMMError::CodecFailure(CodecFault::WrongFieldType));
        },
        None => {
            return Err(CFMMError::CodecFailure(CodecFault::MissingField));
        },
    };
    Ok(Dex::new(factory_address, dex_variant, latest_synced_block))
}

/// Reads one pool record. Accepts exactly the well-formed records; the pool
/// comes back with its identity fields set and its dynamic fields at their
/// defaults, pending a refresh.
pub fn pool_from_record(record: &JsonValue) -> (r: Result<Pool, CFMMError>)
    ensures
        r is Ok <==> pool_record_wf(*record),
        r is Ok ==> pool_decoded_matches(*record, r->Ok_0),
        r is Err ==> r->Err_0 matches CFMMError::CodecFailure(_),
{
    let entries = match record {
        JsonValue::Object(e) => e,
        _ => {
            return Err(CFMMError::CodecFailure(CodecFault::NotAnObject));
        },
    };
    let kv = key_dex_variant();
    let tag = match lookup(entries, &kv) {
        Some(JsonValue::Text(t)) => t,
        Some(_) => {
            return Err(CFMMError::CodecFailure(CodecFault::WrongFieldType));
        },
        None => {
            return Err(CFMMError::CodecFailure(CodecFault::MissingField));
        },
    };
    let dex_variant = match parse_variant(tag) {
        Some(v) => v,
        None => {
            return Err(CFMMError::CodecFailure(CodecFault::UnknownVariant));
        },
    };
    let ka = key_address();
    let address = match lookup(entries, &ka) {
        Some(JsonValue::Text(t)) => match parse_address(t) {
            Some(a) => a,
            None => {
                return Err(CFMMError::CodecFailure(CodecFault::BadAddress));
            },
        },
        Some(_) => {
            return Err(CFMMError::CodecFailure(CodecFault::WrongFieldType));
        },
        None => {
            return Err(CFMMError::CodecFailure(CodecFault::MissingField));
        },
    };
    let kta = key_token_a();
    let token_a = match lookup(entries, &kta) {
        Some(JsonValue::Text(t)) => match parse_address(t) {
            Some(a) => a,
            None => {
                return Err(CFMMError::CodecFailure(CodecFault::BadAddress));
            },
        },
        Some(_) => {
            return Err(CFMMError::CodecFailure(CodecFault::WrongFieldType));
        },
        None => {
            return Err(CFMMError::CodecFailure(CodecFault::MissingField));
        },
    };
    let ktad = key_token_a_decimals();
    let token_a_decimals = match lookup(entries, &ktad) {
        Some(JsonValue::UInt(n)) => (*n % 256) as u8,
        Some(_) => {
            return Err(CFMMError::CodecFailure(CodecFault::WrongFieldType));
        },
        None => {
            return Err(CFMMError::CodecFailure(CodecFault::MissingField));
        },
    };
    let ktb = key_token_b();
    let token_b = match lookup(entries, &ktb) {
        Some(JsonValue::Text(t)) => match parse_address(t) {
            Some(a) => a,
            None => {
                return Err(CFMMError::CodecFailure(CodecFault::BadAddress));
            },
        },
        Some(_) => {
            return Err(CFMMError::CodecFailure(CodecFault::WrongFieldType));
        },
        None => {
            return Err(CFMMError::CodecFailure(CodecFault::MissingField));
        },
    };
    let ktbd = key_token_b_decimals();
    let token_b_decimals = match lookup(entries, &ktbd) {
        Some(JsonValue::UInt(n)) => (*n % 256) as u8,
        Some(_) => {
            return Err(CFMMError::CodecFailure(CodecFault::WrongFieldType));
        },
        None => {
            return Err(CFMMError::CodecFailure(CodecFault::MissingField));
        },
    };
    let kf = key_fee();
    let fee = match lookup(entries, &kf) {
        Some(JsonValue::UInt(n)) => (*n % 0x100000000) as u32,
        Some(_) => {
            return Err(CFMMError::CodecFailure(CodecFault::WrongFieldType));
        },
        None => {
            return Err(CFMMError::CodecFailure(CodecFault::MissingField));
        },
    };
    match dex_variant {
        DexVariant::UniswapV2 => Ok(
            Pool::UniswapV2(
                UniswapV2Pool::new(
                    address,
                    token_a,
                    token_a_decimals,
                    token_b,
                    token_b_decimals,
                    false,
                    0,
                    0,
                    fee,
                ),
            ),
        ),
        DexVariant::UniswapV3 => Ok(
            Pool::UniswapV3(
                UniswapV3Pool::new(
                    address,
                    token_a,
                    token_a_decimals,
                    token_b,
                    token_b_decimals,
                    fee,
                    0,
                    Uint256::zero(),
                    0,
                    0,
                ),
            ),
        ),
    }
}

/// Reads a whole pool array. One malformed record fails the whole read:
/// no partial pool list ever comes back.
pub fn deconstruct_pools_from_checkpoint(records: &Vec<JsonValue>) -> (r: Result<
    Vec<Pool>,
    CFMMError,
>)
    ensures
        r is Ok <==> (forall|i: int| 0 <= i < records@.len() ==> pool_record_wf(
            #[trigger] records@[i],
        )),
        r is Ok ==> r->Ok_0@.len() == records@.len() && (forall|i: int|
            0 <= i < records@.len() ==> pool_decoded_matches(
                #[trigger] records@[i],
                r->Ok_0@[i],
            )),
        r is Err ==> r->Err_0 matches CFMMError::CodecFailure(_),
{
    let mut pools: Vec<Pool> = Vec::new();
    let mut i: usize = 0;
    while i < records.len()
        invariant
            i <= records.len(),
            pools@.len() == i,
            forall|k: int| 0 <= k < i ==> pool_record_wf(#[trigger] records@[k]),
            forall|k: int| 0 <= k < i ==> pool_decoded_matches(
                #[trigger] records@[k],
                pools@[k],
            ),
        decreases records.len() - i,
    {
        match pool_from_record(&records[i]) {
            Ok(p) => pools.push(p),
            Err(e) => {
                return Err(e);
            },
        }
        i = i + 1;
    }
    Ok(pools)
}

/// Reads a whole checkpoint document into its dex list and pool list.
/// Accepts exactly the well-formed documents; on any fault nothing is
/// returned — a decode never yields partial state.
pub fn deconstruct_checkpoint(doc: &JsonValue) -> (r: Result<(Vec<Dex>, Vec<Pool>), CFMMError>)
    ensures
        r is Ok <==> checkpoint_wf(*doc),
        r is Ok ==> {
            let (dexes, pools) = r->Ok_0;
            &&& dexes@.len() == cp_dex_records(*doc).len()
            &&& forall|i: int| 0 <= i < dexes@.len() ==> dex_decoded_matches(
                #[trigger] cp_dex_records(*doc)[i],
                dexes@[i],
            )
            &&& pools@.len() == cp_pool_records(*doc).len()
            &&& forall|i: int| 0 <= i < pools@.len() ==> pool_decoded_matches(
                #[trigger] cp_pool_records(*doc)[i],
                pools@[i],
            )
        },
        r is Err ==> r->Err_0 matches CFMMError::CodecFailure(_),
{
    let entries = match doc {
        JsonValue::Object(e) => e,
        _ => {
            return Err(CFMMError::CodecFailure(CodecFault::NotAnObject));
        },
    };
    let kd = key_dexes();
    let dex_records = match lookup(entries, &kd) {
        Some(JsonValue::Array(a)) => a,
        Some(_) => {
            return Err(CFMMError::CodecFailure(CodecFault::WrongFieldType));
        },
        None => {
            return Err(CFMMError::CodecFailure(CodecFault::MissingField));
        },
    };
    let kp = key_pools();
    let pool_records = match lookup(entries, &kp) {
        Some(JsonValue::Array(a)) => a,
        Some(_) => {
            return Err(CFMMError::CodecFailure(CodecFault::WrongFieldType));
        },
        None => {
            return Err(CFMMError::CodecFailure(CodecFault::MissingField));
        },
    };
    proof {
        assert(obj_entries(*doc) == Some(entries@));
        assert(cp_dex_records(*doc) == dex_records@);
        assert(cp_pool_records(*doc) == pool_records@);
    }
    let mut dexes: Vec<Dex> = Vec::new();
    let mut i: usize = 0;
    while i < dex_records.len()
        invariant
            i <= dex_records.len(),
            dexes@.len() == i,
            cp_dex_records(*doc) == dex_records@,
            forall|k: int| 0 <= k < i ==> dex_record_wf(#[trigger] dex_records@[k]),
            forall|k: int| 0 <= k < i ==> dex_decoded_matches(
                #[trigger] dex_records@[k],
                dexes@[k],
            ),
        decreases dex_records.len() - i,
    {
        match deconstruct_dex_from_checkpoint(&dex_records[i]) {
            Ok(d) => dexes.push(d),
            Err(e) => {
                proof {
                    assert(!dex_record_wf(cp_dex_records(*doc)[i as int]));
                }
                return Err(e);
            },
        }
        i = i + 1;
    }
    let pools = match deconstruct_pools_from_checkpoint(pool_records) {
        Ok(p) => p,
        Err(e) => {
            return Err(e);
        },
    };
    Ok((dexes, pools))
}

/// A lookup finds the entry at position `i` when every earlier key differs.
pub proof fn lemma_lookup_at(e: Seq<(Vec<u8>, JsonValue)>, key: Seq<u8>, i: int)
    requires
        0 <= i < e.len(),
        e[i].0@ == key,
        forall|j: int| 0 <= j < i ==> (#[trigger] e[j]).0@ != key,
    ensures
        lookup_spec(e, key) == Some(e[i].1),
    decreases i,
{
    if i > 0 {
        let rest = e.skip(1);
        assert(rest[i - 1] == e[i]);
        assert forall|j: int| 0 <= j < i - 1 implies (#[trigger] rest[j]).0@ != key by {
            assert(rest[j] == e[j + 1]);
        }
        lemma_lookup_at(rest, key, i - 1);
    }
}

/// What the codec writes for one dex: its variant tag, its factory address
/// in canonical text, and the run's head block as the resume cursor.
pub open spec fn dex_record_matches(j: JsonValue, d: Dex, head_block: u64) -> bool {
    &&& obj_entries(j) is Some
    &&& obj_entries(j)->0.len() == 3
    &&& field_text(obj_entries(j)->0, k_dex_variant()) == Some(canonical_tag(d.dex_variant))
    &&& field_text(obj_entries(j)->0, k_factory_address()) == Some(addr_text(d.factory_address@))
    &&& field_uint(obj_entries(j)->0, k_latest_synced_block()) == Some(head_block)
}

/// What the codec writes for one pool: its identity fields only — dynamic
/// state (reserves, slot state) is never persisted.
pub open spec fn pool_record_matches(j: JsonValue, p: Pool) -> bool {
    &&& obj_entries(j) is Some
    &&& obj_entries(j)->0.len() == 7
    &&& field_text(obj_entries(j)->0, k_dex_variant()) == Some(canonical_tag(p.variant()))
    &&& field_text(obj_entries(j)->0, k_address()) == Some(addr_text(p.addr()@))
    &&& field_text(obj_entries(j)->0, k_token_a()) == Some(addr_text(p.tok_a()@))
    &&& field_uint(obj_entries(j)->0, k_token_a_decimals()) == Some(p.tok_a_dec() as u64)
    &&& field_text(obj_entries(j)->0, k_token_b()) == Some(addr_text(p.tok_b()@))
    &&& field_uint(obj_entries(j)->0, k_token_b_decimals()) == Some(p.tok_b_dec() as u64)
    &&& field_uint(obj_entries(j)->0, k_fee()) == Some(p.pool_fee() as u64)
}

/// What a whole written checkpoint holds: the timestamp, one record per dex
/// (each stamped with the single run-end block), and one record per pool, in
/// the order supplied.
pub open spec fn checkpoint_doc_matches(
    doc: JsonValue,
    dexes: Seq<Dex>,
    pools: Seq<Pool>,
    head_block: u64,
    checkpoint_timestamp: u32,
) -> bool {
    &&& obj_entries(doc) is Some
    &&& obj_entries(doc)->0.len() == 3
    &&& field_uint(obj_entries(doc)->0, k_timestamp()) == Some(checkpoint_timestamp as u64)
    &&& field_array(obj_entries(doc)->0, k_dexes()) is Some
    &&& cp_dex_records(doc).len() == dexes.len()
    &&& forall|i: int| 0 <= i < dexes.len() ==> dex_record_matches(
        #[trigger] cp_dex_records(doc)[i],
        dexes[i],
        head_block,
    )
    &&& field_array(obj_entries(doc)->0, k_pools()) is Some
    &&& cp_pool_records(doc).len() == pools.len()
    &&& forall|i: int| 0 <= i < pools.len() ==> pool_record_matches(
        #[trigger] cp_pool_records(doc)[i],
        pools[i],
    )
}

/// Writes one dex record.
fn dex_record(d: &Dex, head_block: u64) -> (r: JsonValue)
    requires
        d.wf(),
    ensures
        dex_record_matches(r, *d, head_block),
{
    let mut entries: Vec<(Vec<u8>, JsonValue)> = Vec::new();
    entries.push((key_dex_variant(), JsonValue::Text(variant_tag(d.dex_variant))));
    entries.push((key_factory_address(), JsonValue::Text(address_to_text(&d.factory_address))));
    entries.push((key_latest_synced_block(), JsonValue::UInt(head_block)));
    let ghost e = entries@;
    let r = JsonValue::Object(entries);
    proof {
        assert(obj_entries(r) == Some(e));
        lemma_lookup_at(e, k_dex_variant(), 0);
        assert(e[0].0@.len() != k_factory_address().len());
        lemma_lookup_at(e, k_factory_address(), 1);
        assert(e[0].0@.len() != k_latest_synced_block().len());
        assert(e[1].0@.len() != k_latest_synced_block().len());
        lemma_lookup_at(e, k_latest_synced_block(), 2);
    }
    r
}

/// Writes one pool record.
fn pool_record(p: &Pool) -> (r: JsonValue)
    requires
        p.wf(),
    ensures
        pool_record_matches(r, *p),
{
    let variant_text = match p {
        Pool::UniswapV2(_) => variant_tag(DexVariant::UniswapV2),
        Pool::UniswapV3(_) => variant_tag(DexVariant::UniswapV3),
    };
    let (address, token_a, token_a_decimals, token_b, token_b_decimals, fee) = match p {
        Pool::UniswapV2(v2) => (
            &v2.address,
            &v2.token_a,
            v2.token_a_decimals,
            &v2.token_b,
            v2.token_b_decimals,
            v2.fee,
        ),
        Pool::UniswapV3(v3) => (
            &v3.address,
            &v3.token_a,
            v3.token_a_decimals,
            &v3.token_b,
            v3.token_b_decimals,
            v3.fee,
        ),
    };
    let mut entries: Vec<(Vec<u8>, JsonValue)> = Vec::new();
    entries.push((key_dex_variant(), JsonValue::Text(variant_text)));
    entries.push((key_address(), JsonValue::Text(address_to_text(address))));
    entries.push((key_token_a(), JsonValue::Text(address_to_text(token_a))));
    entries.push((key_token_a_decimals(), JsonValue::UInt(token_a_decimals as u64)));
    entries.push((key_token_b(), JsonValue::Text(address_to_text(token_b))));
    entries.push((key_token_b_decimals(), JsonValue::UInt(token_b_decimals as u64)));
    entries.push((key_fee(), JsonValue::UInt(fee as u64)));
    let ghost e = entries@;
    let r = JsonValue::Object(entries);
    proof {
        assert(obj_entries(r) == Some(e));
        lemma_lookup_at(e, k_dex_variant(), 0);
        assert(k_dex_variant().len() != k_address().len());
        lemma_lookup_at(e, k_address(), 1);
        assert(k_address()[0] != k_token_a()[0]);
        lemma_lookup_at(e, k_token_a(), 2);
        assert(k_address().len() != k_token_a_decimals().len());
        lemma_lookup_at(e, k_token_a_decimals(), 3);
        assert(k_address()[0] != k_token_b()[0]);
        assert(k_token_a()[6] != k_token_b()[6]);
        assert(k_token_a_decimals().len() != k_token_b().len());
        lemma_lookup_at(e, k_token_b(), 4);
        assert(k_token_a_decimals()[6] != k_token_b_decimals()[6]);
        lemma_lookup_at(e, k_token_b_decimals(), 5);
        assert(k_fee().len() == 3);
        lemma_lookup_at(e, k_fee(), 6);
    }
    r
}

/// Builds the checkpoint document for a finished run: the timestamp, every
/// dex stamped with the single supplied head block (the codec deliberately
/// treats the run's completion block as the uniform resume point), and every
/// pool's identity fields, in the order supplied. Writing the document to
/// disk is the caller's business.
pub fn construct_checkpoint(
    dexes: &Vec<Dex>,
    pools: &Vec<Pool>,
    latest_block: u64,
    checkpoint_timestamp: u32,
) -> (r: JsonValue)
    requires
        forall|i: int| 0 <= i < dexes@.len() ==> (#[trigger] dexes@[i]).wf(),
        forall|i: int| 0 <= i < pools@.len() ==> (#[trigger] pools@[i]).wf(),
    ensures
        checkpoint_doc_matches(r, dexes@, pools@, latest_block, checkpoint_timestamp),
{
    let mut dex_array: Vec<JsonValue> = Vec::new();
    let mut i: usize = 0;
    while i < dexes.len()
        invariant
            i <= dexes.len(),
            dex_array@.len() == i,
            forall|k: int| 0 <= k < dexes@.len() ==> (#[trigger] dexes@[k]).wf(),
            forall|k: int| 0 <= k < i ==> dex_record_matches(
                #[trigger] dex_array@[k],
                dexes@[k],
                latest_block,
            ),
        decreases dexes.len() - i,
    {
        dex_array.push(dex_record(&dexes[i], latest_block));
        i = i + 1;
    }
    let mut pool_array: Vec<JsonValue> = Vec::new();
    let mut k: usize = 0;
    while k < pools.len()
        invariant
            k <= pools.len(),
            pool_array@.len() == k,
            forall|m: int| 0 <= m < pools@.len() ==> (#[trigger] pools@[m]).wf(),
            forall|m: int| 0 <= m < k ==> pool_record_matches(
                #[trigger] pool_array@[m],
                pools@[m],
            ),
        decreases pools.len() - k,
    {
        pool_array.push(pool_record(&pools[k]));
        k = k + 1;
    }
    let ghost dex_arr = dex_array@;
    let ghost pool_arr = pool_array@;
    let mut entries: Vec<(Vec<u8>, JsonValue)> = Vec::new();
    entries.push((key_timestamp(), JsonValue::UInt(checkpoint_timestamp as u64)));
    entries.push((key_dexes(), JsonValue::Array(dex_array)));
    entries.push((key_pools(), JsonValue::Array(pool_array)));
    let ghost e = entries@;
    let r = JsonValue::Object(entries);
    proof {
        assert(obj_entries(r) == Some(e));
        lemma_lookup_at(e, k_timestamp(), 0);
        assert(k_timestamp().len() != k_dexes().len());
        lemma_lookup_at(e, k_dexes(), 1);
        assert(k_timestamp().len() != k_pools().len());
        assert(k_dexes()[0] != k_pools()[0]);
        lemma_lookup_at(e, k_pools(), 2);
        assert(cp_dex_records(r) == dex_arr);
        assert(cp_pool_records(r) == pool_arr);
    }
    r
}

/// A written dex record is well formed and reads back to the same identity
/// fields, with the cursor at the stamped head block.
pub proof fn lemma_dex_record_round_trip(j: JsonValue, d: Dex, head_block: u64)
    requires
        d.wf(),
        dex_record_matches(j, d, head_block),
    ensures
        dex_record_wf(j),
        dex_record_variant(j) == d.dex_variant,
        dex_record_factory(j) == d.factory_address@,
        dex_record_block(j) == head_block,
{
    crate::dex::lemma_tag_round_trip(d.dex_variant);
    crate::address::lemma_address_text_round_trip(d.factory_address@);
}

/// A written pool record is well formed and reads back to the same identity
/// fields.
pub proof fn lemma_pool_record_round_trip(j: JsonValue, p: Pool)
    requires
        p.wf(),
        pool_record_matches(j, p),
    ensures
        pool_record_wf(j),
        pool_record_variant(j) == p.variant(),
        pool_record_address(j) == p.addr()@,
        pool_record_token_a(j) == p.tok_a()@,
        pool_record_token_a_decimals(j) == p.tok_a_dec(),
        pool_record_token_b(j) == p.tok_b()@,
        pool_record_token_b_decimals(j) == p.tok_b_dec(),
        pool_record_fee(j) == p.pool_fee(),
{
    crate::dex::lemma_tag_round_trip(p.variant());
    crate::address::lemma_address_text_round_trip(p.addr()@);
    crate::address::lemma_address_text_round_trip(p.tok_a()@);
    crate::address::lemma_address_text_round_trip(p.tok_b()@);
}

/// Checkpoint round trip: any document a finished run writes is a well-formed
/// checkpoint, and decoding it reproduces every dex's and every pool's
/// identity fields exactly, each dex's cursor standing at the stamped head
/// block. Together with `deconstruct_checkpoint`'s own contract (which adds
/// that dynamic pool fields come back at their defaults, never preserved),
/// this says `decode(encode(dexes, pools, head_block))` loses no identity.
pub proof fn lemma_checkpoint_round_trip(
    doc: JsonValue,
    dexes: Seq<Dex>,
    pools: Seq<Pool>,
    head_block: u64,
    checkpoint_timestamp: u32,
)
    requires
        forall|i: int| 0 <= i < dexes.len() ==> (#[trigger] dexes[i]).wf(),
        forall|i: int| 0 <= i < pools.len() ==> (#[trigger] pools[i]).wf(),
        checkpoint_doc_matches(doc, dexes, pools, head_block, checkpoint_timestamp),
    ensures
        checkpoint_wf(doc),
        cp_dex_records(doc).len() == dexes.len(),
        cp_pool_records(doc).len() == pools.len(),
        forall|i: int| 0 <= i < dexes.len() ==> {
            &&& dex_record_variant(#[trigger] cp_dex_records(doc)[i]) == dexes[i].dex_variant
            &&& dex_record_factory(cp_dex_records(doc)[i]) == dexes[i].factory_address@
            &&& dex_record_block(cp_dex_records(doc)[i]) == head_block
        },
        forall|i: int| 0 <= i < pools.len() ==> {
            &&& pool_record_variant(#[trigger] cp_pool_records(doc)[i]) == pools[i].variant()
            &&& pool_record_address(cp_pool_records(doc)[i]) == pools[i].addr()@
            &&& pool_record_token_a(cp_pool_records(doc)[i]) == pools[i].tok_a()@
            &&& pool_record_token_a_decimals(cp_pool_records(doc)[i]) == pools[i].tok_a_dec()
            &&& pool_record_token_b(cp_pool_records(doc)[i]) == pools[i].tok_b()@
            &&& pool_record_token_b_decimals(cp_pool_records(doc)[i]) == pools[i].tok_b_dec()
            &&& pool_record_fee(cp_pool_records(doc)[i]) == pools[i].pool_fee()
        },
{
    assert forall|i: int| 0 <= i < dexes.len() implies {
        &&& dex_record_wf(#[trigger] cp_dex_records(doc)[i])
        &&& dex_record_variant(cp_dex_records(doc)[i]) == dexes[i].dex_variant
        &&& dex_record_factory(cp_dex_records(doc)[i]) == dexes[i].factory_address@
        &&& dex_record_block(cp_dex_records(doc)[i]) == head_block
    } by {
        lemma_dex_record_round_trip(cp_dex_records(doc)[i], dexes[i], head_block);
    }
    assert forall|i: int| 0 <= i < pools.len() implies {
        &&& pool_record_wf(#[trigger] cp_pool_records(doc)[i])
        &&& pool_record_variant(cp_pool_records(doc)[i]) == pools[i].variant()
        &&& pool_record_address(cp_pool_records(doc)[i]) == pools[i].addr()@
        &&& pool_record_token_a(cp_pool_records(doc)[i]) == pools[i].tok_a()@
        &&& pool_record_token_a_decimals(cp_pool_records(doc)[i]) == pools[i].tok_a_dec()
        &&& pool_record_token_b(cp_pool_records(doc)[i]) == pools[i].tok_b()@
        &&& pool_record_token_b_decimals(cp_pool_records(doc)[i]) == pools[i].tok_b_dec()
        &&& pool_record_fee(cp_pool_records(doc)[i]) == pools[i].pool_fee()
    } by {
        lemma_pool_record_round_trip(cp_pool_records(doc)[i], pools[i]);
    }
}

} // verus!
