use vstd::prelude::*;
use crate::address::Address;
use crate::json::{bytes_eq_ignore_ascii_case, lower_bytes};

verus! {

/// The protocol variant a factory (and its pools) belongs to.
#[derive(Debug, Clone, Copy, PartialEq, Eq, Structural)]
pub enum DexVariant {
    UniswapV2,
    UniswapV3,
}

/// The canonical text of a variant tag, as the checkpoint writes it.
pub open spec fn canonical_tag(v: DexVariant) -> Seq<u8> {
    match v {
        DexVariant::UniswapV2 => seq![85u8, 110u8, 105u8, 115u8, 119u8, 97u8, 112u8, 86u8, 50u8],
        DexVariant::UniswapV3 => seq![85u8, 110u8, 105u8, 115u8, 119u8, 97u8, 112u8, 86u8, 51u8],
    }
}

/// The variant a tag denotes, compared without regard to ASCII case; `None`
/// on an unrecognized tag.
pub open spec fn tag_variant(s: Seq<u8>) -> Option<DexVariant> {
    if lower_bytes(s) == lower_bytes(canonical_tag(DexVariant::UniswapV2)) {
        Some(DexVariant::UniswapV2)
    } else if lower_bytes(s) == lower_bytes(canonical_tag(DexVariant::UniswapV3)) {
        Some(DexVariant::UniswapV3)
    } else {
        None
    }
}

/// The canonical tag text of `v`.
pub fn variant_tag(v: DexVariant) -> (r: Vec<u8>)
    ensures
        r@ == canonical_tag(v),
{
    let mut out: Vec<u8> = Vec::new();
    out.push(85u8);
    out.push(110u8);
    out.push(105u8);
    out.push(115u8);
    out.push(119u8);
    out.push(97u8);
    out.push(112u8);
    out.push(86u8);
    match v {
        DexVariant::UniswapV2 => out.push(50u8),
        DexVariant::UniswapV3 => out.push(51u8),
    }
    proof {
        assert(out@ =~= canonical_tag(v));
    }
    out
}

/// Reads a variant tag, ignoring ASCII case; rejects exactly the tags that
/// name no supported protocol.
pub fn parse_variant(tag: &Vec<u8>) -> (r: Option<DexVariant>)
    ensures
        r == tag_variant(tag@),
{
    let v2 = variant_tag(DexVariant::UniswapV2);
    if bytes_eq_ignore_ascii_case(tag, &v2) {
        return Some(DexVariant::UniswapV2);
    }
    let v3 = variant_tag(DexVariant::UniswapV3);
    if bytes_eq_ignore_ascii_case(tag, &v3) {
        return Some(DexVariant::UniswapV3);
    }
    None
}

/// Every canonical tag reads back as its own variant.
pub proof fn lemma_tag_round_trip(v: DexVariant)
    ensures
        tag_variant(canonical_tag(v)) == Some(v),
{
    let t2 = canonical_tag(DexVariant::UniswapV2);
    let t3 = canonical_tag(DexVariant::UniswapV3);
    assert(lower_bytes(t2)[8] == 50u8);
    assert(lower_bytes(t3)[8] == 51u8);
    assert(lower_bytes(t2) != lower_bytes(t3));
}

/// How many blocks one log query spans during discovery.
pub const DISCOVERY_PAGE_BLOCKS: u64 = 50_000;

/// The inclusive block ranges, in order, that one discovery pass scans: they
/// tile `from_block..=head_block` exactly, each at most
/// `DISCOVERY_PAGE_BLOCKS` wide, so every creation event is seen once and
/// each page costs one unit of throttle budget.
pub fn discovery_pages(from_block: u64, head_block: u64) -> (r: Vec<(u64, u64)>)
    requires
        head_block < u64::MAX,
    ensures
        from_block > head_block ==> r@.len() == 0,
        from_block <= head_block ==> r@.len() > 0 && r@[0].0 == from_block && r@[r@.len()
            - 1].1 == head_block,
        forall|i: int| 0 <= i < r@.len() ==> (#[trigger] r@[i]).0 <= r@[i].1 && r@[i].1 - r@[i].0
            < DISCOVERY_PAGE_BLOCKS && r@[i].1 <= head_block,
        forall|i: int| 0 <= i < r@.len() - 1 ==> (#[trigger] r@[i]).1 + 1 == r@[i + 1].0,
{
    let mut out: Vec<(u64, u64)> = Vec::new();
    let mut start = from_block;
    while start <= head_block
        invariant
            head_block < u64::MAX,
            from_block <= start,
            out@.len() == 0 <==> start == from_block,
            out@.len() > 0 ==> out@[0].0 == from_block && out@[out@.len() - 1].1 + 1 == start,
            forall|i: int| 0 <= i < out@.len() ==> (#[trigger] out@[i]).0 <= out@[i].1
                && out@[i].1 - out@[i].0 < DISCOVERY_PAGE_BLOCKS && out@[i].1 <= head_block,
            forall|i: int| 0 <= i < out@.len() - 1 ==> (#[trigger] out@[i]).1 + 1 == out@[i
                + 1].0,
        decreases head_block + 1 - start,
    {
        let end = if head_block - start >= DISCOVERY_PAGE_BLOCKS {
            start + (DISCOVERY_PAGE_BLOCKS - 1)
        } else {
            head_block
        };
        out.push((start, end));
        start = end + 1;
    }
    out
}

/// One factory contract: its address, protocol variant, and the chain height
/// up to which its pool set has been enumerated.
#[derive(Debug, Clone, PartialEq, Eq)]
pub struct Dex {
    pub factory_address: Address,
    pub dex_variant: DexVariant,
    pub latest_synced_block: u64,
}

impl Dex {
    pub open spec fn wf(&self) -> bool {
        self.factory_address.wf()
    }

    pub fn new(factory_address: Address, dex_variant: DexVariant, latest_synced_block: u64) -> (r:
        Dex)
        ensures
            r.factory_address == factory_address,
            r.dex_variant == dex_variant,
            r.latest_synced_block == latest_synced_block,
    {
        Dex { factory_address, dex_variant, latest_synced_block }
    }

    /// Moves the resume cursor forward after a successful discovery pass;
    /// the cursor never goes backwards.
    pub fn record_synced_block(&mut self, block: u64)
        ensures
            final(self).factory_address == old(self).factory_address,
            final(self).dex_variant == old(self).dex_variant,
            final(self).latest_synced_block == if block > old(self).latest_synced_block {
                block
            } else {
                old(self).latest_synced_block
            },
            final(self).latest_synced_block >= old(self).latest_synced_block,
    {
        if block > self.latest_synced_block {
            self.latest_synced_block = block;
        }
    }
}

} // verus!
