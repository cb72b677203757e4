use vstd::prelude::*;

verus! {

/// A 20-byte account or contract address, held as raw bytes.
#[derive(Debug, Clone, PartialEq, Eq)]
pub struct Address {
    pub bytes: Vec<u8>,
}

impl View for Address {
    type V = Seq<u8>;

    open spec fn view(&self) -> Seq<u8> {
        self.bytes@
    }
}

impl Address {
    /// An address is well formed when it holds exactly 20 bytes.
    pub open spec fn wf(&self) -> bool {
        self@.len() == 20
    }

    pub fn new(bytes: Vec<u8>) -> (r: Address)
        requires
            bytes@.len() == 20,
        ensures
            r.wf(),
            r@ == bytes@,
    {
        Address { bytes }
    }

    /// The all-zero address, used as a placeholder before population.
    pub fn zero() -> (r: Address)
        ensures
            r.wf(),
            forall|i: int| 0 <= i < 20 ==> r@[i] == 0u8,
    {
        let mut bytes: Vec<u8> = Vec::new();
        let mut i: usize = 0;
        while i < 20
            invariant
                i <= 20,
                bytes@.len() == i,
                forall|k: int| 0 <= k < i ==> bytes@[k] == 0u8,
            decreases 20 - i,
        {
            bytes.push(0u8);
            i = i + 1;
        }
        Address { bytes }
    }

    /// A fresh address holding the same bytes.
    pub fn duplicate(&self) -> (r: Address)
        ensures
            r@ == self@,
    {
        let mut bytes: Vec<u8> = Vec::new();
        let mut i: usize = 0;
        while i < self.bytes.len()
            invariant
                i <= self.bytes.len(),
                bytes@.len() == i,
                forall|k: int| 0 <= k < i ==> bytes@[k] == self@[k],
            decreases self.bytes.len() - i,
        {
            bytes.push(self.bytes[i]);
            i = i + 1;
        }
        proof {
            assert(bytes@ =~= self@);
        }
        Address { bytes }
    }

    /// Byte-for-byte equality of two addresses.
    pub fn same(&self, other: &Address) -> (r: bool)
        ensures
            r == (self@ == other@),
    {
        if self.bytes.len() != other.bytes.len() {
            return false;
        }
        let mut i: usize = 0;
        while i < self.bytes.len()
            invariant
                i <= self.bytes.len(),
                self.bytes.len() == other.bytes.len(),
                forall|k: int| 0 <= k < i ==> self@[k] == other@[k],
            decreases self.bytes.len() - i,
        {
            if self.bytes[i] != other.bytes[i] {
                return false;
            }
            i = i + 1;
        }
        proof {
            assert(self@ =~= other@);
        }
        true
    }
}

/// Whether `b` is the ASCII code of a hex digit, in either case.
pub open spec fn is_hex_digit(b: u8) -> bool {
    (48 <= b && b <= 57) || (97 <= b && b <= 102) || (65 <= b && b <= 70)
}

/// The value of the hex digit with ASCII code `b` (meaningful when
/// `is_hex_digit(b)`).
pub open spec fn hex_val(b: u8) -> u8 {
    if 48 <= b && b <= 57 {
        (b - 48) as u8
    } else if 97 <= b && b <= 102 {
        (b - 87) as u8
    } else {
        (b - 55) as u8
    }
}

/// The ASCII code of the lowercase hex digit for `v` (meaningful when
/// `v < 16`).
pub open spec fn hex_char(v: u8) -> u8 {
    if v < 10 {
        (48 + v) as u8
    } else {
        (87 + v) as u8
    }
}

/// An address text is `0x` followed by exactly 40 hex digits of either case.
pub open spec fn addr_text_wf(s: Seq<u8>) -> bool {
    &&& s.len() == 42
    &&& s[0] == 48u8
    &&& s[1] == 120u8
    &&& forall|i: int| 2 <= i < 42 ==> is_hex_digit(#[trigger] s[i])
}

/// The 20 bytes denoted by a well-formed address text.
pub open spec fn parsed_addr(s: Seq<u8>) -> Seq<u8> {
    Seq::new(20, |i: int| (hex_val(s[2 + 2 * i]) * 16 + hex_val(s[3 + 2 * i])) as u8)
}

/// One byte of the canonical (lowercase) text of the 20-byte address `a`.
pub open spec fn addr_text_byte(a: Seq<u8>, i: int) -> u8 {
    if i == 0 {
        48u8
    } else if i == 1 {
        120u8
    } else if (i - 2) % 2 == 0 {
        hex_char(((a[(i - 2) / 2] as int) / 16) as u8)
    } else {
        hex_char(((a[(i - 2) / 2] as int) % 16) as u8)
    }
}

/// The canonical (lowercase) text of the 20-byte address `a`.
pub open spec fn addr_text(a: Seq<u8>) -> Seq<u8> {
    Seq::new(42, |i: int| addr_text_byte(a, i))
}

/// Maps a hex digit's ASCII code to its value; `None` on any other byte.
fn hex_digit_value(b: u8) -> (r: Option<u8>)
    ensures
        r is Some <==> is_hex_digit(b),
        r is Some ==> r->0 == hex_val(b) && r->0 < 16,
{
    if 48 <= b && b <= 57 {
        Some(b - 48)
    } else if 97 <= b && b <= 102 {
        Some(b - 87)
    } else if 65 <= b && b <= 70 {
        Some(b - 55)
    } else {
        None
    }
}

/// The ASCII code of the lowercase hex digit for `v`.
fn hex_char_of(v: u8) -> (r: u8)
    requires
        v < 16,
    ensures
        r == hex_char(v),
{
    if v < 10 {
        48 + v
    } else {
        87 + v
    }
}

/// Parses `0x`-prefixed hex text (either case) into an address; rejects
/// exactly the texts that are not well formed.
pub fn parse_address(s: &Vec<u8>) -> (r: Option<Address>)
    ensures
        r is Some <==> addr_text_wf(s@),
        r is Some ==> r->0.wf() && r->0@ == parsed_addr(s@),
{
    if s.len() != 42 {
        return None;
    }
    if s[0] != 48 || s[1] != 120 {
        return None;
    }
    let mut out: Vec<u8> = Vec::new();
    let mut i: usize = 0;
    while i < 20
        invariant
            s@.len() == 42,
            s@[0] == 48u8,
            s@[1] == 120u8,
            i <= 20,
            out@.len() == i,
            forall|k: int| 2 <= k < 2 + 2 * i ==> is_hex_digit(#[trigger] s@[k]),
            forall|k: int| 0 <= k < i ==> out@[k] == (hex_val(s@[2 + 2 * k]) * 16 + hex_val(
                s@[3 + 2 * k],
            )) as u8,
        decreases 20 - i,
    {
        let hi = s[2 + 2 * i];
        let lo = s[3 + 2 * i];
        let hv = match hex_digit_value(hi) {
            Some(v) => v,
            None => {
                return None;
            },
        };
        let lv = match hex_digit_value(lo) {
            Some(v) => v,
            None => {
                return None;
            },
        };
        out.push(hv * 16 + lv);
        i = i + 1;
    }
    proof {
        assert forall|k: int| 2 <= k < 42 implies is_hex_digit(#[trigger] s@[k]) by {
            if (k - 2) % 2 == 0 {
                assert(k == 2 + 2 * ((k - 2) / 2));
            } else {
                assert(k == 3 + 2 * ((k - 2) / 2));
            }
        }
        assert(out@ =~= parsed_addr(s@));
    }
    Some(Address { bytes: out })
}

/// Formats an address as its canonical lowercase text.
pub fn address_to_text(a: &Address) -> (r: Vec<u8>)
    requires
        a.wf(),
    ensures
        r@ == addr_text(a@),
{
    let mut out: Vec<u8> = Vec::new();
    out.push(48u8);
    out.push(120u8);
    let mut i: usize = 0;
    while i < 20
        invariant
            a.wf(),
            i <= 20,
            out@.len() == 2 + 2 * i,
            forall|j: int| 0 <= j < 2 + 2 * i ==> out@[j] == addr_text_byte(a@, j),
        decreases 20 - i,
    {
        let b = a.bytes[i];
        let hi = hex_char_of(b / 16);
        let lo = hex_char_of(b % 16);
        out.push(hi);
        out.push(lo);
        proof {
            assert((2 + 2 * i as int - 2) % 2 == 0);
            assert((2 + 2 * i as int - 2) / 2 == i as int);
            assert((3 + 2 * i as int - 2) % 2 == 1);
            assert((3 + 2 * i as int - 2) / 2 == i as int);
        }
        i = i + 1;
    }
    proof {
        assert(out@ =~= addr_text(a@));
    }
    out
}

/// Composing a hex digit's text and value is the identity on values below 16.
pub proof fn lemma_hex_char_val(v: u8)
    requires
        v < 16,
    ensures
        is_hex_digit(hex_char(v)),
        hex_val(hex_char(v)) == v,
{
}

/// The canonical text of any 20-byte address is well formed and parses back
/// to the same bytes.
pub proof fn lemma_address_text_round_trip(a: Seq<u8>)
    requires
        a.len() == 20,
    ensures
        addr_text_wf(addr_text(a)),
        parsed_addr(addr_text(a)) == a,
{
    let s = addr_text(a);
    assert forall|i: int| 2 <= i < 42 implies is_hex_digit(#[trigger] s[i]) by {
        let j = (i - 2) / 2;
        assert(0 <= j < 20);
        assert((a[j] as int) / 16 < 16);
        assert((a[j] as int) % 16 < 16);
        if (i - 2) % 2 == 0 {
            lemma_hex_char_val(((a[j] as int) / 16) as u8);
        } else {
            lemma_hex_char_val(((a[j] as int) % 16) as u8);
        }
    }
    assert forall|i: int| 0 <= i < 20 implies parsed_addr(s)[i] == a[i] by {
        assert(s[2 + 2 * i] == addr_text_byte(a, 2 + 2 * i));
        assert(s[3 + 2 * i] == addr_text_byte(a, 3 + 2 * i));
        assert((2 + 2 * i - 2) % 2 == 0);
        assert((2 + 2 * i - 2) / 2 == i);
        assert((3 + 2 * i - 2) % 2 == 1);
        assert((3 + 2 * i - 2) / 2 == i);
        let hi = ((a[i] as int) / 16) as u8;
        let lo = ((a[i] as int) % 16) as u8;
        lemma_hex_char_val(hi);
        lemma_hex_char_val(lo);
        assert(a[i] == hi * 16 + lo);
    }
    assert(parsed_addr(s) =~= a);
}

} // verus!
