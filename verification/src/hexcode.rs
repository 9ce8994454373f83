//! Hexadecimal encoding and decoding over ASCII bytes.
//!
//! Secrets arrive as hex strings and key material is reported as hex;
//! both directions are implemented here and proved against the digit
//! value functions below.

use vstd::prelude::*;

verus! {

/// Value of an ASCII hex digit, or 16 when the byte is not a hex digit.
pub open spec fn nibble_val(b: u8) -> u8 {
    if 0x30 <= b && b <= 0x39 {
        (b - 0x30) as u8
    } else if 0x61 <= b && b <= 0x66 {
        (b - 0x61 + 10) as u8
    } else if 0x41 <= b && b <= 0x46 {
        (b - 0x41 + 10) as u8
    } else {
        16u8
    }
}

pub open spec fn is_hex_digit(b: u8) -> bool {
    nibble_val(b) < 16
}

/// Lowercase ASCII digit for a value below 16.
pub open spec fn hex_char(v: u8) -> u8
    recommends
        v < 16,
{
    if v < 10 {
        (0x30 + v) as u8
    } else {
        (0x61 + (v - 10)) as u8
    }
}

/// The bytes an even-length hex string stands for, two digits to a byte.
pub open spec fn hex_value(s: Seq<u8>) -> Seq<u8> {
    Seq::new((s.len() / 2) as nat, |j: int| (nibble_val(s[2 * j]) as int * 16 + nibble_val(s[2 * j + 1]) as int) as u8)
}

/// The byte sequence a hex string decodes to: sequences are related
/// pairwise, two digits to a byte.
pub open spec fn decodes_to(s: Seq<u8>, out: Seq<u8>) -> bool {
    &&& s.len() == 2 * out.len()
    &&& forall|j: int|
        0 <= j < out.len() ==> out[j] as int == nibble_val(s[2 * j]) as int * 16 + nibble_val(
            s[2 * j + 1],
        ) as int
}

fn nibble(b: u8) -> (r: u8)
    ensures
        r == nibble_val(b),
{
    if 0x30 <= b && b <= 0x39 {
        b - 0x30
    } else if 0x61 <= b && b <= 0x66 {
        b - 0x61 + 10
    } else if 0x41 <= b && b <= 0x46 {
        b - 0x41 + 10
    } else {
        16
    }
}

fn hex_digit(v: u8) -> (r: u8)
    requires
        v < 16,
    ensures
        r == hex_char(v),
{
    if v < 10 {
        0x30 + v
    } else {
        0x57 + v
    }
}

/// Decodes an ASCII hex string; `None` exactly when the length is odd
/// or some byte is not a hex digit.
pub fn hex_decode(s: &Vec<u8>) -> (r: Option<Vec<u8>>)
    ensures
        r is Some <==> (s@.len() % 2 == 0 && forall|i: int| 0 <= i < s@.len() ==> is_hex_digit(s@[i])),
        r matches Some(out) ==> decodes_to(s@, out@) && out@ == hex_value(s@),
{
    if s.len() % 2 != 0 {
        return None;
    }
    let mut out: Vec<u8> = Vec::new();
    let mut i: usize = 0;
    while i < s.len()
        invariant
            i % 2 == 0,
            i <= s@.len(),
            s@.len() % 2 == 0,
            out@.len() * 2 == i,
            forall|j: int| 0 <= j < i ==> is_hex_digit(s@[j]),
            forall|j: int|
                0 <= j < out@.len() ==> out@[j] as int == nibble_val(s@[2 * j]) as int * 16
                    + nibble_val(s@[2 * j + 1]) as int,
        decreases s@.len() - i,
    {
        let hi = nibble(s[i]);
        let lo = nibble(s[i + 1]);
        if hi == 16 || lo == 16 {
            assert(!is_hex_digit(s@[i as int]) || !is_hex_digit(s@[i + 1]));
            return None;
        }
        out.push(hi * 16 + lo);
        i = i + 2;
    }
    assert(out@ =~= hex_value(s@));
    Some(out)
}

/// Encodes bytes as lowercase ASCII hex, two digits per byte.
pub fn hex_encode(b: &Vec<u8>) -> (r: Vec<u8>)
    ensures
        r@.len() == 2 * b@.len(),
        forall|i: int|
            0 <= i < b@.len() ==> r@[2 * i] == hex_char(b@[i] / 16) && r@[2 * i + 1] == hex_char(
                b@[i] % 16,
            ),
        decodes_to(r@, b@),
{
    let mut out: Vec<u8> = Vec::new();
    let mut i: usize = 0;
    while i < b.len()
        invariant
            i <= b@.len(),
            out@.len() == 2 * i,
            forall|j: int|
                0 <= j < i ==> out@[2 * j] == hex_char(b@[j] / 16) && out@[2 * j + 1] == hex_char(
                    b@[j] % 16,
                ),
        decreases b@.len() - i,
    {
        let v = b[i];
        out.push(hex_digit(v / 16));
        out.push(hex_digit(v % 16));
        i = i + 1;
    }
    assert(decodes_to(out@, b@)) by {
        assert forall|j: int| 0 <= j < b@.len() implies b@[j] as int == nibble_val(
            out@[2 * j],
        ) as int * 16 + nibble_val(out@[2 * j + 1]) as int by {
            assert(out@[2 * j] == hex_char(b@[j] / 16));
            assert(out@[2 * j + 1] == hex_char(b@[j] % 16));
            assert(nibble_val(hex_char(b@[j] / 16)) == b@[j] / 16);
            assert(nibble_val(hex_char(b@[j] % 16)) == b@[j] % 16);
        }
    }
    out
}

} // verus!
