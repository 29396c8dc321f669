//! UTF-16 text: encoding strings for the operating system, and decoding the
//! little-endian UTF-16 that is read out of another process.
use vstd::prelude::*;

verus! {

/// The UTF-16 code units of one character: itself below U+10000, else a
/// surrogate pair.
pub open spec fn utf16_of_char(c: char) -> Seq<u16> {
    let v = c as u32;
    if v < 0x10000 {
        seq![v as u16]
    } else {
        seq![(0xD800 + (v - 0x10000) / 1024) as u16, (0xDC00 + (v - 0x10000) % 1024) as u16]
    }
}

/// The UTF-16 encoding of a character sequence.
pub open spec fn utf16_of(s: Seq<char>) -> Seq<u16>
    decreases s.len(),
{
    if s.len() == 0 {
        seq![]
    } else {
        utf16_of(s.drop_last()) + utf16_of_char(s.last())
    }
}

pub open spec fn is_high_surrogate(u: u16) -> bool {
    0xD800 <= u < 0xDC00
}

pub open spec fn is_low_surrogate(u: u16) -> bool {
    0xDC00 <= u <= 0xDFFF
}

/// Lossy UTF-16 decoding: a high surrogate followed by a low one is one
/// character; any other surrogate becomes U+FFFD and decoding goes on with the
/// unit after it.
pub open spec fn utf16_lossy(units: Seq<u16>) -> Seq<char>
    decreases units.len(),
{
    if units.len() == 0 {
        seq![]
    } else {
        let u = units[0];
        if is_high_surrogate(u) && units.len() >= 2 && is_low_surrogate(units[1]) {
            let v: int = 0x10000 + (u - 0xD800) * 1024 + (units[1] - 0xDC00);
            seq![v as char] + utf16_lossy(units.skip(2))
        } else if is_high_surrogate(u) || is_low_surrogate(u) {
            seq!['\u{FFFD}'] + utf16_lossy(units.skip(1))
        } else {
            seq![u as char] + utf16_lossy(units.skip(1))
        }
    }
}

/// The code units that a little-endian byte sequence holds; an odd last byte
/// is no unit.
pub open spec fn units_le(bytes: Seq<u8>) -> Seq<u16> {
    Seq::new(bytes.len() / 2, |i: int| (bytes[2 * i] + 256 * bytes[2 * i + 1]) as u16)
}

/// The UTF-16 form of `s` followed by a terminating zero, as wide-character
/// system calls take a string.
pub fn to_wide_chars(s: &str) -> (v: Vec<u16>)
    ensures
        v@ == utf16_of(s@).push(0),
{
    broadcast use vstd::string::group_string_axioms;

    let mut v: Vec<u16> = Vec::new();
    let ghost mut done: Seq<char> = seq![];
    for c in it: s.chars()
        invariant
            it.seq() == s@,
            done == it.seq().take(it.index() as int),
            v@ == utf16_of(done),
    {
        let x = c as u32;
        if x < 0x10000 {
            v.push(x as u16);
        } else {
            v.push((0xD800 + (x - 0x10000) / 1024) as u16);
            v.push((0xDC00 + (x - 0x10000) % 1024) as u16);
        }
        proof {
            assert(done.push(c).drop_last() =~= done);
            assert(v@ =~= utf16_of(done) + utf16_of_char(c));
            done = done.push(c);
            assert(done =~= it.seq().take(it.index() + 1));
        }
    }
    assert(done =~= s@);
    v.push(0);
    v
}

/// The code units held in little-endian `bytes`, two bytes each.
pub fn units_from_le_bytes(bytes: &[u8]) -> (units: Vec<u16>)
    ensures
        units@ == units_le(bytes@),
{
    let len = bytes.len();
    let n = len / 2;
    let mut units: Vec<u16> = Vec::new();
    let mut i: usize = 0;
    while i < n
        invariant
            len == bytes@.len(),
            n == len / 2,
            i <= n,
            units@ =~= units_le(bytes@).take(i as int),
        decreases n - i,
    {
        let u = bytes[2 * i] as u16 + 256 * (bytes[2 * i + 1] as u16);
        units.push(u);
        i = i + 1;
    }
    proof {
        assert(units_le(bytes@).take(n as int) =~= units_le(bytes@));
    }
    units
}

/// Relies on `String::from_utf16_lossy`: it decodes UTF-16, putting U+FFFD
/// for each unpaired surrogate.
#[verifier::external_body]
pub(crate) fn decode_utf16_lossy(units: &[u16]) -> (s: String)
    ensures
        s@ == utf16_lossy(units@),
{
    String::from_utf16_lossy(units)
}

} // verus!
