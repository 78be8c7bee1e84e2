//! UTF-16 text helpers: encoding strings into wide (16-bit) unit buffers
//! with a terminating zero, and decoding wide buffers back into strings,
//! replacing every lone surrogate with the replacement character.

use vstd::prelude::*;
use vstd::string::StrSliceExecFns;

verus! {

/// The UTF-16 code units that encode one character: the code point itself
/// below `0x10000`, else a high/low surrogate pair.
pub open spec fn spec_utf16_units(c: char) -> Seq<u16> {
    let u = c as u32;
    if u < 0x10000 {
        seq![u as u16]
    } else {
        seq![
            ((0xD800 + (u - 0x10000) / 0x400) as u16),
            ((0xDC00 + (u - 0x10000) % 0x400) as u16),
        ]
    }
}

/// The UTF-16 encoding of a character sequence.
pub open spec fn spec_utf16_encode(s: Seq<char>) -> Seq<u16>
    decreases s.len(),
{
    if s.len() == 0 {
        Seq::<u16>::empty()
    } else {
        spec_utf16_units(s[0]) + spec_utf16_encode(s.drop_first())
    }
}

/// Lossy UTF-16 decoding: a non-surrogate unit is its own code point, a
/// high surrogate followed by a low surrogate combines into one
/// supplementary code point, and any lone surrogate becomes the
/// replacement character.
pub open spec fn spec_utf16_lossy(s: Seq<u16>) -> Seq<char>
    decreases s.len(),
{
    if s.len() == 0 {
        Seq::<char>::empty()
    } else {
        let u = s[0];
        if u < 0xD800 || u >= 0xE000 {
            seq![((u as u32) as char)] + spec_utf16_lossy(s.drop_first())
        } else if u < 0xDC00 && s.len() >= 2 && 0xDC00 <= s[1] < 0xE000 {
            seq![
                ((0x10000 + (u - 0xD800) * 0x400 + (s[1] - 0xDC00)) as u32 as char),
            ] + spec_utf16_lossy(s.skip(2))
        } else {
            seq!['\u{FFFD}'] + spec_utf16_lossy(s.drop_first())
        }
    }
}

/// Relies on `char::from_u32`, which its documentation pins down exactly:
/// every code point except the surrogate range and values above the
/// scalar maximum converts, to the character of that code point.
pub assume_specification[ char::from_u32 ](i: u32) -> (r: Option<char>)
    ensures
        (i < 0xD800 || (0xE000 <= i && i <= 0x10FFFF)) <==> r is Some,
        r matches Some(c) ==> c as u32 == i,
;

/// Relies on `String`'s `FromIterator` over characters: collecting
/// characters yields the string of exactly those characters.
#[verifier::external_body]
fn string_from_chars(chars: &Vec<char>) -> (r: String)
    ensures
        r@ == chars@,
{
    chars.iter().collect()
}

/// Decodes a wide buffer into a string, one character per non-surrogate
/// unit or surrogate pair, with the replacement character standing in for
/// every lone surrogate.
pub fn wide_to_str(buf: &Vec<u16>) -> (r: String)
    ensures
        r@ == spec_utf16_lossy(buf@),
{
    let mut chars: Vec<char> = Vec::new();
    let mut i: usize = 0;
    proof {
        assert(buf@.skip(0) =~= buf@);
    }
    while i < buf.len()
        invariant
            0 <= i <= buf@.len(),
            chars@ + spec_utf16_lossy(buf@.skip(i as int)) == spec_utf16_lossy(buf@),
        decreases buf@.len() - i,
    {
        let ghost rest = buf@.skip(i as int);
        proof {
            assert(rest[0] == buf@[i as int]);
        }
        let u = buf[i];
        if u < 0xD800 || u >= 0xE000 {
            let c = char::from_u32(u as u32).unwrap();
            proof {
                vstd::utf8::char_u32_cast(c, u as u32);
                assert(rest.drop_first() =~= buf@.skip(i + 1));
                assert(chars@.push(c) + spec_utf16_lossy(buf@.skip(i + 1)) =~= chars@ + (seq![c]
                    + spec_utf16_lossy(buf@.skip(i + 1))));
            }
            chars.push(c);
            i = i + 1;
        } else {
            let mut pair_low: u16 = 0;
            let mut have_pair = false;
            if u < 0xDC00 && i + 1 < buf.len() {
                let v = buf[i + 1];
                if 0xDC00 <= v && v < 0xE000 {
                    pair_low = v;
                    have_pair = true;
                }
            }
            if have_pair {
                proof {
                    assert(rest.len() >= 2);
                    assert(rest[1] == buf@[i + 1]);
                }
                let scalar: u32 = 0x10000 + ((u - 0xD800) as u32) * 0x400 + ((pair_low
                    - 0xDC00) as u32);
                assert(0x10000 <= scalar <= 0x10FFFF);
                let c = char::from_u32(scalar).unwrap();
                proof {
                    vstd::utf8::char_u32_cast(c, scalar);
                    assert(rest.skip(2) =~= buf@.skip(i + 2));
                    assert(chars@.push(c) + spec_utf16_lossy(buf@.skip(i + 2)) =~= chars@ + (
                    seq![c] + spec_utf16_lossy(buf@.skip(i + 2))));
                }
                chars.push(c);
                i = i + 2;
            } else {
                let c = '\u{FFFD}';
                proof {
                    assert(rest.drop_first() =~= buf@.skip(i + 1));
                    assert(chars@.push(c) + spec_utf16_lossy(buf@.skip(i + 1)) =~= chars@ + (
                    seq![c] + spec_utf16_lossy(buf@.skip(i + 1))));
                }
                chars.push(c);
                i = i + 1;
            }
        }
    }
    proof {
        assert(buf@.skip(i as int).len() == 0);
        assert(chars@ + spec_utf16_lossy(buf@.skip(i as int)) =~= chars@);
    }
    string_from_chars(&chars)
}

/// Encodes a string into a wide buffer: the UTF-16 units of its
/// characters, with a terminating zero unit appended.
pub fn str_to_wide(string: &str) -> (r: Vec<u16>)
    ensures
        r@ == spec_utf16_encode(string@).push(0u16),
{
    let n = string.unicode_len();
    let mut out: Vec<u16> = Vec::new();
    let mut i: usize = 0;
    proof {
        assert(string@.skip(0) =~= string@);
        assert(out@ + spec_utf16_encode(string@) =~= spec_utf16_encode(string@));
    }
    while i < n
        invariant
            0 <= i <= n,
            n == string@.len(),
            out@ + spec_utf16_encode(string@.skip(i as int)) == spec_utf16_encode(string@),
        decreases n - i,
    {
        let ghost rest = string@.skip(i as int);
        let c = string.get_char(i);
        proof {
            assert(rest[0] == string@[i as int]);
            assert(rest.drop_first() =~= string@.skip(i + 1));
            vstd::utf8::char_is_scalar(c);
        }
        let u = c as u32;
        if u < 0x10000 {
            proof {
                assert(out@.push(u as u16) + spec_utf16_encode(string@.skip(i + 1)) =~= out@ + (
                spec_utf16_units(c) + spec_utf16_encode(string@.skip(i + 1))));
            }
            out.push(u as u16);
        } else {
            let v = u - 0x10000;
            proof {
                assert(v / 0x400 <= 0x3FF) by (nonlinear_arith)
                    requires
                        v <= 0xFFFFF,
                ;
                assert(v % 0x400 <= 0x3FF) by (nonlinear_arith);
            }
            let hi: u16 = (0xD800 + (v / 0x400)) as u16;
            let lo: u16 = (0xDC00 + (v % 0x400)) as u16;
            proof {
                assert(out@.push(hi).push(lo) + spec_utf16_encode(string@.skip(i + 1)) =~= out@
                    + (spec_utf16_units(c) + spec_utf16_encode(string@.skip(i + 1))));
            }
            out.push(hi);
            out.push(lo);
        }
        i = i + 1;
    }
    proof {
        assert(string@.skip(i as int).len() == 0);
        assert(out@ + spec_utf16_encode(string@.skip(i as int)) =~= out@);
    }
    out.push(0);
    out
}

} // verus!
