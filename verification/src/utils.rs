//! Helpers shared by the services: bytes written as hexadecimal text.

pub mod rothschild;

use crate::text::{
    in_class, lemma_lead_run_is, lemma_trail_run_is, strip_end, strip_start, trim, CharClass,
};
use vstd::prelude::*;

verus! {

/// Why a text is not the hexadecimal form of any bytes.
#[derive(Clone, Copy, Debug, PartialEq, Eq, Structural)]
pub enum HexError {
    /// The text is an odd number of bytes long. The number held is that
    /// of the bytes that stand in pairs: one less than the length.
    OddLength(usize),
    /// A character of the text is no hexadecimal digit.
    BadDigit,
}

/// Number of bytes that a character takes in UTF-8.
pub open spec fn utf8_len(c: char) -> nat {
    let n = c as u32;
    if n < 0x80 {
        1
    } else if n < 0x800 {
        2
    } else if n < 0x1_0000 {
        3
    } else {
        4
    }
}

/// Number of bytes that a text takes in UTF-8.
pub open spec fn byte_len(s: Seq<char>) -> nat
    decreases s.len(),
{
    if s.len() == 0 {
        0
    } else {
        byte_len(s.drop_last()) + utf8_len(s.last())
    }
}

/// The value of a hexadecimal digit, written in either case.
pub open spec fn nibble(c: char) -> Option<nat> {
    let n = c as u32;
    if 0x30 <= n && n <= 0x39 {
        Some((n - 0x30) as nat)
    } else if 0x61 <= n && n <= 0x66 {
        Some((n - 0x61 + 10) as nat)
    } else if 0x41 <= n && n <= 0x46 {
        Some((n - 0x41 + 10) as nat)
    } else {
        None
    }
}

/// Whether every character of `s` is a hexadecimal digit.
pub open spec fn all_hex(s: Seq<char>) -> bool {
    forall|i: int| 0 <= i < s.len() ==> (#[trigger] nibble(s[i])) is Some
}

/// The byte that two hexadecimal digits spell, the high one first.
pub open spec fn byte_of(high: char, low: char) -> u8
    recommends
        nibble(high) is Some,
        nibble(low) is Some,
{
    (nibble(high).unwrap() * 16 + nibble(low).unwrap()) as u8
}

/// The bytes that the digits of `s` spell, two digits to a byte.
pub open spec fn hex_bytes(s: Seq<char>) -> Seq<u8> {
    Seq::new((s.len() / 2) as nat, |i: int| byte_of(s[2 * i], s[2 * i + 1]))
}

/// A number as the machine holds it: itself, or the largest number of
/// the machine where it is larger.
pub open spec fn capped(n: nat) -> usize {
    if n <= usize::MAX {
        n as usize
    } else {
        usize::MAX
    }
}

/// The bytes that `s` is the hexadecimal form of. The empty text stands
/// for no bytes.
pub open spec fn decoded(s: Seq<char>) -> Result<Seq<u8>, HexError> {
    if byte_len(s) % 2 == 1 {
        Err(HexError::OddLength(capped((byte_len(s) - 1) as nat)))
    } else if !all_hex(s) {
        Err(HexError::BadDigit)
    } else {
        Ok(hex_bytes(s))
    }
}

/// The lower-case hexadecimal digit for a value below sixteen.
pub open spec fn hex_digit(n: nat) -> char
    recommends
        n < 16,
{
    if n < 10 {
        ((0x30 + n) as u8) as char
    } else {
        ((0x61 + n - 10) as u8) as char
    }
}

/// The hexadecimal form of `b`: two lower-case digits to a byte, the high
/// one first.
pub open spec fn hex_text(b: Seq<u8>) -> Seq<char> {
    Seq::new(
        2 * b.len(),
        |i: int|
            if i % 2 == 0 {
                hex_digit((b[i / 2] / 16) as nat)
            } else {
                hex_digit((b[i / 2] % 16) as nat)
            },
    )
}

/// A text of hexadecimal digits takes one byte for each character.
pub proof fn lemma_hex_is_ascii(s: Seq<char>)
    requires
        all_hex(s),
    ensures
        byte_len(s) == s.len(),
    decreases s.len(),
{
    if s.len() > 0 {
        let t = s.drop_last();
        assert forall|i: int| 0 <= i < t.len() implies (#[trigger] nibble(t[i])) is Some by {
            assert(t[i] == s[i]);
        }
        lemma_hex_is_ascii(t);
        assert(nibble(s[s.len() - 1]) is Some);
    }
}

/// The digit for a value below sixteen spells that value.
pub proof fn lemma_hex_digit_value(n: nat)
    requires
        n < 16,
    ensures
        nibble(hex_digit(n)) == Some(n),
        !in_class(CharClass::Space, hex_digit(n)),
{
}

/// Decoding undoes encoding: the hexadecimal form of any bytes stands
/// for those bytes, and has no white space to trim.
pub proof fn lemma_hex_round_trip(b: Seq<u8>)
    ensures
        decoded(hex_text(b)) == Ok::<Seq<u8>, HexError>(b),
        trim(hex_text(b)) == hex_text(b),
        hex_text(b).len() == 2 * b.len(),
{
    let s = hex_text(b);
    assert forall|i: int| 0 <= i < s.len() implies (#[trigger] nibble(s[i])) is Some && !in_class(
        CharClass::Space,
        s[i],
    ) by {
        lemma_hex_digit_value((b[i / 2] / 16) as nat);
        lemma_hex_digit_value((b[i / 2] % 16) as nat);
    }
    lemma_hex_is_ascii(s);
    assert(hex_bytes(s) =~= b) by {
        assert forall|k: int| 0 <= k < b.len() implies hex_bytes(s)[k] == b[k] by {
            lemma_hex_digit_value((b[k] / 16) as nat);
            lemma_hex_digit_value((b[k] % 16) as nat);
            assert(s[2 * k] == hex_digit((b[(2 * k) / 2] / 16) as nat));
            assert(s[2 * k + 1] == hex_digit((b[(2 * k + 1) / 2] % 16) as nat));
        }
    }
    lemma_lead_run_is(s, CharClass::Space, 0);
    assert(strip_start(s, CharClass::Space) =~= s);
    lemma_trail_run_is(s, CharClass::Space, 0);
    assert(strip_end(s, CharClass::Space) =~= s);
}

/// The value of a hexadecimal digit, written in either case.
pub fn nibble_of(c: char) -> (r: Option<u8>)
    ensures
        match r {
            Some(n) => nibble(c) == Some(n as nat),
            None => nibble(c) is None,
        },
{
    let n: u32 = c as u32;
    if 0x30 <= n && n <= 0x39 {
        Some((n - 0x30) as u8)
    } else if 0x61 <= n && n <= 0x66 {
        Some((n - 0x61 + 10) as u8)
    } else if 0x41 <= n && n <= 0x46 {
        Some((n - 0x41 + 10) as u8)
    } else {
        None
    }
}

/// The length of `v` in UTF-8: whether it is odd, and the number of
/// bytes, or `None` where the machine cannot hold that number.
fn byte_count(v: &Vec<char>) -> (r: (bool, Option<usize>))
    ensures
        r.0 == (byte_len(v@) % 2 == 1),
        match r.1 {
            Some(n) => n == byte_len(v@),
            None => byte_len(v@) > usize::MAX,
        },
{
    let mut odd = false;
    let mut count: Option<usize> = Some(0);
    let mut i: usize = 0;
    while i < v.len()
        invariant
            i <= v.len(),
            odd == (byte_len(v@.take(i as int)) % 2 == 1),
            match count {
                Some(n) => n == byte_len(v@.take(i as int)),
                None => byte_len(v@.take(i as int)) > usize::MAX,
            },
        decreases v.len() - i,
    {
        let n: u32 = v[i] as u32;
        let width: usize = if n < 0x80 {
            1
        } else if n < 0x800 {
            2
        } else if n < 0x1_0000 {
            3
        } else {
            4
        };
        proof {
            let t = v@.take(i + 1);
            assert(t.drop_last() =~= v@.take(i as int));
            assert(t.last() == v@[i as int]);
            assert(width == utf8_len(v@[i as int]));
        }
        if width == 1 || width == 3 {
            odd = !odd;
        }
        count = match count {
            Some(c) => if c <= usize::MAX - width {
                Some(c + width)
            } else {
                None
            },
            None => None,
        };
        i = i + 1;
    }
    assert(v@.take(v.len() as int) =~= v@);
    (odd, count)
}

/// The position of the first character of `v` that is no hexadecimal
/// digit.
fn first_bad_digit(v: &Vec<char>) -> (r: Option<usize>)
    ensures
        r is None <==> all_hex(v@),
        r matches Some(i) ==> i < v.len() && nibble(v@[i as int]) is None,
{
    let mut i: usize = 0;
    while i < v.len()
        invariant
            i <= v.len(),
            forall|k: int| 0 <= k < i ==> (#[trigger] nibble(v@[k])) is Some,
        decreases v.len() - i,
    {
        if nibble_of(v[i]).is_none() {
            return Some(i);
        }
        i = i + 1;
    }
    None
}

/// Decodes hexadecimal text, in either case, into the bytes it stands
/// for.
pub fn decode_hex(v: &Vec<char>) -> (r: Result<Vec<u8>, HexError>)
    ensures
        match r {
            Ok(b) => decoded(v@) == Ok::<Seq<u8>, HexError>(b@),
            Err(e) => decoded(v@) == Err::<Seq<u8>, HexError>(e),
        },
{
    let (odd, count) = byte_count(v);
    if odd {
        return match count {
            Some(n) => Err(HexError::OddLength(n - 1)),
            None => Err(HexError::OddLength(usize::MAX)),
        };
    }
    if first_bad_digit(v).is_some() {
        return Err(HexError::BadDigit);
    }
    proof {
        lemma_hex_is_ascii(v@);
    }
    let count: usize = v.len() / 2;
    let mut out: Vec<u8> = Vec::new();
    let mut i: usize = 0;
    while i < count
        invariant
            i <= count,
            count == v.len() / 2,
            all_hex(v@),
            out@ == hex_bytes(v@).take(i as int),
        decreases count - i,
    {
        let high = nibble_of(v[2 * i]);
        let low = nibble_of(v[2 * i + 1]);
        match (high, low) {
            (Some(h), Some(l)) => {
                out.push(h * 16 + l);
                assert(out@ =~= hex_bytes(v@).take(i + 1));
            },
            _ => {
                assert(nibble(v@[2 * i]) is Some);
                assert(nibble(v@[2 * i + 1]) is Some);
                assert(false);
            },
        }
        i = i + 1;
    }
    assert(hex_bytes(v@).take(count as int) =~= hex_bytes(v@));
    Ok(out)
}

/// The lower-case hexadecimal digit for a value below sixteen.
fn hex_digit_of(n: u8) -> (c: char)
    requires
        n < 16,
    ensures
        c == hex_digit(n as nat),
{
    if n < 10 {
        (0x30 + n) as char
    } else {
        (0x61 + n - 10) as char
    }
}

/// Encodes bytes as lower-case hexadecimal text.
pub fn encode_hex(b: &Vec<u8>) -> (r: Vec<char>)
    ensures
        r@ == hex_text(b@),
{
    let mut out: Vec<char> = Vec::new();
    let mut i: usize = 0;
    while i < b.len()
        invariant
            i <= b.len(),
            out@ == hex_text(b@.take(i as int)),
        decreases b.len() - i,
    {
        let byte: u8 = b[i];
        out.push(hex_digit_of(byte / 16));
        out.push(hex_digit_of(byte % 16));
        proof {
            let before = b@.take(i as int);
            let after = b@.take(i + 1);
            assert(after =~= before.push(byte));
            assert(out@ =~= hex_text(after)) by {
                assert forall|k: int| 0 <= k < 2 * after.len() implies out@[k] == hex_text(
                    after,
                )[k] by {
                    if k < 2 * before.len() {
                        assert(out@[k] == hex_text(before)[k]);
                        assert(after[k / 2] == before[k / 2]);
                    }
                }
            }
        }
        i = i + 1;
    }
    assert(b@.take(b.len() as int) =~= b@);
    out
}

} // verus!
