//! The commit identifier of a node: the first 4 bytes of a sha1 commit hash,
//! rendered as 8 lowercase hex digits and read back from the first 8 bytes
//! of a text.

use vstd::prelude::*;
use vstd::utf8::*;
use vstd::string::StringSliceAdditionalSpecFns;
use crate::text::{hex_digit, hex_digit_char, push_char};

verus! {

/// The `i`-th hex digit (most significant first, `0 <= i < 8`) of `v`.
pub open spec fn commit_nibble(v: u32, i: int) -> u32 {
    (v >> ((28 - 4 * i) as u32)) & 0xf
}

/// The value a commit renders: an absent commit renders as 0.
pub open spec fn commit_or_zero(input: Option<u32>) -> u32 {
    match input {
        Some(v) => v,
        None => 0,
    }
}

/// The rendering of a commit: exactly 8 lowercase hex digits, zero padded.
pub open spec fn commit_hex_text(input: Option<u32>) -> Seq<char> {
    Seq::new(8, |i: int| hex_digit_char(commit_nibble(commit_or_zero(input), i) as int))
}

/// Renders a commit as 8 lowercase, zero-padded hex digits (`{:08x}`);
/// `None` renders as `00000000`.
pub fn to_hex(input: &Option<u32>) -> (text: String)
    ensures
        text@ == commit_hex_text(*input),
{
    let v: u32 = match input {
        Some(x) => *x,
        None => 0,
    };
    let mut s = String::new();
    let mut i: u32 = 0;
    while i < 8
        invariant
            i <= 8,
            v == commit_or_zero(*input),
            s@ == commit_hex_text(*input).take(i as int),
        decreases 8 - i,
    {
        let shift: u32 = 28 - 4 * i;
        let d: u32 = (v >> shift) & 0xf;
        assert(d < 16) by (bit_vector)
            requires
                d == (v >> shift) & 0xf,
        ;
        let c = hex_digit(d);
        push_char(&mut s, c);
        assert(s@ =~= commit_hex_text(*input).take((i + 1) as int));
        i = i + 1;
    }
    assert(commit_hex_text(*input).take(8) =~= commit_hex_text(*input));
    s
}


/// Whether a byte is an ASCII hex digit, in either case.
pub open spec fn is_hex_digit_byte(b: u8) -> bool {
    (48 <= b <= 57) || (97 <= b <= 102) || (65 <= b <= 70)
}

/// The value of an ASCII hex digit.
pub open spec fn hex_byte_value(b: u8) -> int {
    if 48 <= b <= 57 {
        b - 48
    } else if 97 <= b <= 102 {
        b - 87
    } else {
        b - 55
    }
}

/// The number a run of hex digits denotes, most significant first.
pub open spec fn hex_digits_value(s: Seq<u8>) -> int
    decreases s.len(),
{
    if s.len() == 0 {
        0
    } else {
        hex_digits_value(s.drop_last()) * 16 + hex_byte_value(s.last())
    }
}

/// The digits of a radix-16 numeral for an unsigned type: the text with an
/// optional leading `+` removed.
pub open spec fn unsigned_numeral_digits(s: Seq<u8>) -> Seq<u8> {
    if s.len() > 0 && s[0] == 43 {
        s.drop_first()
    } else {
        s
    }
}

/// What a radix-16 parse into `u32` gives for a text: an optional `+`,
/// then one or more hex digits of either case, denoting at most `u32::MAX`.
pub open spec fn parse_hex_u32(s: Seq<u8>) -> Option<u32> {
    let digits = unsigned_numeral_digits(s);
    if digits.len() > 0 && (forall|i: int| 0 <= i < digits.len() ==> is_hex_digit_byte(#[trigger] digits[i]))
        && hex_digits_value(digits) <= u32::MAX {
        Some(hex_digits_value(digits) as u32)
    } else {
        None
    }
}

/// Why a commit text was refused.
#[derive(Debug, Clone, Copy, PartialEq, Eq)]
pub enum CommitHexError {
    /// The first 8 bytes are not a radix-16 `u32` numeral.
    InvalidHex,
}

/// What reading a commit gives for a text whose first 8 bytes end on a
/// character boundary.
pub open spec fn commit_from_text(bytes: Seq<u8>) -> Result<Option<u32>, CommitHexError> {
    match parse_hex_u32(bytes.take(8)) {
        Some(v) => Ok(Some(v)),
        None => Err(CommitHexError::InvalidHex),
    }
}

proof fn lemma_boundary_8_len(bytes: Seq<u8>)
    requires
        valid_utf8(bytes),
        is_char_boundary(bytes, 8),
    ensures
        bytes.len() >= 8,
{
}

proof fn lemma_hex_prefix(s: Seq<u8>, i: int)
    requires
        0 <= i < s.len(),
    ensures
        s.take(i + 1).drop_last() == s.take(i),
        s.take(i + 1).last() == s[i],
{
    assert(s.take(i + 1).drop_last() =~= s.take(i));
}

/// Reads a commit from a text: the first 8 bytes must be a radix-16 `u32`
/// numeral (an optional `+` then hex digits of either case); the rest of the
/// text is ignored. The caller guarantees that byte 8 is a character
/// boundary, which also means the text has at least 8 bytes.
pub fn from_hex(input: &str) -> (r: Result<Option<u32>, CommitHexError>)
    requires
        is_char_boundary(input.spec_bytes(), 8),
    ensures
        r == commit_from_text(input.spec_bytes()),
{
    let bytes = input.as_bytes();
    proof {
        encode_utf8_valid_utf8(input@);
        lemma_boundary_8_len(bytes@);
    }
    let ghost first8 = bytes@.take(8);
    let ghost digits = unsigned_numeral_digits(first8);
    let start: usize = if bytes[0] == 43u8 { 1 } else { 0 };
    assert(digits =~= first8.subrange(start as int, 8));
    if start == 8 {
        return Err(CommitHexError::InvalidHex);
    }
    let mut acc: u32 = 0;
    let mut i: usize = start;
    while i < 8
        invariant
            start <= i <= 8,
            start <= 1,
            bytes@.len() >= 8,
            first8 == bytes@.take(8),
            bytes@ == input.spec_bytes(),
            digits == first8.subrange(start as int, 8),
            digits == unsigned_numeral_digits(first8),
            forall|k: int| 0 <= k < i - start ==> is_hex_digit_byte(#[trigger] digits[k]),
            acc as int == hex_digits_value(digits.take(i - start)),
            acc < pow16((i - start) as nat),
        decreases 8 - i,
    {
        let b = bytes[i];
        let d: u32;
        if 48 <= b && b <= 57 {
            d = (b - 48) as u32;
        } else if 97 <= b && b <= 102 {
            d = (b - 87) as u32;
        } else if 65 <= b && b <= 70 {
            d = (b - 55) as u32;
        } else {
            assert(digits[i - start] == b);
            assert(!is_hex_digit_byte(digits[i - start]));
            assert(parse_hex_u32(first8) is None);
            return Err(CommitHexError::InvalidHex);
        }
        proof {
            let k = i - start;
            lemma_hex_prefix(digits, k);
            assert(pow16((k + 1) as nat) == 16 * pow16(k as nat));
            lemma_pow16_bound(k as nat);
        }
        acc = acc * 16 + d;
        i = i + 1;
    }
    assert(digits.take(8 - start) =~= digits);
    Ok(Some(acc))
}

/// `16` to the power `n`.
pub open spec fn pow16(n: nat) -> nat
    decreases n,
{
    if n == 0 {
        1
    } else {
        16 * pow16((n - 1) as nat)
    }
}

proof fn lemma_pow16_bound(n: nat)
    requires
        n < 8,
    ensures
        16 * pow16(n) <= 0x1_0000_0000,
    decreases n,
{
    reveal_with_fuel(pow16, 9);
}


proof fn lemma_nibble_bound(v: u32, i: int)
    ensures
        commit_nibble(v, i) < 16,
{
    let sh = (28 - 4 * i) as u32;
    assert((v >> sh) & 0xf < 16) by (bit_vector);
}

proof fn lemma_nibbles_compose(v: u32)
    ensures
        ((((((commit_nibble(v, 0) * 16 + commit_nibble(v, 1)) * 16 + commit_nibble(v, 2)) * 16
            + commit_nibble(v, 3)) * 16 + commit_nibble(v, 4)) * 16 + commit_nibble(v, 5)) * 16
            + commit_nibble(v, 6)) * 16 + commit_nibble(v, 7) == v,
{
    assert(((((((((v >> 28u32) & 0xf) * 16 + ((v >> 24u32) & 0xf)) * 16 + ((v >> 20u32) & 0xf))
        * 16 + ((v >> 16u32) & 0xf)) * 16 + ((v >> 12u32) & 0xf)) * 16 + ((v >> 8u32) & 0xf))
        * 16 + ((v >> 4u32) & 0xf)) * 16 + ((v >> 0u32) & 0xf) == v) by (bit_vector);
}

/// The byte of a hex digit character reads back as its value.
proof fn lemma_hex_digit_byte(n: u32)
    requires
        n < 16,
    ensures
        is_hex_digit_byte(hex_digit_char(n as int) as u8),
        hex_byte_value(hex_digit_char(n as int) as u8) == n,
        hex_digit_char(n as int) as u8 != 43,
        '\0' <= hex_digit_char(n as int) <= '\u{7f}',
{
}

/// Law: what `to_hex` renders, `from_hex` reads back. The rendering of any
/// commit has a character boundary at byte 8, and reading it gives the
/// commit; an absent commit reads back as `Some(0)`, so only `None` does
/// not survive the round trip.
pub proof fn lemma_commit_roundtrip(c: Option<u32>)
    ensures
        is_char_boundary(encode_utf8(commit_hex_text(c)), 8),
        commit_from_text(encode_utf8(commit_hex_text(c))) == Ok::<Option<u32>, CommitHexError>(Some(commit_or_zero(c))),
{
    let v = commit_or_zero(c);
    let t = commit_hex_text(c);
    assert forall|i: int| 0 <= i < 8 implies is_hex_digit_byte(#[trigger] t[i] as u8)
        && hex_byte_value(t[i] as u8) == commit_nibble(v, i) && t[i] as u8 != 43
        && '\0' <= t[i] <= '\u{7f}' by {
        lemma_nibble_bound(v, i);
        lemma_hex_digit_byte(commit_nibble(v, i));
    }
    assert(is_ascii_chars(t));
    is_ascii_chars_encode_utf8(t);
    let b = encode_utf8(t);
    encode_utf8_valid_utf8(t);
    is_char_boundary_start_end_of_seq(b);
    assert(b.len() == 8);
    assert(b.take(8) =~= b);
    assert(unsigned_numeral_digits(b) == b);
    assert forall|i: int| 0 <= i < b.len() implies is_hex_digit_byte(#[trigger] b[i]) by {
        assert(t[i] as u8 == b[i]);
    }
    assert forall|i: int| 0 <= i < 8 implies hex_byte_value(#[trigger] b[i]) == commit_nibble(v, i) by {
        assert(t[i] as u8 == b[i]);
    }
    assert(hex_digits_value(b) == v) by {
        reveal_with_fuel(hex_digits_value, 9);
        assert(b.drop_last() =~= b.take(7));
        assert(b.take(7).drop_last() =~= b.take(6));
        assert(b.take(6).drop_last() =~= b.take(5));
        assert(b.take(5).drop_last() =~= b.take(4));
        assert(b.take(4).drop_last() =~= b.take(3));
        assert(b.take(3).drop_last() =~= b.take(2));
        assert(b.take(2).drop_last() =~= b.take(1));
        assert(b.take(1).drop_last() =~= b.take(0));
        lemma_nibbles_compose(v);
    }
}


/// Law: reading a commit looks at the first 8 bytes only; two texts that
/// agree on them read the same.
pub proof fn lemma_commit_reads_first_eight_bytes(a: Seq<u8>, b: Seq<u8>)
    requires
        a.len() >= 8,
        b.len() >= 8,
        a.take(8) == b.take(8),
    ensures
        commit_from_text(a) == commit_from_text(b),
{
}

/// Law: a rendered commit is always 8 characters, each a lowercase hex
/// digit.
pub proof fn lemma_commit_text_shape(c: Option<u32>)
    ensures
        commit_hex_text(c).len() == 8,
        forall|i: int| 0 <= i < 8 ==> {
            let ch = #[trigger] commit_hex_text(c)[i];
            ('0' <= ch <= '9') || ('a' <= ch <= 'f')
        },
{
    assert forall|i: int| 0 <= i < 8 implies {
        let ch = #[trigger] commit_hex_text(c)[i];
        ('0' <= ch <= '9') || ('a' <= ch <= 'f')
    } by {
        lemma_nibble_bound(commit_or_zero(c), i);
    }
}

/// Law: the rendering writes each hex digit in the standard way. The `i`-th
/// character stands for the `i`-th 4-bit group of the commit (most
/// significant first): a group `n` below 10 is the character `'0' + n`, a
/// larger one the character `'a' + n - 10`.
pub proof fn lemma_commit_text_standard_hex(c: Option<u32>)
    ensures
        forall|i: int| 0 <= i < 8 ==> {
            let ch = #[trigger] commit_hex_text(c)[i];
            let n = ((commit_or_zero(c) >> ((28 - 4 * i) as u32)) & 0xf) as int;
            ||| ('0' <= ch <= '9' && ch as int - 48 == n)
            ||| ('a' <= ch <= 'f' && ch as int - 87 == n)
        },
{
    assert forall|i: int| 0 <= i < 8 implies {
        let ch = #[trigger] commit_hex_text(c)[i];
        let n = ((commit_or_zero(c) >> ((28 - 4 * i) as u32)) & 0xf) as int;
        ||| ('0' <= ch <= '9' && ch as int - 48 == n)
        ||| ('a' <= ch <= 'f' && ch as int - 87 == n)
    } by {
        lemma_nibble_bound(commit_or_zero(c), i);
    }
}

/// Law: eight hex digits of either case, in the standard meaning, are read
/// as the number they denote in base 16, most significant first.
pub proof fn lemma_commit_reads_standard_hex(b: Seq<u8>)
    requires
        b.len() >= 8,
        forall|i: int| 0 <= i < 8 ==> {
            let x = #[trigger] b[i];
            (48 <= x <= 57) || (65 <= x <= 70) || (97 <= x <= 102)
        },
    ensures
        ({
            let d = |i: int| if b[i] <= 57 { b[i] - 48 } else if b[i] <= 70 { b[i] - 55 } else { b[i] - 87 };
            let v = ((((((d(0) * 16 + d(1)) * 16 + d(2)) * 16 + d(3)) * 16 + d(4)) * 16 + d(5)) * 16
                + d(6)) * 16 + d(7);
            0 <= v <= u32::MAX && commit_from_text(b) == Ok::<Option<u32>, CommitHexError>(Some(v as u32))
        }),
{
    let t = b.take(8);
    let d = |i: int| if b[i] <= 57 { b[i] - 48 } else if b[i] <= 70 { b[i] - 55 } else { b[i] - 87 };
    assert(t[0] == b[0]);
    assert(unsigned_numeral_digits(t) == t);
    assert forall|i: int| 0 <= i < t.len() implies is_hex_digit_byte(#[trigger] t[i])
        && hex_byte_value(t[i]) == d(i) && 0 <= d(i) < 16 by {
        assert(t[i] == b[i]);
    }
    assert(hex_digits_value(t) == ((((((d(0) * 16 + d(1)) * 16 + d(2)) * 16 + d(3)) * 16 + d(4)) * 16
        + d(5)) * 16 + d(6)) * 16 + d(7)) by {
        reveal_with_fuel(hex_digits_value, 9);
        assert(t.drop_last() =~= t.take(7));
        assert(t.take(7).drop_last() =~= t.take(6));
        assert(t.take(6).drop_last() =~= t.take(5));
        assert(t.take(5).drop_last() =~= t.take(4));
        assert(t.take(4).drop_last() =~= t.take(3));
        assert(t.take(3).drop_last() =~= t.take(2));
        assert(t.take(2).drop_last() =~= t.take(1));
        assert(t.take(1).drop_last() =~= t.take(0));
        assert(t[0] == b[0] && t[1] == b[1] && t[2] == b[2] && t[3] == b[3]);
        assert(t[4] == b[4] && t[5] == b[5] && t[6] == b[6] && t[7] == b[7]);
    }
    assert(0 <= d(0) < 16 && 0 <= d(1) < 16 && 0 <= d(2) < 16 && 0 <= d(3) < 16);
    assert(0 <= d(4) < 16 && 0 <= d(5) < 16 && 0 <= d(6) < 16 && 0 <= d(7) < 16);
    let v = ((((((d(0) * 16 + d(1)) * 16 + d(2)) * 16 + d(3)) * 16 + d(4)) * 16 + d(5)) * 16 + d(6))
        * 16 + d(7);
    assert(0 <= v <= u32::MAX);
}

proof fn lemma_hex_value_lowercase(s: Seq<u8>, l: Seq<u8>)
    requires
        s.len() == l.len(),
        forall|i: int| 0 <= i < s.len() ==> is_hex_digit_byte(#[trigger] s[i]),
        forall|i: int| 0 <= i < s.len() ==> #[trigger] l[i] == (if 65 <= s[i] <= 90 { (s[i] + 32) as u8 } else { s[i] }),
    ensures
        hex_digits_value(s) == hex_digits_value(l),
    decreases s.len(),
{
    if s.len() > 0 {
        let k = s.len() - 1;
        assert(l[k] == (if 65 <= s[k] <= 90 { (s[k] + 32) as u8 } else { s[k] }));
        assert(is_hex_digit_byte(s[k]));
        lemma_hex_value_lowercase(s.drop_last(), l.drop_last());
    }
}

/// Law: reading a commit does not depend on letter case. A text reads the
/// same as the text with its ASCII capitals turned into small letters.
pub proof fn lemma_commit_case_insensitive(b: Seq<u8>, l: Seq<u8>)
    requires
        b.len() >= 8,
        l.len() == b.len(),
        forall|i: int| 0 <= i < b.len() ==> #[trigger] l[i] == (if 65 <= b[i] <= 90 { (b[i] + 32) as u8 } else { b[i] }),
    ensures
        commit_from_text(b) == commit_from_text(l),
{
    let tb = b.take(8);
    let tl = l.take(8);
    assert(tb[0] == b[0] && tl[0] == l[0]);
    assert(l[0] == (if 65 <= b[0] <= 90 { (b[0] + 32) as u8 } else { b[0] }));
    let db = unsigned_numeral_digits(tb);
    let dl = unsigned_numeral_digits(tl);
    assert(db.len() == dl.len());
    assert forall|i: int| 0 <= i < db.len() implies #[trigger] dl[i] == (if 65 <= db[i] <= 90 { (db[i] + 32) as u8 } else { db[i] }) by {
        if tb[0] == 43 {
            assert(db[i] == b[i + 1] && dl[i] == l[i + 1]);
        } else {
            assert(db[i] == b[i] && dl[i] == l[i]);
        }
    }
    assert forall|i: int| 0 <= i < db.len() implies (is_hex_digit_byte(#[trigger] db[i]) <==> is_hex_digit_byte(dl[i])) by {
    }
    if forall|i: int| 0 <= i < db.len() ==> is_hex_digit_byte(#[trigger] db[i]) {
        lemma_hex_value_lowercase(db, dl);
    } else {
        let j = choose|j: int| 0 <= j < db.len() && !is_hex_digit_byte(#[trigger] db[j]);
        assert(!is_hex_digit_byte(dl[j]));
    }
}

} // verus!
