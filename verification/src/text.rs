//! Character-level building blocks: hex digits, decimal numerals and
//! whitespace, each with a specification over `Seq<char>`.

use vstd::prelude::*;

verus! {

/// Appends one character to a string (`String::push`).
#[verifier::external_body]
pub(crate) fn push_char(s: &mut String, c: char)
    ensures
        final(s)@ == old(s)@.push(c),
{
    s.push(c);
}

/// The lowercase hexadecimal digit for a value below 16.
pub open spec fn hex_digit_char(d: int) -> char {
    if d < 10 {
        (('0' as int) + d) as char
    } else {
        (('a' as int) + d - 10) as char
    }
}

/// Lowercase hex digit for the nibble `d`.
pub fn hex_digit(d: u32) -> (c: char)
    requires
        d < 16,
    ensures
        c == hex_digit_char(d as int),
{
    if d < 10 {
        ((48 + d) as u8) as char
    } else {
        ((87 + d) as u8) as char
    }
}


/// The decimal digit character for a value below 10.
pub open spec fn decimal_digit_char(d: nat) -> char {
    ((('0' as int) + d) as char)
}

/// The decimal numeral of `n`, without sign or leading zeros (`"0"` for 0).
pub open spec fn decimal_text(n: nat) -> Seq<char>
    decreases n,
{
    if n < 10 {
        seq![decimal_digit_char(n)]
    } else {
        decimal_text(n / 10).push(decimal_digit_char(n % 10))
    }
}

/// Appends the decimal numeral of `n` to `s`.
pub fn push_decimal(s: &mut String, n: u64)
    ensures
        final(s)@ == old(s)@ + decimal_text(n as nat),
    decreases n,
{
    if n >= 10 {
        push_decimal(s, n / 10);
    }
    let d: u8 = (n % 10) as u8;
    push_char(s, (48u8 + d) as char);
    assert(s@ =~= old(s)@ + decimal_text(n as nat));
}


/// Unicode `White_Space`: the characters that `char::is_whitespace` accepts.
pub open spec fn is_white_space(c: char) -> bool {
    ||| '\u{9}' <= c <= '\u{d}'
    ||| c == ' '
    ||| c == '\u{85}'
    ||| c == '\u{a0}'
    ||| c == '\u{1680}'
    ||| '\u{2000}' <= c <= '\u{200a}'
    ||| c == '\u{2028}'
    ||| c == '\u{2029}'
    ||| c == '\u{202f}'
    ||| c == '\u{205f}'
    ||| c == '\u{3000}'
}

/// Whether `c` is a Unicode whitespace character.
pub fn is_white_space_char(c: char) -> (b: bool)
    ensures
        b == is_white_space(c),
{
    ('\u{9}' <= c && c <= '\u{d}') || c == ' ' || c == '\u{85}' || c == '\u{a0}' || c == '\u{1680}'
        || ('\u{2000}' <= c && c <= '\u{200a}') || c == '\u{2028}' || c == '\u{2029}' || c
        == '\u{202f}' || c == '\u{205f}' || c == '\u{3000}'
}

/// `s[start..end]` is the first whitespace-separated word of `s`: only
/// whitespace comes before it, it holds no whitespace, and it is followed
/// by whitespace or by the end of `s`.
pub open spec fn is_first_word(s: Seq<char>, start: int, end: int) -> bool {
    &&& 0 <= start < end <= s.len()
    &&& forall|k: int| 0 <= k < start ==> is_white_space(#[trigger] s[k])
    &&& forall|k: int| start <= k < end ==> !is_white_space(#[trigger] s[k])
    &&& (end == s.len() || is_white_space(s[end]))
}

/// Whether `s` holds only whitespace (or nothing).
pub open spec fn all_white_space(s: Seq<char>) -> bool {
    forall|k: int| 0 <= k < s.len() ==> is_white_space(#[trigger] s[k])
}

/// The first whitespace-separated word of `s`, or all of `s` where it holds
/// no word.
pub fn first_word_or_all(s: &str) -> (r: String)
    ensures
        all_white_space(s@) ==> r@ == s@,
        !all_white_space(s@) ==> exists|a: int, b: int| is_first_word(s@, a, b) && r@ == s@.subrange(a, b),
{
    let n = s.unicode_len();
    let mut a: usize = 0;
    while a < n
        invariant
            a <= n,
            n == s@.len(),
            forall|k: int| 0 <= k < a ==> is_white_space(#[trigger] s@[k]),
        ensures
            a <= n,
            forall|k: int| 0 <= k < a ==> is_white_space(#[trigger] s@[k]),
            a < n ==> !is_white_space(s@[a as int]),
        decreases n - a,
    {
        if !is_white_space_char(s.get_char(a)) {
            break;
        }
        a = a + 1;
    }
    if a == n {
        return s.to_owned();
    }
    let mut b: usize = a + 1;
    while b < n
        invariant
            a < b <= n,
            n == s@.len(),
            !is_white_space(s@[a as int]),
            forall|k: int| 0 <= k < a ==> is_white_space(#[trigger] s@[k]),
            forall|k: int| a <= k < b ==> !is_white_space(#[trigger] s@[k]),
        ensures
            a < b <= n,
            forall|k: int| a <= k < b ==> !is_white_space(#[trigger] s@[k]),
            b < n ==> is_white_space(s@[b as int]),
        decreases n - b,
    {
        if is_white_space_char(s.get_char(b)) {
            break;
        }
        b = b + 1;
    }
    let word = s.substring_char(a, b);
    assert(is_first_word(s@, a as int, b as int));
    word.to_owned()
}

/// The number a run of decimal digit characters denotes, read the usual
/// way: each character `c` stands for `c - '0'`, most significant first.
pub open spec fn decimal_value(s: Seq<char>) -> int
    decreases s.len(),
{
    if s.len() == 0 {
        0
    } else {
        decimal_value(s.drop_last()) * 10 + (s.last() as int - 48)
    }
}

/// Law: the numeral `push_decimal` writes for `n` is a non-empty run of the
/// characters `0`-`9` that reads back as `n`, and it starts with `0` only
/// for 0 itself.
pub proof fn lemma_decimal_text_reads_back(n: nat)
    ensures
        decimal_text(n).len() > 0,
        forall|i: int| 0 <= i < decimal_text(n).len() ==> '0' <= #[trigger] decimal_text(n)[i] <= '9',
        decimal_value(decimal_text(n)) == n,
        decimal_text(n)[0] == '0' ==> n == 0,
    decreases n,
{
    let d = (n % 10) as nat;
    let c = decimal_digit_char(d);
    assert(c as int == 48 + d);
    if n < 10 {
        assert(decimal_text(n) =~= seq![c]);
        assert(seq![c].drop_last() =~= Seq::<char>::empty());
        assert(decimal_value(Seq::<char>::empty()) == 0);
        assert(n % 10 == n);
        assert(decimal_value(seq![c]) == decimal_value(seq![c].drop_last()) * 10 + (c as int - 48));
    } else {
        lemma_decimal_text_reads_back(n / 10);
        let t = decimal_text(n);
        assert(t == decimal_text(n / 10).push(c));
        assert(t.drop_last() =~= decimal_text(n / 10));
        assert(t[0] == decimal_text(n / 10)[0]);
        assert(decimal_value(t) == decimal_value(t.drop_last()) * 10 + (t.last() as int - 48));
        assert(n == (n / 10) * 10 + n % 10);
        assert forall|i: int| 0 <= i < t.len() implies '0' <= #[trigger] t[i] <= '9' by {
            if i < t.len() - 1 {
                assert(t[i] == decimal_text(n / 10)[i]);
            }
        }
    }
}

/// Law: no printable ASCII character but the space is whitespace, so a
/// word made of letters, digits and marks such as `-`, `+`, `.` is never
/// split; the ASCII space, tab, line feed and carriage return are.
pub proof fn lemma_ascii_white_space(c: char)
    ensures
        ('!' <= c <= '~') ==> !is_white_space(c),
        (c == ' ' || c == '\t' || c == '\n' || c == '\r') ==> is_white_space(c),
{
}

/// Law: a text has at most one first word.
pub proof fn lemma_first_word_unique(s: Seq<char>, a: int, b: int, a2: int, b2: int)
    requires
        is_first_word(s, a, b),
        is_first_word(s, a2, b2),
    ensures
        a == a2,
        b == b2,
{
    if a < a2 {
        assert(is_white_space(s[a]));
    } else if a2 < a {
        assert(is_white_space(s[a2]));
    }
    if b < b2 {
        assert(!is_white_space(s[b]));
    } else if b2 < b {
        assert(!is_white_space(s[b2]));
    }
}

/// Law: what `first_word_or_all` gives (any `r` meeting its contract) for a
/// text that opens with `k > 0` printable ASCII characters other than the
/// space, followed by a space or by the end of the text, is exactly those
/// `k` characters.
pub proof fn lemma_first_word_of_printable_prefix(s: Seq<char>, k: int, r: Seq<char>)
    requires
        0 < k <= s.len(),
        forall|i: int| 0 <= i < k ==> '!' <= #[trigger] s[i] <= '~',
        k == s.len() || s[k] == ' ',
        all_white_space(s) ==> r == s,
        !all_white_space(s) ==> exists|a: int, b: int| is_first_word(s, a, b) && r == s.subrange(a, b),
    ensures
        r == s.subrange(0, k),
{
    assert forall|i: int| 0 <= i < k implies !is_white_space(#[trigger] s[i]) by {
        lemma_ascii_white_space(s[i]);
    }
    if k < s.len() {
        lemma_ascii_white_space(s[k]);
    }
    assert(is_first_word(s, 0, k));
    assert(!is_white_space(s[0]));
    assert(!all_white_space(s));
    let (a, b) = choose|a: int, b: int| is_first_word(s, a, b) && r == s.subrange(a, b);
    lemma_first_word_unique(s, a, b, 0, k);
}

} // verus!
