//! Verified text building blocks: decimal rendering of integers, substring
//! search, case-insensitive matching helpers and display truncation.

use vstd::prelude::*;
use vstd::string::*;

verus! {

/// The character for one decimal digit (`0 <= d <= 9`).
pub open spec fn digit_char(d: nat) -> char {
    if d == 0 {
        '0'
    } else if d == 1 {
        '1'
    } else if d == 2 {
        '2'
    } else if d == 3 {
        '3'
    } else if d == 4 {
        '4'
    } else if d == 5 {
        '5'
    } else if d == 6 {
        '6'
    } else if d == 7 {
        '7'
    } else if d == 8 {
        '8'
    } else {
        '9'
    }
}

/// Decimal digits of a natural number, most significant first.
pub open spec fn spec_dec_nat(n: nat) -> Seq<char>
    decreases n,
{
    if n < 10 {
        seq![digit_char(n)]
    } else {
        spec_dec_nat(n / 10).push(digit_char(n % 10))
    }
}

/// Decimal rendering of an integer: a leading `-` for negative values.
pub open spec fn spec_dec_int(v: int) -> Seq<char> {
    if v < 0 {
        seq!['-'] + spec_dec_nat((-v) as nat)
    } else {
        spec_dec_nat(v as nat)
    }
}

/// Whether `needle` occurs contiguously inside `hay`.
pub open spec fn spec_contains(hay: Seq<char>, needle: Seq<char>) -> bool {
    exists|i: int|
        0 <= i && i + needle.len() <= hay.len() && #[trigger] hay.subrange(i, i + needle.len())
            == needle
}

/// The lower-cased form of a character sequence, as `str::to_lowercase`
/// computes it; a function of the characters alone.
pub uninterp spec fn lower_of(s: Seq<char>) -> Seq<char>;

/// Relies on `String::from_utf8`: bytes below 128 are ASCII, hence valid
/// UTF-8, and decode to the characters with the same code points.
#[verifier::external_body]
fn string_from_ascii(bytes: Vec<u8>) -> (r: String)
    requires
        forall|i: int| 0 <= i < bytes@.len() ==> bytes@[i] < 128,
    ensures
        r@ == bytes@.map_values(|b: u8| b as char),
{
    String::from_utf8(bytes).unwrap_or_default()
}

/// Relies on `str::to_lowercase`: the result depends on the characters
/// alone, and an empty string stays empty.
#[verifier::external_body]
pub fn lowercase(s: &str) -> (r: String)
    ensures
        r@ == lower_of(s@),
        s@.len() == 0 ==> r@.len() == 0,
{
    s.to_lowercase()
}

/// Relies on `str::contains`: whether the needle's characters occur
/// contiguously within the haystack.
#[verifier::external_body]
pub fn str_contains(hay: &str, needle: &str) -> (r: bool)
    ensures
        r == spec_contains(hay@, needle@),
{
    hay.contains(needle)
}

/// Character-for-character equality of two string slices.
pub fn str_eq(a: &str, b: &str) -> (r: bool)
    ensures
        r == (a@ == b@),
{
    let sa: String = String::from_str(a);
    let sb: String = String::from_str(b);
    sa == sb
}

spec fn byte_digit(b: u8) -> bool {
    48 <= b <= 57
}

spec fn char_of_byte(b: u8) -> char {
    b as char
}

proof fn lemma_digit_byte_char(d: nat)
    requires
        d <= 9,
    ensures
        char_of_byte((48 + d) as u8) == digit_char(d),
{
}

/// Digits collected least-significant-first, read back as characters.
spec fn rev_chars(s: Seq<u8>) -> Seq<char>
    decreases s.len(),
{
    if s.len() == 0 {
        Seq::empty()
    } else {
        seq![char_of_byte(s.last())] + rev_chars(s.drop_last())
    }
}

proof fn lemma_rev_chars_index(s: Seq<u8>, j: int)
    requires
        0 <= j < s.len(),
    ensures
        rev_chars(s).len() == s.len(),
        rev_chars(s)[j] == char_of_byte(s[s.len() - 1 - j]),
    decreases s.len(),
{
    lemma_rev_chars_len(s);
    if j == 0 {
    } else {
        lemma_rev_chars_index(s.drop_last(), j - 1);
    }
}

proof fn lemma_rev_chars_len(s: Seq<u8>)
    ensures
        rev_chars(s).len() == s.len(),
    decreases s.len(),
{
    if s.len() > 0 {
        lemma_rev_chars_len(s.drop_last());
    }
}

/// Renders a natural number in decimal.
pub fn u64_to_string(n: u64) -> (r: String)
    ensures
        r@ == spec_dec_nat(n as nat),
{
    let mut rev: Vec<u8> = Vec::new();
    let mut m: u64 = n;
    while m >= 10
        invariant
            spec_dec_nat(n as nat) == spec_dec_nat(m as nat) + rev_chars(rev@),
            forall|i: int| 0 <= i < rev@.len() ==> byte_digit(#[trigger] rev@[i]),
        decreases m,
    {
        let d: u8 = (m % 10) as u8;
        let ghost old_rev = rev@;
        let ghost old_m = m as nat;
        rev.push(48 + d);
        m = m / 10;
        proof {
            lemma_digit_byte_char((old_m % 10) as nat);
            assert(rev@.drop_last() =~= old_rev);
            assert(rev_chars(rev@) =~= seq![digit_char((old_m % 10) as nat)] + rev_chars(old_rev));
            assert(spec_dec_nat(old_m) =~= spec_dec_nat(old_m / 10).push(
                digit_char((old_m % 10) as nat),
            ));
            assert(spec_dec_nat(m as nat) + rev_chars(rev@) =~= spec_dec_nat(old_m) + rev_chars(
                old_rev,
            ));
        }
    }
    let d: u8 = m as u8;
    let ghost old_rev = rev@;
    rev.push(48 + d);
    proof {
        lemma_digit_byte_char(m as nat);
        assert(rev@.drop_last() =~= old_rev);
        assert(rev_chars(rev@) =~= seq![digit_char(m as nat)] + rev_chars(old_rev));
        assert(spec_dec_nat(n as nat) =~= rev_chars(rev@));
    }
    // reverse into most-significant-first order
    let len: usize = rev.len();
    let mut out: Vec<u8> = Vec::new();
    let mut i: usize = 0;
    while i < len
        invariant
            len == rev@.len(),
            out@.len() == i,
            i <= len,
            forall|j: int| 0 <= j < i ==> out@[j] == rev@[len - 1 - j],
            forall|j: int| 0 <= j < rev@.len() ==> byte_digit(#[trigger] rev@[j]),
        decreases len - i,
    {
        out.push(rev[len - 1 - i]);
        i = i + 1;
    }
    proof {
        assert forall|j: int| 0 <= j < out@.len() implies out@[j] < 128 by {
            assert(byte_digit(rev@[len - 1 - j]));
        }
    }
    let s: String = string_from_ascii(out);
    proof {
        assert forall|j: int| 0 <= j < out@.len() implies out@.map_values(|b: u8| b as char)[j]
            == rev_chars(rev@)[j] by {
            lemma_rev_chars_index(rev@, j);
        }
        lemma_rev_chars_len(rev@);
        assert(s@ =~= rev_chars(rev@));
    }
    s
}

/// Renders a signed integer in decimal.
pub fn i64_to_string(v: i64) -> (r: String)
    ensures
        r@ == spec_dec_int(v as int),
{
    if v >= 0 {
        u64_to_string(v as u64)
    } else {
        let mag: u64 = if v == i64::MIN {
            9223372036854775808u64
        } else {
            (-v) as u64
        };
        let mut s: String = String::from_str("-");
        let digits: String = u64_to_string(mag);
        s.append(digits.as_str());
        proof {
            reveal_strlit("-");
            assert(s@ =~= seq!['-'] + spec_dec_nat(mag as nat));
        }
        s
    }
}

/// Renders a 32-bit signed integer in decimal.
pub fn i32_to_string(v: i32) -> (r: String)
    ensures
        r@ == spec_dec_int(v as int),
{
    i64_to_string(v as i64)
}

/// Expected rendering of a possibly-shortened string: kept whole when it
/// fits, otherwise cut and finished with an ellipsis.
pub open spec fn spec_truncated(s: Seq<char>, max_len: nat) -> Seq<char> {
    if s.len() <= max_len {
        s
    } else {
        let keep = if max_len >= 3 {
            (max_len - 3) as nat
        } else {
            0nat
        };
        s.subrange(0, keep as int) + seq!['.', '.', '.']
    }
}

/// Shortens a string for display to at most `max_len` characters, ending a
/// shortened result with `...`.
pub fn truncate_string(s: &str, max_len: usize) -> (r: String)
    ensures
        r@ == spec_truncated(s@, max_len as nat),
{
    let n: usize = s.unicode_len();
    if n <= max_len {
        String::from_str(s)
    } else {
        let keep: usize = if max_len >= 3 {
            max_len - 3
        } else {
            0
        };
        let head: &str = s.substring_char(0, keep);
        let mut r: String = String::from_str(head);
        r.append("...");
        proof {
            reveal_strlit("...");
            assert(r@ =~= s@.subrange(0, keep as int) + seq!['.', '.', '.']);
        }
        r
    }
}

} // verus!
