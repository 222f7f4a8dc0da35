//! Verified text utilities: string equality, decimal rendering and parsing,
//! and the whitespace stripping applied to stored character data before it is
//! served.

use vstd::prelude::*;
use vstd::string::{StrSliceExecFns, StringSliceAdditionalSpecFns};
use vstd::utf8::encode_utf8_decode_utf8;

verus! {

/// Relies on String::push: appends one character.
pub assume_specification[ String::push ](s: &mut String, c: char)
    ensures
        final(s)@ == old(s)@.push(c),
;

/// Byte-slice equality.
pub fn bytes_eq(a: &[u8], b: &[u8]) -> (r: bool)
    ensures
        r == (a@ == b@),
{
    if a.len() != b.len() {
        return false;
    }
    let n = a.len();
    let mut i: usize = 0;
    while i < n
        invariant
            n == a@.len() == b@.len(),
            i <= n,
            forall|j: int| 0 <= j < i ==> a@[j] == b@[j],
        decreases n - i,
    {
        if a[i] != b[i] {
            return false;
        }
        i = i + 1;
    }
    proof {
        assert(a@ =~= b@);
    }
    true
}

/// String-slice equality, by the underlying UTF-8 bytes: two strings are the
/// same characters exactly when they are the same bytes.
pub fn str_eq(a: &str, b: &str) -> (r: bool)
    ensures
        r == (a@ == b@),
{
    let r = bytes_eq(a.as_bytes(), b.as_bytes());
    proof {
        if a.spec_bytes() == b.spec_bytes() {
            encode_utf8_decode_utf8(a@);
            encode_utf8_decode_utf8(b@);
        }
    }
    r
}

/// The decimal digit character for a value below ten.
pub open spec fn dec_digit(n: int) -> char
    recommends
        0 <= n < 10,
{
    seq!['0', '1', '2', '3', '4', '5', '6', '7', '8', '9'][n]
}

/// The decimal rendering of a natural number, no sign, no leading zeros.
pub open spec fn dec_of(n: nat) -> Seq<char>
    decreases n,
{
    if n < 10 {
        seq![dec_digit(n as int)]
    } else {
        dec_of(n / 10).push(dec_digit((n % 10) as int))
    }
}

/// The decimal rendering of a signed number.
pub open spec fn dec_i32_of(n: int) -> Seq<char>
    recommends
        i32::MIN <= n <= i32::MAX,
{
    if n < 0 {
        seq!['-'] + dec_of((-n) as nat)
    } else {
        dec_of(n as nat)
    }
}

fn dec_digit_char(n: u32) -> (r: char)
    requires
        n < 10,
    ensures
        r == dec_digit(n as int),
{
    match n {
        0 => '0',
        1 => '1',
        2 => '2',
        3 => '3',
        4 => '4',
        5 => '5',
        6 => '6',
        7 => '7',
        8 => '8',
        _ => '9',
    }
}

/// Append the decimal rendering of `n` to `out`.
pub fn push_dec_u32(out: &mut String, n: u32)
    ensures
        final(out)@ == old(out)@ + dec_of(n as nat),
    decreases n,
{
    if n < 10 {
        out.push(dec_digit_char(n));
    } else {
        push_dec_u32(out, n / 10);
        out.push(dec_digit_char(n % 10));
    }
}

/// The decimal rendering of an unsigned number as a string.
pub fn u32_to_string(n: u32) -> (r: String)
    ensures
        r@ == dec_of(n as nat),
{
    let mut out = String::new();
    push_dec_u32(&mut out, n);
    proof {
        assert(out@ =~= dec_of(n as nat));
    }
    out
}

/// Append the decimal rendering of a signed number to `out`.
pub fn push_dec_i32(out: &mut String, n: i32)
    ensures
        final(out)@ == old(out)@ + dec_i32_of(n as int),
{
    if n < 0 {
        out.push('-');
        let mag: u32 = (-(n as i64)) as u32;
        proof {
            let m = n;
            assert((((-(m as i64)) as u32) as i64) == -(m as i64)) by (bit_vector)
                requires
                    m < 0i32,
            ;
        }
        push_dec_u32(out, mag);
        proof {
            assert(final(out)@ =~= old(out)@ + dec_i32_of(n as int));
        }
    } else {
        push_dec_u32(out, n as u32);
    }
}

/// The decimal rendering of a signed number as a string.
pub fn i32_to_string(n: i32) -> (r: String)
    ensures
        r@ == dec_i32_of(n as int),
{
    let mut out = String::new();
    push_dec_i32(&mut out, n);
    proof {
        assert(out@ =~= dec_i32_of(n as int));
    }
    out
}

pub open spec fn is_dec_digit(c: char) -> bool {
    48 <= c as u32 <= 57
}

pub open spec fn dec_val(c: char) -> int {
    c as u32 - 48
}

pub open spec fn all_dec_digits(s: Seq<char>) -> bool {
    forall|i: int| 0 <= i < s.len() ==> is_dec_digit(s[i])
}

/// The numeric value of a non-empty digit string, most significant first.
pub open spec fn dec_value(s: Seq<char>) -> int
    decreases s.len(),
{
    if s.len() == 0 {
        0
    } else {
        dec_value(s.drop_last()) * 10 + dec_val(s.last())
    }
}

/// The value a decimal string parses to: an optional sign, then at least one
/// digit; values outside the 32-bit signed range are rejected.
pub open spec fn parse_i32_spec(s: Seq<char>) -> Option<i32> {
    if s.len() > 0 && (s[0] == '-' || s[0] == '+') {
        parse_signless(s.drop_first(), s[0] == '-')
    } else {
        parse_signless(s, false)
    }
}

pub open spec fn parse_signless(digits: Seq<char>, negative: bool) -> Option<i32> {
    if digits.len() == 0 || !all_dec_digits(digits) {
        None
    } else if negative {
        if dec_value(digits) <= 0x8000_0000 {
            Some((-dec_value(digits)) as i32)
        } else {
            None
        }
    } else {
        if dec_value(digits) <= 0x7fff_ffff {
            Some(dec_value(digits) as i32)
        } else {
            None
        }
    }
}

/// A digit string's value only grows as more digits follow.
proof fn lemma_dec_value_monotone(s: Seq<char>, i: int)
    requires
        all_dec_digits(s),
        0 <= i <= s.len(),
    ensures
        0 <= dec_value(s.take(i)) <= dec_value(s),
    decreases s.len() - i,
{
    lemma_dec_value_nonneg(s.take(i));
    if i == s.len() {
        assert(s.take(i) =~= s);
    } else {
        lemma_dec_value_monotone(s, i + 1);
        assert(s.take(i + 1).drop_last() =~= s.take(i));
        assert(dec_value(s.take(i + 1)) == dec_value(s.take(i)) * 10 + dec_val(s[i]));
    }
}

proof fn lemma_dec_value_nonneg(s: Seq<char>)
    requires
        all_dec_digits(s),
    ensures
        dec_value(s) >= 0,
    decreases s.len(),
{
    if s.len() > 0 {
        assert(all_dec_digits(s.drop_last()));
        lemma_dec_value_nonneg(s.drop_last());
    }
}

/// Parse a decimal string as a 32-bit signed integer: an optional sign, then
/// at least one digit; anything else, or a value out of range, is None.
pub fn parse_i32(s: &str) -> (r: Option<i32>)
    ensures
        r == parse_i32_spec(s@),
{
    let n = s.unicode_len();
    if n == 0 {
        return None;
    }
    let first = s.get_char(0);
    let negative = first == '-';
    let has_sign = negative || first == '+';
    let start: usize = if has_sign {
        1
    } else {
        0
    };
    let ghost digits: Seq<char> = if has_sign {
        s@.drop_first()
    } else {
        s@
    };
    if n == start {
        return None;
    }
    let mut acc: u64 = 0;
    let mut i: usize = start;
    while i < n
        invariant
            start <= i <= n,
            0 < n == s@.len(),
            has_sign == (s@[0] == '-' || s@[0] == '+'),
            negative == (s@[0] == '-'),
            start == if has_sign { 1int } else { 0int },
            digits == if has_sign { s@.drop_first() } else { s@ },
            all_dec_digits(digits.take(i - start)),
            acc == dec_value(digits.take(i - start)),
            acc <= 0x8000_0000,
        decreases n - i,
    {
        let c = s.get_char(i);
        let code = c as u32;
        if code < 48 || code > 57 {
            proof {
                assert(digits.len() == n - start);
                assert(digits[i - start] == s@[i as int]);
                assert(!is_dec_digit(digits[i - start]));
                assert(!all_dec_digits(digits));
                assert(parse_i32_spec(s@) is None);
            }
            return None;
        }
        let d = (code - 48) as u64;
        let next = acc * 10 + d;
        proof {
            assert(digits.take(i - start + 1).drop_last() =~= digits.take(i - start));
            assert(digits.take(i - start + 1).last() == digits[i - start]);
            assert(digits[i - start] == s@[i as int]);
            assert(is_dec_digit(digits[i - start]));
            assert(dec_val(digits[i - start]) == d);
            assert(all_dec_digits(digits.take(i - start + 1)));
            assert(dec_value(digits.take(i - start + 1)) == acc * 10 + d);
        }
        if next > 0x8000_0000 {
            proof {
                if all_dec_digits(digits) {
                    lemma_dec_value_monotone(digits, i - start + 1);
                    assert(dec_value(digits) >= next > 0x8000_0000);
                }
                assert(parse_i32_spec(s@) is None);
            }
            return None;
        }
        acc = next;
        i = i + 1;
    }
    proof {
        assert(digits.take(i - start) =~= digits);
    }
    if negative {
        proof {
            let a = acc;
            assert((-(a as i64)) as i32 as int == -(a as int) && i64::MIN <= -(a as i64)
                <= i64::MAX) by (bit_vector)
                requires
                    a <= 0x8000_0000u64,
            ;
        }
        Some((-(acc as i64)) as i32)
    } else {
        if acc > 0x7fff_ffff {
            None
        } else {
            Some(acc as i32)
        }
    }
}

/// The characters kept when stored character data is served: everything but
/// line breaks.
pub open spec fn spec_strip_newlines(s: Seq<char>) -> Seq<char> {
    s.filter(|c: char| c != '\n' && c != '\r')
}

/// The characters kept when stored rendering data is compacted: everything
/// but spaces, tabs and line breaks.
pub open spec fn spec_strip_whitespace(s: Seq<char>) -> Seq<char> {
    s.filter(|c: char| c != '\n' && c != '\r' && c != '\t' && c != ' ')
}

/// Drop line breaks from a string.
pub fn strip_newlines(s: &str) -> (r: String)
    ensures
        r@ == spec_strip_newlines(s@),
{
    broadcast use vstd::seq_lib::group_filter_ensures;

    let n = s.unicode_len();
    let mut out = String::new();
    let mut i: usize = 0;
    while i < n
        invariant
            i <= n,
            n == s@.len(),
            out@ == spec_strip_newlines(s@.take(i as int)),
        decreases n - i,
    {
        let c = s.get_char(i);
        proof {
            assert(s@.take(i + 1) =~= s@.take(i as int) + seq![s@[i as int]]);
            Seq::<char>::filter_distributes_over_add(
                s@.take(i as int),
                seq![s@[i as int]],
                |c: char| c != '\n' && c != '\r',
            );
            lemma_filter_singleton(s@[i as int], |c: char| c != '\n' && c != '\r');
        }
        if c != '\n' && c != '\r' {
            out.push(c);
        }
        i = i + 1;
    }
    proof {
        assert(s@.take(n as int) =~= s@);
    }
    out
}

/// Drop spaces, tabs and line breaks from a string.
pub fn strip_whitespace(s: &str) -> (r: String)
    ensures
        r@ == spec_strip_whitespace(s@),
{
    let n = s.unicode_len();
    let mut out = String::new();
    let mut i: usize = 0;
    while i < n
        invariant
            i <= n,
            n == s@.len(),
            out@ == spec_strip_whitespace(s@.take(i as int)),
        decreases n - i,
    {
        let c = s.get_char(i);
        proof {
            assert(s@.take(i + 1) =~= s@.take(i as int) + seq![s@[i as int]]);
            Seq::<char>::filter_distributes_over_add(
                s@.take(i as int),
                seq![s@[i as int]],
                |c: char| c != '\n' && c != '\r' && c != '\t' && c != ' ',
            );
            lemma_filter_singleton(
                s@[i as int],
                |c: char| c != '\n' && c != '\r' && c != '\t' && c != ' ',
            );
        }
        if c != '\n' && c != '\r' && c != '\t' && c != ' ' {
            out.push(c);
        }
        i = i + 1;
    }
    proof {
        assert(s@.take(n as int) =~= s@);
    }
    out
}

pub proof fn lemma_filter_singleton<A>(x: A, pred: spec_fn(A) -> bool)
    ensures
        seq![x].filter(pred) == if pred(x) {
            seq![x]
        } else {
            Seq::<A>::empty()
        },
{
    reveal_with_fuel(Seq::filter, 2);
    assert(seq![x].drop_last() =~= Seq::<A>::empty());
    if pred(x) {
        assert(seq![x].filter(pred) =~= seq![x]);
    } else {
        assert(seq![x].filter(pred) =~= Seq::<A>::empty());
    }
}


/// The index of the first occurrence of a character, or -1.
pub open spec fn first_idx(s: Seq<char>, c: char) -> int
    decreases s.len(),
{
    if s.len() == 0 {
        -1
    } else if s[0] == c {
        0
    } else {
        let r = first_idx(s.drop_first(), c);
        if r < 0 {
            -1
        } else {
            r + 1
        }
    }
}

pub proof fn lemma_first_idx_at(s: Seq<char>, c: char, i: int)
    requires
        0 <= i < s.len(),
        s[i] == c,
        forall|j: int| 0 <= j < i ==> s[j] != c,
    ensures
        first_idx(s, c) == i,
    decreases i,
{
    if i > 0 {
        lemma_first_idx_at(s.drop_first(), c, i - 1);
    }
}

pub proof fn lemma_first_idx_none(s: Seq<char>, c: char)
    requires
        forall|j: int| 0 <= j < s.len() ==> s[j] != c,
    ensures
        first_idx(s, c) == -1,
    decreases s.len(),
{
    if s.len() > 0 {
        lemma_first_idx_none(s.drop_first(), c);
    }
}

/// Split a string at the first occurrence of a character; the separator
/// itself is dropped.
pub fn split_once_char<'a>(s: &'a str, c: char) -> (r: Option<(&'a str, &'a str)>)
    ensures
        r matches Some((a, b)) ==> first_idx(s@, c) >= 0 && a@ == s@.take(first_idx(s@, c))
            && b@ == s@.skip(first_idx(s@, c) + 1),
        r is None ==> first_idx(s@, c) < 0,
{
    let n = s.unicode_len();
    let mut i: usize = 0;
    while i < n
        invariant
            i <= n,
            n == s@.len(),
            forall|j: int| 0 <= j < i ==> s@[j] != c,
        decreases n - i,
    {
        if s.get_char(i) == c {
            proof {
                lemma_first_idx_at(s@, c, i as int);
            }
            let a = s.substring_char(0, i);
            let b = s.substring_char(i + 1, n);
            proof {
                assert(a@ =~= s@.take(i as int));
                assert(b@ =~= s@.skip(i + 1));
            }
            return Some((a, b));
        }
        i = i + 1;
    }
    proof {
        lemma_first_idx_none(s@, c);
    }
    None
}


/// first_idx points below the length (or is -1), at the character, and past
/// no earlier occurrence.
pub proof fn lemma_first_idx_found(s: Seq<char>, c: char)
    ensures
        first_idx(s, c) < s.len(),
        first_idx(s, c) >= 0 ==> s[first_idx(s, c)] == c,
    decreases s.len(),
{
    if s.len() > 0 && s[0] != c {
        lemma_first_idx_found(s.drop_first(), c);
    }
}

} // verus!
