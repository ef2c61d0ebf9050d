//! Verified text utilities: character-wise string comparison, substring
//! search, last-occurrence search, whitespace trimming, decimal rendering of
//! port numbers and decimal parsing of PID file contents.

use crate::identity::hex_digit;
use vstd::prelude::*;
use vstd::string::*;

verus! {

/// Character-wise equality of two string slices.
pub fn str_eq(a: &str, b: &str) -> (r: bool)
    ensures
        r == (a@ == b@),
{
    let alen = a.unicode_len();
    let blen = b.unicode_len();
    if alen != blen {
        return false;
    }
    let mut i: usize = 0;
    while i < alen
        invariant
            i <= alen,
            alen == a@.len(),
            blen == b@.len(),
            alen == blen,
            forall|j: int| 0 <= j < i ==> a@[j] == b@[j],
        decreases alen - i,
    {
        if a.get_char(i) != b.get_char(i) {
            return false;
        }
        i += 1;
    }
    proof {
        assert(a@ =~= b@);
    }
    true
}

/// Whether `p` occurs as a contiguous run of characters inside `s`.
pub open spec fn spec_contains(s: Seq<char>, p: Seq<char>) -> bool {
    exists|i: int|
        0 <= i <= s.len() - p.len() && #[trigger] s.subrange(i, i + p.len() as int) == p
}

fn match_at(s: &str, p: &str, i: usize) -> (r: bool)
    requires
        i + p@.len() <= s@.len(),
    ensures
        r == (s@.subrange(i as int, i as int + p@.len() as int) == p@),
{
    let slen = s.unicode_len();
    let plen = p.unicode_len();
    let mut k: usize = 0;
    while k < plen
        invariant
            k <= plen,
            slen == s@.len(),
            plen == p@.len(),
            i + plen <= slen,
            forall|m: int| 0 <= m < k ==> s@[i + m] == p@[m],
        decreases plen - k,
    {
        if s.get_char(i + k) != p.get_char(k) {
            proof {
                assert(s@.subrange(i as int, i as int + p@.len() as int)[k as int] == s@[i + k]);
            }
            return false;
        }
        k += 1;
    }
    proof {
        assert(s@.subrange(i as int, i as int + p@.len() as int) =~= p@);
    }
    true
}

/// Substring search: whether `p` occurs anywhere inside `s`.
pub fn str_contains(s: &str, p: &str) -> (r: bool)
    ensures
        r == spec_contains(s@, p@),
{
    let slen = s.unicode_len();
    let plen = p.unicode_len();
    if plen > slen {
        return false;
    }
    if plen == 0 {
        proof {
            assert(s@.subrange(0, 0 + p@.len() as int) =~= p@);
        }
        return true;
    }
    let mut i: usize = 0;
    while i <= slen - plen
        invariant
            1 <= plen <= slen,
            i <= slen - plen + 1,
            slen == s@.len(),
            plen == p@.len(),
            forall|j: int|
                0 <= j < i ==> #[trigger] s@.subrange(j, j + p@.len() as int) != p@,
        decreases slen - plen - i + 1,
    {
        if match_at(s, p, i) {
            return true;
        }
        i += 1;
    }
    false
}

/// Index of the last occurrence of `c` in `s`, if any.
pub open spec fn spec_rfind(s: Seq<char>, c: char) -> Option<int>
    decreases s.len(),
{
    if s.len() == 0 {
        None
    } else if s.last() == c {
        Some(s.len() - 1)
    } else {
        spec_rfind(s.drop_last(), c)
    }
}

/// Finds the last occurrence of a character.
pub fn rfind_char(s: &str, c: char) -> (r: Option<usize>)
    ensures
        match r {
            Some(i) => i < s@.len() && spec_rfind(s@, c) == Some(i as int),
            None => spec_rfind(s@, c) is None,
        },
{
    let len = s.unicode_len();
    proof {
        assert(s@.take(len as int) =~= s@);
    }
    let mut i: usize = len;
    while i > 0
        invariant
            i <= len,
            len == s@.len(),
            spec_rfind(s@, c) == spec_rfind(s@.take(i as int), c),
        decreases i,
    {
        if s.get_char(i - 1) == c {
            proof {
                assert(s@.take(i as int).last() == s@[i - 1]);
            }
            return Some(i - 1);
        }
        proof {
            assert(s@.take(i as int).drop_last() =~= s@.take(i as int - 1));
            assert(s@.take(i as int).last() == s@[i - 1]);
        }
        i -= 1;
    }
    None
}

/// Decimal rendering of a natural number, most significant digit first.
pub open spec fn spec_udec(n: nat) -> Seq<char>
    decreases n,
{
    if n < 10 {
        seq![hex_digit(n as u8)]
    } else {
        spec_udec(n / 10) + seq![hex_digit((n % 10) as u8)]
    }
}

fn digit_str(d: u8) -> (r: &'static str)
    requires
        d < 10,
    ensures
        r@ == seq![hex_digit(d)],
{
    proof {
        reveal_strlit("0");
        reveal_strlit("1");
        reveal_strlit("2");
        reveal_strlit("3");
        reveal_strlit("4");
        reveal_strlit("5");
        reveal_strlit("6");
        reveal_strlit("7");
        reveal_strlit("8");
        reveal_strlit("9");
    }
    let r = if d == 0 {
        "0"
    } else if d == 1 {
        "1"
    } else if d == 2 {
        "2"
    } else if d == 3 {
        "3"
    } else if d == 4 {
        "4"
    } else if d == 5 {
        "5"
    } else if d == 6 {
        "6"
    } else if d == 7 {
        "7"
    } else if d == 8 {
        "8"
    } else {
        "9"
    };
    proof {
        assert(r@ =~= seq![hex_digit(d)]);
    }
    r
}

/// Renders a port number (or any 16-bit value) in decimal.
pub fn u16_string(n: u16) -> (r: String)
    ensures
        r@ == spec_udec(n as nat),
    decreases n,
{
    if n < 10 {
        digit_str(n as u8).to_owned()
    } else {
        let mut s = u16_string(n / 10);
        s.append(digit_str((n % 10) as u8));
        s
    }
}

/// ASCII whitespace, as found around the integer in a PID file.
pub open spec fn spec_is_space(c: char) -> bool {
    c == ' ' || c == '\n' || c == '\t' || c == '\r'
}

/// The input without leading and trailing ASCII whitespace.
pub open spec fn spec_trim(s: Seq<char>) -> Seq<char>
    decreases s.len(),
{
    if s.len() == 0 {
        s
    } else if spec_is_space(s.first()) {
        spec_trim(s.drop_first())
    } else if spec_is_space(s.last()) {
        spec_trim(s.drop_last())
    } else {
        s
    }
}

fn is_space(c: char) -> (r: bool)
    ensures
        r == spec_is_space(c),
{
    c == ' ' || c == '\n' || c == '\t' || c == '\r'
}

/// Removes leading and trailing ASCII whitespace.
pub fn trim(s: &str) -> (r: &str)
    ensures
        r@ == spec_trim(s@),
{
    let len = s.unicode_len();
    proof {
        assert(s@.skip(0) =~= s@);
    }
    let mut lo: usize = 0;
    while lo < len && is_space(s.get_char(lo))
        invariant
            lo <= len,
            len == s@.len(),
            spec_trim(s@) == spec_trim(s@.skip(lo as int)),
        decreases len - lo,
    {
        proof {
            assert(s@.skip(lo as int).first() == s@[lo as int]);
            assert(s@.skip(lo as int).drop_first() =~= s@.skip(lo as int + 1));
        }
        lo += 1;
    }
    let mut hi: usize = len;
    proof {
        assert(s@.skip(lo as int) =~= s@.subrange(lo as int, hi as int));
    }
    while hi > lo && is_space(s.get_char(hi - 1))
        invariant
            lo <= hi <= len,
            len == s@.len(),
            lo < len ==> !spec_is_space(s@[lo as int]),
            spec_trim(s@) == spec_trim(s@.subrange(lo as int, hi as int)),
        decreases hi,
    {
        proof {
            let sub = s@.subrange(lo as int, hi as int);
            assert(sub.last() == s@[hi - 1]);
            assert(sub.first() == s@[lo as int]);
            assert(sub.drop_last() =~= s@.subrange(lo as int, hi as int - 1));
        }
        hi -= 1;
    }
    proof {
        let sub = s@.subrange(lo as int, hi as int);
        if sub.len() > 0 {
            assert(sub.first() == s@[lo as int]);
            assert(sub.last() == s@[hi - 1]);
        }
    }
    s.substring_char(lo, hi)
}

/// A decimal digit character.
pub open spec fn spec_is_digit(c: char) -> bool {
    '0' <= c && c <= '9'
}

/// Numeric value of a digit character.
pub open spec fn spec_digit_val(c: char) -> nat {
    (c as u32 - '0' as u32) as nat
}

/// Value of a string of decimal digits.
pub open spec fn spec_digits_val(s: Seq<char>) -> nat
    decreases s.len(),
{
    if s.len() == 0 {
        0
    } else {
        spec_digits_val(s.drop_last()) * 10 + spec_digit_val(s.last())
    }
}

/// What parsing an unsigned 32-bit integer out of a PID file yields: the
/// trimmed content must be one or more decimal digits whose value fits.
pub open spec fn spec_parse_u32(s: Seq<char>) -> Option<u32> {
    let t = spec_trim(s);
    if t.len() > 0 && (forall|i: int| 0 <= i < t.len() ==> spec_is_digit(t[i]))
        && spec_digits_val(t) <= u32::MAX {
        Some(spec_digits_val(t) as u32)
    } else {
        None
    }
}

/// Parses an unsigned 32-bit integer surrounded by optional whitespace.
pub fn parse_u32(s: &str) -> (r: Option<u32>)
    ensures
        r == spec_parse_u32(s@),
{
    let t = trim(s);
    let len = t.unicode_len();
    if len == 0 {
        return None;
    }
    let mut i: usize = 0;
    let mut acc: u64 = 0;
    let mut over = false;
    proof {
        assert(t@.take(0) =~= Seq::<char>::empty());
    }
    while i < len
        invariant
            i <= len,
            len == t@.len(),
            t@ == spec_trim(s@),
            forall|j: int| 0 <= j < i ==> spec_is_digit(t@[j]),
            !over ==> acc == spec_digits_val(t@.take(i as int)) && acc <= u32::MAX,
            over ==> spec_digits_val(t@.take(i as int)) > u32::MAX,
        decreases len - i,
    {
        let c = t.get_char(i);
        let u = c as u32;
        if u < '0' as u32 || u > '9' as u32 {
            return None;
        }
        let d = (u - '0' as u32) as u64;
        proof {
            assert(t@.take(i as int + 1).drop_last() =~= t@.take(i as int));
            assert(t@.take(i as int + 1).last() == t@[i as int]);
        }
        if !over {
            acc = acc * 10 + d;
            if acc > 0xFFFF_FFFF {
                over = true;
            }
        } else {
            proof {
                let v = spec_digits_val(t@.take(i as int));
                assert(v * 10 == v + 9 * v);
            }
        }
        i += 1;
    }
    proof {
        assert(t@.take(len as int) =~= t@);
    }
    if over {
        None
    } else {
        Some(acc as u32)
    }
}

} // verus!
