//! Verified text utilities: locating path components, ASCII case folding,
//! decimal parsing and removal of consecutive duplicates.
//!
//! Paths are modelled as plain strings whose components are separated by
//! `'/'`. The file name of a path is everything after the last separator;
//! its stem and extension split the file name at its last `'.'`, except that
//! a leading `'.'` (a hidden file) does not start an extension.

use vstd::prelude::*;

verus! {

/// Index of the last occurrence of `c` in `s`, or `-1` if `c` does not occur.
pub open spec fn last_occurrence(s: Seq<char>, c: char) -> int
    decreases s.len(),
{
    if s.len() == 0 {
        -1
    } else if s[s.len() - 1] == c {
        s.len() - 1
    } else {
        last_occurrence(s.drop_last(), c)
    }
}

proof fn lemma_last_occurrence_at(s: Seq<char>, c: char, i: int)
    requires
        0 <= i < s.len(),
        s[i] == c,
        forall|j: int| i < j < s.len() ==> s[j] != c,
    ensures
        last_occurrence(s, c) == i,
    decreases s.len(),
{
    if i < s.len() - 1 {
        lemma_last_occurrence_at(s.drop_last(), c, i);
    }
}

proof fn lemma_last_occurrence_none(s: Seq<char>, c: char)
    requires
        forall|j: int| 0 <= j < s.len() ==> s[j] != c,
    ensures
        last_occurrence(s, c) == -1,
    decreases s.len(),
{
    if s.len() > 0 {
        lemma_last_occurrence_none(s.drop_last(), c);
    }
}

/// Finds the index of the last occurrence of `c` in `s`.
pub fn find_last_char(s: &str, c: char) -> (r: Option<usize>)
    ensures
        match r {
            Some(i) => i < s@.len() && last_occurrence(s@, c) == i,
            None => last_occurrence(s@, c) == -1,
        },
{
    let n = s.unicode_len();
    let mut i = n;
    while i > 0
        invariant
            i <= n,
            n == s@.len(),
            forall|j: int| i <= j < n ==> s@[j] != c,
        decreases i,
    {
        i = i - 1;
        if s.get_char(i) == c {
            proof {
                lemma_last_occurrence_at(s@, c, i as int);
            }
            return Some(i);
        }
    }
    proof {
        lemma_last_occurrence_none(s@, c);
    }
    None
}

/// The file name of a path: everything after the last `'/'`, or the whole
/// path if there is no separator.
pub open spec fn file_name_spec(p: Seq<char>) -> Seq<char> {
    p.subrange(last_occurrence(p, '/') + 1, p.len() as int)
}

/// The stem of a path's file name: the part before the last `'.'`. A dot at
/// the very start of the file name does not count, so hidden files keep
/// their full name. An empty file name has no stem.
pub open spec fn file_stem_spec(p: Seq<char>) -> Option<Seq<char>> {
    let name = file_name_spec(p);
    if name.len() == 0 {
        None
    } else {
        let d = last_occurrence(name, '.');
        if d <= 0 {
            Some(name)
        } else {
            Some(name.subrange(0, d))
        }
    }
}

/// The extension of a path's file name: the part after the last `'.'`, with
/// the same leading-dot exception as [`file_stem_spec`].
pub open spec fn extension_spec(p: Seq<char>) -> Option<Seq<char>> {
    let name = file_name_spec(p);
    let d = last_occurrence(name, '.');
    if d <= 0 {
        None
    } else {
        Some(name.subrange(d + 1, name.len() as int))
    }
}

/// Returns the file name of `p` as a fresh string.
pub fn file_name_of(p: &str) -> (r: String)
    ensures
        r@ == file_name_spec(p@),
{
    let n = p.unicode_len();
    let start = match find_last_char(p, '/') {
        Some(i) => i + 1,
        None => 0,
    };
    p.substring_char(start, n).to_owned()
}

/// Returns the stem of the file name of `p`, if the file name is non-empty.
pub fn file_stem_of(p: &str) -> (r: Option<String>)
    ensures
        match r {
            Some(s) => file_stem_spec(p@) == Some(s@),
            None => file_stem_spec(p@) is None,
        },
{
    let name = file_name_of(p);
    let len = name.as_str().unicode_len();
    if len == 0 {
        return None;
    }
    match find_last_char(name.as_str(), '.') {
        Some(d) if d > 0 => Some(name.as_str().substring_char(0, d).to_owned()),
        _ => Some(name),
    }
}

/// Returns the extension of the file name of `p`, if there is one.
pub fn extension_of(p: &str) -> (r: Option<String>)
    ensures
        match r {
            Some(s) => extension_spec(p@) == Some(s@),
            None => extension_spec(p@) is None,
        },
{
    let name = file_name_of(p);
    let len = name.as_str().unicode_len();
    match find_last_char(name.as_str(), '.') {
        Some(d) if d > 0 => Some(name.as_str().substring_char(d + 1, len).to_owned()),
        _ => None,
    }
}

/// Compares two strings character by character.
pub fn str_eq(a: &str, b: &str) -> (r: bool)
    ensures
        r == (a@ == b@),
{
    let na = a.unicode_len();
    let nb = b.unicode_len();
    if na != nb {
        return false;
    }
    let mut i: usize = 0;
    while i < na
        invariant
            i <= na,
            na == a@.len(),
            na == b@.len(),
            forall|j: int| 0 <= j < i ==> a@[j] == b@[j],
        decreases na - i,
    {
        if a.get_char(i) != b.get_char(i) {
            return false;
        }
        i = i + 1;
    }
    proof {
        assert(a@ =~= b@);
    }
    true
}

/// ASCII lower casing of a single character; other characters are unchanged.
pub open spec fn ascii_lower_char(c: char) -> char {
    if 'A' <= c && c <= 'Z' {
        ((c as u8) + 0x20) as char
    } else {
        c
    }
}

/// Two character sequences are equal up to ASCII case.
pub open spec fn eq_ignore_ascii_case_spec(a: Seq<char>, b: Seq<char>) -> bool {
    a.len() == b.len() && forall|i: int|
        0 <= i < a.len() ==> ascii_lower_char(a[i]) == ascii_lower_char(b[i])
}

fn ascii_lower(c: char) -> (r: char)
    ensures
        r == ascii_lower_char(c),
{
    if 'A' <= c && c <= 'Z' {
        ((c as u8) + 0x20) as char
    } else {
        c
    }
}

/// Compares two strings for equality up to ASCII case.
pub fn eq_ignore_ascii_case(a: &str, b: &str) -> (r: bool)
    ensures
        r == eq_ignore_ascii_case_spec(a@, b@),
{
    let na = a.unicode_len();
    let nb = b.unicode_len();
    if na != nb {
        return false;
    }
    let mut i: usize = 0;
    while i < na
        invariant
            i <= na,
            na == a@.len(),
            na == b@.len(),
            forall|j: int| 0 <= j < i ==> ascii_lower_char(a@[j]) == ascii_lower_char(b@[j]),
        decreases na - i,
    {
        if ascii_lower(a.get_char(i)) != ascii_lower(b.get_char(i)) {
            return false;
        }
        i = i + 1;
    }
    true
}

/// Whether `c` is an ASCII decimal digit.
pub open spec fn is_digit(c: char) -> bool {
    '0' <= c && c <= '9'
}

/// The numeric value of a digit character.
pub open spec fn digit_val(c: char) -> int {
    c as int - '0' as int
}

/// Whether every character of `s` is a decimal digit.
pub open spec fn all_digits(s: Seq<char>) -> bool {
    forall|i: int| 0 <= i < s.len() ==> is_digit(#[trigger] s[i])
}

/// The value of a sequence of decimal digits, most significant first.
pub open spec fn digits_val(s: Seq<char>) -> int
    decreases s.len(),
{
    if s.len() == 0 {
        0
    } else {
        digits_val(s.drop_last()) * 10 + digit_val(s.last())
    }
}

/// The meaning of a string as a signed 32-bit decimal integer, mirroring
/// `i32`'s standard parse: an optional sign, then one or more digits, and
/// the value must be in range.
pub open spec fn parse_i32_spec(s: Seq<char>) -> Option<i32> {
    let signed = s.len() > 0 && (s[0] == '+' || s[0] == '-');
    let negative = s.len() > 0 && s[0] == '-';
    let digits = if signed {
        s.subrange(1, s.len() as int)
    } else {
        s
    };
    if digits.len() == 0 || !all_digits(digits) {
        None
    } else {
        let v = if negative {
            -digits_val(digits)
        } else {
            digits_val(digits)
        };
        if i32::MIN <= v <= i32::MAX {
            Some(v as i32)
        } else {
            None
        }
    }
}

proof fn lemma_digits_val_nonneg(s: Seq<char>)
    requires
        all_digits(s),
    ensures
        digits_val(s) >= 0,
    decreases s.len(),
{
    if s.len() > 0 {
        assert(all_digits(s.drop_last()));
        lemma_digits_val_nonneg(s.drop_last());
    }
}

proof fn lemma_digits_val_grows(s: Seq<char>, k: int)
    requires
        all_digits(s),
        0 <= k <= s.len(),
    ensures
        digits_val(s) >= digits_val(s.subrange(0, k)),
    decreases s.len() - k,
{
    if k < s.len() {
        assert(all_digits(s.drop_last()));
        assert(s.drop_last().subrange(0, k) =~= s.subrange(0, k));
        if k == s.len() - 1 {
            assert(s.subrange(0, k) =~= s.drop_last());
            lemma_digits_val_nonneg(s);
        } else {
            lemma_digits_val_grows(s.drop_last(), k);
            lemma_digits_val_nonneg(s);
            assert(digits_val(s) == digits_val(s.drop_last()) * 10 + digit_val(s.last()));
            assert(digits_val(s.drop_last()) >= 0) by {
                lemma_digits_val_nonneg(s.drop_last());
            }
        }
    } else {
        assert(s.subrange(0, k) =~= s);
    }
}

/// Parses `s` as a signed 32-bit decimal integer, as `i32`'s standard
/// parser would.
#[verifier::rlimit(60)]
pub fn parse_i32(s: &str) -> (r: Option<i32>)
    ensures
        r == parse_i32_spec(s@),
{
    let n = s.unicode_len();
    if n == 0 {
        return None;
    }
    let first = s.get_char(0);
    let signed = first == '+' || first == '-';
    let negative = first == '-';
    let start: usize = if signed {
        1
    } else {
        0
    };
    if n == start {
        return None;
    }
    let ghost digits: Seq<char> = s@.subrange(start as int, s@.len() as int);
    proof {
        if signed {
            assert(digits =~= s@.subrange(1, s@.len() as int));
        } else {
            assert(digits =~= s@);
        }
    }
    let mut acc: i64 = 0;
    let mut i: usize = start;
    while i < n
        invariant
            start <= i <= n,
            n == s@.len(),
            start == 1 <==> signed,
            signed ==> (s@[0] == '+' || s@[0] == '-'),
            !signed ==> n > 0 && s@[0] != '+' && s@[0] != '-',
            digits == s@.subrange(start as int, n as int),
            signed ==> digits == s@.subrange(1, s@.len() as int),
            !signed ==> digits == s@,
            all_digits(digits.subrange(0, i - start)),
            acc == digits_val(digits.subrange(0, i - start)),
            0 <= acc <= 0x8000_0000,
        decreases n - i,
    {
        let c = s.get_char(i);
        if c < '0' || c > '9' {
            proof {
                assert(digits[i - start] == c);
                assert(!is_digit(digits[i - start]));
            }
            return None;
        }
        let d: i64 = (c as u8 - 0x30) as i64;
        proof {
            assert(digits[i - start] == c);
            assert(d == digit_val(c)) by {
                assert('0' <= c && c <= '9');
            }
        }
        acc = acc * 10 + d;
        i = i + 1;
        proof {
            assert(digits.subrange(0, i - start).drop_last() =~= digits.subrange(
                0,
                i - 1 - start,
            ));
            assert(digits.subrange(0, i - start).last() == c);
            assert(all_digits(digits.subrange(0, i - start)));
            assert(acc == digits_val(digits.subrange(0, i - start)));
        }
        if acc > 0x8000_0000 {
            proof {
                assert(digits.subrange(0, n - start as int) =~= digits);
                if all_digits(digits) {
                    lemma_digits_val_grows(digits, i - start);
                    assert(digits_val(digits) >= acc);
                    assert(parse_i32_spec(s@) is None);
                } else {
                    assert(parse_i32_spec(s@) is None);
                }
            }
            return None;
        }
    }
    proof {
        assert(digits.subrange(0, n - start as int) =~= digits);
    }
    if negative {
        if acc <= 0x8000_0000 {
            Some((-acc) as i32)
        } else {
            None
        }
    } else {
        if acc <= 0x7fff_ffff {
            Some(acc as i32)
        } else {
            None
        }
    }
}

/// Removal of consecutive duplicate entries, keeping the first of each run.
pub open spec fn dedup_spec(s: Seq<Seq<char>>) -> Seq<Seq<char>>
    decreases s.len(),
{
    if s.len() <= 1 {
        s
    } else if s[s.len() - 2] == s[s.len() - 1] {
        dedup_spec(s.drop_last())
    } else {
        dedup_spec(s.drop_last()).push(s.last())
    }
}

proof fn lemma_dedup_last(s: Seq<Seq<char>>)
    requires
        s.len() > 0,
    ensures
        dedup_spec(s).len() > 0,
        dedup_spec(s).last() == s.last(),
    decreases s.len(),
{
    if s.len() > 1 {
        lemma_dedup_last(s.drop_last());
    }
}

/// Removes consecutive duplicate strings, keeping the first of each run, as
/// `Vec::dedup` does.
pub fn dedup_consecutive(v: Vec<String>) -> (r: Vec<String>)
    ensures
        r.deep_view() == dedup_spec(v.deep_view()),
{
    let mut out: Vec<String> = Vec::new();
    let mut i: usize = 0;
    while i < v.len()
        invariant
            i <= v.len(),
            out.deep_view() == dedup_spec(v.deep_view().subrange(0, i as int)),
        decreases v.len() - i,
    {
        proof {
            assert(v.deep_view().subrange(0, i + 1).drop_last() =~= v.deep_view().subrange(
                0,
                i as int,
            ));
            if i > 0 {
                lemma_dedup_last(v.deep_view().subrange(0, i as int));
                assert(v.deep_view().subrange(0, i as int).last() == v.deep_view()[i - 1]);
            }
        }
        if out.len() == 0 {
            out.push(v[i].clone());
        } else {
            let keep = !out[out.len() - 1].eq(&v[i]);
            if keep {
                out.push(v[i].clone());
            }
        }
        i = i + 1;
    }
    proof {
        assert(v.deep_view().subrange(0, v.len() as int) =~= v.deep_view());
    }
    out
}

} // verus!
