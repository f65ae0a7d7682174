//! Character-level text operations.
//!
//! Strings are modelled as `Seq<char>`. The matching and splitting rules that
//! conditions, field lookups and host clean-up rely on are defined here as
//! spec functions, next to the executable functions that compute them.

use vstd::prelude::*;

verus! {

// ---------------------------------------------------------------------------
// Trusted bridges to the standard library
// ---------------------------------------------------------------------------

/// Equality of two string slices, as `str`'s `==` computes it: the two hold
/// the same characters.
#[verifier::external_body]
pub(crate) fn str_eq(a: &str, b: &str) -> (r: bool)
    ensures
        r == (a@ == b@),
{
    a == b
}

/// Collects characters into a `String`, as `String`'s `FromIterator<char>`
/// does: the string holds exactly those characters, in order.
#[verifier::external_body]
pub(crate) fn string_from_chars(chars: &Vec<char>) -> (r: String)
    ensures
        r@ == chars@,
{
    chars.iter().collect()
}

/// Whether a character is whitespace: whether it has the `White_Space`
/// property of the Unicode Character Database. These are the control
/// characters tab to carriage return, the space, next line, the no-break
/// space, the Ogham space mark, the spaces from en quad to hair space, the
/// line and the paragraph separator, the narrow no-break space, the medium
/// mathematical space and the ideographic space.
pub open spec fn is_whitespace(c: char) -> bool {
    let code = c as u32;
    ||| 0x0009 <= code <= 0x000d
    ||| code == 0x0020
    ||| code == 0x0085
    ||| code == 0x00a0
    ||| code == 0x1680
    ||| 0x2000 <= code <= 0x200a
    ||| code == 0x2028
    ||| code == 0x2029
    ||| code == 0x202f
    ||| code == 0x205f
    ||| code == 0x3000
}

/// `char::is_whitespace`, which reports whether the character has the
/// `White_Space` property: the result is [`is_whitespace`].
#[verifier::external_body]
pub(crate) fn char_is_whitespace(c: char) -> (r: bool)
    ensures
        r == is_whitespace(c),
{
    c.is_whitespace()
}

/// The uppercase form of a text under Unicode's case mapping, which is what
/// `str::to_uppercase` returns.
pub uninterp spec fn uppercase(s: Seq<char>) -> Seq<char>;

/// `str::to_uppercase`. The result is named [`uppercase`].
#[verifier::external_body]
pub(crate) fn to_uppercase(s: &str) -> (r: String)
    ensures
        r@ == uppercase(s@),
{
    s.to_uppercase()
}

/// The lowercase form of a text under Unicode's case mapping, which is what
/// `str::to_lowercase` returns.
pub uninterp spec fn lowercase(s: Seq<char>) -> Seq<char>;

/// `str::to_lowercase`. The result is named [`lowercase`].
#[verifier::external_body]
pub(crate) fn to_lowercase(s: &str) -> (r: String)
    ensures
        r@ == lowercase(s@),
{
    s.to_lowercase()
}

// ---------------------------------------------------------------------------
// Views of optional text
// ---------------------------------------------------------------------------

/// The characters of an optional string.
pub open spec fn opt_text(o: Option<String>) -> Option<Seq<char>> {
    match o {
        Some(s) => Some(s@),
        None => None,
    }
}

/// The characters of an optional string slice.
pub open spec fn opt_str(o: Option<&str>) -> Option<Seq<char>> {
    match o {
        Some(s) => Some(s@),
        None => None,
    }
}

/// The text, or the empty text where there is none.
pub open spec fn text_or_empty(o: Option<Seq<char>>) -> Seq<char> {
    match o {
        Some(s) => s,
        None => Seq::empty(),
    }
}

/// Copies a string.
pub fn copy_string(s: &str) -> (r: String)
    ensures
        r@ == s@,
{
    s.to_owned()
}

/// The characters of a string slice, as a vector.
pub fn chars_of(s: &str) -> (v: Vec<char>)
    ensures
        v@ == s@,
{
    broadcast use vstd::string::group_string_axioms;

    let mut v: Vec<char> = Vec::new();
    for c in it: s.chars()
        invariant
            it.seq() == s@,
            v@ == it.seq().take(it.index() as int),
    {
        v.push(c);
    }
    v
}

// ---------------------------------------------------------------------------
// Prefix, suffix, substring
// ---------------------------------------------------------------------------

/// `p` occurs in `s` at position `i`.
pub open spec fn occurs_at(s: Seq<char>, p: Seq<char>, i: int) -> bool {
    0 <= i && i + p.len() <= s.len() && s.subrange(i, i + p.len()) == p
}

/// `s` begins with `p`.
pub open spec fn has_prefix(s: Seq<char>, p: Seq<char>) -> bool {
    occurs_at(s, p, 0)
}

/// `s` ends with `p`.
pub open spec fn has_suffix(s: Seq<char>, p: Seq<char>) -> bool {
    occurs_at(s, p, s.len() - p.len())
}

/// `p` occurs somewhere in `s`. The empty text occurs in every text.
pub open spec fn has_substring(s: Seq<char>, p: Seq<char>) -> bool {
    exists|i: int| occurs_at(s, p, i)
}

/// Whether `p` occurs in `s` at position `i`.
pub fn matches_at(s: &Vec<char>, p: &Vec<char>, i: usize) -> (r: bool)
    ensures
        r == occurs_at(s@, p@, i as int),
{
    if p.len() > s.len() || i > s.len() - p.len() {
        return false;
    }
    let mut k: usize = 0;
    while k < p.len()
        invariant
            k <= p.len(),
            i + p.len() <= s.len(),
            forall|j: int| 0 <= j < k ==> s@[i + j] == p@[j],
        decreases p.len() - k,
    {
        if s[i + k] != p[k] {
            proof {
                let sub = s@.subrange(i as int, i + p.len());
                assert(sub[k as int] == s@[i + k]);
            }
            return false;
        }
        k += 1;
    }
    assert(s@.subrange(i as int, i + p.len()) =~= p@);
    true
}

/// Whether `s` begins with `p`.
pub fn starts_with(s: &Vec<char>, p: &Vec<char>) -> (r: bool)
    ensures
        r == has_prefix(s@, p@),
{
    matches_at(s, p, 0)
}

/// Whether `s` ends with `p`.
pub fn ends_with(s: &Vec<char>, p: &Vec<char>) -> (r: bool)
    ensures
        r == has_suffix(s@, p@),
{
    if p.len() > s.len() {
        return false;
    }
    matches_at(s, p, s.len() - p.len())
}

/// Whether `p` occurs somewhere in `s`.
pub fn contains(s: &Vec<char>, p: &Vec<char>) -> (r: bool)
    ensures
        r == has_substring(s@, p@),
{
    if p.len() > s.len() {
        return false;
    }
    let last: usize = s.len() - p.len();
    let mut i: usize = 0;
    while i < last
        invariant
            last == s.len() - p.len(),
            i <= last,
            forall|j: int| 0 <= j < i ==> !occurs_at(s@, p@, j),
        decreases last - i,
    {
        if matches_at(s, p, i) {
            return true;
        }
        i += 1;
    }
    matches_at(s, p, last)
}

// ---------------------------------------------------------------------------
// ASCII case folding (header names)
// ---------------------------------------------------------------------------

/// The lowercase form of an ASCII capital letter; every other character is
/// left as it is.
pub open spec fn ascii_lower(c: char) -> char {
    if 'A' <= c && c <= 'Z' {
        ((c as u8) + 32u8) as char
    } else {
        c
    }
}

/// Two texts that differ at most in the case of their ASCII letters.
pub open spec fn same_ignoring_ascii_case(a: Seq<char>, b: Seq<char>) -> bool {
    a.len() == b.len() && forall|i: int| 0 <= i < a.len() ==> ascii_lower(a[i]) == ascii_lower(b[i])
}

/// `str::eq_ignore_ascii_case`: whether two string slices hold the same
/// characters once the ASCII letters `A` to `Z` are taken as `a` to `z`.
#[verifier::external_body]
pub(crate) fn str_eq_ignore_ascii_case(a: &str, b: &str) -> (r: bool)
    ensures
        r == same_ignoring_ascii_case(a@, b@),
{
    a.eq_ignore_ascii_case(b)
}

// ---------------------------------------------------------------------------
// Trimming
// ---------------------------------------------------------------------------

/// The text without its leading and trailing whitespace.
pub open spec fn trimmed(s: Seq<char>) -> Seq<char>
    decreases s.len(),
{
    if s.len() > 0 && is_whitespace(s[0]) {
        trimmed(s.skip(1))
    } else if s.len() > 0 && is_whitespace(s.last()) {
        trimmed(s.drop_last())
    } else {
        s
    }
}

/// Trims the part `[from, to)` of `s`: the bounds of what is left.
pub(crate) fn trim_range(s: &Vec<char>, from: usize, to: usize) -> (r: (usize, usize))
    requires
        from <= to <= s.len(),
    ensures
        from <= r.0 <= r.1 <= to,
        s@.subrange(r.0 as int, r.1 as int) == trimmed(s@.subrange(from as int, to as int)),
{
    let mut lo: usize = from;
    while lo < to && char_is_whitespace(s[lo])
        invariant
            from <= lo <= to <= s.len(),
            trimmed(s@.subrange(lo as int, to as int)) == trimmed(
                s@.subrange(from as int, to as int),
            ),
        decreases to - lo,
    {
        proof {
            let cur = s@.subrange(lo as int, to as int);
            assert(cur.skip(1) =~= s@.subrange(lo + 1, to as int));
        }
        lo += 1;
    }
    let mut hi: usize = to;
    while lo < hi && char_is_whitespace(s[hi - 1])
        invariant
            lo <= hi <= to <= s.len(),
            lo < to ==> !is_whitespace(s@[lo as int]),
            trimmed(s@.subrange(lo as int, hi as int)) == trimmed(
                s@.subrange(from as int, to as int),
            ),
        decreases hi - lo,
    {
        proof {
            let cur = s@.subrange(lo as int, hi as int);
            assert(cur[0] == s@[lo as int]);
            assert(cur.last() == s@[hi - 1]);
            assert(cur.drop_last() =~= s@.subrange(lo as int, hi - 1));
        }
        hi -= 1;
    }
    proof {
        let cur = s@.subrange(lo as int, hi as int);
        if cur.len() > 0 {
            assert(cur[0] == s@[lo as int]);
            assert(cur.last() == s@[hi - 1]);
        }
        assert(trimmed(cur) == cur);
    }
    (lo, hi)
}

// ---------------------------------------------------------------------------
// Splitting
// ---------------------------------------------------------------------------

/// The position of the first `sep` in `s`, or the length of `s` where there
/// is none.
pub open spec fn first_break(s: Seq<char>, sep: char) -> nat
    decreases s.len(),
{
    if s.len() == 0 || s[0] == sep {
        0
    } else {
        1 + first_break(s.skip(1), sep)
    }
}

/// The parts of `s` between separators, in order. A text without a separator
/// is one part; the empty text is one empty part.
pub open spec fn split(s: Seq<char>, sep: char) -> Seq<Seq<char>>
    decreases s.len(),
{
    let b = first_break(s, sep);
    if b >= s.len() {
        seq![s]
    } else {
        seq![s.take(b as int)] + split(s.skip(b as int + 1), sep)
    }
}

/// `first_break` is the least position that holds the separator.
pub proof fn lemma_first_break(s: Seq<char>, sep: char, i: int)
    requires
        0 <= i <= s.len(),
        forall|k: int| 0 <= k < i ==> s[k] != sep,
        i == s.len() || s[i] == sep,
    ensures
        first_break(s, sep) == i,
    decreases s.len(),
{
    if i > 0 {
        let rest = s.skip(1);
        assert forall|k: int| 0 <= k < i - 1 implies rest[k] != sep by {
            assert(rest[k] == s[k + 1]);
        }
        lemma_first_break(rest, sep, i - 1);
    }
}

/// The position of the first `sep` in `s` at or after `from`, or the length
/// of `s`.
pub(crate) fn find_break(s: &Vec<char>, from: usize, sep: char) -> (r: usize)
    requires
        from <= s.len(),
    ensures
        from <= r <= s.len(),
        r - from == first_break(s@.skip(from as int), sep),
{
    let mut i: usize = from;
    while i < s.len() && s[i] != sep
        invariant
            from <= i <= s.len(),
            forall|k: int| from <= k < i ==> s@[k] != sep,
        decreases s.len() - i,
    {
        i += 1;
    }
    proof {
        let rest = s@.skip(from as int);
        assert forall|k: int| 0 <= k < i - from implies rest[k] != sep by {
            assert(rest[k] == s@[from + k]);
        }
        lemma_first_break(rest, sep, i - from);
    }
    i
}

/// The parts of `s` between `sep`, each trimmed of whitespace.
pub open spec fn trimmed_parts(s: Seq<char>, sep: char) -> Seq<Seq<char>> {
    split(s, sep).map_values(|part: Seq<char>| trimmed(part))
}

/// The bounds, in `s`, of each part between `sep` after trimming.
pub fn split_trimmed(s: &Vec<char>, sep: char) -> (r: Vec<(usize, usize)>)
    ensures
        r@.len() == trimmed_parts(s@, sep).len(),
        forall|i: int|
            #![trigger r@[i]]
            0 <= i < r@.len() ==> {
                &&& r@[i].0 <= r@[i].1 <= s@.len()
                &&& s@.subrange(r@[i].0 as int, r@[i].1 as int) == trimmed_parts(s@, sep)[i]
            },
{
    let mut out: Vec<(usize, usize)> = Vec::new();
    let ghost mut done: Seq<Seq<char>> = Seq::empty();
    let mut start: usize = 0;
    proof {
        assert(s@.skip(0) =~= s@);
    }
    loop
        invariant_except_break
            start <= s.len(),
            split(s@, sep) =~= done + split(s@.skip(start as int), sep),
        invariant
            out@.len() == done.len(),
            forall|i: int|
                #![trigger out@[i]]
                0 <= i < out@.len() ==> {
                    &&& out@[i].0 <= out@[i].1 <= s@.len()
                    &&& s@.subrange(out@[i].0 as int, out@[i].1 as int) == trimmed(done[i])
                },
        ensures
            split(s@, sep) =~= done,
        decreases s.len() - start,
    {
        let end = find_break(s, start, sep);
        let bounds = trim_range(s, start, end);
        let ghost rest = s@.skip(start as int);
        let ghost part = s@.subrange(start as int, end as int);
        proof {
            assert(rest.take(end - start) =~= part);
            if end < s.len() {
                assert(rest.skip(end - start + 1) =~= s@.skip(end + 1));
            } else {
                assert(rest =~= part);
            }
        }
        let ghost before = out@;
        out.push(bounds);
        proof {
            done = done.push(part);
            assert forall|i: int| 0 <= i < out@.len() implies {
                &&& (#[trigger] out@[i]).0 <= out@[i].1 <= s@.len()
                &&& s@.subrange(out@[i].0 as int, out@[i].1 as int) == trimmed(done[i])
            } by {
                if i < before.len() {
                    assert(out@[i] == before[i]);
                }
            }
        }
        if end >= s.len() {
            break;
        }
        start = end + 1;
    }
    proof {
        let parts = trimmed_parts(s@, sep);
        assert(parts.len() == done.len());
        assert forall|i: int| 0 <= i < out@.len() implies s@.subrange(
            (#[trigger] out@[i]).0 as int,
            out@[i].1 as int,
        ) == parts[i] by {
            assert(parts[i] == trimmed(done[i]));
        }
    }
    out
}

/// The part of `s` in `[from, to)`, as a vector.
pub(crate) fn slice_of(s: &Vec<char>, from: usize, to: usize) -> (r: Vec<char>)
    requires
        from <= to <= s.len(),
    ensures
        r@ == s@.subrange(from as int, to as int),
{
    let mut out: Vec<char> = Vec::new();
    let mut i: usize = from;
    while i < to
        invariant
            from <= i <= to <= s.len(),
            out@ == s@.subrange(from as int, i as int),
        decreases to - i,
    {
        out.push(s[i]);
        proof {
            assert(
                s@.subrange(from as int, i + 1) =~= s@.subrange(from as int, i as int).push(
                    s@[i as int],
                )
            );
        }
        i += 1;
    }
    out
}

// ---------------------------------------------------------------------------
// Decimal numerals
// ---------------------------------------------------------------------------

/// The character of a decimal digit.
pub open spec fn digit_char(d: nat) -> char
    recommends
        d < 10,
{
    (('0' as u8) + d as u8) as char
}

/// The decimal numeral of a natural number, without leading zeros.
pub open spec fn decimal(n: nat) -> Seq<char>
    decreases n,
{
    if n < 10 {
        seq![digit_char(n)]
    } else {
        decimal(n / 10).push(digit_char(n % 10))
    }
}

/// Writes a number's decimal numeral at the end of `out`.
pub fn push_decimal(out: &mut Vec<char>, n: u128)
    ensures
        final(out)@ == old(out)@ + decimal(n as nat),
    decreases n,
{
    if n >= 10 {
        push_decimal(out, n / 10);
    }
    let d: u8 = (n % 10) as u8;
    out.push((('0' as u8) + d) as char);
    proof {
        if n < 10 {
            assert(final(out)@ =~= old(out)@ + decimal(n as nat));
        } else {
            assert(final(out)@ =~= old(out)@ + decimal(n as nat));
        }
    }
}

/// Writes the characters of `s` at the end of `out`.
pub fn push_str(out: &mut Vec<char>, s: &str)
    ensures
        final(out)@ == old(out)@ + s@,
{
    let chars = chars_of(s);
    push_chars(out, &chars);
}

/// Writes the characters of `s` at the end of `out`.
pub fn push_chars(out: &mut Vec<char>, s: &Vec<char>)
    ensures
        final(out)@ == old(out)@ + s@,
{
    let mut i: usize = 0;
    while i < s.len()
        invariant
            i <= s.len(),
            out@ == old(out)@ + s@.take(i as int),
        decreases s.len() - i,
    {
        out.push(s[i]);
        proof {
            assert(s@.take(i + 1) =~= s@.take(i as int).push(s@[i as int]));
        }
        i += 1;
    }
    proof {
        assert(s@.take(s@.len() as int) =~= s@);
    }
}

} // verus!
