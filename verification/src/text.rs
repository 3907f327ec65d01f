//! Character-level text helpers shared by the formatters and parsers of the crate.
//!
//! Text is modelled as `Seq<char>`, the view Verus gives to `String` and `&str`.
use vstd::prelude::*;

verus! {

broadcast use vstd::string::group_string_axioms;

/// The characters of a string slice, in order.
pub fn to_chars(s: &str) -> (v: Vec<char>)
    ensures
        v@ == s@,
{
    let mut v: Vec<char> = Vec::new();
    for c in it: s.chars()
        invariant
            v@ == it.seq().take(it.index()),
            it.seq() == s@,
    {
        v.push(c);
    }
    v
}

/// Appends one character to a string (`String::push`).
#[verifier::external_body]
pub(crate) fn push_char(s: &mut String, c: char)
    ensures
        final(s)@ == old(s)@.push(c),
{
    s.push(c);
}

/// Appends a string slice to a string.
pub fn push_str(s: &mut String, t: &str)
    ensures
        final(s)@ == old(s)@ + t@,
{
    s.append(t);
}

/// Appends a run of characters to a string.
pub fn push_chars(s: &mut String, cs: &[char])
    ensures
        final(s)@ == old(s)@ + cs@,
{
    let ghost start = s@;
    for i in 0..cs.len()
        invariant
            s@ == start + cs@.take(i as int),
    {
        push_char(s, cs[i]);
        assert(cs@.take(i + 1) == cs@.take(i as int).push(cs@[i as int]));
    }
    assert(cs@.take(cs.len() as int) == cs@);
}

/// A string made of the given characters.
pub fn from_chars(cs: &[char]) -> (s: String)
    ensures
        s@ == cs@,
{
    let mut s = String::new();
    push_chars(&mut s, cs);
    s
}

/// A string with the same characters as the slice.
pub fn owned(t: &str) -> (s: String)
    ensures
        s@ == t@,
{
    let mut s = String::new();
    push_str(&mut s, t);
    s
}

/// `char::is_whitespace`: the Unicode `White_Space` property.
pub open spec fn is_ws(c: char) -> bool {
    ||| ('\u{9}' <= c && c <= '\u{d}')
    ||| c == ' '
    ||| c == '\u{85}'
    ||| c == '\u{a0}'
    ||| c == '\u{1680}'
    ||| ('\u{2000}' <= c && c <= '\u{200a}')
    ||| c == '\u{2028}'
    ||| c == '\u{2029}'
    ||| c == '\u{202f}'
    ||| c == '\u{205f}'
    ||| c == '\u{3000}'
}

pub fn char_is_ws(c: char) -> (b: bool)
    ensures
        b == is_ws(c),
{
    ('\u{9}' <= c && c <= '\u{d}') || c == ' ' || c == '\u{85}' || c == '\u{a0}' || c == '\u{1680}'
        || ('\u{2000}' <= c && c <= '\u{200a}') || c == '\u{2028}' || c == '\u{2029}' || c
        == '\u{202f}' || c == '\u{205f}' || c == '\u{3000}'
}

/// `s` with leading characters satisfying `p` removed.
pub open spec fn strip_leading(s: Seq<char>, p: spec_fn(char) -> bool) -> Seq<char>
    decreases s.len(),
{
    if s.len() > 0 && p(s[0]) {
        strip_leading(s.drop_first(), p)
    } else {
        s
    }
}

/// `s` with trailing characters satisfying `p` removed.
pub open spec fn strip_trailing(s: Seq<char>, p: spec_fn(char) -> bool) -> Seq<char>
    decreases s.len(),
{
    if s.len() > 0 && p(s.last()) {
        strip_trailing(s.drop_last(), p)
    } else {
        s
    }
}

/// `str::trim`: surrounding white space removed.
pub open spec fn trim(s: Seq<char>) -> Seq<char> {
    strip_trailing(strip_leading(s, |c: char| is_ws(c)), |c: char| is_ws(c))
}

/// `str::trim_matches(ch)`: every leading and trailing `ch` removed.
pub open spec fn trim_char(s: Seq<char>, ch: char) -> Seq<char> {
    strip_trailing(strip_leading(s, is_char(ch)), is_char(ch))
}

/// The predicate "equals `ch`".
pub open spec fn is_char(ch: char) -> spec_fn(char) -> bool {
    |c: char| c == ch
}

/// Whether `s` begins with `prefix`.
pub open spec fn starts_with(s: Seq<char>, prefix: Seq<char>) -> bool {
    prefix.len() <= s.len() && s.take(prefix.len() as int) == prefix
}

/// Whether `needle` occurs in `s` starting at index `i`.
pub open spec fn occurs_at(s: Seq<char>, needle: Seq<char>, i: int) -> bool {
    0 <= i && i + needle.len() <= s.len() && s.subrange(i, i + needle.len()) == needle
}

/// The bounds `[lo, hi)` of `cs[from..to]` once white space is stripped from both ends.
pub fn strip_bounds_ws(cs: &[char], from: usize, to: usize) -> (r: (usize, usize))
    requires
        from <= to <= cs.len(),
    ensures
        from <= r.0 <= r.1 <= to,
        cs@.subrange(r.0 as int, r.1 as int) == trim(cs@.subrange(from as int, to as int)),
{
    let mut lo = from;
    while lo < to && char_is_ws(cs[lo])
        invariant
            from <= lo <= to <= cs.len(),
            strip_leading(cs@.subrange(from as int, to as int), |c: char| is_ws(c))
                == strip_leading(cs@.subrange(lo as int, to as int), |c: char| is_ws(c)),
        decreases to - lo,
    {
        assert(cs@.subrange(lo as int, to as int).drop_first() == cs@.subrange(
            lo + 1,
            to as int,
        ));
        lo = lo + 1;
    }
    let mut hi = to;
    while hi > lo && char_is_ws(cs[hi - 1])
        invariant
            from <= lo <= hi <= to <= cs.len(),
            strip_trailing(cs@.subrange(lo as int, to as int), |c: char| is_ws(c))
                == strip_trailing(cs@.subrange(lo as int, hi as int), |c: char| is_ws(c)),
        decreases hi - lo,
    {
        assert(cs@.subrange(lo as int, hi as int).drop_last() == cs@.subrange(
            lo as int,
            hi - 1,
        ));
        hi = hi - 1;
    }
    (lo, hi)
}

/// The bounds `[lo, hi)` of `cs[from..to]` once every leading and trailing `ch` is stripped.
pub fn strip_bounds_char(cs: &[char], from: usize, to: usize, ch: char) -> (r: (usize, usize))
    requires
        from <= to <= cs.len(),
    ensures
        from <= r.0 <= r.1 <= to,
        cs@.subrange(r.0 as int, r.1 as int) == trim_char(
            cs@.subrange(from as int, to as int),
            ch,
        ),
{
    let mut lo = from;
    while lo < to && cs[lo] == ch
        invariant
            from <= lo <= to <= cs.len(),
            strip_leading(cs@.subrange(from as int, to as int), is_char(ch))
                == strip_leading(cs@.subrange(lo as int, to as int), is_char(ch)),
        decreases to - lo,
    {
        assert(cs@.subrange(lo as int, to as int).drop_first() == cs@.subrange(
            lo + 1,
            to as int,
        ));
        lo = lo + 1;
    }
    let mut hi = to;
    while hi > lo && cs[hi - 1] == ch
        invariant
            from <= lo <= hi <= to <= cs.len(),
            strip_trailing(cs@.subrange(lo as int, to as int), is_char(ch))
                == strip_trailing(cs@.subrange(lo as int, hi as int), is_char(ch)),
        decreases hi - lo,
    {
        assert(cs@.subrange(lo as int, hi as int).drop_last() == cs@.subrange(
            lo as int,
            hi - 1,
        ));
        hi = hi - 1;
    }
    (lo, hi)
}

/// Whether the trimmed string is empty (`s.trim().is_empty()`).
pub fn is_blank(s: &str) -> (b: bool)
    ensures
        b == (trim(s@).len() == 0),
{
    let cs = to_chars(s);
    let (lo, hi) = strip_bounds_ws(cs.as_slice(), 0, cs.len());
    assert(cs@.subrange(0, cs@.len() as int) == cs@);
    lo == hi
}

/// `&cs[lo..hi]`.
pub fn slice_range(cs: &[char], lo: usize, hi: usize) -> (r: &[char])
    requires
        lo <= hi <= cs.len(),
    ensures
        r@ == cs@.subrange(lo as int, hi as int),
{
    &cs[lo..hi]
}

/// Whether `cs[at..]` begins with `prefix`.
pub fn starts_with_at(cs: &[char], at: usize, prefix: &[char]) -> (b: bool)
    requires
        at <= cs.len(),
    ensures
        b == starts_with(cs@.skip(at as int), prefix@),
        b == occurs_at(cs@, prefix@, at as int),
{
    if prefix.len() > cs.len() - at {
        return false;
    }
    let mut i: usize = 0;
    while i < prefix.len()
        invariant
            at + prefix.len() <= cs.len(),
            i <= prefix.len(),
            forall|j: int| 0 <= j < i ==> cs@[at + j] == prefix@[j],
        decreases prefix.len() - i,
    {
        if cs[at + i] != prefix[i] {
            assert(cs@.skip(at as int).take(prefix.len() as int)[i as int] != prefix@[i as int]);
            assert(cs@.subrange(at as int, at + prefix.len())[i as int] != prefix@[i as int]);
            return false;
        }
        i = i + 1;
    }
    assert(cs@.skip(at as int).take(prefix.len() as int) == prefix@);
    assert(cs@.subrange(at as int, at + prefix.len()) == prefix@);
    true
}

/// The decimal digit for `d < 10`.
pub open spec fn digit(d: nat) -> char {
    if d == 0 {
        '0'
    } else if d == 1 {
        '1'
    } else if d == 2 {
        '2'
    } else if d == 3 {
        '3'
    } else if d == 4 {
        '4'
    } else if d == 5 {
        '5'
    } else if d == 6 {
        '6'
    } else if d == 7 {
        '7'
    } else if d == 8 {
        '8'
    } else {
        '9'
    }
}

/// The decimal representation of `n`, as `Display` prints it for unsigned integers.
pub open spec fn decimal(n: nat) -> Seq<char>
    decreases n,
{
    if n < 10 {
        seq![digit(n)]
    } else {
        decimal(n / 10).push(digit(n % 10))
    }
}

/// The decimal representation of a signed integer, as `Display` prints it.
pub open spec fn signed_decimal(n: int) -> Seq<char> {
    if n < 0 {
        seq!['-'] + decimal((-n) as nat)
    } else {
        decimal(n as nat)
    }
}

fn digit_char(d: u64) -> (c: char)
    requires
        d < 10,
    ensures
        c == digit(d as nat),
{
    if d == 0 {
        '0'
    } else if d == 1 {
        '1'
    } else if d == 2 {
        '2'
    } else if d == 3 {
        '3'
    } else if d == 4 {
        '4'
    } else if d == 5 {
        '5'
    } else if d == 6 {
        '6'
    } else if d == 7 {
        '7'
    } else if d == 8 {
        '8'
    } else {
        '9'
    }
}

/// Appends the decimal representation of `n`.
pub fn push_decimal(s: &mut String, n: u64)
    ensures
        final(s)@ == old(s)@ + decimal(n as nat),
    decreases n,
{
    if n >= 10 {
        push_decimal(s, n / 10);
    }
    push_char(s, digit_char(n % 10));
    proof {
        if n >= 10 {
            assert(old(s)@ + decimal(n as nat) == old(s)@ + decimal((n / 10) as nat) + seq![
                digit((n % 10) as nat),
            ]);
        }
    }
}

/// Appends the decimal representation of a signed `n`.
pub fn push_signed_decimal(s: &mut String, n: i64)
    ensures
        final(s)@ == old(s)@ + signed_decimal(n as int),
{
    if n < 0 {
        push_char(s, '-');
        let m: u64 = (-(n as i128)) as u64;
        push_decimal(s, m);
        assert(old(s)@ + signed_decimal(n as int) == old(s)@.push('-') + decimal(m as nat));
    } else {
        push_decimal(s, n as u64);
    }
}

/// The index of the first occurrence of `needle` in `s` at or after `i` (`str::find` on the
/// rest of the text), if any.
pub open spec fn find_at(s: Seq<char>, needle: Seq<char>, i: int) -> Option<int>
    decreases s.len() + 1 - i,
{
    if i < 0 || i > s.len() {
        None
    } else if occurs_at(s, needle, i) {
        Some(i)
    } else {
        find_at(s, needle, i + 1)
    }
}

/// The first index at or after `from` where `needle` occurs in `cs`.
pub fn find_at_exec(cs: &[char], needle: &[char], from: usize) -> (r: Option<usize>)
    requires
        from <= cs.len(),
    ensures
        r matches Some(i) ==> find_at(cs@, needle@, from as int) == Some(i as int),
        r is None ==> find_at(cs@, needle@, from as int) is None,
{
    let mut i = from;
    while i < cs.len()
        invariant
            from <= i <= cs.len(),
            find_at(cs@, needle@, from as int) == find_at(cs@, needle@, i as int),
        decreases cs.len() - i,
    {
        if starts_with_at(cs, i, needle) {
            return Some(i);
        }
        i = i + 1;
    }
    if starts_with_at(cs, i, needle) {
        return Some(i);
    }
    assert(find_at(cs@, needle@, i + 1) is None);
    None
}

/// Where `find_at` lands.
pub proof fn lemma_find_at_bounds(s: Seq<char>, needle: Seq<char>, i: int)
    ensures
        find_at(s, needle, i) matches Some(j) ==> i <= j && occurs_at(s, needle, j),
    decreases s.len() + 1 - i,
{
    if 0 <= i <= s.len() && !occurs_at(s, needle, i) {
        lemma_find_at_bounds(s, needle, i + 1);
    }
}

} // verus!
