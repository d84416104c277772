//! Character-level helpers shared by the parsers.
//!
//! Text is handled as sequences of `char`s: a `&str` is turned into a
//! `Vec<char>` once, the parsers work on index ranges of it, and results are
//! turned back into `String`s.
use vstd::prelude::*;

verus! {

/// Appends one character to a string (`String::push`).
#[verifier::external_body]
pub fn push_char(s: &mut String, c: char)
    ensures
        final(s)@ == old(s)@.push(c),
{
    s.push(c);
}

/// Compares two string slices character by character: equal exactly when
/// they hold the same characters.
pub fn str_eq(a: &str, b: &str) -> (r: bool)
    ensures
        r == (a@ == b@),
{
    let va = str_to_chars(a);
    let vb = str_to_chars(b);
    if va.len() != vb.len() {
        return false;
    }
    let mut i: usize = 0;
    while i < va.len()
        invariant
            i <= va@.len(),
            va@.len() == vb@.len(),
            va@ == a@,
            vb@ == b@,
            forall|j: int| 0 <= j < i ==> va@[j] == vb@[j],
        decreases va@.len() - i,
    {
        if va[i] != vb[i] {
            return false;
        }
        i = i + 1;
    }
    assert(va@ =~= vb@);
    true
}

/// The characters of a string slice, in order.
pub fn str_to_chars(s: &str) -> (v: Vec<char>)
    ensures
        v@ == s@,
{
    let mut v: Vec<char> = Vec::new();
    for c in it: s.chars()
        invariant
            it.seq() == s@,
            v@ == s@.take(it.index() as int),
    {
        v.push(c);
    }
    v
}

/// A string holding the characters `v[lo..hi]`.
pub fn chars_to_string(v: &[char], lo: usize, hi: usize) -> (s: String)
    requires
        lo <= hi <= v@.len(),
    ensures
        s@ == v@.subrange(lo as int, hi as int),
{
    let mut s = String::new();
    let mut i = lo;
    while i < hi
        invariant
            lo <= i <= hi <= v@.len(),
            s@ == v@.subrange(lo as int, i as int),
        decreases hi - i,
    {
        push_char(&mut s, v[i]);
        assert(v@.subrange(lo as int, i + 1) =~= v@.subrange(lo as int, i as int).push(v@[i as int]));
        i = i + 1;
    }
    s
}

/// Whether `c` has the Unicode `White_Space` property, which is what
/// `char::is_whitespace` and `str::trim` go by.
pub open spec fn is_ws(c: char) -> bool {
    let u = c as u32;
    ||| 0x09 <= u <= 0x0D
    ||| u == 0x20
    ||| u == 0x85
    ||| u == 0xA0
    ||| u == 0x1680
    ||| 0x2000 <= u <= 0x200A
    ||| u == 0x2028
    ||| u == 0x2029
    ||| u == 0x202F
    ||| u == 0x205F
    ||| u == 0x3000
}

/// Executable form of [`is_ws`].
pub fn is_whitespace(c: char) -> (r: bool)
    ensures
        r == is_ws(c),
{
    let u = c as u32;
    (0x09 <= u && u <= 0x0D) || u == 0x20 || u == 0x85 || u == 0xA0 || u == 0x1680 || (0x2000
        <= u && u <= 0x200A) || u == 0x2028 || u == 0x2029 || u == 0x202F || u == 0x205F || u
        == 0x3000
}

/// `s` without its leading whitespace.
pub open spec fn trim_start(s: Seq<char>) -> Seq<char>
    decreases s.len(),
{
    if s.len() > 0 && is_ws(s[0]) {
        trim_start(s.drop_first())
    } else {
        s
    }
}

/// `s` without its trailing whitespace.
pub open spec fn trim_end(s: Seq<char>) -> Seq<char>
    decreases s.len(),
{
    if s.len() > 0 && is_ws(s.last()) {
        trim_end(s.drop_last())
    } else {
        s
    }
}

/// `s` without leading and trailing whitespace, as `str::trim` gives it.
pub open spec fn trim(s: Seq<char>) -> Seq<char> {
    trim_end(trim_start(s))
}

/// The bounds of `trim(v[lo..hi])` within `v`.
pub fn trim_bounds(v: &[char], lo: usize, hi: usize) -> (r: (usize, usize))
    requires
        lo <= hi <= v@.len(),
    ensures
        lo <= r.0 <= r.1 <= hi,
        v@.subrange(r.0 as int, r.1 as int) == trim(v@.subrange(lo as int, hi as int)),
{
    let a = trim_start_bound(v, lo, hi);
    let ghost ts = v@.subrange(a as int, hi as int);
    assert(trim_start(ts) == ts);
    let mut b = hi;
    while b > a && is_whitespace(v[b - 1])
        invariant
            lo <= a <= b <= hi <= v@.len(),
            trim_end(ts) == trim_end(v@.subrange(a as int, b as int)),
        decreases b - a,
    {
        assert(v@.subrange(a as int, b as int).drop_last() =~= v@.subrange(a as int, b - 1));
        b = b - 1;
    }
    (a, b)
}

/// Whether `s` begins with `p`.
pub open spec fn starts_with(s: Seq<char>, p: Seq<char>) -> bool {
    p.len() <= s.len() && s.subrange(0, p.len() as int) == p
}

/// Whether `v[lo..hi]` begins with the characters of `p`.
pub fn has_prefix_at(v: &[char], lo: usize, hi: usize, p: &[char]) -> (r: bool)
    requires
        lo <= hi <= v@.len(),
    ensures
        r == starts_with(v@.subrange(lo as int, hi as int), p@),
{
    if p.len() > hi - lo {
        return false;
    }
    let mut i: usize = 0;
    while i < p.len()
        invariant
            lo <= hi <= v@.len(),
            p@.len() <= hi - lo,
            i <= p@.len(),
            forall|j: int| 0 <= j < i ==> v@[lo + j] == p@[j],
        decreases p.len() - i,
    {
        if v[lo + i] != p[i] {
            assert(v@.subrange(lo as int, hi as int).subrange(0, p@.len() as int)[i as int] != p@[i as int]);
            return false;
        }
        i = i + 1;
    }
    assert(v@.subrange(lo as int, hi as int).subrange(0, p@.len() as int) =~= p@);
    true
}

/// The first index `i >= start` with `s[i] == c`, if there is one.
pub open spec fn find_from(s: Seq<char>, c: char, start: int) -> Option<int>
    decreases s.len() - start,
{
    if start < 0 || start >= s.len() {
        None
    } else if s[start] == c {
        Some(start)
    } else {
        find_from(s, c, start + 1)
    }
}

/// What [`find_from`] gives back: the first match at or after `start`.
pub proof fn lemma_find_from(s: Seq<char>, c: char, start: int)
    requires
        0 <= start,
    ensures
        match find_from(s, c, start) {
            Some(i) => start <= i < s.len() && s[i] == c && forall|j: int|
                start <= j < i ==> s[j] != c,
            None => forall|j: int| start <= j < s.len() ==> s[j] != c,
        },
    decreases s.len() - start,
{
    if start < s.len() && s[start] != c {
        lemma_find_from(s, c, start + 1);
    }
}

/// The first index `i >= from` of `v[lo..hi]` (counted in `v`) that holds
/// `c`, if there is one.
pub fn find_char(v: &[char], c: char, lo: usize, from: usize, hi: usize) -> (r: Option<usize>)
    requires
        lo <= from <= hi <= v@.len(),
    ensures
        match r {
            Some(i) => from <= i < hi && find_from(v@.subrange(lo as int, hi as int), c, from - lo)
                == Some(i - lo),
            None => find_from(v@.subrange(lo as int, hi as int), c, from - lo) is None,
        },
{
    let ghost s = v@.subrange(lo as int, hi as int);
    let mut i = from;
    while i < hi
        invariant
            lo <= from <= i <= hi <= v@.len(),
            s == v@.subrange(lo as int, hi as int),
            find_from(s, c, from - lo) == find_from(s, c, i - lo),
        decreases hi - i,
    {
        if v[i] == c {
            return Some(i);
        }
        i = i + 1;
    }
    None
}

/// Whether `c` has the Unicode `Alphabetic` property, as
/// `char::is_alphabetic` reports it.
pub uninterp spec fn alphabetic(c: char) -> bool;

/// Whether `c` is alphabetic or numeric in Unicode's sense, as
/// `char::is_alphanumeric` reports it.
pub uninterp spec fn alphanumeric(c: char) -> bool;

/// `char::is_alphabetic`: whether `c` has the Unicode `Alphabetic` property.
/// The property's tables are not restated here: the result is named by
/// [`alphabetic`].
#[verifier::external_body]
pub fn char_is_alphabetic(c: char) -> (r: bool)
    ensures
        r == alphabetic(c),
{
    c.is_alphabetic()
}

/// `char::is_alphanumeric`: whether `c` is alphabetic or numeric in
/// Unicode's sense. The result is named by [`alphanumeric`].
#[verifier::external_body]
pub fn char_is_alphanumeric(c: char) -> (r: bool)
    ensures
        r == alphanumeric(c),
{
    c.is_alphanumeric()
}


/// The pieces of `s[start..]` between the occurrences of `c`, as `str::split`
/// gives them: one more piece than there are occurrences.
pub open spec fn split_from(s: Seq<char>, c: char, start: int) -> Seq<Seq<char>>
    decreases s.len() - start,
{
    if start < 0 || start > s.len() {
        Seq::empty()
    } else {
        match find_from(s, c, start) {
            Some(i) => {
                proof {
                    lemma_find_from(s, c, start);
                }
                seq![s.subrange(start, i)] + split_from(s, c, i + 1)
            },
            None => seq![s.subrange(start, s.len() as int)],
        }
    }
}

/// The pieces of `s` between the occurrences of `c`.
pub open spec fn split_on(s: Seq<char>, c: char) -> Seq<Seq<char>> {
    split_from(s, c, 0)
}

/// The pieces of `s` between the occurrences of `c`, as `str::split` gives
/// them, as [`split_on`] says.
pub fn split_text(s: &str, c: char) -> (r: Vec<String>)
    ensures
        r@.len() == split_on(s@, c).len(),
        forall|k: int| 0 <= k < r@.len() ==> (#[trigger] r@[k])@ == split_on(s@, c)[k],
{
    let v = str_to_chars(s);
    let mut r: Vec<String> = Vec::new();
    let mut start: usize = 0;
    loop
        invariant
            start <= v@.len(),
            v@ == s@,
            split_on(s@, c) == r@.map_values(|x: String| x@) + split_from(s@, c, start as int),
        decreases v@.len() + 1 - start,
    {
        let ghost before = r@.map_values(|x: String| x@);
        proof {
            lemma_find_from(s@, c, start as int);
        }
        assert(v@.subrange(0, v@.len() as int) =~= s@);
        match find_char(&v, c, 0, start, v.len()) {
            Some(i) => {
                let piece = chars_to_string(&v, start, i);
                r.push(piece);
                proof {
                    let rest = split_from(s@, c, i + 1);
                    assert(r@.map_values(|x: String| x@) =~= before.push(piece@));
                    assert(before + (seq![piece@] + rest) =~= before.push(piece@) + rest);
                }
                start = i + 1;
            },
            None => {
                let piece = chars_to_string(&v, start, v.len());
                r.push(piece);
                proof {
                    assert(r@.map_values(|x: String| x@) =~= before.push(piece@));
                    assert(before + seq![piece@] =~= before.push(piece@));
                    assert forall|k: int| 0 <= k < r@.len() implies (#[trigger] r@[k])@ == split_on(
                        s@,
                        c,
                    )[k] by {
                        assert(r@.map_values(|x: String| x@)[k] == r@[k]@);
                    }
                }
                return r;
            },
        }
    }
}


/// Where `trim_start(v[lo..hi])` begins within `v`.
pub fn trim_start_bound(v: &[char], lo: usize, hi: usize) -> (r: usize)
    requires
        lo <= hi <= v@.len(),
    ensures
        lo <= r <= hi,
        v@.subrange(r as int, hi as int) == trim_start(v@.subrange(lo as int, hi as int)),
        r < hi ==> !is_ws(v@[r as int]),
{
    let mut a = lo;
    while a < hi && is_whitespace(v[a])
        invariant
            lo <= a <= hi <= v@.len(),
            trim_start(v@.subrange(lo as int, hi as int)) == trim_start(
                v@.subrange(a as int, hi as int),
            ),
        decreases hi - a,
    {
        assert(v@.subrange(a as int, hi as int).drop_first() =~= v@.subrange(a + 1, hi as int));
        a = a + 1;
    }
    a
}

/// Whether `s` begins with `p`.
pub fn starts_with_text(s: &str, p: &str) -> (r: bool)
    ensures
        r == starts_with(s@, p@),
{
    let v = str_to_chars(s);
    let pv = str_to_chars(p);
    proof {
        assert(v@.subrange(0, v@.len() as int) =~= s@);
    }
    has_prefix_at(&v, 0, v.len(), &pv)
}

/// How `{:?}` writes a string: in double quotes, with quotes, backslashes
/// and special characters escaped.
pub uninterp spec fn quoted(s: Seq<char>) -> Seq<char>;

/// Formats a string with `{:?}` (`<str as Debug>::fmt`). The escaping rules
/// are not restated here: the result is named by [`quoted`].
#[verifier::external_body]
pub fn debug_quoted(s: &str) -> (r: String)
    ensures
        r@ == quoted(s@),
{
    format!("{:?}", s)
}


/// `s` in lower case, as `str::to_lowercase` gives it.
pub uninterp spec fn lowercase(s: Seq<char>) -> Seq<char>;

/// `str::to_lowercase`: `s` with every character mapped to lower case by the
/// Unicode tables. The mapping is not restated here: the result is named by
/// [`lowercase`].
#[verifier::external_body]
pub fn to_lowercase_text(s: &str) -> (r: String)
    ensures
        r@ == lowercase(s@),
{
    s.to_lowercase()
}

} // verus!
