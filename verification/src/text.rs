//! Character-level text primitives: the parts of `str`'s searching, trimming
//! and line splitting that the command surface's parsers rely on, stated over
//! `Seq<char>` and implemented over `Vec<char>`.
use vstd::prelude::*;

verus! {

// ---------------------------------------------------------------------------
// Characters
// ---------------------------------------------------------------------------

/// Whether `c` has Unicode's `White_Space` property, as `char::is_whitespace`
/// answers it: the ASCII tab, line feed, vertical tab, form feed, carriage
/// return and space, NEL, no-break space, the Ogham space mark, the
/// typographic spaces U+2000 to U+200A, the line and paragraph separators,
/// the narrow no-break space, the medium mathematical space and the
/// ideographic space.
pub open spec fn is_whitespace_char(c: char) -> bool {
    let n = c as int;
    ||| 0x09 <= n <= 0x0d
    ||| n == 0x20
    ||| n == 0x85
    ||| n == 0xa0
    ||| n == 0x1680
    ||| 0x2000 <= n <= 0x200a
    ||| n == 0x2028
    ||| n == 0x2029
    ||| n == 0x202f
    ||| n == 0x205f
    ||| n == 0x3000
}

/// Whether `c` is in one of Unicode's number categories, as `char::is_numeric`
/// answers it.
pub uninterp spec fn is_numeric_char(c: char) -> bool;

/// `char::is_whitespace`: whether `c` has the Unicode `White_Space` property,
/// spelled out by [`is_whitespace_char`].
#[verifier::external_body]
pub(crate) fn char_is_whitespace(c: char) -> (r: bool)
    ensures
        r == is_whitespace_char(c),
{
    c.is_whitespace()
}

/// `char::is_numeric`. Claims only that its answer is the Unicode number
/// category test of `c`, named by [`is_numeric_char`].
#[verifier::external_body]
pub(crate) fn char_is_numeric(c: char) -> (r: bool)
    ensures
        r == is_numeric_char(c),
{
    c.is_numeric()
}

/// `String::from_iter` over a slice of characters: the string holding exactly
/// those characters, in order.
#[verifier::external_body]
pub(crate) fn string_from_chars(v: &[char]) -> (s: String)
    ensures
        s@ == v@,
{
    String::from_iter(v.iter())
}

/// The characters of `s`, in order.
pub fn chars_of(s: &str) -> (v: Vec<char>)
    ensures
        v@ == s@,
{
    let mut v: Vec<char> = Vec::new();
    for c in it: s.chars()
        invariant
            v@ == it.seq().take(it.index() as int),
    {
        v.push(c);
    }
    v
}

/// A copy of `s[lo..hi]`.
pub fn copy_range(s: &[char], lo: usize, hi: usize) -> (v: Vec<char>)
    requires
        lo <= hi <= s@.len(),
    ensures
        v@ == s@.subrange(lo as int, hi as int),
{
    let mut v: Vec<char> = Vec::new();
    let mut k = lo;
    while k < hi
        invariant
            lo <= k <= hi <= s@.len(),
            v@ == s@.subrange(lo as int, k as int),
        decreases hi - k,
    {
        v.push(s[k]);
        k += 1;
        assert(v@ =~= s@.subrange(lo as int, k as int));
    }
    v
}

/// Appends every character of `t` to `v`.
pub fn push_all(v: &mut Vec<char>, t: &[char])
    ensures
        final(v)@ == old(v)@ + t@,
{
    let mut k: usize = 0;
    while k < t.len()
        invariant
            0 <= k <= t@.len(),
            v@ == old(v)@ + t@.take(k as int),
        decreases t.len() - k,
    {
        v.push(t[k]);
        k += 1;
        assert(v@ =~= old(v)@ + t@.take(k as int));
    }
    assert(t@.take(t@.len() as int) =~= t@);
}

// ---------------------------------------------------------------------------
// Searching
// ---------------------------------------------------------------------------

/// `p` occurs in `s` starting at position `i`.
pub open spec fn matches_at(s: Seq<char>, p: Seq<char>, i: int) -> bool {
    0 <= i && i + p.len() <= s.len() && s.subrange(i, i + p.len()) == p
}

/// The first position at or after `from` where `p` occurs in `s`.
pub open spec fn find_from(s: Seq<char>, p: Seq<char>, from: int) -> Option<int>
    decreases s.len() - from,
{
    if from < 0 || from + p.len() > s.len() {
        None
    } else if matches_at(s, p, from) {
        Some(from)
    } else {
        proof {
            if p.len() == 0 {
                lemma_empty_pattern_matches(s, p, from);
            }
        }
        find_from(s, p, from + 1)
    }
}

/// The first position where `p` occurs in `s` (`str::find`).
pub open spec fn find(s: Seq<char>, p: Seq<char>) -> Option<int> {
    find_from(s, p, 0)
}

/// `p` occurs somewhere in `s` (`str::contains`).
pub open spec fn contains(s: Seq<char>, p: Seq<char>) -> bool {
    exists|i: int| matches_at(s, p, i)
}

/// The last position at or before `i` where `p` occurs in `s`.
pub open spec fn rfind_at_or_before(s: Seq<char>, p: Seq<char>, i: int) -> Option<int>
    decreases i + 1,
{
    if i < 0 {
        None
    } else if matches_at(s, p, i) {
        Some(i)
    } else {
        rfind_at_or_before(s, p, i - 1)
    }
}

/// The last position where `p` occurs in `s` (`str::rfind`).
pub open spec fn rfind(s: Seq<char>, p: Seq<char>) -> Option<int> {
    rfind_at_or_before(s, p, s.len() - p.len())
}

/// An empty pattern occurs at every position of `s`, its end included.
pub proof fn lemma_empty_pattern_matches(s: Seq<char>, p: Seq<char>, i: int)
    requires
        p.len() == 0,
        0 <= i <= s.len(),
    ensures
        matches_at(s, p, i),
{
    assert(s.subrange(i, i + p.len()) =~= p);
}

/// What `find_from` answers: the first match at or after `from`, or none at all.
pub proof fn lemma_find_from(s: Seq<char>, p: Seq<char>, from: int)
    requires
        from >= 0,
    ensures
        find_from(s, p, from) matches Some(k) ==> from <= k && k + p.len() <= s.len()
            && matches_at(s, p, k) && forall|j: int| from <= j < k ==> !matches_at(s, p, j),
        find_from(s, p, from) is None ==> forall|j: int| from <= j ==> !matches_at(s, p, j),
    decreases s.len() - from,
{
    if from + p.len() > s.len() {
    } else if matches_at(s, p, from) {
    } else {
        if p.len() == 0 {
            lemma_empty_pattern_matches(s, p, from);
        }
        lemma_find_from(s, p, from + 1);
        assert forall|j: int| from <= j && !(from + 1 <= j) implies !matches_at(s, p, j) by {
            assert(j == from);
        }
    }
}

/// What `rfind_at_or_before` answers: the last match at or before `i`.
pub proof fn lemma_rfind_at_or_before(s: Seq<char>, p: Seq<char>, i: int)
    ensures
        rfind_at_or_before(s, p, i) matches Some(k) ==> 0 <= k <= i && matches_at(s, p, k)
            && forall|j: int| k < j <= i ==> !matches_at(s, p, j),
        rfind_at_or_before(s, p, i) is None ==> forall|j: int| j <= i ==> !matches_at(s, p, j),
    decreases i + 1,
{
    if i < 0 {
    } else if matches_at(s, p, i) {
    } else {
        lemma_rfind_at_or_before(s, p, i - 1);
    }
}

/// `find` answers `Some` exactly when `p` occurs in `s`.
pub proof fn lemma_find_iff_contains(s: Seq<char>, p: Seq<char>)
    ensures
        find(s, p) is Some <==> contains(s, p),
{
    lemma_find_from(s, p, 0);
    if find(s, p) is None {
        assert forall|j: int| !matches_at(s, p, j) by {
            if j >= 0 {
            }
        }
    }
}

/// Whether `p` occurs in `s` at `i`.
pub fn matches_at_exec(s: &[char], p: &[char], i: usize) -> (r: bool)
    requires
        i <= s@.len(),
    ensures
        r == matches_at(s@, p@, i as int),
{
    if p.len() > s.len() - i {
        return false;
    }
    let mut k: usize = 0;
    while k < p.len()
        invariant
            0 <= k <= p@.len(),
            i + p@.len() <= s@.len(),
            i + p.len() <= s.len(),
            forall|j: int| 0 <= j < k ==> s@[i + j] == p@[j],
        decreases p.len() - k,
    {
        if s[i + k] != p[k] {
            assert(s@.subrange(i as int, i + p@.len())[k as int] == s@[i + k]);
            return false;
        }
        k += 1;
    }
    assert(s@.subrange(i as int, i + p@.len()) =~= p@);
    true
}

/// The first position at or after `from` where `p` occurs in `s`.
pub fn find_from_exec(s: &[char], p: &[char], from: usize) -> (r: Option<usize>)
    requires
        from <= s@.len(),
    ensures
        match r {
            Some(i) => find_from(s@, p@, from as int) == Some(i as int),
            None => find_from(s@, p@, from as int) is None,
        },
{
    let mut i = from;
    while p.len() <= s.len() - i
        invariant
            from <= i <= s@.len(),
            find_from(s@, p@, from as int) == find_from(s@, p@, i as int),
        decreases s.len() - i,
    {
        if matches_at_exec(s, p, i) {
            return Some(i);
        }
        assert(p@.len() > 0) by {
            if p@.len() == 0 {
                assert(s@.subrange(i as int, i as int) =~= p@);
            }
        }
        i += 1;
    }
    None
}

/// The last position where `p` occurs in `s`.
pub fn rfind_exec(s: &[char], p: &[char]) -> (r: Option<usize>)
    ensures
        match r {
            Some(i) => rfind(s@, p@) == Some(i as int),
            None => rfind(s@, p@) is None,
        },
{
    if p.len() > s.len() {
        return None;
    }
    let mut i = s.len() - p.len();
    loop
        invariant
            i + p@.len() <= s@.len(),
            rfind(s@, p@) == rfind_at_or_before(s@, p@, i as int),
        decreases i,
    {
        if matches_at_exec(s, p, i) {
            return Some(i);
        }
        if i == 0 {
            assert(rfind_at_or_before(s@, p@, -1) is None);
            return None;
        }
        i -= 1;
    }
}

// ---------------------------------------------------------------------------
// Trimming
// ---------------------------------------------------------------------------

/// `s` without its leading whitespace.
pub open spec fn trim_start(s: Seq<char>) -> Seq<char>
    decreases s.len(),
{
    if s.len() > 0 && is_whitespace_char(s[0]) {
        trim_start(s.skip(1))
    } else {
        s
    }
}

/// `s` without its trailing whitespace.
pub open spec fn trim_end(s: Seq<char>) -> Seq<char>
    decreases s.len(),
{
    if s.len() > 0 && is_whitespace_char(s.last()) {
        trim_end(s.drop_last())
    } else {
        s
    }
}

/// `s` without leading or trailing whitespace (`str::trim`).
pub open spec fn trim(s: Seq<char>) -> Seq<char> {
    trim_end(trim_start(s))
}

/// The bounds of `trim(s[lo..hi])` within `s`.
pub fn trim_bounds(s: &[char], lo: usize, hi: usize) -> (r: (usize, usize))
    requires
        lo <= hi <= s@.len(),
    ensures
        lo <= r.0 <= r.1 <= hi,
        trim(s@.subrange(lo as int, hi as int)) == s@.subrange(r.0 as int, r.1 as int),
{
    let mut a = lo;
    while a < hi && char_is_whitespace(s[a])
        invariant
            lo <= a <= hi <= s@.len(),
            trim_start(s@.subrange(lo as int, hi as int)) == trim_start(
                s@.subrange(a as int, hi as int),
            ),
        decreases hi - a,
    {
        assert(s@.subrange(a as int, hi as int).skip(1) =~= s@.subrange(a + 1, hi as int));
        a += 1;
    }
    let mut b = hi;
    while b > a && char_is_whitespace(s[b - 1])
        invariant
            lo <= a <= b <= hi <= s@.len(),
            trim_start(s@.subrange(lo as int, hi as int)) == s@.subrange(a as int, hi as int),
            trim_end(s@.subrange(a as int, hi as int)) == trim_end(
                s@.subrange(a as int, b as int),
            ),
        decreases b - a,
    {
        assert(s@.subrange(a as int, b as int).drop_last() =~= s@.subrange(a as int, b - 1));
        b -= 1;
    }
    (a, b)
}

// ---------------------------------------------------------------------------
// Lines
// ---------------------------------------------------------------------------

/// The line feed, as a one-character pattern.
pub open spec fn newline() -> Seq<char> {
    seq!['\n']
}

/// `l` without one trailing carriage return.
pub open spec fn strip_cr(l: Seq<char>) -> Seq<char> {
    if l.len() > 0 && l.last() == '\r' {
        l.drop_last()
    } else {
        l
    }
}

/// The lines of `s` from position `start` on, as `str::lines` yields them: split
/// at each `\n`, a `\r` just before that `\n` removed, and no empty last line
/// after a final `\n`.
pub open spec fn lines_from(s: Seq<char>, start: int) -> Seq<Seq<char>>
    decreases s.len() - start,
{
    if start < 0 || start >= s.len() {
        Seq::empty()
    } else {
        match find_from(s, newline(), start) {
            None => seq![s.subrange(start, s.len() as int)],
            Some(j) => {
                proof {
                    lemma_find_from(s, newline(), start);
                }
                seq![strip_cr(s.subrange(start, j))] + lines_from(s, j + 1)
            },
        }
    }
}

/// The lines of `s` (`str::lines`).
pub open spec fn lines(s: Seq<char>) -> Seq<Seq<char>> {
    lines_from(s, 0)
}

/// The first of `ls` in which `p` occurs.
pub open spec fn first_containing(ls: Seq<Seq<char>>, p: Seq<char>) -> Option<Seq<char>>
    decreases ls.len(),
{
    if ls.len() == 0 {
        None
    } else if contains(ls[0], p) {
        Some(ls[0])
    } else {
        first_containing(ls.skip(1), p)
    }
}

/// The first line of `s`, if it has one.
pub open spec fn first_line(s: Seq<char>) -> Option<Seq<char>> {
    if lines(s).len() > 0 {
        Some(lines(s)[0])
    } else {
        None
    }
}

/// The bounds of the line of `s` that starts at `start`, its `\r` removed, and
/// where the next line starts.
fn line_at(s: &[char], start: usize) -> (r: (usize, usize, usize))
    requires
        start < s@.len(),
    ensures
        start <= r.0 <= r.1 && r.1 <= r.2 <= s@.len(),
        r.0 == start,
        lines_from(s@, start as int) == seq![s@.subrange(r.0 as int, r.1 as int)]
            + lines_from(s@, r.2 as int),
        r.2 > start,
{
    let nl = vec!['\n'];
    let nls = nl.as_slice();
    assert(nls@ =~= newline());
    proof {
        lemma_find_from(s@, newline(), start as int);
    }
    match find_from_exec(s, nls, start) {
        None => {
            assert(lines_from(s@, s@.len() as int) =~= Seq::<Seq<char>>::empty());
            assert(lines_from(s@, start as int) =~= seq![s@.subrange(start as int, s@.len() as int)]
                + lines_from(s@, s@.len() as int));
            (start, s.len(), s.len())
        },
        Some(j) => {
            assert(j + 1 <= s@.len());
            assert(j < s.len());
            let end = if j > start && s[j - 1] == '\r' {
                j - 1
            } else {
                j
            };
            assert(strip_cr(s@.subrange(start as int, j as int)) =~= s@.subrange(
                start as int,
                end as int,
            ));
            (start, end, j + 1)
        },
    }
}

/// The bounds of the first line of `s` in which `p` occurs, if any.
pub fn first_line_containing(s: &[char], p: &[char]) -> (r: Option<(usize, usize)>)
    ensures
        match r {
            Some((a, b)) => a <= b <= s@.len() && first_containing(lines(s@), p@) == Some(
                s@.subrange(a as int, b as int),
            ),
            None => first_containing(lines(s@), p@) is None,
        },
{
    let mut start: usize = 0;
    while start < s.len()
        invariant
            start <= s@.len(),
            first_containing(lines(s@), p@) == first_containing(lines_from(s@, start as int), p@),
        decreases s.len() - start,
    {
        let (a, b, next) = line_at(s, start);
        let line = copy_range(s, a, b);
        let ghost ls = lines_from(s@, start as int);
        assert(ls[0] == s@.subrange(a as int, b as int));
        assert(ls.skip(1) =~= lines_from(s@, next as int));
        proof {
            lemma_find_iff_contains(line@, p@);
        }
        if find_from_exec(line.as_slice(), p, 0).is_some() {
            return Some((a, b));
        }
        start = next;
    }
    assert(lines_from(s@, start as int) =~= Seq::<Seq<char>>::empty());
    None
}

/// The bounds of the first line of `s`, if it has one.
pub fn first_line_bounds(s: &[char]) -> (r: Option<(usize, usize)>)
    ensures
        match r {
            Some((a, b)) => a <= b <= s@.len() && first_line(s@) == Some(
                s@.subrange(a as int, b as int),
            ),
            None => first_line(s@) is None,
        },
{
    if s.len() == 0 {
        assert(lines(s@) =~= Seq::<Seq<char>>::empty());
        return None;
    }
    let (a, b, _next) = line_at(s, 0);
    Some((a, b))
}

// ---------------------------------------------------------------------------
// Replacing
// ---------------------------------------------------------------------------

/// `t` with every occurrence of `p` replaced by `m`, matches taken left to
/// right without overlap (`str::replace`). An empty `p` matches before every
/// character and at the end.
pub open spec fn replace(t: Seq<char>, p: Seq<char>, m: Seq<char>) -> Seq<char>
    decreases t.len(),
{
    if p.len() == 0 {
        if t.len() == 0 {
            m
        } else {
            m + seq![t[0]] + replace(t.skip(1), p, m)
        }
    } else if t.len() == 0 {
        t
    } else if matches_at(t, p, 0) {
        m + replace(t.skip(p.len() as int), p, m)
    } else {
        seq![t[0]] + replace(t.skip(1), p, m)
    }
}

/// `t[i..]` with every occurrence of `p` replaced by `m`.
pub fn replace_exec(t: &[char], p: &[char], m: &[char]) -> (r: Vec<char>)
    ensures
        r@ == replace(t@, p@, m@),
{
    let mut out: Vec<char> = Vec::new();
    let mut i: usize = 0;
    assert(t@.subrange(0, t@.len() as int) =~= t@);
    assert(out@ + replace(t@, p@, m@) =~= replace(t@, p@, m@));
    while i < t.len()
        invariant
            0 <= i <= t@.len(),
            out@ + replace(t@.subrange(i as int, t@.len() as int), p@, m@) == replace(
                t@,
                p@,
                m@,
            ),
        decreases t.len() - i,
    {
        let ghost rest = t@.subrange(i as int, t@.len() as int);
        if p.len() == 0 {
            assert(rest.skip(1) =~= t@.subrange(i + 1, t@.len() as int));
            let ghost before = out@;
            push_all(&mut out, m);
            out.push(t[i]);
            assert(out@ + replace(t@.subrange(i + 1, t@.len() as int), p@, m@) =~= before + (m@
                + seq![t@[i as int]] + replace(rest.skip(1), p@, m@)));
            i += 1;
        } else if matches_at_exec(t, p, i) {
            assert(matches_at(rest, p@, 0)) by {
                assert(rest.subrange(0, p@.len() as int) =~= t@.subrange(
                    i as int,
                    i + p@.len(),
                ));
            }
            assert(rest.skip(p@.len() as int) =~= t@.subrange(i + p@.len(), t@.len() as int));
            let ghost before = out@;
            push_all(&mut out, m);
            assert(out@ + replace(t@.subrange(i + p@.len(), t@.len() as int), p@, m@) =~= before
                + (m@ + replace(rest.skip(p@.len() as int), p@, m@)));
            i += p.len();
        } else {
            assert(!matches_at(rest, p@, 0)) by {
                if matches_at(rest, p@, 0) {
                    assert(rest.subrange(0, p@.len() as int) =~= t@.subrange(
                        i as int,
                        i + p@.len(),
                    ));
                }
            }
            assert(rest.skip(1) =~= t@.subrange(i + 1, t@.len() as int));
            let ghost before = out@;
            out.push(t[i]);
            assert(out@ + replace(t@.subrange(i + 1, t@.len() as int), p@, m@) =~= before + (seq![
                t@[i as int],
            ] + replace(rest.skip(1), p@, m@)));
            i += 1;
        }
    }
    assert(t@.subrange(i as int, t@.len() as int) =~= Seq::<char>::empty());
    if p.len() == 0 {
        push_all(&mut out, m);
    } else {
        assert(out@ =~= out@ + replace(Seq::<char>::empty(), p@, m@));
    }
    out
}

// ---------------------------------------------------------------------------
// Numbers
// ---------------------------------------------------------------------------

/// `c` is one of the ASCII digits `0`..`9`.
pub open spec fn is_ascii_digit(c: char) -> bool {
    '0' <= c && c <= '9'
}

/// The value of the decimal numeral `d`.
pub open spec fn decimal_value(d: Seq<char>) -> int
    decreases d.len(),
{
    if d.len() == 0 {
        0
    } else {
        decimal_value(d.drop_last()) * 10 + (d.last() as int - '0' as int)
    }
}

/// `s` without one leading `+`.
pub open spec fn unsigned_digits(s: Seq<char>) -> Seq<char> {
    if s.len() > 0 && s[0] == '+' {
        s.skip(1)
    } else {
        s
    }
}

/// What `str::parse::<u32>` yields for `s`: an optional leading `+`, then one
/// or more ASCII digits whose value fits in a `u32`.
pub open spec fn parse_u32(s: Seq<char>) -> Option<u32> {
    let d = unsigned_digits(s);
    if d.len() > 0 && (forall|k: int| 0 <= k < d.len() ==> is_ascii_digit(#[trigger] d[k]))
        && decimal_value(d) <= u32::MAX {
        Some(decimal_value(d) as u32)
    } else {
        None
    }
}

/// Parses `s[lo..hi]` as `str::parse::<u32>` does.
pub fn parse_u32_exec(s: &[char], lo: usize, hi: usize) -> (r: Option<u32>)
    requires
        lo <= hi <= s@.len(),
    ensures
        r == parse_u32(s@.subrange(lo as int, hi as int)),
{
    let ghost whole = s@.subrange(lo as int, hi as int);
    let start = if lo < hi && s[lo] == '+' {
        lo + 1
    } else {
        lo
    };
    let ghost d = s@.subrange(start as int, hi as int);
    assert(d =~= unsigned_digits(whole));
    if start == hi {
        return None;
    }
    let mut acc: u64 = 0;
    let mut over = false;
    let mut k = start;
    while k < hi
        invariant
            start <= k <= hi <= s@.len(),
            d == s@.subrange(start as int, hi as int),
            d == unsigned_digits(whole),
            whole == s@.subrange(lo as int, hi as int),
            forall|j: int| start <= j < k ==> is_ascii_digit(#[trigger] s@[j]),
            !over ==> acc as int == decimal_value(s@.subrange(start as int, k as int)),
            !over ==> acc <= u32::MAX,
            over ==> decimal_value(s@.subrange(start as int, k as int)) > u32::MAX,
            decimal_value(s@.subrange(start as int, k as int)) >= 0,
        decreases hi - k,
    {
        let c = s[k];
        if !('0' <= c && c <= '9') {
            assert(!is_ascii_digit(d[k - start]));
            return None;
        }
        let ghost prefix = s@.subrange(start as int, k as int);
        assert(s@.subrange(start as int, k + 1).drop_last() =~= prefix);
        assert(s@.subrange(start as int, k + 1).last() == c);
        let digit = (c as u32) - ('0' as u32);
        if !over {
            let next = acc * 10 + digit as u64;
            if next > 0xFFFF_FFFFu64 {
                over = true;
            } else {
                acc = next;
            }
        }
        k += 1;
    }
    assert(s@.subrange(start as int, k as int) =~= d);
    if over {
        None
    } else {
        Some(acc as u32)
    }
}

} // verus!

verus! {

/// Whether `needle` occurs in `hay` (`str::contains`).
pub fn contains_str(hay: &str, needle: &str) -> (r: bool)
    ensures
        r == contains(hay@, needle@),
{
    let h = chars_of(hay);
    let n = chars_of(needle);
    proof {
        lemma_find_iff_contains(hay@, needle@);
    }
    find_from_exec(h.as_slice(), n.as_slice(), 0).is_some()
}

/// `a` followed by `b`, as a new string.
pub fn concat(a: &str, b: &str) -> (r: String)
    ensures
        r@ == a@ + b@,
{
    let mut r = String::from_str(a);
    r.append(b);
    r
}

} // verus!

verus! {

/// `s` without leading or trailing whitespace, as a new string.
pub fn trim_text(s: &str) -> (r: String)
    ensures
        r@ == trim(s@),
{
    let c = chars_of(s);
    let (a, b) = trim_bounds(c.as_slice(), 0, c.len());
    assert(c@.subrange(0, c@.len() as int) =~= c@);
    let t = copy_range(c.as_slice(), a, b);
    string_from_chars(t.as_slice())
}

/// `text` unless it is blank (nothing but whitespace), in which case
/// `fallback`.
pub open spec fn nonblank_or(text: Seq<char>, fallback: Seq<char>) -> Seq<char> {
    if trim(text).len() == 0 {
        fallback
    } else {
        text
    }
}

/// `text`, or `fallback` when `text` is blank.
pub fn nonblank_or_exec(text: String, fallback: &str) -> (r: String)
    ensures
        r@ == nonblank_or(text@, fallback@),
{
    let t = trim_text(text.as_str());
    if t.as_str().is_empty() {
        String::from_str(fallback)
    } else {
        text
    }
}

} // verus!

verus! {

/// The ASCII digit for `d`, which is in `0..10`.
pub open spec fn digit_char(d: int) -> char {
    ('0' as int + d) as char
}

/// The decimal numeral for `n`, without leading zeros.
pub open spec fn nat_text(n: nat) -> Seq<char>
    decreases n,
{
    if n < 10 {
        seq![digit_char(n as int)]
    } else {
        nat_text(n / 10) + seq![digit_char(n as int % 10)]
    }
}

/// The decimal numeral for `n`, with a leading `-` when it is negative.
pub open spec fn int_text(n: int) -> Seq<char> {
    if n < 0 {
        seq!['-'] + nat_text((-n) as nat)
    } else {
        nat_text(n as nat)
    }
}

/// The ASCII digit for `d`.
fn digit(d: u64) -> (c: char)
    requires
        d < 10,
    ensures
        c == digit_char(d as int),
{
    match d {
        0 => '0',
        1 => '1',
        2 => '2',
        3 => '3',
        4 => '4',
        5 => '5',
        6 => '6',
        7 => '7',
        8 => '8',
        _ => '9',
    }
}

/// Appends the decimal numeral for `n` to `v`.
fn push_nat_text(v: &mut Vec<char>, n: u64)
    ensures
        final(v)@ == old(v)@ + nat_text(n as nat),
    decreases n,
{
    if n < 10 {
        v.push(digit(n));
        assert(nat_text(n as nat) == seq![digit_char(n as int)]);
    } else {
        push_nat_text(v, n / 10);
        v.push(digit(n % 10));
        assert(nat_text(n as nat) == nat_text((n / 10) as nat) + seq![digit_char(n as int % 10)]);
    }
}

/// `i32`'s `Display` (`to_string`): the decimal numeral for `n`, with a
/// leading `-` when it is negative.
pub fn i32_text(n: i32) -> (r: String)
    ensures
        r@ == int_text(n as int),
{
    let mut v: Vec<char> = Vec::new();
    if n < 0 {
        v.push('-');
        let magnitude: u64 = (0i64 - n as i64) as u64;
        push_nat_text(&mut v, magnitude);
    } else {
        push_nat_text(&mut v, n as u64);
    }
    string_from_chars(v.as_slice())
}

/// `u16`'s `Display` (`to_string`): the decimal numeral for `n`.
pub fn u16_text(n: u16) -> (r: String)
    ensures
        r@ == nat_text(n as nat),
{
    let mut v: Vec<char> = Vec::new();
    push_nat_text(&mut v, n as u64);
    assert(v@ =~= nat_text(n as nat));
    string_from_chars(v.as_slice())
}

} // verus!

verus! {

/// The character sequences of a list of strings.
pub open spec fn views(s: Seq<String>) -> Seq<Seq<char>> {
    s.map_values(|x: String| x@)
}

/// Whether `a` and `b` hold the same characters.
pub fn str_eq(a: &str, b: &str) -> (r: bool)
    ensures
        r == (a@ == b@),
{
    let ac = chars_of(a);
    let bc = chars_of(b);
    if ac.len() != bc.len() {
        return false;
    }
    let m = matches_at_exec(ac.as_slice(), bc.as_slice(), 0);
    assert(ac@.subrange(0, bc@.len() as int) =~= ac@);
    m
}

/// Whether `id` is one of `list`.
pub fn list_contains(list: &[String], id: &str) -> (r: bool)
    ensures
        r == views(list@).contains(id@),
{
    let mut k: usize = 0;
    while k < list.len()
        invariant
            0 <= k <= list@.len(),
            forall|j: int| 0 <= j < k ==> list@[j]@ != id@,
        decreases list.len() - k,
    {
        if str_eq(list[k].as_str(), id) {
            assert(views(list@)[k as int] == id@);
            return true;
        }
        k += 1;
    }
    assert forall|j: int| 0 <= j < views(list@).len() implies views(list@)[j] != id@ by {
        assert(list@[j]@ != id@);
    }
    false
}

} // verus!

verus! {

/// `base` joined with `part` as a filesystem path (`Path::join`).
pub uninterp spec fn path_join(base: Seq<char>, part: Seq<char>) -> Seq<char>;

/// `Path::join`, rendered back to a string. Claims only that the result is
/// the join named by [`path_join`].
#[verifier::external_body]
pub(crate) fn join_path(base: &str, part: &str) -> (r: String)
    ensures
        r@ == path_join(base@, part@),
{
    std::path::Path::new(base).join(part).display().to_string()
}

/// The directory holding `path`, if it has one (`Path::parent`).
pub uninterp spec fn path_parent(path: Seq<char>) -> Option<Seq<char>>;

/// `Path::parent`, rendered back to a string. Claims only that the result is
/// the parent named by [`path_parent`].
#[verifier::external_body]
pub(crate) fn parent_path(path: &str) -> (r: Option<String>)
    ensures
        match r {
            Some(p) => path_parent(path@) == Some(p@),
            None => path_parent(path@) is None,
        },
{
    std::path::Path::new(path).parent().map(|p| p.display().to_string())
}

} // verus!
