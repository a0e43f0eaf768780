//! Character-level text helpers shared by the parsers and editors of the crate.
//!
//! Text is modelled as `Seq<char>`, the view of `str` and `String`. The spec
//! functions here state what std's `lines`, `trim_start`, `split_whitespace`,
//! `split_ascii_whitespace`, `split`, `find` and `replacen` compute; the exec
//! functions compute the same over `Vec<char>`.

use vstd::prelude::*;

verus! {

// ---------------------------------------------------------------------------
// Character classes
// ---------------------------------------------------------------------------

/// `char::is_whitespace`: the Unicode `White_Space` property.
pub open spec fn is_whitespace(c: char) -> bool {
    ||| ('\t' <= c && c <= '\r')
    ||| c == ' '
    ||| c == '\u{85}'
    ||| c == '\u{a0}'
    ||| c == '\u{1680}'
    ||| ('\u{2000}' <= c && c <= '\u{200a}')
    ||| c == '\u{2028}'
    ||| c == '\u{2029}'
    ||| c == '\u{202f}'
    ||| c == '\u{205f}'
    ||| c == '\u{3000}'
}

/// `char::is_ascii_whitespace`: space, tab, line feed, form feed, carriage return.
pub open spec fn is_ascii_whitespace(c: char) -> bool {
    c == ' ' || c == '\t' || c == '\n' || c == '\x0C' || c == '\r'
}

pub open spec fn is_ascii_digit(c: char) -> bool {
    '0' <= c && c <= '9'
}

pub fn whitespace(c: char) -> (b: bool)
    ensures
        b == is_whitespace(c),
{
    ('\t' <= c && c <= '\r') || c == ' ' || c == '\u{85}' || c == '\u{a0}' || c == '\u{1680}' || (
    '\u{2000}' <= c && c <= '\u{200a}') || c == '\u{2028}' || c == '\u{2029}' || c == '\u{202f}'
        || c == '\u{205f}' || c == '\u{3000}'
}

pub fn ascii_whitespace(c: char) -> (b: bool)
    ensures
        b == is_ascii_whitespace(c),
{
    c == ' ' || c == '\t' || c == '\n' || c == '\x0C' || c == '\r'
}

// ---------------------------------------------------------------------------
// Searching for a character
// ---------------------------------------------------------------------------

/// Index of the first character of `s` satisfying `p`, or `s.len()` if none does.
pub open spec fn find_first(s: Seq<char>, p: spec_fn(char) -> bool) -> nat
    decreases s.len(),
{
    if s.len() == 0 {
        0
    } else if p(s[0]) {
        0
    } else {
        1 + find_first(s.drop_first(), p)
    }
}

pub proof fn lemma_find_first_bounds(s: Seq<char>, p: spec_fn(char) -> bool)
    ensures
        find_first(s, p) <= s.len(),
        forall|k: int| 0 <= k < find_first(s, p) ==> !p(#[trigger] s[k]),
        find_first(s, p) < s.len() ==> p(s[find_first(s, p) as int]),
    decreases s.len(),
{
    if s.len() > 0 && !p(s[0]) {
        lemma_find_first_bounds(s.drop_first(), p);
        assert forall|k: int| 0 <= k < find_first(s, p) implies !p(#[trigger] s[k]) by {
            if k > 0 {
                assert(s[k] == s.drop_first()[k - 1]);
            }
        }
    }
}

/// The first index satisfying `p` is `j` when nothing before `j` does and `s[j]` does (or `j`
/// is the end).
pub proof fn lemma_find_first_is(s: Seq<char>, p: spec_fn(char) -> bool, j: int)
    requires
        0 <= j <= s.len(),
        forall|k: int| 0 <= k < j ==> !p(#[trigger] s[k]),
        j < s.len() ==> p(s[j]),
    ensures
        find_first(s, p) == j,
    decreases s.len(),
{
    if s.len() > 0 && j > 0 {
        assert(!p(s[0]));
        assert forall|k: int| 0 <= k < j - 1 implies !p(#[trigger] s.drop_first()[k]) by {
            assert(s.drop_first()[k] == s[k + 1]);
        }
        lemma_find_first_is(s.drop_first(), p, j - 1);
    }
}

pub open spec fn equals(x: char) -> spec_fn(char) -> bool {
    |c: char| c == x
}

pub open spec fn whitespace_pred() -> spec_fn(char) -> bool {
    |c: char| is_whitespace(c)
}

pub open spec fn non_whitespace_pred() -> spec_fn(char) -> bool {
    |c: char| !is_whitespace(c)
}

pub open spec fn ascii_whitespace_pred() -> spec_fn(char) -> bool {
    |c: char| is_ascii_whitespace(c)
}

pub open spec fn char_index(s: Seq<char>, x: char) -> nat {
    find_first(s, equals(x))
}

pub open spec fn newline_index(s: Seq<char>) -> nat {
    char_index(s, '\n')
}

pub open spec fn whitespace_index(s: Seq<char>) -> nat {
    find_first(s, whitespace_pred())
}

pub open spec fn non_whitespace_index(s: Seq<char>) -> nat {
    find_first(s, non_whitespace_pred())
}

pub open spec fn ascii_whitespace_index(s: Seq<char>) -> nat {
    find_first(s, ascii_whitespace_pred())
}

/// Index of the first occurrence of `x` in `v` at or after `from`, or `v.len()`.
pub fn index_of_char(v: &Vec<char>, from: usize, x: char) -> (r: usize)
    requires
        from <= v.len(),
    ensures
        from <= r <= v.len(),
        r - from == char_index(v@.skip(from as int), x),
        forall|k: int| from <= k < r ==> v@[k] != x,
        r < v.len() ==> v@[r as int] == x,
{
    let mut i = from;
    while i < v.len() && v[i] != x
        invariant
            from <= i <= v.len(),
            forall|k: int| from <= k < i ==> v@[k] != x,
        decreases v.len() - i,
    {
        i = i + 1;
    }
    proof {
        let s = v@.skip(from as int);
        lemma_find_first_is(s, equals(x), i - from);
    }
    i
}

/// Index of the first (Unicode) whitespace character of `v` in `[from, to)`, or `to`.
pub fn index_of_whitespace(v: &Vec<char>, from: usize, to: usize) -> (r: usize)
    requires
        from <= to <= v.len(),
    ensures
        from <= r <= to,
        r - from == whitespace_index(v@.subrange(from as int, to as int)),
        forall|k: int| from <= k < r ==> !is_whitespace(v@[k]),
        r < to ==> is_whitespace(v@[r as int]),
{
    let mut i = from;
    while i < to && !whitespace(v[i])
        invariant
            from <= i <= to,
            to <= v.len(),
            forall|k: int| from <= k < i ==> !is_whitespace(v@[k]),
        decreases to - i,
    {
        i = i + 1;
    }
    proof {
        let s = v@.subrange(from as int, to as int);
        lemma_find_first_is(s, whitespace_pred(), i - from);
    }
    i
}

/// Index of the first non-whitespace character of `v` in `[from, to)`, or `to`.
pub fn index_of_non_whitespace(v: &Vec<char>, from: usize, to: usize) -> (r: usize)
    requires
        from <= to <= v.len(),
    ensures
        from <= r <= to,
        r - from == non_whitespace_index(v@.subrange(from as int, to as int)),
        forall|k: int| from <= k < r ==> is_whitespace(v@[k]),
        r < to ==> !is_whitespace(v@[r as int]),
{
    let mut i = from;
    while i < to && whitespace(v[i])
        invariant
            from <= i <= to,
            to <= v.len(),
            forall|k: int| from <= k < i ==> is_whitespace(v@[k]),
        decreases to - i,
    {
        i = i + 1;
    }
    proof {
        let s = v@.subrange(from as int, to as int);
        lemma_find_first_is(s, non_whitespace_pred(), i - from);
    }
    i
}

/// Index of the first ASCII whitespace character of `v` at or after `from`, or `v.len()`.
pub fn index_of_ascii_whitespace(v: &Vec<char>, from: usize) -> (r: usize)
    requires
        from <= v.len(),
    ensures
        from <= r <= v.len(),
        r - from == ascii_whitespace_index(v@.skip(from as int)),
        forall|k: int| from <= k < r ==> !is_ascii_whitespace(v@[k]),
        r < v.len() ==> is_ascii_whitespace(v@[r as int]),
{
    let mut i = from;
    while i < v.len() && !ascii_whitespace(v[i])
        invariant
            from <= i <= v.len(),
            forall|k: int| from <= k < i ==> !is_ascii_whitespace(v@[k]),
        decreases v.len() - i,
    {
        i = i + 1;
    }
    proof {
        let s = v@.skip(from as int);
        lemma_find_first_is(s, ascii_whitespace_pred(), i - from);
    }
    i
}

// ---------------------------------------------------------------------------
// Prefixes, trimming, equality, slicing
// ---------------------------------------------------------------------------

/// `str::starts_with` with a string pattern.
pub open spec fn has_prefix(s: Seq<char>, p: Seq<char>) -> bool {
    p.len() <= s.len() && s.take(p.len() as int) == p
}

/// `str::ends_with` with a string pattern.
pub open spec fn has_suffix(s: Seq<char>, p: Seq<char>) -> bool {
    p.len() <= s.len() && s.skip(s.len() - p.len()) == p
}

/// `str::trim_start`: drops the leading Unicode whitespace.
pub open spec fn trim_start(s: Seq<char>) -> Seq<char> {
    s.skip(non_whitespace_index(s) as int)
}

pub fn starts_with(v: &Vec<char>, p: &Vec<char>) -> (b: bool)
    ensures
        b == has_prefix(v@, p@),
{
    if p.len() > v.len() {
        return false;
    }
    let mut i: usize = 0;
    while i < p.len()
        invariant
            p.len() <= v.len(),
            i <= p.len(),
            forall|k: int| 0 <= k < i ==> v@[k] == p@[k],
        decreases p.len() - i,
    {
        if v[i] != p[i] {
            assert(v@.take(p.len() as int)[i as int] != p@[i as int]);
            return false;
        }
        i = i + 1;
    }
    assert(v@.take(p.len() as int) =~= p@);
    true
}

pub fn ends_with(v: &Vec<char>, p: &Vec<char>) -> (b: bool)
    ensures
        b == has_suffix(v@, p@),
{
    if p.len() > v.len() {
        return false;
    }
    let off = v.len() - p.len();
    let mut i: usize = 0;
    while i < p.len()
        invariant
            p.len() <= v.len(),
            off == v.len() - p.len(),
            i <= p.len(),
            forall|k: int| 0 <= k < i ==> v@[off + k] == p@[k],
        decreases p.len() - i,
    {
        if v[off + i] != p[i] {
            assert(v@.skip(off as int)[i as int] != p@[i as int]);
            return false;
        }
        i = i + 1;
    }
    assert(v@.skip(off as int) =~= p@);
    true
}

pub fn chars_eq(a: &Vec<char>, b: &Vec<char>) -> (r: bool)
    ensures
        r == (a@ == b@),
{
    if a.len() != b.len() {
        return false;
    }
    let mut i: usize = 0;
    while i < a.len()
        invariant
            a.len() == b.len(),
            i <= a.len(),
            forall|k: int| 0 <= k < i ==> a@[k] == b@[k],
        decreases a.len() - i,
    {
        if a[i] != b[i] {
            return false;
        }
        i = i + 1;
    }
    assert(a@ =~= b@);
    true
}

/// A copy of `v[from..to]`.
pub fn slice(v: &Vec<char>, from: usize, to: usize) -> (r: Vec<char>)
    requires
        from <= to <= v.len(),
    ensures
        r@ == v@.subrange(from as int, to as int),
{
    let mut r: Vec<char> = Vec::new();
    let mut i = from;
    while i < to
        invariant
            from <= i <= to,
            to <= v.len(),
            r@ == v@.subrange(from as int, i as int),
        decreases to - i,
    {
        r.push(v[i]);
        assert(v@.subrange(from as int, i + 1) == v@.subrange(from as int, i as int).push(
            v@[i as int],
        ));
        i = i + 1;
    }
    r
}

/// Appends the characters of `b` to `a`.
pub fn extend(a: &mut Vec<char>, b: &Vec<char>)
    ensures
        final(a)@ == old(a)@ + b@,
{
    let mut i: usize = 0;
    while i < b.len()
        invariant
            i <= b.len(),
            a@ == old(a)@ + b@.take(i as int),
        decreases b.len() - i,
    {
        a.push(b[i]);
        assert(b@.take(i + 1) == b@.take(i as int).push(b@[i as int]));
        i = i + 1;
    }
    assert(b@.take(b.len() as int) == b@);
}

/// `trim_start` of a string slice, as characters.
pub fn trimmed_start(v: &Vec<char>) -> (r: Vec<char>)
    ensures
        r@ == trim_start(v@),
{
    let k = index_of_non_whitespace(v, 0, v.len());
    assert(v@.subrange(0, v.len() as int) == v@);
    slice(v, k, v.len())
}

// ---------------------------------------------------------------------------
// Conversions between `str`, `String` and `Vec<char>`
// ---------------------------------------------------------------------------

/// Appends one character to a string.
///
/// Trusted: calls `String::push`, which std documents as appending the given
/// `char` to the end of the string.
#[verifier::external_body]
fn push_char(s: &mut String, c: char)
    ensures
        final(s)@ == old(s)@.push(c),
{
    s.push(c);
}

/// The characters of a string slice, in order.
pub fn chars_of(s: &str) -> (v: Vec<char>)
    ensures
        v@ == s@,
{
    let mut v: Vec<char> = Vec::new();
    for c in it: s.chars()
        invariant
            v@ == it.seq().take(it.index() as int),
            it.seq() == s@,
    {
        v.push(c);
    }
    v
}

/// A string made of the given characters.
pub fn string_of(v: &Vec<char>) -> (s: String)
    ensures
        s@ == v@,
{
    let mut s = String::new();
    let mut i: usize = 0;
    while i < v.len()
        invariant
            i <= v.len(),
            s@ == v@.take(i as int),
        decreases v.len() - i,
    {
        push_char(&mut s, v[i]);
        assert(v@.take(i + 1) == v@.take(i as int).push(v@[i as int]));
        i = i + 1;
    }
    assert(v@.take(v.len() as int) == v@);
    s
}

/// The views of a sequence of character vectors.
pub open spec fn views(v: Seq<Vec<char>>) -> Seq<Seq<char>> {
    v.map_values(|x: Vec<char>| x@)
}

/// The views of a sequence of strings.
pub open spec fn string_views(v: Seq<String>) -> Seq<Seq<char>> {
    v.map_values(|x: String| x@)
}

// ---------------------------------------------------------------------------
// Lines
// ---------------------------------------------------------------------------

/// A line without the carriage return that preceded its line feed.
pub open spec fn strip_cr(l: Seq<char>) -> Seq<char> {
    if l.len() > 0 && l.last() == '\r' {
        l.drop_last()
    } else {
        l
    }
}

/// `str::lines`: the text split at each `\n`, a `\r` before a `\n` dropped, and no empty line
/// after a final `\n`.
pub open spec fn lines(s: Seq<char>) -> Seq<Seq<char>>
    decreases s.len(),
{
    if s.len() == 0 {
        seq![]
    } else {
        let e = newline_index(s);
        if e >= s.len() {
            seq![s]
        } else {
            seq![strip_cr(s.take(e as int))] + lines(s.skip(e + 1 as int))
        }
    }
}

/// No character of `s` is a line feed.
pub open spec fn no_newline(s: Seq<char>) -> bool {
    forall|k: int| 0 <= k < s.len() ==> s[k] != '\n'
}

/// Lines of text that ends with a line feed are followed by the lines of what comes after.
pub proof fn lemma_lines_append(a: Seq<char>, b: Seq<char>)
    requires
        a.len() == 0 || a.last() == '\n',
    ensures
        lines(a + b) == lines(a) + lines(b),
    decreases a.len(),
{
    if a.len() == 0 {
        assert(a + b =~= b);
        assert(lines(a) + lines(b) =~= lines(b));
    } else {
        let e = newline_index(a);
        lemma_find_first_bounds(a, equals('\n'));
        assert(e < a.len()) by {
            if e >= a.len() {
                assert(!equals('\n')(a[a.len() - 1]));
            }
        }
        let ab = a + b;
        assert forall|k: int| 0 <= k < e implies !equals('\n')(#[trigger] ab[k]) by {
            assert(ab[k] == a[k]);
            assert(!equals('\n')(a[k]));
        }
        assert(ab[e as int] == a[e as int]);
        lemma_find_first_is(ab, equals('\n'), e as int);
        assert(ab.take(e as int) =~= a.take(e as int));
        assert(ab.skip(e + 1int) =~= a.skip(e + 1int) + b);
        let rest = a.skip(e + 1int);
        assert(rest.len() == 0 || rest.last() == '\n') by {
            if rest.len() > 0 {
                assert(rest.last() == a.last());
            }
        }
        lemma_lines_append(rest, b);
        assert(lines(ab) =~= lines(a) + lines(b));
    }
}

/// A line followed by a line feed is one line.
pub proof fn lemma_lines_one(x: Seq<char>)
    requires
        no_newline(x),
    ensures
        lines(x + seq!['\n']) == seq![strip_cr(x)],
{
    let s = x + seq!['\n'];
    assert forall|k: int| 0 <= k < x.len() implies !equals('\n')(#[trigger] s[k]) by {
        assert(s[k] == x[k]);
    }
    lemma_find_first_is(s, equals('\n'), x.len() as int);
    assert(s.take(x.len() as int) =~= x);
    assert(s.skip(x.len() + 1int) =~= Seq::<char>::empty());
    assert(newline_index(s) == x.len());
    assert(lines(Seq::<char>::empty()) == Seq::<Seq<char>>::empty());
    assert(lines(s) =~= seq![strip_cr(x)] + lines(Seq::<char>::empty()));
}

/// No line holds a line feed.
pub proof fn lemma_lines_no_newline(s: Seq<char>)
    ensures
        forall|i: int| 0 <= i < lines(s).len() ==> no_newline(#[trigger] lines(s)[i]),
    decreases s.len(),
{
    if s.len() > 0 {
        let e = newline_index(s);
        lemma_find_first_bounds(s, equals('\n'));
        if e >= s.len() {
            assert forall|k: int| 0 <= k < s.len() implies s[k] != '\n' by {
                assert(!equals('\n')(s[k]));
            }
        } else {
            lemma_lines_no_newline(s.skip(e + 1int));
            let first = strip_cr(s.take(e as int));
            assert forall|k: int| 0 <= k < first.len() implies first[k] != '\n' by {
                assert(first[k] == s[k]);
                assert(!equals('\n')(s[k]));
            }
            assert forall|i: int| 0 <= i < lines(s).len() implies no_newline(#[trigger] lines(s)[i]) by {
                if i > 0 {
                    assert(lines(s)[i] == lines(s.skip(e + 1int))[i - 1]);
                }
            }
        }
    }
}

/// A line feed added to text that does not end with one changes only its last line, which
/// loses a final carriage return.
pub proof fn lemma_lines_push_newline(s: Seq<char>)
    requires
        s.len() > 0,
        s.last() != '\n',
    ensures
        lines(s).len() >= 1,
        lines(s + seq!['\n']) == lines(s).drop_last().push(strip_cr(lines(s).last())),
    decreases s.len(),
{
    let t = s + seq!['\n'];
    let e = newline_index(s);
    lemma_find_first_bounds(s, equals('\n'));
    if e >= s.len() {
        assert forall|k: int| 0 <= k < s.len() implies !equals('\n')(#[trigger] t[k]) by {
            assert(t[k] == s[k]);
        }
        lemma_find_first_is(t, equals('\n'), s.len() as int);
        assert(t.take(s.len() as int) =~= s);
        assert(t.skip(s.len() + 1int) =~= Seq::<char>::empty());
        assert(lines(Seq::<char>::empty()) == Seq::<Seq<char>>::empty());
        assert(lines(t) =~= seq![strip_cr(s)] + lines(Seq::<char>::empty()));
        assert(lines(s) =~= seq![s]);
        assert(lines(s).drop_last().push(strip_cr(lines(s).last())) =~= seq![strip_cr(s)]);
    } else {
        assert(e < s.len() - 1) by {
            assert(equals('\n')(s[e as int]));
        }
        assert forall|k: int| 0 <= k < e implies !equals('\n')(#[trigger] t[k]) by {
            assert(t[k] == s[k]);
        }
        assert(t[e as int] == s[e as int]);
        lemma_find_first_is(t, equals('\n'), e as int);
        let rest = s.skip(e + 1int);
        assert(rest.last() == s.last());
        lemma_lines_push_newline(rest);
        assert(t.take(e as int) =~= s.take(e as int));
        assert(t.skip(e + 1int) =~= rest + seq!['\n']);
        let first = strip_cr(s.take(e as int));
        assert(lines(s) =~= seq![first] + lines(rest));
        assert(lines(t) =~= seq![first] + lines(rest + seq!['\n']));
        assert(lines(t) =~= lines(s).drop_last().push(strip_cr(lines(s).last())));
    }
}

/// Splits text into its lines, as `str::lines` does.
pub fn split_lines(v: &Vec<char>) -> (ls: Vec<Vec<char>>)
    ensures
        views(ls@) == lines(v@),
{
    let mut ls: Vec<Vec<char>> = Vec::new();
    let mut pos: usize = 0;
    assert(v@.skip(0) == v@);
    while pos < v.len()
        invariant
            pos <= v.len(),
            views(ls@) + lines(v@.skip(pos as int)) == lines(v@),
        decreases v.len() - pos,
    {
        let e = index_of_char(v, pos, '\n');
        let ghost rest = v@.skip(pos as int);
        assert(newline_index(rest) == e - pos);
        if e == v.len() {
            let line = slice(v, pos, e);
            assert(lines(rest) == seq![rest]);
            assert(line@ =~= rest);
            let ghost old_ls = ls@;
            ls.push(line);
            assert(views(ls@) =~= views(old_ls).push(line@));
            assert(v@.skip(e as int) =~= Seq::<char>::empty());
            assert(views(ls@) + lines(v@.skip(e as int)) =~= views(old_ls) + lines(rest));
            pos = e;
        } else {
            let mut end = e;
            if end > pos && v[end - 1] == '\r' {
                end = end - 1;
            }
            let line = slice(v, pos, end);
            assert(rest.take((e - pos) as int) =~= v@.subrange(pos as int, e as int));
            assert(line@ =~= strip_cr(rest.take((e - pos) as int)));
            assert(rest.skip((e - pos) + 1) =~= v@.skip(e + 1));
            let ghost old_ls = ls@;
            ls.push(line);
            assert(views(ls@) =~= views(old_ls).push(line@));
            assert(views(ls@) + lines(v@.skip(e + 1)) =~= views(old_ls) + lines(rest));
            pos = e + 1;
        }
    }
    assert(v@.skip(pos as int) =~= Seq::<char>::empty());
    assert(views(ls@) + lines(v@.skip(pos as int)) =~= views(ls@));
    ls
}

// ---------------------------------------------------------------------------
// Words
// ---------------------------------------------------------------------------

/// `str::split_ascii_whitespace`: the maximal runs of non-ASCII-whitespace characters.
pub open spec fn ascii_words(s: Seq<char>) -> Seq<Seq<char>>
    decreases s.len(),
{
    if s.len() == 0 {
        seq![]
    } else if is_ascii_whitespace(s[0]) {
        ascii_words(s.drop_first())
    } else {
        let e = ascii_whitespace_index(s);
        if e == 0 || e > s.len() {
            seq![]
        } else {
            seq![s.take(e as int)] + ascii_words(s.skip(e as int))
        }
    }
}

/// Splits text into its ASCII-whitespace-separated words.
pub fn split_ascii_words(v: &Vec<char>) -> (ws: Vec<Vec<char>>)
    ensures
        views(ws@) == ascii_words(v@),
{
    let mut ws: Vec<Vec<char>> = Vec::new();
    let mut pos: usize = 0;
    assert(v@.skip(0) == v@);
    while pos < v.len()
        invariant
            pos <= v.len(),
            views(ws@) + ascii_words(v@.skip(pos as int)) == ascii_words(v@),
        decreases v.len() - pos,
    {
        let ghost rest = v@.skip(pos as int);
        if ascii_whitespace(v[pos]) {
            assert(rest.drop_first() =~= v@.skip(pos + 1));
            pos = pos + 1;
        } else {
            let e = index_of_ascii_whitespace(v, pos);
            assert(e > pos);
            let word = slice(v, pos, e);
            assert(rest.take((e - pos) as int) =~= word@);
            assert(rest.skip((e - pos) as int) =~= v@.skip(e as int));
            let ghost old_ws = ws@;
            ws.push(word);
            assert(views(ws@) =~= views(old_ws).push(word@));
            assert(views(ws@) + ascii_words(v@.skip(e as int)) =~= views(old_ws) + ascii_words(
                rest,
            ));
            pos = e;
        }
    }
    assert(v@.skip(pos as int) =~= Seq::<char>::empty());
    assert(views(ws@) + ascii_words(v@.skip(pos as int)) =~= views(ws@));
    ws
}

/// The first word of `str::split_whitespace`, if the text holds one.
pub open spec fn first_word(s: Seq<char>) -> Option<Seq<char>> {
    let t = trim_start(s);
    if t.len() == 0 {
        None
    } else {
        Some(t.take(whitespace_index(t) as int))
    }
}

pub fn first_word_of(v: &Vec<char>) -> (r: Option<Vec<char>>)
    ensures
        match r {
            Some(w) => first_word(v@) == Some(w@),
            None => first_word(v@) is None,
        },
{
    let start = index_of_non_whitespace(v, 0, v.len());
    assert(v@.subrange(0, v.len() as int) == v@);
    if start == v.len() {
        return None;
    }
    let end = index_of_whitespace(v, start, v.len());
    let ghost t = trim_start(v@);
    assert(t =~= v@.subrange(start as int, v.len() as int));
    assert(t.take((end - start) as int) =~= v@.subrange(start as int, end as int));
    Some(slice(v, start, end))
}

// ---------------------------------------------------------------------------
// Splitting at a character
// ---------------------------------------------------------------------------

/// `str::split` with a `char` pattern.
pub open spec fn split_char(s: Seq<char>, x: char) -> Seq<Seq<char>>
    decreases s.len(),
{
    let e = char_index(s, x);
    if e >= s.len() {
        seq![s]
    } else {
        seq![s.take(e as int)] + split_char(s.skip(e + 1 as int), x)
    }
}

pub fn split_at_char(v: &Vec<char>, x: char) -> (ps: Vec<Vec<char>>)
    ensures
        views(ps@) == split_char(v@, x),
{
    let mut ps: Vec<Vec<char>> = Vec::new();
    let mut pos: usize = 0;
    assert(v@.skip(0) == v@);
    loop
        invariant
            pos <= v.len(),
            views(ps@) + split_char(v@.skip(pos as int), x) == split_char(v@, x),
        decreases v.len() - pos,
    {
        let e = index_of_char(v, pos, x);
        let ghost rest = v@.skip(pos as int);
        let piece = slice(v, pos, e);
        let ghost old_ps = ps@;
        ps.push(piece);
        assert(views(ps@) =~= views(old_ps).push(piece@));
        if e == v.len() {
            assert(piece@ =~= rest);
            assert(views(ps@) =~= views(old_ps) + split_char(rest, x));
            return ps;
        }
        assert(rest.take((e - pos) as int) =~= piece@);
        assert(rest.skip((e - pos) + 1) =~= v@.skip(e + 1));
        assert(views(ps@) + split_char(v@.skip(e + 1), x) =~= views(old_ps) + split_char(rest, x));
        pos = e + 1;
    }
}

// ---------------------------------------------------------------------------
// Substring search and replacement
// ---------------------------------------------------------------------------

pub open spec fn occurs_at(s: Seq<char>, p: Seq<char>, i: int) -> bool {
    0 <= i && i + p.len() <= s.len() && s.subrange(i, i + p.len()) == p
}

/// The first occurrence of `p` in `s` at or after `i`.
pub open spec fn find_from(s: Seq<char>, p: Seq<char>, i: int) -> Option<int>
    decreases s.len() + 1 - i,
{
    if i < 0 || i + p.len() > s.len() {
        None
    } else if occurs_at(s, p, i) {
        Some(i)
    } else {
        find_from(s, p, i + 1)
    }
}

/// `str::find` with a string pattern.
pub open spec fn find(s: Seq<char>, p: Seq<char>) -> Option<int> {
    find_from(s, p, 0)
}

/// `str::replacen(p, r, 1)`: the first occurrence of `p` replaced by `r`.
pub open spec fn replace_first(s: Seq<char>, p: Seq<char>, r: Seq<char>) -> Seq<char> {
    match find(s, p) {
        Some(i) => s.take(i) + r + s.skip(i + p.len()),
        None => s,
    }
}

pub proof fn lemma_find_from_props(s: Seq<char>, p: Seq<char>, i: int)
    requires
        0 <= i,
    ensures
        match find_from(s, p, i) {
            Some(j) => i <= j && occurs_at(s, p, j) && forall|k: int|
                i <= k < j ==> !#[trigger] occurs_at(s, p, k),
            None => forall|k: int| i <= k ==> !#[trigger] occurs_at(s, p, k),
        },
    decreases s.len() + 1 - i,
{
    if i + p.len() > s.len() {
    } else if occurs_at(s, p, i) {
    } else {
        lemma_find_from_props(s, p, i + 1);
    }
}

fn occurs_at_exec(v: &Vec<char>, p: &Vec<char>, i: usize) -> (b: bool)
    requires
        i + p.len() <= v.len(),
    ensures
        b == occurs_at(v@, p@, i as int),
{
    let mut k: usize = 0;
    while k < p.len()
        invariant
            i + p.len() <= v.len(),
            k <= p.len(),
            forall|j: int| 0 <= j < k ==> v@[i + j] == p@[j],
        decreases p.len() - k,
    {
        if v[i + k] != p[k] {
            assert(v@.subrange(i as int, i + p.len())[k as int] != p@[k as int]);
            return false;
        }
        k = k + 1;
    }
    assert(v@.subrange(i as int, i + p.len()) =~= p@);
    true
}

/// The first occurrence of `p` in `v` at or after `from`.
pub fn find_at(v: &Vec<char>, p: &Vec<char>, from: usize) -> (r: Option<usize>)
    ensures
        r == (match find_from(v@, p@, from as int) {
            Some(j) => Some(j as usize),
            None => None::<usize>,
        }),
{
    let mut i = from;
    while i <= v.len() && p.len() <= v.len() - i
        invariant
            from <= i,
            find_from(v@, p@, from as int) == find_from(v@, p@, i as int),
        decreases v.len() + 1 - i,
    {
        if occurs_at_exec(v, p, i) {
            return Some(i);
        }
        if i == v.len() {
            assert(find_from(v@, p@, i + 1) is None);
            return None;
        }
        i = i + 1;
    }
    None
}

/// `str::replacen(p, r, 1)`.
pub fn replace_first_exec(v: &Vec<char>, p: &Vec<char>, r: &Vec<char>) -> (out: Vec<char>)
    ensures
        out@ == replace_first(v@, p@, r@),
{
    match find_at(v, p, 0) {
        Some(i) => {
            proof {
                lemma_find_from_props(v@, p@, 0);
            }
            let mut out = slice(v, 0, i);
            extend(&mut out, r);
            let tail = slice(v, i + p.len(), v.len());
            extend(&mut out, &tail);
            assert(out@ =~= replace_first(v@, p@, r@));
            out
        },
        None => {
            let out = slice(v, 0, v.len());
            assert(out@ =~= v@);
            out
        },
    }
}

} // verus!
