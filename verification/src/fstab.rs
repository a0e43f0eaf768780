//! Validation and repair of `/etc/fstab` and `/etc/crypttab` text.

use vstd::prelude::*;

use crate::text::{
    char_index, chars_eq, chars_of, extend, find, find_at, has_prefix, has_suffix,
    index_of_char, lemma_find_from_props, lines, replace_first,
    replace_first_exec, slice, split_ascii_words, split_lines, starts_with, string_of, trim_start,
    trimmed_start, views, ascii_words, equals, lemma_find_first_bounds, lemma_find_first_is,
    lemma_lines_append, lemma_lines_one, lemma_lines_push_newline, no_newline,
    non_whitespace_index, non_whitespace_pred, strip_cr, newline_index,
};

verus! {

// ---------------------------------------------------------------------------
// Lines of a table
// ---------------------------------------------------------------------------

/// A line whose first non-whitespace character is `#`.
pub open spec fn is_comment(line: Seq<char>) -> bool {
    has_prefix(trim_start(line), seq!['#'])
}

/// A table line that is not a comment and whose text (after leading whitespace) starts with
/// `file_system`.
pub open spec fn claims(line: Seq<char>, file_system: Seq<char>) -> bool {
    !is_comment(line) && has_prefix(trim_start(line), file_system)
}

/// The first line at or after `k` that claims `file_system`.
pub open spec fn first_claiming(ls: Seq<Seq<char>>, file_system: Seq<char>, k: int) -> Option<int>
    decreases ls.len() - k,
{
    if k < 0 || k >= ls.len() {
        None
    } else if claims(ls[k], file_system) {
        Some(k)
    } else {
        first_claiming(ls, file_system, k + 1)
    }
}

/// The fields of a table line: its ASCII-whitespace-separated words.
pub open spec fn fields(line: Seq<char>) -> Seq<Seq<char>> {
    ascii_words(trim_start(line))
}

/// A line that is not a comment and whose second field is `dest`.
pub open spec fn mounts_at(line: Seq<char>, dest: Seq<char>) -> bool {
    !is_comment(line) && fields(line).len() >= 2 && fields(line)[1] == dest
}

/// The first line at or after `k` mounted at `dest`.
pub open spec fn first_mounted_at(ls: Seq<Seq<char>>, dest: Seq<char>, k: int) -> Option<int>
    decreases ls.len() - k,
{
    if k < 0 || k >= ls.len() {
        None
    } else if mounts_at(ls[k], dest) {
        Some(k)
    } else {
        first_mounted_at(ls, dest, k + 1)
    }
}

/// The fstab line `file_system  mount  fs_type  options  dump  pass`.
pub open spec fn fstab_entry(
    file_system: Seq<char>,
    mount: Seq<char>,
    fs_type: Seq<char>,
    options: Seq<char>,
    dump: Seq<char>,
    pass: Seq<char>,
) -> Seq<char> {
    let sep = seq![' ', ' '];
    file_system + sep + mount + sep + fs_type + sep + options + sep + dump + sep + pass
}

/// What `append` makes of `fstab`, and whether it changed it: the first line that claims the
/// file system is replaced by `entry` (its first occurrence in the text is), unless it already
/// is `entry`; with no such line, `entry` is added as a new last line.
pub open spec fn spec_append(fstab: Seq<char>, entry: Seq<char>, file_system: Seq<char>) -> (
    Seq<char>,
    bool,
) {
    let ls = lines(fstab);
    match first_claiming(ls, file_system, 0) {
        Some(k) => if ls[k] == entry {
            (fstab, false)
        } else {
            (replace_first(fstab, ls[k], entry), true)
        },
        None => {
            let base = if has_suffix(fstab, seq!['\n']) {
                fstab
            } else {
                fstab.push('\n')
            };
            (base + entry + seq!['\n'], true)
        },
    }
}

/// What `remove_from_tab` makes of `tab`, and whether it found `block`: from the first
/// occurrence of `block` up to the next line feed is removed, together with the line feed
/// that directly precedes the occurrence, if any.
pub open spec fn spec_remove_from_tab(tab: Seq<char>, block: Seq<char>) -> (Seq<char>, bool) {
    match find(tab, block) {
        None => (tab, false),
        Some(start) => {
            let off: int = if start > 0 && tab[start - 1] == '\n' {
                1
            } else {
                0
            };
            let stop = start + char_index(tab.skip(start), '\n');
            (tab.take(start - off) + tab.skip(stop), true)
        },
    }
}

fn comment_line(line: &Vec<char>) -> (b: bool)
    ensures
        b == is_comment(line@),
{
    let t = trimmed_start(line);
    if t.len() > 0 && t[0] == '#' {
        assert(t@.take(1) =~= seq!['#']);
        true
    } else {
        proof {
            if t@.len() > 0 {
                assert(t@.take(1)[0] == t@[0]);
            }
        }
        false
    }
}

fn first_claiming_exec(ls: &Vec<Vec<char>>, file_system: &Vec<char>) -> (r: Option<usize>)
    ensures
        r matches Some(k) ==> k < ls.len(),
        match r {
            Some(k) => first_claiming(views(ls@), file_system@, 0) == Some(k as int),
            None => first_claiming(views(ls@), file_system@, 0) is None,
        },
{
    let mut k: usize = 0;
    while k < ls.len()
        invariant
            k <= ls.len(),
            first_claiming(views(ls@), file_system@, 0) == first_claiming(
                views(ls@),
                file_system@,
                k as int,
            ),
        decreases ls.len() - k,
    {
        assert(views(ls@)[k as int] == ls@[k as int]@);
        if !comment_line(&ls[k]) {
            let t = trimmed_start(&ls[k]);
            if starts_with(&t, file_system) {
                return Some(k);
            }
        }
        k = k + 1;
    }
    None
}

fn entry_chars(
    file_system: &str,
    mount: &str,
    fs_type: &str,
    options: &str,
    dump: &str,
    pass: &str,
) -> (r: Vec<char>)
    ensures
        r@ == fstab_entry(file_system@, mount@, fs_type@, options@, dump@, pass@),
{
    let mut r = chars_of(file_system);
    let sep = chars_of("  ");
    proof {
        reveal_strlit("  ");
    }
    assert(sep@ =~= seq![' ', ' ']);
    extend(&mut r, &sep);
    extend(&mut r, &chars_of(mount));
    extend(&mut r, &sep);
    extend(&mut r, &chars_of(fs_type));
    extend(&mut r, &sep);
    extend(&mut r, &chars_of(options));
    extend(&mut r, &sep);
    extend(&mut r, &chars_of(dump));
    extend(&mut r, &sep);
    extend(&mut r, &chars_of(pass));
    r
}

/// Ensures that `fstab` holds the entry for `file_system`: the first line that claims it is
/// replaced by the entry, or the entry is appended. Returns whether the text changed.
pub fn append(
    fstab: &mut String,
    file_system: &str,
    mount: &str,
    fs_type: &str,
    options: &str,
    dump: &str,
    pass: &str,
) -> (changed: bool)
    ensures
        (final(fstab)@, changed) == spec_append(
            old(fstab)@,
            fstab_entry(file_system@, mount@, fs_type@, options@, dump@, pass@),
            file_system@,
        ),
{
    let text = chars_of(fstab.as_str());
    let fs = chars_of(file_system);
    let entry = entry_chars(file_system, mount, fs_type, options, dump, pass);
    let ls = split_lines(&text);
    let ghost spec_entry = fstab_entry(file_system@, mount@, fs_type@, options@, dump@, pass@);
    assert(views(ls@) == lines(old(fstab)@));
    match first_claiming_exec(&ls, &fs) {
        Some(k) => {
            assert(views(ls@)[k as int] == ls@[k as int]@);
            assert(first_claiming(lines(old(fstab)@), file_system@, 0) == Some(k as int));
            if chars_eq(&ls[k], &entry) {
                assert(lines(old(fstab)@)[k as int] == spec_entry);
                assert(spec_append(old(fstab)@, spec_entry, file_system@) == (old(fstab)@, false));
                return false;
            }
            let replaced = replace_first_exec(&text, &ls[k], &entry);
            *fstab = string_of(&replaced);
            true
        },
        None => {
            let mut out = text;
            let nl = chars_of("\n");
            proof {
                reveal_strlit("\n");
            }
            assert(nl@ =~= seq!['\n']);
            let ends = crate::text::ends_with(&out, &nl);
            if !ends {
                out.push('\n');
            }
            extend(&mut out, &entry);
            out.push('\n');
            *fstab = string_of(&out);
            true
        },
    }
}

/// A line that claims a file system once its final carriage return is dropped claims it
/// with the carriage return too.
proof fn lemma_claims_strip_cr(line: Seq<char>, file_system: Seq<char>)
    requires
        claims(strip_cr(line), file_system),
    ensures
        claims(line, file_system),
{
    if line.len() > 0 && line.last() == '\r' {
        let d = line.drop_last();
        lemma_find_first_bounds(d, non_whitespace_pred());
        let j = non_whitespace_index(d);
        if j < d.len() {
            assert forall|k: int| 0 <= k < j implies !non_whitespace_pred()(#[trigger] line[k]) by {
                assert(line[k] == d[k]);
                assert(!non_whitespace_pred()(d[k]));
            }
            assert(line[j as int] == d[j as int]);
            lemma_find_first_is(line, non_whitespace_pred(), j as int);
            let t = trim_start(line);
            let u = trim_start(d);
            assert(u =~= t.drop_last());
            assert(t.take(file_system.len() as int) =~= u.take(file_system.len() as int));
            assert(t.take(1) =~= u.take(1));
        } else {
            assert forall|k: int| 0 <= k < line.len() implies !non_whitespace_pred()(#[trigger] line[k]) by {
                if k < d.len() {
                    assert(line[k] == d[k]);
                    assert(!non_whitespace_pred()(d[k]));
                }
            }
            lemma_find_first_is(line, non_whitespace_pred(), line.len() as int);
            assert(trim_start(line) =~= Seq::<char>::empty());
            assert(trim_start(d) =~= Seq::<char>::empty());
        }
    }
}

proof fn lemma_first_claiming_none(ls: Seq<Seq<char>>, file_system: Seq<char>, k: int)
    requires
        0 <= k,
        first_claiming(ls, file_system, k) is None,
    ensures
        forall|i: int| k <= i < ls.len() ==> !claims(#[trigger] ls[i], file_system),
    decreases ls.len() - k,
{
    if k < ls.len() {
        lemma_first_claiming_none(ls, file_system, k + 1);
    }
}

proof fn lemma_first_claiming_at(ls: Seq<Seq<char>>, file_system: Seq<char>, k: int, j: int)
    requires
        0 <= k <= j < ls.len(),
        forall|i: int| k <= i < j ==> !claims(#[trigger] ls[i], file_system),
        claims(ls[j], file_system),
    ensures
        first_claiming(ls, file_system, k) == Some(j),
    decreases j - k,
{
    if k < j {
        lemma_first_claiming_at(ls, file_system, k + 1, j);
    }
}

/// Appending the entry of a file system that the table does not mention yet, and then
/// appending the same entry again, changes nothing the second time; the entry is one line
/// that claims the file system, and the table or the file system's name is not empty.
pub proof fn law_append_new_entry_idempotent(fstab: Seq<char>, entry: Seq<char>, file_system: Seq<char>)
    requires
        first_claiming(lines(fstab), file_system, 0) is None,
        fstab.len() > 0 || file_system.len() > 0,
        claims(entry, file_system),
        no_newline(entry),
        strip_cr(entry) == entry,
    ensures
        spec_append(fstab, entry, file_system).1,
        spec_append(spec_append(fstab, entry, file_system).0, entry, file_system) == (
            spec_append(fstab, entry, file_system).0,
            false,
        ),
{
    let ls = lines(fstab);
    lemma_first_claiming_none(ls, file_system, 0);
    let base = if has_suffix(fstab, seq!['\n']) {
        fstab
    } else {
        fstab.push('\n')
    };
    // The lines of `base` claim nothing either.
    assert forall|i: int| 0 <= i < lines(base).len() implies !claims(#[trigger] lines(base)[i], file_system) by {
        if !has_suffix(fstab, seq!['\n']) {
            if fstab.len() == 0 {
                assert(base =~= seq!['\n']);
                lemma_lines_one(Seq::<char>::empty());
                assert(Seq::<char>::empty() + seq!['\n'] =~= base);
                assert(lines(base)[i] =~= Seq::<char>::empty());
                assert(trim_start(Seq::<char>::empty()) =~= Seq::<char>::empty());
                assert(!claims(lines(base)[i], file_system));
            } else {
                assert(fstab.last() != '\n') by {
                    assert(fstab.skip(fstab.len() - 1) =~= seq![fstab.last()]);
                }
                lemma_lines_push_newline(fstab);
                assert(fstab.push('\n') =~= fstab + seq!['\n']);
                if i < ls.len() - 1 {
                    assert(lines(base)[i] == ls[i]);
                } else {
                    assert(lines(base)[i] == strip_cr(ls[ls.len() - 1]));
                    if claims(lines(base)[i], file_system) {
                        lemma_claims_strip_cr(ls[ls.len() - 1], file_system);
                    }
                }
            }
        }
    }
    let out = base + entry + seq!['\n'];
    assert(spec_append(fstab, entry, file_system) == (out, true));
    assert(base.len() == 0 || base.last() == '\n') by {
        if has_suffix(fstab, seq!['\n']) {
            assert(fstab.skip(fstab.len() - 1) =~= seq!['\n']);
            assert(fstab.last() == fstab.skip(fstab.len() - 1)[0]);
        }
    }
    assert(out =~= base + (entry + seq!['\n']));
    lemma_lines_append(base, entry + seq!['\n']);
    lemma_lines_one(entry);
    let ls2 = lines(out);
    assert(ls2 =~= lines(base).push(entry));
    let j = lines(base).len() as int;
    assert forall|i: int| 0 <= i < j implies !claims(#[trigger] ls2[i], file_system) by {
        assert(ls2[i] == lines(base)[i]);
    }
    lemma_first_claiming_at(ls2, file_system, 0, j);
}

/// Where line `k` of the text `s` starts.
pub open spec fn line_start(s: Seq<char>, k: int) -> int
    decreases s.len(),
{
    if k <= 0 || s.len() == 0 {
        0
    } else {
        let e = newline_index(s);
        if e >= s.len() {
            s.len() as int
        } else {
            e + 1 + line_start(s.skip(e + 1int), k - 1)
        }
    }
}

/// The text before line `k` holds lines `0..k`, and the text from it holds the others.
proof fn lemma_line_start(s: Seq<char>, k: int)
    requires
        0 <= k < lines(s).len(),
    ensures
        0 <= line_start(s, k) <= s.len(),
        line_start(s, k) == 0 || s[line_start(s, k) - 1] == '\n',
        lines(s.take(line_start(s, k))) == lines(s).take(k),
        lines(s.skip(line_start(s, k))) == lines(s).skip(k),
    decreases s.len(),
{
    if k == 0 {
        assert(s.take(0) =~= Seq::<char>::empty());
        assert(s.skip(0) =~= s);
        assert(lines(s).take(0) =~= Seq::<Seq<char>>::empty());
        assert(lines(s).skip(0) =~= lines(s));
    } else {
        let e = newline_index(s);
        lemma_find_first_bounds(s, equals('\n'));
        if e >= s.len() {
            assert(lines(s) =~= seq![s]);
        } else {
            let t = s.skip(e + 1int);
            assert(lines(s) == seq![strip_cr(s.take(e as int))] + lines(t));
            lemma_line_start(t, k - 1);
            let q = line_start(t, k - 1);
            let p = e + 1 + q;
            assert(line_start(s, k) == p);
            let head = s.take(e + 1int);
            assert(head.last() == '\n');
            assert(no_newline(s.take(e as int))) by {
                assert forall|j: int| 0 <= j < e implies s.take(e as int)[j] != '\n' by {
                    assert(!equals('\n')(s[j]));
                }
            }
            assert(head =~= s.take(e as int) + seq!['\n']);
            lemma_lines_one(s.take(e as int));
            assert(s.take(p) =~= head + t.take(q));
            lemma_lines_append(head, t.take(q));
            assert(lines(s.take(p)) =~= lines(s).take(k));
            assert(s.skip(p) =~= t.skip(q));
            assert(lines(s.skip(p)) =~= lines(s).skip(k));
            if q > 0 {
                assert(s[p - 1] == t[q - 1]);
            }
        }
    }
}

/// A line without a line feed put in place of the first line of `t` (up to its line feed)
/// becomes that line.
proof fn lemma_lines_replace_first_line(t: Seq<char>, x: Seq<char>)
    requires
        lines(t).len() >= 1,
        x.len() > 0,
        no_newline(x),
        strip_cr(x) == x,
    ensures
        lines(t)[0].len() <= t.len(),
        lines(x + t.skip(lines(t)[0].len() as int)) == seq![x] + lines(t).skip(1),
{
    let e = newline_index(t);
    lemma_find_first_bounds(t, equals('\n'));
    let l0 = lines(t)[0];
    if e >= t.len() {
        assert(lines(t) =~= seq![t]);
        assert(t.skip(t.len() as int) =~= Seq::<char>::empty());
        assert(x + t.skip(t.len() as int) =~= x);
        assert forall|j: int| 0 <= j < x.len() implies !equals('\n')(#[trigger] x[j]) by {}
        lemma_find_first_is(x, equals('\n'), x.len() as int);
        assert(lines(x) =~= seq![x]);
        assert(lines(t).skip(1) =~= Seq::<Seq<char>>::empty());
    } else {
        let u = t.skip(e + 1int);
        assert(lines(t) == seq![strip_cr(t.take(e as int))] + lines(u));
        assert(l0 == strip_cr(t.take(e as int)));
        let cr = e > 0 && t[e - 1] == '\r';
        let w: int = if cr { 1 } else { 0 };
        assert(l0.len() == e - w);
        let rest = t.skip(l0.len() as int);
        let y = x + rest;
        let e2 = x.len() + w;
        assert forall|j: int| 0 <= j < e2 implies !equals('\n')(#[trigger] y[j]) by {
            if j < x.len() {
                assert(y[j] == x[j]);
            } else {
                assert(y[j] == t[j - x.len() + l0.len()]);
                assert(!equals('\n')(t[j - x.len() + l0.len()]));
            }
        }
        assert(y[e2] == t[e as int]);
        lemma_find_first_is(y, equals('\n'), e2);
        assert(newline_index(y) == e2);
        if cr {
            assert(y.take(e2) =~= x.push('\r'));
            assert(x.push('\r').drop_last() =~= x);
        } else {
            assert(y.take(e2) =~= x);
        }
        assert(strip_cr(y.take(e2)) == x);
        assert(y.skip(e2 + 1) =~= u);
        assert(lines(y) == seq![strip_cr(y.take(e2))] + lines(y.skip(e2 + 1)));
        assert(lines(t).skip(1) =~= lines(u));
    }
}

/// Before the first line that claims a file system, no line claims it.
proof fn lemma_first_claiming_some(ls: Seq<Seq<char>>, file_system: Seq<char>, i: int, k: int)
    requires
        0 <= i,
        first_claiming(ls, file_system, i) == Some(k),
    ensures
        i <= k < ls.len(),
        claims(ls[k], file_system),
        forall|j: int| i <= j < k ==> !claims(#[trigger] ls[j], file_system),
    decreases ls.len() - i,
{
    if !claims(ls[i], file_system) {
        lemma_first_claiming_some(ls, file_system, i + 1, k);
    }
}

/// Appending an entry that replaces the first line claiming its file system, and then
/// appending the same entry again, changes nothing the second time, when that line's text
/// first occurs in the table as that line. The entry is one line, not empty, that claims the
/// file system.
pub proof fn law_append_replaced_entry_idempotent(
    fstab: Seq<char>,
    entry: Seq<char>,
    file_system: Seq<char>,
)
    requires
        first_claiming(lines(fstab), file_system, 0) matches Some(k) && find(
            fstab,
            lines(fstab)[k],
        ) == Some(line_start(fstab, k)),
        claims(entry, file_system),
        no_newline(entry),
        strip_cr(entry) == entry,
        entry.len() > 0,
    ensures
        spec_append(spec_append(fstab, entry, file_system).0, entry, file_system) == (
            spec_append(fstab, entry, file_system).0,
            false,
        ),
{
    let ls = lines(fstab);
    let k = first_claiming(ls, file_system, 0)->0;
    lemma_first_claiming_some(ls, file_system, 0, k);
    if ls[k] != entry {
        lemma_line_start(fstab, k);
        let p = line_start(fstab, k);
        let pre = fstab.take(p);
        let t = fstab.skip(p);
        let l = ls[k];
        assert(lines(t)[0] == l);
        lemma_lines_replace_first_line(t, entry);
        let n = spec_append(fstab, entry, file_system).0;
        assert(n == fstab.take(p) + entry + fstab.skip(p + l.len()));
        assert(fstab.skip(p + l.len()) =~= t.skip(l.len() as int));
        assert(n =~= pre + (entry + t.skip(l.len() as int)));
        if p > 0 {
            assert(pre.last() == fstab[p - 1]);
        }
        lemma_lines_append(pre, entry + t.skip(l.len() as int));
        let ln = lines(n);
        assert(ln == ls.take(k) + (seq![entry] + ls.skip(k + 1)));
        assert(ln[k] == entry);
        assert forall|j: int| 0 <= j < k implies !claims(#[trigger] ln[j], file_system) by {
            assert(ln[j] == ls[j]);
        }
        lemma_first_claiming_at(ln, file_system, 0, k);
    }
}


/// Removes the first occurrence of `block` and the rest of its line (with the line feed
/// before it) from `tab`. Returns whether `block` was found.
pub fn remove_from_tab(tab: &mut String, block: &str) -> (found: bool)
    ensures
        (final(tab)@, found) == spec_remove_from_tab(old(tab)@, block@),
{
    let text = chars_of(tab.as_str());
    let b = chars_of(block);
    match find_at(&text, &b, 0) {
        Some(start) => {
            proof {
                lemma_find_from_props(text@, b@, 0);
            }
            let offset: usize = if start > 0 && text[start - 1] == '\n' {
                1
            } else {
                0
            };
            let stop = index_of_char(&text, start, '\n');
            let mut out = slice(&text, 0, start - offset);
            let tail = slice(&text, stop, text.len());
            extend(&mut out, &tail);
            *tab = string_of(&out);
            assert(final(tab)@ =~= spec_remove_from_tab(old(tab)@, block@).0);
            true
        },
        None => false,
    }
}

fn first_mounted_at_exec(ls: &Vec<Vec<char>>, dest: &Vec<char>) -> (r: Option<(usize, Vec<char>)>)
    ensures
        r matches Some((k, _)) ==> k < ls.len(),
        match r {
            Some((k, source)) => first_mounted_at(views(ls@), dest@, 0) == Some(k as int)
                && source@ == fields(ls@[k as int]@)[0],
            None => first_mounted_at(views(ls@), dest@, 0) is None,
        },
{
    let mut k: usize = 0;
    while k < ls.len()
        invariant
            k <= ls.len(),
            first_mounted_at(views(ls@), dest@, 0) == first_mounted_at(
                views(ls@),
                dest@,
                k as int,
            ),
        decreases ls.len() - k,
    {
        assert(views(ls@)[k as int] == ls@[k as int]@);
        if !comment_line(&ls[k]) {
            let t = trimmed_start(&ls[k]);
            let ws = split_ascii_words(&t);
            if ws.len() >= 2 {
                assert(views(ws@)[1] == ws@[1]@);
                assert(views(ws@)[0] == ws@[0]@);
                if chars_eq(&ws[1], dest) {
                    let source = slice(&ws[0], 0, ws[0].len());
                    assert(source@ =~= ws@[0]@);
                    return Some((k, source));
                }
            }
        }
        k = k + 1;
    }
    None
}

/// The first line of `fstab` that mounts a file system at `dest`, with that file system (the
/// line's first field).
pub fn find_mount_by_dest(fstab: &str, dest: &str) -> (r: Option<(String, String)>)
    ensures
        match r {
            Some((line, source)) => match first_mounted_at(lines(fstab@), dest@, 0) {
                Some(k) => line@ == lines(fstab@)[k] && source@ == fields(lines(fstab@)[k])[0],
                None => false,
            },
            None => first_mounted_at(lines(fstab@), dest@, 0) is None,
        },
{
    let text = chars_of(fstab);
    let d = chars_of(dest);
    let ls = split_lines(&text);
    match first_mounted_at_exec(&ls, &d) {
        Some((k, source)) => {
            assert(views(ls@)[k as int] == ls@[k as int]@);
            Some((string_of(&ls[k]), string_of(&source)))
        },
        None => None,
    }
}

// ---------------------------------------------------------------------------
// Sources that are named by a link under /dev/disk
// ---------------------------------------------------------------------------

/// The first field of a line that is not a comment.
pub open spec fn line_source(line: Seq<char>) -> Option<Seq<char>> {
    if is_comment(line) || fields(line).len() == 0 {
        None
    } else {
        Some(fields(line)[0])
    }
}

/// The `/dev/disk` link that names the device of a `PARTUUID=`, `UUID=` or `LABEL=` source.
pub open spec fn source_link(source: Seq<char>) -> Option<Seq<char>> {
    if has_prefix(source, seq!['/']) {
        None
    } else if has_prefix(source, "PARTUUID="@) {
        Some("/dev/disk/by-partuuid/"@ + source.skip(9))
    } else if has_prefix(source, "UUID="@) {
        Some("/dev/disk/by-uuid/"@ + source.skip(5))
    } else if has_prefix(source, "LABEL="@) {
        Some("/dev/disk/by-partlabel/"@ + source.skip(6))
    } else {
        None
    }
}

/// For each line of `fstab`, the link whose canonical path is the device of the line's
/// source, when the source names its device by a link.
pub open spec fn spec_source_links(fstab: Seq<char>) -> Seq<Option<Seq<char>>> {
    lines(fstab).map_values(
        |line: Seq<char>|
            match line_source(line) {
                Some(s) => source_link(s),
                None => None,
            },
    )
}

/// Whether two paths are equal as `std::path::Path` compares them (by their components).
pub uninterp spec fn std_path_eq(a: Seq<char>, b: Seq<char>) -> bool;

/// `Path::new(a) == Path::new(b)`.
///
/// Trusted: calls `PartialEq` for `std::path::Path`, which compares the paths' components, so
/// its result is a function of the two strings; and a path equals itself.
#[verifier::external_body]
pub(crate) fn path_eq(a: &str, b: &str) -> (r: bool)
    ensures
        r == std_path_eq(a@, b@),
        a@ == b@ ==> r,
{
    std::path::Path::new(a) == std::path::Path::new(b)
}

fn prefixed(v: &Vec<char>, p: &str) -> (b: bool)
    ensures
        b == has_prefix(v@, p@),
{
    starts_with(v, &chars_of(p))
}

fn source_link_exec(source: &Vec<char>) -> (r: Option<Vec<char>>)
    ensures
        match r {
            Some(l) => source_link(source@) == Some(l@),
            None => source_link(source@) is None,
        },
{
    proof {
        reveal_strlit("/");
        reveal_strlit("PARTUUID=");
        reveal_strlit("UUID=");
        reveal_strlit("LABEL=");
    }
    assert("/"@ =~= seq!['/']);
    if prefixed(source, "/") {
        None
    } else if prefixed(source, "PARTUUID=") {
        let mut l = chars_of("/dev/disk/by-partuuid/");
        extend(&mut l, &slice(source, 9, source.len()));
        Some(l)
    } else if prefixed(source, "UUID=") {
        let mut l = chars_of("/dev/disk/by-uuid/");
        extend(&mut l, &slice(source, 5, source.len()));
        Some(l)
    } else if prefixed(source, "LABEL=") {
        let mut l = chars_of("/dev/disk/by-partlabel/");
        extend(&mut l, &slice(source, 6, source.len()));
        Some(l)
    } else {
        None
    }
}

fn line_source_exec(line: &Vec<char>) -> (r: Option<Vec<char>>)
    ensures
        match r {
            Some(s) => line_source(line@) == Some(s@),
            None => line_source(line@) is None,
        },
{
    if comment_line(line) {
        return None;
    }
    let t = trimmed_start(line);
    let ws = split_ascii_words(&t);
    if ws.len() == 0 {
        return None;
    }
    assert(views(ws@)[0] == ws@[0]@);
    Some(slice(&ws[0], 0, ws[0].len()))
}

/// For each line of `fstab`, the `/dev/disk` link that names the device of its source, if the
/// source is given as `PARTUUID=`, `UUID=` or `LABEL=`. The caller resolves these links to
/// canonical paths for `find_mount_by_source`.
pub fn source_links(fstab: &str) -> (r: Vec<Option<String>>)
    ensures
        r@.len() == spec_source_links(fstab@).len(),
        forall|i: int|
            0 <= i < r@.len() ==> match #[trigger] r@[i] {
                Some(l) => spec_source_links(fstab@)[i] == Some(l@),
                None => spec_source_links(fstab@)[i] is None,
            },
{
    let text = chars_of(fstab);
    let ls = split_lines(&text);
    let mut r: Vec<Option<String>> = Vec::new();
    let mut k: usize = 0;
    while k < ls.len()
        invariant
            k <= ls.len(),
            views(ls@) == lines(fstab@),
            r@.len() == k,
            forall|i: int|
                0 <= i < k ==> match #[trigger] r@[i] {
                    Some(l) => spec_source_links(fstab@)[i] == Some(l@),
                    None => spec_source_links(fstab@)[i] is None,
                },
        decreases ls.len() - k,
    {
        assert(views(ls@)[k as int] == ls@[k as int]@);
        let link = match line_source_exec(&ls[k]) {
            Some(s) => match source_link_exec(&s) {
                Some(l) => Some(string_of(&l)),
                None => None,
            },
            None => None,
        };
        r.push(link);
        k = k + 1;
    }
    r
}

/// Whether line `i` of the table names the device at `device_path`: a path source equal to
/// it, or a link source whose resolved path (`resolved[i]`) equals it.
pub open spec fn names_device(
    ls: Seq<Seq<char>>,
    resolved: Seq<Option<Seq<char>>>,
    device_path: Seq<char>,
    i: int,
) -> bool {
    match line_source(ls[i]) {
        None => false,
        Some(s) => if has_prefix(s, seq!['/']) {
            std_path_eq(s, device_path)
        } else {
            source_link(s) is Some && i < resolved.len() && match resolved[i] {
                Some(p) => std_path_eq(p, device_path),
                None => false,
            }
        },
    }
}

/// The first line at or after `k` that names the device.
pub open spec fn first_naming(
    ls: Seq<Seq<char>>,
    resolved: Seq<Option<Seq<char>>>,
    device_path: Seq<char>,
    k: int,
) -> Option<int>
    decreases ls.len() - k,
{
    if k < 0 || k >= ls.len() {
        None
    } else if names_device(ls, resolved, device_path, k) {
        Some(k)
    } else {
        first_naming(ls, resolved, device_path, k + 1)
    }
}

pub open spec fn resolved_views(resolved: Seq<Option<String>>) -> Seq<Option<Seq<char>>> {
    resolved.map_values(
        |o: Option<String>|
            match o {
                Some(s) => Some(s@),
                None => None,
            },
    )
}

/// The first line of `fstab` whose source is the device at `device_path`. Sources given as a
/// path are compared with it directly; `resolved[i]` is the canonical path of the link of line
/// `i` (see `source_links`), or `None` when it could not be resolved.
pub fn find_mount_by_source(fstab: &str, device_path: &str, resolved: &Vec<Option<String>>) -> (r:
    Option<String>)
    ensures
        match r {
            Some(line) => match first_naming(
                lines(fstab@),
                resolved_views(resolved@),
                device_path@,
                0,
            ) {
                Some(k) => line@ == lines(fstab@)[k],
                None => false,
            },
            None => first_naming(lines(fstab@), resolved_views(resolved@), device_path@, 0) is None,
        },
{
    let text = chars_of(fstab);
    let ls = split_lines(&text);
    let ghost rv = resolved_views(resolved@);
    let mut k: usize = 0;
    while k < ls.len()
        invariant
            k <= ls.len(),
            views(ls@) == lines(fstab@),
            rv == resolved_views(resolved@),
            first_naming(lines(fstab@), rv, device_path@, 0) == first_naming(
                lines(fstab@),
                rv,
                device_path@,
                k as int,
            ),
        decreases ls.len() - k,
    {
        assert(views(ls@)[k as int] == ls@[k as int]@);
        let found = match line_source_exec(&ls[k]) {
            None => false,
            Some(s) => {
                proof {
                    reveal_strlit("/");
                }
                assert("/"@ =~= seq!['/']);
                if prefixed(&s, "/") {
                    path_eq(&string_of(&s).as_str(), device_path)
                } else {
                    match source_link_exec(&s) {
                        None => false,
                        Some(_) => {
                            if k < resolved.len() {
                                match &resolved[k] {
                                    Some(p) => path_eq(p.as_str(), device_path),
                                    None => false,
                                }
                            } else {
                                false
                            }
                        },
                    }
                }
            },
        };
        if found {
            return Some(string_of(&ls[k]));
        }
        k = k + 1;
    }
    None
}

pub open spec fn lists_text(v: Seq<String>, p: Seq<char>) -> bool {
    exists|j: int| 0 <= j < v.len() && #[trigger] v[j]@ == p
}

/// The mount points that `repair` still has to mount, in order.
pub open spec fn spec_unmounted(is_efi: bool, mounted: Seq<String>) -> Seq<Seq<char>> {
    if !is_efi {
        seq![]
    } else {
        (if lists_text(mounted, "/"@) {
            seq![]
        } else {
            seq!["/"@]
        }) + (if lists_text(mounted, "/boot/efi"@) {
            seq![]
        } else {
            seq!["/boot/efi"@]
        })
    }
}

/// On EFI systems, the required mount points (`/`, then `/boot/efi`) that are not among the
/// destinations currently mounted; these have to be mounted before an upgrade, in this order.
/// Nothing on other systems.
pub fn repair(is_efi: bool, mounted: &Vec<String>) -> (r: Vec<&'static str>)
    ensures
        r@.map_values(|m: &'static str| m@) == spec_unmounted(is_efi, mounted@),
{
    let mut r: Vec<&'static str> = Vec::new();
    if !is_efi {
        assert(r@.map_values(|m: &'static str| m@) =~= spec_unmounted(is_efi, mounted@));
        return r;
    }
    let root_mounted = is_mounted(mounted, "/");
    let efi_mounted = is_mounted(mounted, "/boot/efi");
    if !root_mounted {
        r.push("/");
    }
    if !efi_mounted {
        r.push("/boot/efi");
    }
    assert(r@.map_values(|m: &'static str| m@) =~= spec_unmounted(is_efi, mounted@));
    r
}

fn is_mounted(mounted: &Vec<String>, dest: &str) -> (b: bool)
    ensures
        b == lists_text(mounted@, dest@),
{
    let d = chars_of(dest);
    let mut j: usize = 0;
    while j < mounted.len()
        invariant
            j <= mounted.len(),
            d@ == dest@,
            forall|i: int| 0 <= i < j ==> #[trigger] mounted@[i]@ != dest@,
        decreases mounted.len() - j,
    {
        let m = chars_of(mounted[j].as_str());
        if chars_eq(&m, &d) {
            return true;
        }
        j = j + 1;
    }
    false
}

/// `mount` exits with 0 when it mounted the file system and with 32 when it was already
/// mounted; anything else (or no exit code) is a failure.
pub fn mount_succeeded(exit_code: Option<i32>) -> (ok: bool)
    ensures
        ok == (exit_code == Some(0i32) || exit_code == Some(32i32)),
{
    match exit_code {
        Some(0) | Some(32) => true,
        _ => false,
    }
}

/// Why the required partitions could not be mounted.
#[derive(Clone, Copy, Debug)]
pub enum FstabRepairErr {
    /// `/proc/mounts` could not be read.
    ProcMounts,
    /// The `mount` command could not be started.
    MountSpawn,
    /// `mount` failed for this mount point.
    Mount { mount_point: &'static str },
}

impl FstabRepairErr {
    pub fn message(&self) -> (r: String)
        ensures
            r@ == match *self {
                FstabRepairErr::ProcMounts => "could not get mounted devices from /proc/mounts"@,
                FstabRepairErr::MountSpawn => "failed to spawn `mount` command"@,
                FstabRepairErr::Mount { mount_point } => "failed to mount "@ + mount_point@,
            },
    {
        let mut r = String::new();
        match self {
            FstabRepairErr::ProcMounts => r.append("could not get mounted devices from /proc/mounts"),
            FstabRepairErr::MountSpawn => r.append("failed to spawn `mount` command"),
            FstabRepairErr::Mount { mount_point } => {
                r.append("failed to mount ");
                r.append(mount_point);
            },
        }
        r
    }
}

/// The outcome of `mount mount_point`, where `run` is `None` when the command could not be
/// started and its exit code otherwise.
pub open spec fn spec_mount_outcome(mount_point: &'static str, run: Option<Option<i32>>) -> Result<
    (),
    FstabRepairErr,
> {
    match run {
        None => Err(FstabRepairErr::MountSpawn),
        Some(code) => if code == Some(0i32) || code == Some(32i32) {
            Ok(())
        } else {
            Err(FstabRepairErr::Mount { mount_point })
        },
    }
}

/// The outcome of `mount mount_point`: success when it mounted the file system or it was
/// already mounted.
pub fn mount_outcome(mount_point: &'static str, run: Option<Option<i32>>) -> (r: Result<
    (),
    FstabRepairErr,
>)
    ensures
        r == spec_mount_outcome(mount_point, run),
{
    match run {
        None => Err(FstabRepairErr::MountSpawn),
        Some(code) => if mount_succeeded(code) {
            Ok(())
        } else {
            Err(FstabRepairErr::Mount { mount_point })
        },
    }
}

/// The first mount point from `k` on whose mount fails.
pub open spec fn first_failed_mount(
    points: Seq<&'static str>,
    runs: Seq<Option<Option<i32>>>,
    k: int,
) -> Option<int>
    decreases points.len() - k,
{
    if k < 0 || k >= points.len() || k >= runs.len() {
        None
    } else if spec_mount_outcome(points[k], runs[k]) is Err {
        Some(k)
    } else {
        first_failed_mount(points, runs, k + 1)
    }
}

/// The result of mounting `points` (as [`repair`] lists them) in order, where `runs[k]` is
/// what running `mount points[k]` gives; and how many mounts were run. The first failure
/// ends the repair with its error, and later points are not tried.
pub fn mount_required(points: &Vec<&'static str>, runs: &Vec<Option<Option<i32>>>) -> (r: (
    Result<(), FstabRepairErr>,
    usize,
))
    requires
        runs.len() == points.len(),
    ensures
        match first_failed_mount(points@, runs@, 0) {
            None => r.0 == Ok::<(), FstabRepairErr>(()) && r.1 == points.len(),
            Some(k) => r.0 == spec_mount_outcome(points@[k], runs@[k]) && r.1 == k + 1,
        },
{
    let mut i: usize = 0;
    while i < points.len()
        invariant
            i <= points.len(),
            runs.len() == points.len(),
            first_failed_mount(points@, runs@, 0) == first_failed_mount(points@, runs@, i as int),
        decreases points.len() - i,
    {
        let outcome = mount_outcome(points[i], runs[i]);
        if outcome.is_err() {
            return (outcome, i + 1);
        }
        i = i + 1;
    }
    (Ok(()), points.len())
}

// ---------------------------------------------------------------------------
// The EFI partition entry
// ---------------------------------------------------------------------------

/// The fstab entry of the EFI partition with the given `PARTUUID`.
pub open spec fn esp_entry(part_uuid: Seq<char>) -> Seq<char> {
    "PARTUUID="@ + part_uuid + "  /boot/efi  vfat  umask=0077  0  0"@
}

/// What the fstab becomes once the EFI partition moved to the partition `part_uuid`:
/// `old_esp_line` (the line of the previous partition, if found by its source) is replaced by
/// the new entry; otherwise the line mounted at `/boot/efi` is, unless its source already is
/// that partition. `None` means the fstab stays as it is.
pub open spec fn spec_esp_fstab_update(
    fstab: Seq<char>,
    old_esp_line: Option<Seq<char>>,
    part_uuid: Seq<char>,
) -> Option<Seq<char>> {
    match old_esp_line {
        Some(line) => Some(replace_first(fstab, line, esp_entry(part_uuid))),
        None => match first_mounted_at(lines(fstab), "/boot/efi"@, 0) {
            Some(k) => if fields(lines(fstab)[k])[0] != "PARTUUID="@ + part_uuid {
                Some(replace_first(fstab, lines(fstab)[k], esp_entry(part_uuid)))
            } else {
                None
            },
            None => None,
        },
    }
}

/// The new fstab text after the EFI partition was moved to the partition `part_uuid`, or
/// `None` if no line has to change.
pub fn esp_fstab_update(fstab: &str, old_esp_line: Option<&str>, part_uuid: &str) -> (r: Option<
    String,
>)
    ensures
        match r {
            Some(t) => spec_esp_fstab_update(
                fstab@,
                match old_esp_line {
                    Some(l) => Some(l@),
                    None => None,
                },
                part_uuid@,
            ) == Some(t@),
            None => spec_esp_fstab_update(
                fstab@,
                match old_esp_line {
                    Some(l) => Some(l@),
                    None => None,
                },
                part_uuid@,
            ) is None,
        },
{
    let text = chars_of(fstab);
    let mut entry = chars_of("PARTUUID=");
    extend(&mut entry, &chars_of(part_uuid));
    extend(&mut entry, &chars_of("  /boot/efi  vfat  umask=0077  0  0"));
    match old_esp_line {
        Some(line) => {
            let out = replace_first_exec(&text, &chars_of(line), &entry);
            Some(string_of(&out))
        },
        None => match find_mount_by_dest(fstab, "/boot/efi") {
            Some((line, source)) => {
                let mut expected = chars_of("PARTUUID=");
                extend(&mut expected, &chars_of(part_uuid));
                if chars_eq(&chars_of(source.as_str()), &expected) {
                    None
                } else {
                    let out = replace_first_exec(&text, &chars_of(line.as_str()), &entry);
                    Some(string_of(&out))
                }
            },
            None => None,
        },
    }
}

} // verus!
