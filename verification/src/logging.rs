//! Shortening of source locations in log records.

use vstd::prelude::*;

use crate::text::{char_index, chars_of, find, find_at, index_of_char, lemma_find_from_props, occurs_at, slice, string_of};

verus! {

/// What `strip_src` keeps of a location: the text between the first `src/` and the next one
/// (or the end), and nothing when there is no `src/`.
pub open spec fn spec_strip_src(input: Seq<char>) -> Seq<char> {
    match find(input, "src/"@) {
        None => seq![],
        Some(i) => {
            let rest = input.skip(i + 4);
            match find(rest, "src/"@) {
                None => rest,
                Some(j) => rest.take(j),
            }
        },
    }
}

/// The part of a source location after its `src/` directory, as `split("src/").nth(1)`
/// gives it; empty when the location has no `src/`.
pub fn strip_src(input: &str) -> (r: String)
    ensures
        r@ == spec_strip_src(input@),
{
    let text = chars_of(input);
    let pat = chars_of("src/");
    proof {
        reveal_strlit("src/");
    }
    proof {
        lemma_find_from_props(text@, pat@, 0);
    }
    let found = find_at(&text, &pat, 0);
    match found {
        None => String::new(),
        Some(i) => {
            let n = text.len();
            let rest = slice(&text, i + pat.len(), n);
            assert(rest@ =~= input@.skip(i + 4));
            match find_at(&rest, &pat, 0) {
                None => string_of(&rest),
                Some(j) => {
                    proof {
                        lemma_find_from_props(rest@, pat@, 0);
                    }
                    string_of(&slice(&rest, 0, j))
                },
            }
        },
    }
}

/// A stripped location never holds `src/` itself.
pub proof fn law_strip_src_has_no_src(input: Seq<char>)
    ensures
        find(spec_strip_src(input), "src/"@) is None,
{
    reveal_strlit("src/");
    let p = "src/"@;
    let r = spec_strip_src(input);
    lemma_find_from_props(r, p, 0);
    lemma_find_from_props(input, p, 0);
    match find(input, p) {
        None => {},
        Some(i) => {
            let rest = input.skip(i + 4);
            lemma_find_from_props(rest, p, 0);
            match find(rest, p) {
                None => {},
                Some(j) => {
                    assert forall|k: int| 0 <= k implies !#[trigger] occurs_at(r, p, k) by {
                        if occurs_at(r, p, k) {
                            assert(r.subrange(k, k + 4) =~= rest.subrange(k, k + 4));
                            assert(occurs_at(rest, p, k));
                        }
                    }
                },
            }
        },
    }
}

/// The crate part of a log target: the text before its first `:`.
pub fn target_crate(target: &str) -> (r: String)
    ensures
        r@ == target@.take(char_index(target@, ':') as int),
{
    let t = chars_of(target);
    let end = index_of_char(&t, 0, ':');
    assert(t@.skip(0) =~= t@);
    string_of(&slice(&t, 0, end))
}

/// How much is logged.
#[derive(Clone, Copy, Debug, PartialEq, Eq, Structural)]
pub enum LogLevel {
    Info,
    Debug,
    Trace,
}

/// The level for a number of `-v` flags: information by default, debugging with one, and
/// everything with more.
pub fn log_level(verbose: u64) -> (r: LogLevel)
    ensures
        verbose == 0 ==> r == LogLevel::Info,
        verbose == 1 ==> r == LogLevel::Debug,
        verbose > 1 ==> r == LogLevel::Trace,
{
    if verbose == 0 {
        LogLevel::Info
    } else if verbose == 1 {
        LogLevel::Debug
    } else {
        LogLevel::Trace
    }
}

} // verus!
