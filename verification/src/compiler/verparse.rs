//! Parsers for the first line of a compiler's `--version` output.
//!
//! The GCC grammar is `<token> (<display>) <version>`: a space-free leading
//! token holding `gcc` or `g++`, a parenthesized display string, and a
//! non-empty trailing version. The display string may itself hold `) `, so
//! the split is taken at the last `) ` that leaves the version non-empty.
//!
//! The Clang grammar is `[<prefix> ]clang version <version>[ (<display>)]`:
//! an optional prefix ending in a space, the literal `clang version `, a
//! non-empty version, and an optional trailing parenthesized display string
//! that defaults to empty when absent.

use vstd::prelude::*;

use crate::strutil::{
    check_contains, check_match_at, contains_seq, find_char, find_last, first_char_idx,
    from_chars, last_match_idx, lemma_first_char_idx, lemma_last_match_idx, match_at, sub_vec,
    to_chars,
};

verus! {

/// Why a version string was rejected.
#[derive(Clone, Copy, PartialEq, Eq, Structural, Debug)]
pub enum ParseError {
    /// The line does not have the GCC `<token> (<display>) <version>` shape.
    GccVersion,
    /// The line does not have the Clang `clang version <version>` shape.
    ClangVersion,
}

impl ParseError {
    /// A human-readable description of the failed grammar.
    pub fn message(&self) -> (r: String)
        ensures
            *self is GccVersion ==> r@ == "gcc version parse error"@,
            *self is ClangVersion ==> r@ == "clang version parse error"@,
    {
        match self {
            ParseError::GccVersion => String::from_str("gcc version parse error"),
            ParseError::ClangVersion => String::from_str("clang version parse error"),
        }
    }
}

/// The line `s` matches the GCC version grammar.
pub open spec fn gcc_matches(s: Seq<char>) -> bool {
    let sp = first_char_idx(s, ' ');
    &&& 0 <= sp
    &&& (contains_seq(s.subrange(0, sp), "gcc"@) || contains_seq(s.subrange(0, sp), "g++"@))
    &&& sp + 1 < s.len()
    &&& s[sp + 1] == '('
    &&& {
        let r = s.subrange(sp + 2, s.len() as int);
        r.len() > 0 && last_match_idx(r.drop_last(), ") "@) >= 0
    }
}

/// The version captured from a GCC-shaped line: what follows the last `) `
/// that leaves it non-empty.
pub open spec fn gcc_version_of(s: Seq<char>) -> Seq<char> {
    let sp = first_char_idx(s, ' ');
    let r = s.subrange(sp + 2, s.len() as int);
    let p = last_match_idx(r.drop_last(), ") "@);
    r.subrange(p + 2, r.len() as int)
}

/// The display string captured from a GCC-shaped line: what stands between
/// the opening parenthesis and the version's `) `.
pub open spec fn gcc_display_of(s: Seq<char>) -> Seq<char> {
    let sp = first_char_idx(s, ' ');
    let r = s.subrange(sp + 2, s.len() as int);
    let p = last_match_idx(r.drop_last(), ") "@);
    r.subrange(0, p)
}

/// Parses the first line of `gcc --version` / `g++ --version` output.
pub fn gcc(version_text: &str) -> (r: Result<(String, String), ParseError>)
    ensures
        r is Ok <==> gcc_matches(version_text@),
        match r {
            Ok((version, display)) => version@ == gcc_version_of(version_text@) && display@
                == gcc_display_of(version_text@),
            Err(e) => e is GccVersion,
        },
{
    let cs = to_chars(version_text);
    let sp = match find_char(&cs, ' ') {
        None => {
            proof {
                lemma_first_char_idx(cs@, ' ');
            }
            return Err(ParseError::GccVersion);
        },
        Some(sp) => sp,
    };
    proof {
        lemma_first_char_idx(cs@, ' ');
    }
    let n: usize = cs.len();
    assert(sp < n);
    let token = sub_vec(&cs, 0, sp);
    let pat_gcc = to_chars("gcc");
    let pat_gpp = to_chars("g++");
    if !check_contains(&token, &pat_gcc) && !check_contains(&token, &pat_gpp) {
        return Err(ParseError::GccVersion);
    }
    if n - sp <= 1 {
        return Err(ParseError::GccVersion);
    }
    if cs[sp + 1] != '(' {
        return Err(ParseError::GccVersion);
    }
    let r = sub_vec(&cs, sp + 2, cs.len());
    if r.len() == 0 {
        return Err(ParseError::GccVersion);
    }
    let rm = sub_vec(&r, 0, r.len() - 1);
    assert(rm@ =~= r@.drop_last());
    let pat = to_chars(") ");
    match find_last(&rm, &pat) {
        None => {
            proof {
                lemma_last_match_idx(rm@, pat@);
                if last_match_idx(rm@, pat@) >= 0 {
                    assert(match_at(rm@, pat@, last_match_idx(rm@, pat@)));
                }
            }
            Err(ParseError::GccVersion)
        },
        Some(p) => {
            proof {
                reveal_strlit(") ");
                assert(") "@.len() == 2);
                lemma_last_match_idx(rm@, pat@);
                let lm = last_match_idx(rm@, pat@);
                if lm == -1 {
                    assert(!match_at(rm@, pat@, p as int));
                } else if lm < p {
                    assert(!match_at(rm@, pat@, p as int));
                } else if lm > p {
                    assert(!match_at(rm@, pat@, lm));
                }
                assert(p as int == lm);
            }
            let version = sub_vec(&r, p + 2, r.len());
            let display = sub_vec(&r, 0, p);
            Ok((from_chars(&version), from_chars(&display)))
        },
    }
}

/// `q` is a position where `clang version ` begins a version capture: at the
/// line start or after a space, with a non-empty remainder.
pub open spec fn clang_anchor_at(s: Seq<char>, q: int) -> bool {
    &&& match_at(s, "clang version "@, q)
    &&& (q == 0 || s[q - 1] == ' ')
    &&& q + "clang version "@.len() < s.len()
}

/// The last anchor position below `m`, or `-1`.
pub open spec fn clang_anchor_upto(s: Seq<char>, m: int) -> int
    decreases m,
{
    if m <= 0 {
        -1
    } else if clang_anchor_at(s, m - 1) {
        m - 1
    } else {
        clang_anchor_upto(s, m - 1)
    }
}

/// The line `s` matches the Clang version grammar.
pub open spec fn clang_matches(s: Seq<char>) -> bool {
    clang_anchor_upto(s, s.len() as int) >= 0
}

/// The capture after `clang version `, before the display split.
pub open spec fn clang_tail_of(s: Seq<char>) -> Seq<char> {
    let q = clang_anchor_upto(s, s.len() as int);
    s.subrange(q + "clang version "@.len(), s.len() as int)
}

/// The tail `t` splits into a version and a parenthesized display at `p`.
pub open spec fn clang_display_split(t: Seq<char>, p: int) -> bool {
    &&& match_at(t, " ("@, p)
    &&& p >= 1
    &&& t.len() >= 1 && t[t.len() - 1] == ')'
    &&& p + 2 <= t.len() - 1
}

/// The last display split position of the tail, or `-1`.
pub open spec fn clang_split_upto(t: Seq<char>, m: int) -> int
    decreases m,
{
    if m <= 0 {
        -1
    } else if clang_display_split(t, m - 1) {
        m - 1
    } else {
        clang_split_upto(t, m - 1)
    }
}

/// The version captured from a Clang-shaped line.
pub open spec fn clang_version_of(s: Seq<char>) -> Seq<char> {
    let t = clang_tail_of(s);
    let p = clang_split_upto(t, t.len() as int);
    if p >= 0 {
        t.subrange(0, p)
    } else {
        t
    }
}

/// The display string captured from a Clang-shaped line; empty when the
/// trailing parenthesized group is absent.
pub open spec fn clang_display_of(s: Seq<char>) -> Seq<char> {
    let t = clang_tail_of(s);
    let p = clang_split_upto(t, t.len() as int);
    if p >= 0 {
        t.subrange(p + 2, t.len() - 1)
    } else {
        Seq::empty()
    }
}

proof fn lemma_clang_anchor_upto(s: Seq<char>, m: int)
    ensures
        clang_anchor_upto(s, m) == -1 ==> forall|q: int| q < m ==> !clang_anchor_at(s, q),
        clang_anchor_upto(s, m) != -1 ==> {
            let r = clang_anchor_upto(s, m);
            &&& 0 <= r < m
            &&& clang_anchor_at(s, r)
            &&& forall|q: int| r < q < m ==> !clang_anchor_at(s, q)
        },
    decreases m,
{
    if m > 0 && !clang_anchor_at(s, m - 1) {
        lemma_clang_anchor_upto(s, m - 1);
    }
    if m > 0 {
        assert forall|q: int| q < 0 implies !clang_anchor_at(s, q) by {}
    }
}

proof fn lemma_clang_split_upto(t: Seq<char>, m: int)
    ensures
        clang_split_upto(t, m) == -1 ==> forall|p: int| p < m ==> !clang_display_split(t, p),
        clang_split_upto(t, m) != -1 ==> {
            let r = clang_split_upto(t, m);
            &&& 0 <= r < m
            &&& clang_display_split(t, r)
            &&& forall|p: int| r < p < m ==> !clang_display_split(t, p)
        },
    decreases m,
{
    if m > 0 && !clang_display_split(t, m - 1) {
        lemma_clang_split_upto(t, m - 1);
    }
}

/// The last anchor position in `s`, found by scanning from the right.
fn find_clang_anchor(cs: &Vec<char>) -> (r: Option<usize>)
    ensures
        match r {
            Some(q) => q as int == clang_anchor_upto(cs@, cs@.len() as int),
            None => clang_anchor_upto(cs@, cs@.len() as int) == -1,
        },
{
    let lit = to_chars("clang version ");
    let mut m: usize = cs.len();
    while m > 0
        invariant
            m <= cs@.len(),
            lit@ == "clang version "@,
            clang_anchor_upto(cs@, cs@.len() as int) == clang_anchor_upto(cs@, m as int),
        decreases m,
    {
        m = m - 1;
        let anchored = check_match_at(cs, &lit, m) && (m == 0 || cs[m - 1] == ' ') && cs.len() - m
            > 14;
        proof {
            reveal_strlit("clang version ");
            assert("clang version "@.len() == 14);
        }
        if anchored {
            assert(clang_anchor_at(cs@, m as int));
            assert(clang_anchor_upto(cs@, m + 1) == m as int);
            return Some(m);
        } else {
            assert(!clang_anchor_at(cs@, m as int));
            assert(clang_anchor_upto(cs@, m + 1) == clang_anchor_upto(cs@, m as int));
        }
    }
    None
}

/// Parses the first line of `clang --version` output.
pub fn clang(version_text: &str) -> (r: Result<(String, String), ParseError>)
    ensures
        r is Ok <==> clang_matches(version_text@),
        match r {
            Ok((version, display)) => version@ == clang_version_of(version_text@) && display@
                == clang_display_of(version_text@),
            Err(e) => e is ClangVersion,
        },
{
    let cs = to_chars(version_text);
    let q = match find_clang_anchor(&cs) {
        None => {
            return Err(ParseError::ClangVersion);
        },
        Some(q) => q,
    };
    proof {
        lemma_clang_anchor_upto(cs@, cs@.len() as int);
        reveal_strlit("clang version ");
        assert("clang version "@.len() == 14);
    }
    let n: usize = cs.len();
    assert(q as int + 14 <= n as int);
    let t = sub_vec(&cs, q + 14, n);
    assert(t@ == clang_tail_of(cs@));
    // Look for a trailing ` (<display>)` group.
    let pat = to_chars(" (");
    let mut m: usize = t.len();
    while m > 0
        invariant
            m <= t@.len(),
            pat@ == " ("@,
            clang_split_upto(t@, t@.len() as int) == clang_split_upto(t@, m as int),
        decreases m,
    {
        m = m - 1;
        let is_split = check_match_at(&t, &pat, m) && m >= 1 && t.len() >= 1 && t[t.len() - 1]
            == ')' && t.len() - m >= 3;
        proof {
            reveal_strlit(" (");
            assert(" ("@.len() == 2);
        }
        if is_split {
            assert(clang_display_split(t@, m as int));
            assert(clang_split_upto(t@, m + 1) == m as int);
            let version = sub_vec(&t, 0, m);
            let display = sub_vec(&t, m + 2, t.len() - 1);
            return Ok((from_chars(&version), from_chars(&display)));
        } else {
            assert(!clang_display_split(t@, m as int));
            assert(clang_split_upto(t@, m + 1) == clang_split_upto(t@, m as int));
        }
    }
    proof {
        lemma_clang_split_upto(t@, t@.len() as int);
    }
    Ok((from_chars(&t), String::new()))
}

} // verus!
