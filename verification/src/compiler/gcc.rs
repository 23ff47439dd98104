//! Path rules and verification for the system GCC backend.
//!
//! A GCC install exposes a C and a C++ driver that differ only by a name
//! substitution (`gcc` against `g++`) in the binary's base name.

use vstd::prelude::*;

use super::common::{first_line_of, test_compiler};
use super::{parse_ok, parsed_version, Compiler, CompilerSetup};
use crate::strutil::{find_last, from_chars, last_match_idx, lemma_last_match_idx, match_at,
    replace_all, replace_spec, sub_vec, to_chars};

verus! {

/// The position right after the last path separator of `p`, or `0`.
pub open spec fn basename_start(p: Seq<char>) -> int {
    let s = last_match_idx(p, "/"@);
    if s >= 0 {
        s + 1
    } else {
        0
    }
}

/// `p` with its base name's occurrences of `from` replaced by `to`.
pub open spec fn basename_replaced(p: Seq<char>, from: Seq<char>, to: Seq<char>) -> Seq<char> {
    let b = basename_start(p);
    p.subrange(0, b) + replace_spec(p.subrange(b, p.len() as int), from, to)
}

/// Replaces `from` by `to` within the base name of `p`, keeping the
/// folder part.
pub fn replace_basename(p: &str, from: &str, to: &str) -> (r: String)
    requires
        from@.len() > 0,
    ensures
        r@ == basename_replaced(p@, from@, to@),
{
    let cs = to_chars(p);
    let sep = to_chars("/");
    proof {
        reveal_strlit("/");
        assert("/"@.len() == 1);
        lemma_last_match_idx(cs@, "/"@);
    }
    let n: usize = cs.len();
    let b: usize = match find_last(&cs, &sep) {
        Some(s) => {
            proof {
                let lm = last_match_idx(cs@, "/"@);
                if lm == -1 {
                    assert(!match_at(cs@, "/"@, s as int));
                } else if lm < s {
                    assert(!match_at(cs@, "/"@, s as int));
                } else if lm > s {
                    assert(!match_at(cs@, "/"@, lm));
                }
            }
            assert(s as int + 1 <= n as int);
            s + 1
        },
        None => {
            proof {
                if last_match_idx(cs@, "/"@) >= 0 {
                    assert(match_at(cs@, "/"@, last_match_idx(cs@, "/"@)));
                }
            }
            0
        },
    };
    let dir = sub_vec(&cs, 0, b);
    let base = sub_vec(&cs, b, cs.len());
    let fromv = to_chars(from);
    let tov = to_chars(to);
    let replaced = replace_all(&base, &fromv, &tov);
    let mut out = dir;
    let mut rep = replaced;
    out.append(&mut rep);
    let r = from_chars(&out);
    assert(r@ =~= basename_replaced(p@, from@, to@));
    r
}

/// The driver a GCC path resolves to for each language: a name
/// substitution within the base name.
pub open spec fn gcc_exe_spec(p: Seq<char>, is_c: bool) -> Seq<char> {
    if is_c {
        basename_replaced(p, "g++"@, "gcc"@)
    } else {
        basename_replaced(p, "gcc"@, "g++"@)
    }
}

/// The driver for the requested language, derived from a verified `g++`
/// or `gcc` path by name substitution within the base name.
pub fn path_to_exe(path: &str, is_c: bool) -> (r: String)
    ensures
        r@ == gcc_exe_spec(path@, is_c),
{
    proof {
        reveal_strlit("g++");
        reveal_strlit("gcc");
    }
    if is_c {
        replace_basename(path, "g++", "gcc")
    } else {
        replace_basename(path, "gcc", "g++")
    }
}

/// Verifies a user-supplied GCC path. The caller resolves the path on the
/// search path and probes the binary; `resolved` is the resolution's
/// outcome and `output` what the binary printed. A missing resolution and
/// an unparseable probe each carry their own message.
pub fn verify(setup: &CompilerSetup, resolved: Option<&String>, output: Option<&String>) -> (r:
    Result<Compiler, &'static str>)
    ensures
        resolved is None ==> (r matches Err(e) && e@ == "the file was not found"@),
        resolved matches Some(p) ==> {
            let ok = match output {
                Some(o) => o@.len() > 0 && parse_ok(setup.ty, first_line_of(o@)),
                None => false,
            };
            &&& r is Ok <==> ok
            &&& r matches Ok(c) ==> c.setup == setup.id && c.path@ == p@ && c.version@
                == parsed_version(setup.ty, first_line_of(output->0@))
            &&& r matches Err(e) ==> e@ == "the compiler version could not be parsed"@
        },
{
    let path = match resolved {
        None => {
            return Err("the file was not found");
        },
        Some(p) => p,
    };
    match test_compiler(setup, path.as_str(), output) {
        Some(c) => Ok(c),
        None => Err("the compiler version could not be parsed"),
    }
}

} // verus!
