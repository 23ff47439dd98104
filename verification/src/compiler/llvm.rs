//! Path rules and verification for the system Clang backend.
//!
//! The C driver is `clang` and the C++ driver `clang++`; a path already
//! naming `clang++` is kept as it is when the C++ driver is wanted, so
//! that the substitution never stutters.

use vstd::prelude::*;

use super::common::{first_line_of, test_compiler};
use super::gcc::{basename_replaced, basename_start, replace_basename};
use super::{parse_ok, parsed_version, Compiler, CompilerSetup};
use crate::strutil::{check_contains, contains_seq, sub_vec, to_chars};

verus! {

/// The driver a Clang path resolves to for each language.
pub open spec fn llvm_exe_spec(p: Seq<char>, is_c: bool) -> Seq<char> {
    if is_c {
        basename_replaced(p, "clang++"@, "clang"@)
    } else if contains_seq(p.subrange(basename_start(p), p.len() as int), "clang++"@) {
        p
    } else {
        basename_replaced(p, "clang"@, "clang++"@)
    }
}

/// The driver for the requested language, derived from a verified `clang`
/// or `clang++` path by name substitution within the base name.
pub fn path_to_exe(path: &str, is_c: bool) -> (r: String)
    ensures
        r@ == llvm_exe_spec(path@, is_c),
{
    proof {
        reveal_strlit("clang");
        reveal_strlit("clang++");
    }
    if is_c {
        replace_basename(path, "clang++", "clang")
    } else {
        let cs = to_chars(path);
        let pat = to_chars("clang++");
        // Determine whether the base name already holds `clang++`.
        let b = base_start(path);
        let base = sub_vec(&cs, b, cs.len());
        if check_contains(&base, &pat) {
            String::from_str(path)
        } else {
            replace_basename(path, "clang", "clang++")
        }
    }
}

/// The index where the base name of `path` begins.
fn base_start(path: &str) -> (b: usize)
    ensures
        b as int == basename_start(path@),
        b <= path@.len(),
{
    let cs = to_chars(path);
    let sep = to_chars("/");
    proof {
        reveal_strlit("/");
        assert("/"@.len() == 1);
        crate::strutil::lemma_last_match_idx(cs@, "/"@);
    }
    let n: usize = cs.len();
    match crate::strutil::find_last(&cs, &sep) {
        Some(s) => {
            proof {
                let lm = crate::strutil::last_match_idx(cs@, "/"@);
                if lm == -1 {
                    assert(!crate::strutil::match_at(cs@, "/"@, s as int));
                } else if lm < s {
                    assert(!crate::strutil::match_at(cs@, "/"@, s as int));
                } else if lm > s {
                    assert(!crate::strutil::match_at(cs@, "/"@, lm));
                }
            }
            assert(s as int + 1 <= n as int);
            s + 1
        },
        None => {
            proof {
                if crate::strutil::last_match_idx(cs@, "/"@) >= 0 {
                    assert(crate::strutil::match_at(
                        cs@,
                        "/"@,
                        crate::strutil::last_match_idx(cs@, "/"@),
                    ));
                }
            }
            0
        },
    }
}

/// Verifies a user-supplied Clang path, from the search-path resolution
/// and the probe's output, as the GCC backend does.
pub fn verify(setup: &CompilerSetup, resolved: Option<&String>, output: Option<&String>) -> (r:
    Result<Compiler, &'static str>)
    ensures
        resolved is None ==> (r matches Err(e) && e@ == "the file was not found"@),
        resolved matches Some(p) ==> {
            let ok = match output {
                Some(o) => o@.len() > 0 && parse_ok(setup.ty, first_line_of(o@)),
                None => false,
            };
            &&& r is Ok <==> ok
            &&& r matches Ok(c) ==> c.setup == setup.id && c.path@ == p@ && c.version@
                == parsed_version(setup.ty, first_line_of(output->0@))
            &&& r matches Err(e) ==> e@ == "the compiler version could not be parsed"@
        },
{
    let path = match resolved {
        None => {
            return Err("the file was not found");
        },
        Some(p) => p,
    };
    match test_compiler(setup, path.as_str(), output) {
        Some(c) => Ok(c),
        None => Err("the compiler version could not be parsed"),
    }
}

} // verus!
