//! Path rules and verification for the MinGW toolchain variants.
//!
//! A MinGW root holds its binaries under `<root>\bin`; a user may hand over
//! either the root or the `bin` folder itself. Filesystem probes (does the
//! folder exist, what did the binary print) are the caller's part; the
//! checks and the verdicts are decided here.

use vstd::prelude::*;

use super::common::{first_line_of, test_compiler};
use super::{parse_ok, parsed_display, parsed_version, Compiler, CompilerSetup};
use crate::strutil::{
    all_ascii, check_all_ascii, check_contains_char, check_ends_with, contains_char, ends_with_seq,
    from_chars, split_by_char, split_char_spec, str_equal, str_views, to_chars,
};

verus! {

/// The path's last component is `bin`.
pub open spec fn ends_in_bin(p: Seq<char>) -> bool {
    &&& ends_with_seq(p, "bin"@)
    &&& (p.len() == 3 || p[p.len() - 4] == '\\' || p[p.len() - 4] == '/')
}

/// The `bin` folder of a MinGW root: the path itself where it already ends
/// in a `bin` component, else the path with `\bin` appended.
pub open spec fn bin_dir_of(p: Seq<char>) -> Seq<char> {
    if ends_in_bin(p) {
        p
    } else {
        p + "\\bin"@
    }
}

/// The candidate `bin` folder for the root `path`. Whether that folder is
/// a directory is for the caller to probe.
pub fn check_bin(path: &str) -> (r: String)
    ensures
        r@ == bin_dir_of(path@),
{
    let cs = to_chars(path);
    let bin = to_chars("bin");
    proof {
        reveal_strlit("bin");
        assert("bin"@.len() == 3);
    }
    let ends = check_ends_with(&cs, &bin) && (cs.len() == 3 || cs[cs.len() - 4] == '\\' || cs[cs.len()
        - 4] == '/');
    if ends {
        from_chars(&cs)
    } else {
        let mut s = from_chars(&cs);
        s.append("\\bin");
        s
    }
}

/// Joins a folder and a file name with a backslash.
pub fn join(path: &str, name: &str) -> (r: String)
    ensures
        r@ == path@ + "\\"@ + name@,
{
    let mut s = String::from_str(path);
    s.append("\\");
    s.append(name);
    s
}

/// The C and C++ binaries of the MinGW GCC toolchain, under the root's
/// `bin` folder.
pub fn path_to_gcc(path: &str, is_c: bool) -> (r: String)
    ensures
        is_c ==> r@ == bin_dir_of(path@) + "\\"@ + "gcc.exe"@,
        !is_c ==> r@ == bin_dir_of(path@) + "\\"@ + "g++.exe"@,
{
    let bin = check_bin(path);
    if is_c {
        join(bin.as_str(), "gcc.exe")
    } else {
        join(bin.as_str(), "g++.exe")
    }
}

/// The C and C++ binaries of the LLVM MinGW toolchain, under the root's
/// `bin` folder.
pub fn path_to_clang(path: &str, is_c: bool) -> (r: String)
    ensures
        is_c ==> r@ == bin_dir_of(path@) + "\\"@ + "clang.exe"@,
        !is_c ==> r@ == bin_dir_of(path@) + "\\"@ + "clang++.exe"@,
{
    let bin = check_bin(path);
    if is_c {
        join(bin.as_str(), "clang.exe")
    } else {
        join(bin.as_str(), "clang++.exe")
    }
}

/// The distinct entries of the user and machine `Path` variables, joined
/// with `;` and split again, first occurrence kept, in order.
pub fn get_paths(user_path: &str, machine_path: &str) -> (r: Vec<String>)
    ensures
        ({
            let all = user_path@ + ";"@ + machine_path@;
            let parts = split_char_spec(all, ';');
            &&& forall|i: int|
                0 <= i < r@.len() ==> parts.contains(#[trigger] str_views(r@)[i])
            &&& forall|p: int|
                0 <= p < parts.len() ==> str_views(r@).contains(#[trigger] parts[p])
            &&& forall|i: int, j: int|
                0 <= i < j < r@.len() ==> str_views(r@)[i] != str_views(r@)[j]
        }),
{
    let mut all = String::from_str(user_path);
    all.append(";");
    all.append(machine_path);
    let cs = to_chars(all.as_str());
    let parts = split_by_char(&cs, ';');
    let ghost spec_parts = split_char_spec(user_path@ + ";"@ + machine_path@, ';');
    proof {
        assert(cs@ == user_path@ + ";"@ + machine_path@);
    }
    let mut r: Vec<String> = Vec::new();
    let mut i: usize = 0;
    while i < parts.len()
        invariant
            i <= parts@.len(),
            crate::strutil::char_views(parts@) == spec_parts,
            forall|a: int| 0 <= a < r@.len() ==> spec_parts.contains(#[trigger] str_views(r@)[a]),
            forall|p: int|
                0 <= p < i ==> str_views(r@).contains(#[trigger] spec_parts[p]),
            forall|a: int, b: int|
                0 <= a < b < r@.len() ==> str_views(r@)[a] != str_views(r@)[b],
        decreases parts@.len() - i,
    {
        let part = from_chars(&parts[i]);
        proof {
            assert(part@ == spec_parts[i as int]);
        }
        let mut seen = false;
        let mut k: usize = 0;
        while k < r.len()
            invariant
                k <= r@.len(),
                seen == exists|a: int| 0 <= a < k && str_views(r@)[a] == part@,
            decreases r@.len() - k,
        {
            if str_equal(r[k].as_str(), part.as_str()) {
                seen = true;
                proof {
                    assert(str_views(r@)[k as int] == part@);
                }
            }
            k = k + 1;
        }
        if !seen {
            let ghost old_r = r@;
            r.push(part);
            proof {
                assert(str_views(r@) =~= str_views(old_r).push(spec_parts[i as int]));
                assert(str_views(r@)[r@.len() - 1] == spec_parts[i as int]);
                assert forall|p: int| 0 <= p < i + 1 implies str_views(r@).contains(
                    #[trigger] spec_parts[p],
                ) by {
                    if p < i {
                        let a = choose|a: int|
                            0 <= a < str_views(old_r).len() && str_views(old_r)[a]
                                == spec_parts[p];
                        assert(str_views(r@)[a] == spec_parts[p]);
                    } else {
                        assert(str_views(r@)[r@.len() - 1] == spec_parts[p]);
                    }
                }
            }
        } else {
            proof {
                let a = choose|a: int| 0 <= a < r@.len() && str_views(r@)[a] == part@;
                assert(str_views(r@)[a] == spec_parts[i as int]);
            }
        }
        i = i + 1;
    }
    r
}

/// The outcome of the ordered MinGW checks, each failure with its own
/// message.
pub open spec fn verify_spec(
    path: Seq<char>,
    ty: super::CompilerType,
    path_exists: bool,
    bin_is_dir: bool,
    output: Option<Seq<char>>,
) -> Result<(), Seq<char>> {
    if contains_char(path, ';') {
        Err("the path must not contain a semicolon ';'"@)
    } else if !all_ascii(path) {
        Err("the path must be ASCII, without non-Latin or special characters"@)
    } else if !path_exists {
        Err("the path does not exist"@)
    } else if !bin_is_dir {
        Err("bin does not exist"@)
    } else if output is None || output->0.len() == 0 || !parse_ok(ty, first_line_of(output->0)) {
        Err("the executable is not a compiler"@)
    } else {
        Ok(())
    }
}

/// Verifies a user-supplied MinGW root. The caller probes the filesystem
/// and hands over: whether the path exists, whether its `bin` folder is a
/// directory, and what the candidate binary printed (or nothing where it
/// was missing or failed to run). Exactly the first failed check is
/// reported; a full pass yields the parsed record.
pub fn verify(
    setup: &CompilerSetup,
    path: &str,
    path_exists: bool,
    bin_is_dir: bool,
    output: Option<&String>,
) -> (r: Result<Compiler, &'static str>)
    ensures
        ({
            let v = verify_spec(
                path@,
                setup.ty,
                path_exists,
                bin_is_dir,
                match output {
                    Some(o) => Some(o@),
                    None => None,
                },
            );
            match r {
                Ok(c) => v is Ok && c.setup == setup.id && c.path@ == bin_dir_of(path@)
                    && c.version@ == parsed_version(setup.ty, first_line_of(output->0@)),
                Err(e) => v matches Err(m) && e@ == m,
            }
        }),
{
    let cs = to_chars(path);
    if check_contains_char(&cs, ';') {
        return Err("the path must not contain a semicolon ';'");
    }
    if !check_all_ascii(&cs) {
        return Err("the path must be ASCII, without non-Latin or special characters");
    }
    if !path_exists {
        return Err("the path does not exist");
    }
    if !bin_is_dir {
        return Err("bin does not exist");
    }
    let bin = check_bin(path);
    match test_compiler(setup, bin.as_str(), output) {
        Some(c) => Ok(c),
        None => Err("the executable is not a compiler"),
    }
}

} // verus!
