//! The test ("hello world") source file: choosing a free file name and
//! generating the file's text.

use vstd::prelude::*;

use crate::compiler::Id;
use crate::strutil::{
    contains_string, digits_spec, join_char_spec, join_strings, push_u64, str_views,
};
use crate::version::{is_digit, lemma_digits_roundtrip, lemma_digits_spec_digits};
use crate::Os;

verus! {

broadcast use vstd::utf8::char_is_scalar, vstd::utf8::char_u32_cast;

/// The `k`-th candidate name for the test file: `helloworld.<ext>`, then
/// `helloworld(1).<ext>`, `helloworld(2).<ext>`, and so on.
pub open spec fn candidate_name(ext: Seq<char>, k: nat) -> Seq<char> {
    if k == 0 {
        "helloworld."@ + ext
    } else {
        "helloworld("@ + digits_spec(k) + ")."@ + ext
    }
}

/// `k` is the least candidate index whose name is not yet taken.
pub open spec fn is_least_free(names: Seq<Seq<char>>, ext: Seq<char>, k: nat) -> bool {
    &&& !names.contains(candidate_name(ext, k))
    &&& forall|j: nat| j < k ==> names.contains(#[trigger] candidate_name(ext, j))
}

/// Distinct candidate indices name distinct files.
proof fn lemma_candidate_injective(ext: Seq<char>, i: nat, j: nat)
    requires
        i != j,
    ensures
        candidate_name(ext, i) != candidate_name(ext, j),
{
    reveal_strlit("helloworld.");
    reveal_strlit("helloworld(");
    reveal_strlit(").");
    let a = candidate_name(ext, i);
    let b = candidate_name(ext, j);
    if i == 0 || j == 0 {
        // One name has `.` after the shared stem, the other `(`.
        let z = if i == 0 {
            a
        } else {
            b
        };
        let nz = if i == 0 {
            b
        } else {
            a
        };
        let nzk = if i == 0 {
            j
        } else {
            i
        };
        lemma_digits_spec_digits(nzk);
        assert(z[10] == '.');
        assert(nz[10] == '(');
        assert(z != nz) by {
            if z == nz {
                assert(z[10] == nz[10]);
            }
        }
    } else {
        lemma_digits_spec_digits(i);
        lemma_digits_spec_digits(j);
        let di = digits_spec(i);
        let dj = digits_spec(j);
        if a == b {
            // The digit runs must then agree, character by character.
            if di.len() == dj.len() {
                assert forall|t: int| 0 <= t < di.len() implies di[t] == dj[t] by {
                    assert(a[11 + t] == di[t]);
                    assert(b[11 + t] == dj[t]);
                }
                assert(di =~= dj);
                lemma_digits_roundtrip(i);
                lemma_digits_roundtrip(j);
                assert(false);
            } else {
                // The shorter run is followed by `)`, where the longer
                // still has a digit.
                let (s, l) = if di.len() < dj.len() {
                    (di, dj)
                } else {
                    (dj, di)
                };
                assert(a.len() == b.len());
                assert(a[11 + s.len() as int] == b[11 + s.len() as int]);
                if di.len() < dj.len() {
                    assert(a[11 + s.len() as int] == ')');
                    assert(b[11 + s.len() as int] == dj[s.len() as int]);
                    assert(is_digit(dj[s.len() as int]));
                    assert((')' as u32) == 41);
                    assert(false);
                } else {
                    assert(b[11 + s.len() as int] == ')');
                    assert(a[11 + s.len() as int] == di[s.len() as int]);
                    assert(is_digit(di[s.len() as int]));
                    assert((')' as u32) == 41);
                    assert(false);
                }
            }
        }
    }
}

/// The candidate names taken from indices below `m`.
spec fn candidate_set(ext: Seq<char>, m: nat) -> Set<Seq<char>> {
    Set::new(|x: Seq<char>| exists|j: nat| j < m && x == candidate_name(ext, j))
}

proof fn lemma_candidate_set_len(ext: Seq<char>, m: nat)
    ensures
        candidate_set(ext, m).finite(),
        candidate_set(ext, m).len() == m,
    decreases m,
{
    if m == 0 {
        assert(candidate_set(ext, 0) =~= Set::<Seq<char>>::empty());
    } else {
        lemma_candidate_set_len(ext, (m - 1) as nat);
        assert forall|i: nat, j: nat| i != j implies candidate_name(ext, i) != candidate_name(
            ext,
            j,
        ) by {
            lemma_candidate_injective(ext, i, j);
        }
        assert(!candidate_set(ext, (m - 1) as nat).contains(candidate_name(ext, (m - 1) as nat)));
        assert(candidate_set(ext, m) =~= candidate_set(ext, (m - 1) as nat).insert(
            candidate_name(ext, (m - 1) as nat),
        ));
    }
}

/// If the first `m` candidates are all taken, the folder holds at least
/// `m` names.
proof fn lemma_taken_bound(names: Seq<Seq<char>>, ext: Seq<char>, m: nat)
    requires
        forall|j: nat| j < m ==> names.contains(#[trigger] candidate_name(ext, j)),
    ensures
        m <= names.len(),
{
    lemma_candidate_set_len(ext, m);
    assert(candidate_set(ext, m) <= names.to_set()) by {
        assert forall|x: Seq<char>| candidate_set(ext, m).contains(x) implies names.to_set()
            .contains(x) by {
            assert(names.contains(x));
        }
    }
    seq_to_set_is_finite_len(names);
    vstd::set_lib::lemma_len_subset(candidate_set(ext, m), names.to_set());
}

/// A sequence's set of values is finite and no larger than the
/// sequence.
proof fn seq_to_set_is_finite_len<A>(s: Seq<A>)
    ensures
        s.to_set().finite(),
        s.to_set().len() <= s.len(),
    decreases s.len(),
{
    if s.len() == 0 {
        assert(s.to_set() =~= Set::<A>::empty());
    } else {
        seq_to_set_is_finite_len(s.drop_last());
        assert forall|x: A| s.to_set().contains(x) implies s.drop_last().to_set().insert(
            s.last(),
        ).contains(x) by {
            let i = choose|i: int| 0 <= i < s.len() && s[i] == x;
            if i < s.len() - 1 {
                assert(s.drop_last()[i] == x);
                assert(s.drop_last().to_set().contains(x));
            }
        }
        assert forall|x: A| s.drop_last().to_set().insert(s.last()).contains(x) implies s.to_set()
            .contains(x) by {
            if s.drop_last().to_set().contains(x) {
                let i = choose|i: int| 0 <= i < s.drop_last().len() && s.drop_last()[i] == x;
                assert(s[i] == x);
            } else {
                assert(s[s.len() - 1] == x);
            }
        }
        assert(s.to_set() =~= s.drop_last().to_set().insert(s.last()));
    }
}

/// The `k`-th candidate file name.
fn candidate(ext: &str, k: u64) -> (r: String)
    ensures
        r@ == candidate_name(ext@, k as nat),
{
    if k == 0 {
        let mut s = String::from_str("helloworld.");
        s.append(ext);
        assert(s@ =~= candidate_name(ext@, 0));
        s
    } else {
        let mut s = String::from_str("helloworld(");
        push_u64(&mut s, k);
        s.append(").");
        s.append(ext);
        assert(s@ =~= candidate_name(ext@, k as nat));
        s
    }
}

/// The first candidate name not yet present among `existing`. The search
/// terminates because each taken candidate names a distinct entry of
/// `existing`, so the least free index is at most `existing.len()`.
pub fn filepath(ext: &str, existing: &Vec<String>) -> (r: String)
    ensures
        exists|k: nat|
            is_least_free(str_views(existing@), ext@, k) && r@ == candidate_name(ext@, k),
{
    let ghost names = str_views(existing@);
    let el: usize = existing.len();
    proof {
        assert(names.len() == el as nat);
    }
    let mut k: u64 = 0;
    loop
        invariant
            names.len() == el as nat,
            forall|j: nat| j < k as nat ==> names.contains(#[trigger] candidate_name(ext@, j)),
            k as nat <= names.len(),
        decreases names.len() - k as nat,
    {
        let name = candidate(ext, k);
        if !contains_string(existing, name.as_str()) {
            assert(is_least_free(names, ext@, k as nat));
            return name;
        }
        proof {
            assert forall|j: nat| j < (k + 1) as nat implies names.contains(
                #[trigger] candidate_name(ext@, j),
            ) by {
                if j < k as nat {
                } else {
                    assert(candidate_name(ext@, k as nat) == name@);
                }
            }
            lemma_taken_bound(names, ext@, (k + 1) as nat);
        }
        k = k + 1;
    }
}

/// The first candidate name, `helloworld.<ext>`.
pub fn candidate_first(ext: &str) -> (r: String)
    ensures
        r@ == candidate_name(ext@, 0),
{
    let mut s = String::from_str("helloworld.");
    s.append(ext);
    assert(s@ =~= candidate_name(ext@, 0));
    s
}

/// A comment in the C style.
pub open spec fn c_comment_spec(s: Seq<char>) -> Seq<char> {
    "/* "@ + s + " */"@
}

/// A comment in the C++ style.
pub open spec fn cpp_comment_spec(s: Seq<char>) -> Seq<char> {
    "// "@ + s
}

/// Wraps `s` in a C comment.
pub fn c_comment(s: &str) -> (r: String)
    ensures
        r@ == c_comment_spec(s@),
{
    let mut out = String::from_str("/* ");
    out.append(s);
    out.append(" */");
    out
}

/// Prefixes `s` with a C++ line comment.
pub fn cpp_comment(s: &str) -> (r: String)
    ensures
        r@ == cpp_comment_spec(s@),
{
    let mut out = String::from_str("// ");
    out.append(s);
    out
}

/// A comment in the target language's style.
pub open spec fn comment_spec(is_c: bool, s: Seq<char>) -> Seq<char> {
    if is_c {
        c_comment_spec(s)
    } else {
        cpp_comment_spec(s)
    }
}

fn comment(is_c: bool, s: &str) -> (r: String)
    ensures
        r@ == comment_spec(is_c, s@),
{
    if is_c {
        c_comment(s)
    } else {
        cpp_comment(s)
    }
}

/// The hello-world body for the target language.
pub open spec fn hello_body_spec(is_c: bool) -> Seq<char> {
    if is_c {
        "\n#include <stdio.h>\n#include <stdlib.h>\n\nint main(void) {\n    printf(\"Hello, world!\\n\");\n    return EXIT_SUCCESS;\n}\n"@
    } else {
        "\n#include <iostream>\n\nint main() {\n    std::cout << \"Hello, world!\" << std::endl;\n}\n"@
    }
}

/// The key caption for the build-and-run action.
pub open spec fn run_key_spec(os: Os, compatible_mode: bool) -> Seq<char> {
    if compatible_mode {
        if os is MacOs {
            "Ctrl F5"@
        } else {
            "Ctrl + F5"@
        }
    } else {
        "F6"@
    }
}

/// The lines of the generated test file, in order.
pub open spec fn test_file_lines(os: Os, is_c: bool, compatible_mode: bool, warn_mingw: bool)
    -> Seq<Seq<char>> {
    let run_key = run_key_spec(os, compatible_mode);
    let build_key: Seq<char> = if os is MacOs {
        "Cmd Shift B"@
    } else {
        "Ctrl + Shift + B"@
    };
    seq![
        comment_spec(is_c, "VS Code C/C++ test file \"Hello World\""@),
        comment_spec(is_c, "generated by the configuration wizard"@),
        ""@,
        comment_spec(
            is_c,
            "You can write code in new source files in this (working) folder."@,
        ),
        ""@,
        comment_spec(is_c, "Press "@ + run_key + " to build and run."@),
        comment_spec(is_c, "Press F5 to build and debug."@),
        comment_spec(is_c, "Press "@ + build_key + " to build."@),
        hello_body_spec(is_c),
        comment_spec(is_c, "Building and running this file prints \"Hello, world!\"."@),
        comment_spec(
            is_c,
            "Press "@ + run_key + " and watch the terminal window for that line."@,
        ),
        comment_spec(
            is_c,
            if warn_mingw {
                "Note: before writing code, make sure the file name has no non-ASCII characters."@
            } else {
                ""@
            },
        ),
        comment_spec(is_c, "If a problem comes up, contact the developer."@),
    ]
}

/// The full text of the generated test file.
pub open spec fn test_file_content(os: Os, is_c: bool, compatible_mode: bool, warn_mingw: bool)
    -> Seq<char> {
    join_char_spec(test_file_lines(os, is_c, compatible_mode, warn_mingw), '\n')
}

/// Generates the test file's text. The name warning is included for the
/// MinGW GCC family, whose builds reject non-ASCII file names.
pub fn generate(os: Os, is_c: bool, compatible_mode: bool, setup: Id) -> (r: String)
    ensures
        r@ == test_file_content(os, is_c, compatible_mode, setup == Id::MinGW),
{
    let run_key: &'static str = if compatible_mode {
        if matches!(os, Os::MacOs) {
            "Ctrl F5"
        } else {
            "Ctrl + F5"
        }
    } else {
        "F6"
    };
    let build_key: &'static str = if matches!(os, Os::MacOs) {
        "Cmd Shift B"
    } else {
        "Ctrl + Shift + B"
    };
    let warn_mingw = matches!(setup, Id::MinGW);
    let mut lines: Vec<String> = Vec::new();
    lines.push(comment(is_c, "VS Code C/C++ test file \"Hello World\""));
    lines.push(comment(is_c, "generated by the configuration wizard"));
    lines.push(String::new());
    lines.push(comment(is_c, "You can write code in new source files in this (working) folder."));
    lines.push(String::new());
    let mut l6 = String::from_str("Press ");
    l6.append(run_key);
    l6.append(" to build and run.");
    lines.push(comment(is_c, l6.as_str()));
    lines.push(comment(is_c, "Press F5 to build and debug."));
    let mut l8 = String::from_str("Press ");
    l8.append(build_key);
    l8.append(" to build.");
    lines.push(comment(is_c, l8.as_str()));
    if is_c {
        lines.push(
            String::from_str(
                "\n#include <stdio.h>\n#include <stdlib.h>\n\nint main(void) {\n    printf(\"Hello, world!\\n\");\n    return EXIT_SUCCESS;\n}\n",
            ),
        );
    } else {
        lines.push(
            String::from_str(
                "\n#include <iostream>\n\nint main() {\n    std::cout << \"Hello, world!\" << std::endl;\n}\n",
            ),
        );
    }
    lines.push(comment(is_c, "Building and running this file prints \"Hello, world!\"."));
    let mut l11 = String::from_str("Press ");
    l11.append(run_key);
    l11.append(" and watch the terminal window for that line.");
    lines.push(comment(is_c, l11.as_str()));
    if warn_mingw {
        lines.push(
            comment(
                is_c,
                "Note: before writing code, make sure the file name has no non-ASCII characters.",
            ),
        );
    } else {
        lines.push(comment(is_c, ""));
    }
    lines.push(comment(is_c, "If a problem comes up, contact the developer."));
    let r = join_strings(&lines, '\n');
    proof {
        reveal_strlit("");
        assert(str_views(lines@) =~~= test_file_lines(os, is_c, compatible_mode, warn_mingw));
    }
    r
}

} // verus!
