//! Turning a version probe's output into a compiler record.
//!
//! Running the candidate binary is the caller's part; this module decides,
//! from the probe's outcome alone, whether a record is owed and which.

use vstd::prelude::*;

use super::{parse_ok, parsed_display, parsed_version, Compiler, CompilerSetup};
use crate::strutil::{find_char, first_char_idx, from_chars, lemma_first_char_idx, sub_vec,
    to_chars};

verus! {

/// The first line of `s`: what precedes the first line feed, with a
/// trailing carriage return removed.
pub open spec fn first_line_of(s: Seq<char>) -> Seq<char> {
    let i = first_char_idx(s, '\n');
    let pre = if 0 <= i < s.len() {
        s.subrange(0, i)
    } else {
        s
    };
    if pre.len() > 0 && pre[pre.len() - 1] == '\r' {
        pre.drop_last()
    } else {
        pre
    }
}

/// Extracts the first line of a probe's output.
pub fn first_line(s: &str) -> (r: String)
    ensures
        r@ == first_line_of(s@),
{
    let cs = to_chars(s);
    proof {
        lemma_first_char_idx(cs@, '\n');
    }
    let pre = match find_char(&cs, '\n') {
        Some(i) => sub_vec(&cs, 0, i),
        None => sub_vec(&cs, 0, cs.len()),
    };
    assert(pre@ == if 0 <= first_char_idx(s@, '\n') < s@.len() {
        s@.subrange(0, first_char_idx(s@, '\n'))
    } else {
        s@
    });
    let line = if pre.len() > 0 && pre[pre.len() - 1] == '\r' {
        sub_vec(&pre, 0, pre.len() - 1)
    } else {
        sub_vec(&pre, 0, pre.len())
    };
    proof {
        if pre@.len() > 0 && pre@[pre@.len() - 1] == '\r' {
            assert(line@ =~= pre@.drop_last());
        } else {
            assert(line@ =~= pre@);
        }
    }
    from_chars(&line)
}

/// Decides what a version probe showed. `output` is the probe's standard
/// output, or nothing where the binary was missing or did not run; an
/// absent or empty output, like an unparseable first line, yields no
/// record — never an error.
pub fn test_compiler(setup: &CompilerSetup, path: &str, output: Option<&String>) -> (r: Option<
    Compiler,
>)
    ensures
        match output {
            None => r is None,
            Some(o) => {
                &&& r is Some <==> o@.len() > 0 && parse_ok(setup.ty, first_line_of(o@))
                &&& r matches Some(c) ==> c.setup == setup.id && c.path@ == path@ && c.version@
                    == parsed_version(setup.ty, first_line_of(o@)) && c.package_string@
                    == parsed_display(setup.ty, first_line_of(o@))
            },
        },
{
    match output {
        None => None,
        Some(o) => {
            if o.as_str().unicode_len() == 0 {
                return None;
            }
            let line = first_line(o.as_str());
            Compiler::new(setup, path, line.as_str())
        },
    }
}

} // verus!
