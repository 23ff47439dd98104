//! Workspace path rules.

use vstd::prelude::*;

use crate::strutil::{all_ascii, check_all_ascii, contains_string, str_views, to_chars};
use crate::Os;

verus! {

/// Whether a workspace path is usable. On Windows the path must be plain
/// ASCII, since it is passed through shell quoting in generated
/// configuration; elsewhere every path is accepted.
pub fn path_available(os: Os, path: &str) -> (r: Result<(), &'static str>)
    ensures
        ({
            let bad = os is Windows && !all_ascii(path@);
            &&& r is Err <==> bad
            &&& r matches Err(e) ==> e@
                == "the path must be ASCII, without non-Latin or special characters"@
        }),
{
    match os {
        Os::Windows => {
            let cs = to_chars(path);
            if check_all_ascii(&cs) {
                Ok(())
            } else {
                Err("the path must be ASCII, without non-Latin or special characters")
            }
        },
        _ => Ok(()),
    }
}

/// Whether a workspace already holds editor configuration, from the
/// folder's entries the caller listed.
pub fn has_config(entries: &Vec<String>) -> (r: bool)
    ensures
        r == str_views(entries@).contains(".vscode"@),
{
    contains_string(entries, ".vscode")
}

/// The editor configuration folder under a workspace: where earlier
/// configuration would live. Whether it is present on disk is the
/// caller's probe.
pub fn config_folder(path: &str) -> (r: String)
    ensures
        r@ == path@ + "/.vscode"@,
{
    let mut s = String::from_str(path);
    s.append("/.vscode");
    s
}

} // verus!
