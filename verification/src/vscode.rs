//! Editor installation rules: reading the install location out of the
//! registry's open command, adjusting an install path to the CLI
//! launcher, and verifying a user-supplied path.

use vstd::prelude::*;

use crate::strutil::{
    ends_with_seq, check_ends_with, from_chars, parent_dir, parent_of, split_by_char,
    split_char_spec, to_chars,
};
use crate::Os;

verus! {

/// Reads the editor binary out of a registry open-command value, e.g.
/// `"C:\...\Code.exe" --open-url -- "%1"`: the text between the first
/// pair of double quotes.
pub fn scan(cmd: &str) -> (r: Option<String>)
    ensures
        ({
            let parts = split_char_spec(cmd@, '"');
            &&& r is Some <==> parts.len() >= 3
            &&& r matches Some(p) ==> p@ == parts[1]
        }),
{
    let cs = to_chars(cmd);
    let parts = split_by_char(&cs, '"');
    if parts.len() >= 3 {
        let p = from_chars(&parts[1]);
        assert(p@ == crate::strutil::char_views(parts@)[1]);
        Some(p)
    } else {
        None
    }
}

/// The CLI launcher an editor install path adjusts to: on Windows the
/// `bin` launcher beside the binary; on macOS the launcher inside an
/// `.app` bundle; elsewhere the path itself.
pub open spec fn adjusted_path_spec(os: Os, p: Seq<char>) -> Seq<char> {
    match os {
        Os::Windows => parent_of(p) + "\\bin\\code.cmd"@,
        Os::MacOs => if ends_with_seq(p, ".app"@) {
            p + "/Contents/Resources/app/bin/code"@
        } else {
            p
        },
        Os::Linux => p,
    }
}

/// Adjusts an editor install path to its CLI launcher.
pub fn adjust_path(os: Os, path: &str) -> (r: String)
    ensures
        r@ == adjusted_path_spec(os, path@),
{
    match os {
        Os::Windows => {
            let mut s = parent_dir(path);
            s.append("\\bin\\code.cmd");
            s
        },
        Os::MacOs => {
            let cs = to_chars(path);
            let app = to_chars(".app");
            if check_ends_with(&cs, &app) {
                let mut s = String::from_str(path);
                s.append("/Contents/Resources/app/bin/code");
                s
            } else {
                String::from_str(path)
            }
        },
        Os::Linux => String::from_str(path),
    }
}

/// Verifies a user-supplied editor path. The caller probes the
/// filesystem: whether the path exists, and whether the adjusted
/// launcher path is a file. Each failed check carries its own message.
pub fn verify(os: Os, path: &str, path_exists: bool, adjusted_is_file: bool) -> (r: Result<
    (),
    &'static str,
>)
    ensures
        !path_exists ==> (r matches Err(e) && e@ == "the path does not exist"@),
        path_exists && !adjusted_is_file && os is Windows ==> (r matches Err(e) && e@
            == "code.cmd was not found"@),
        path_exists && !adjusted_is_file && !(os is Windows) ==> (r matches Err(e) && e@
            == "the code launcher was not found"@),
        path_exists && adjusted_is_file ==> r is Ok,
{
    let _ = path;
    if !path_exists {
        return Err("the path does not exist");
    }
    if adjusted_is_file {
        Ok(())
    } else {
        match os {
            Os::Windows => Err("code.cmd was not found"),
            _ => Err("the code launcher was not found"),
        }
    }
}

} // verus!
