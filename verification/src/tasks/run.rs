//! The "run and pause" conveniences: where the non-ASCII checker script
//! lives, and the hotkey binding merged into the editor's keybinding
//! file.

use vstd::prelude::*;

use crate::strutil::str_views;
use crate::Os;

verus! {

/// The checker script's path under the user data folder the caller
/// resolves.
pub fn checker_path(os: Os, data_dir: &str) -> (r: String)
    ensures
        os is Windows ==> r@ == data_dir@ + "\\vscch/check-ascii.ps1"@,
        !(os is Windows) ==> r@ == data_dir@ + "/vscch/check-ascii.ps1"@,
{
    let mut s = String::from_str(data_dir);
    match os {
        Os::Windows => s.append("\\vscch/check-ascii.ps1"),
        _ => s.append("/vscch/check-ascii.ps1"),
    }
    s
}

/// One keybinding entry of the editor's keybinding file.
#[derive(Clone, Debug)]
pub struct Keybinding {
    pub key: String,
    pub command: String,
    pub args: String,
}

/// The binding written for the run hotkey: it runs the "run and pause"
/// task.
pub fn make_keybinding(key: &str) -> (r: Keybinding)
    ensures
        r.key@ == key@,
        r.command@ == "workbench.action.tasks.runTask"@,
        r.args@ == "run and pause"@,
{
    Keybinding {
        key: String::from_str(key),
        command: String::from_str("workbench.action.tasks.runTask"),
        args: String::from_str("run and pause"),
    }
}

/// Which existing keybinding entries stay when the run hotkey is bound:
/// entries are merged by key, so exactly those with a different key are
/// kept, in order.
pub fn keybinding_keep(existing_keys: &Vec<String>, key: &str) -> (r: Vec<bool>)
    ensures
        r@.len() == existing_keys@.len(),
        forall|i: int|
            0 <= i < r@.len() ==> r@[i] == (str_views(existing_keys@)[i] != key@),
{
    let mut r: Vec<bool> = Vec::new();
    let mut i: usize = 0;
    while i < existing_keys.len()
        invariant
            i <= existing_keys@.len(),
            r@.len() == i,
            forall|j: int|
                0 <= j < i ==> r@[j] == (str_views(existing_keys@)[j] != key@),
        decreases existing_keys@.len() - i,
    {
        let keep = !crate::strutil::str_equal(existing_keys[i].as_str(), key);
        r.push(keep);
        i = i + 1;
    }
    r
}

} // verus!
