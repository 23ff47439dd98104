//! The backend command surface the interactive shells call: verification
//! verdicts, the registry listing, per-family option availability, and
//! the task count of a resolved run.

use vstd::prelude::*;

use crate::compiler::{enabled_ids, id_name, Id};
use crate::options::{
    acp_output_enabled, add_to_path_enabled, ascii_check_enabled, desktop_shortcut_enabled,
    pedantic_enabled, use_gnu_enabled,
};
use crate::strutil::all_ascii;
use crate::tasks::{applicable_pred, task_order, TaskArgs};
use crate::Os;

verus! {

/// A verification verdict surfaced to the interactive layers: a value,
/// a warning to confirm, or a failed check's message.
pub enum VerifyResult<T> {
    Accepted { value: T },
    Warning { message: &'static str },
    Rejected { message: &'static str },
}

/// One row of the registry listing the interactive layers present.
pub struct CompilerSetupListResult {
    pub id: &'static str,
    pub name: &'static str,
    pub description: &'static str,
    pub how_to_install: &'static str,
    pub can_verify: bool,
    pub can_install: bool,
}

/// Lists the families enabled on `os`, in registry order, with their
/// capabilities.
pub fn compiler_setup_list(os: Os) -> (r: Vec<CompilerSetupListResult>)
    ensures
        r@.len() == enabled_ids(os).len(),
        forall|i: int|
            0 <= i < r@.len() ==> {
                let id = enabled_ids(os)[i];
                &&& (#[trigger] r@[i]).id@ == id_name(id)
                &&& r@[i].can_verify == (id != Id::MSVC && id != Id::Apple)
                &&& r@[i].can_install == (id != Id::GCC && id != Id::LLVM)
            },
{
    let setups = crate::compiler::enabled_setups(os);
    let mut r: Vec<CompilerSetupListResult> = Vec::new();
    let mut i: usize = 0;
    while i < setups.len()
        invariant
            i <= setups@.len(),
            r@.len() == i,
            setups@.len() == enabled_ids(os).len(),
            forall|k: int|
                0 <= k < setups@.len() ==> (#[trigger] setups@[k]).id == enabled_ids(os)[k]
                    && crate::compiler::setup_wf(setups@[k]),
            forall|k: int|
                0 <= k < i ==> {
                    let id = enabled_ids(os)[k];
                    &&& (#[trigger] r@[k]).id@ == id_name(id)
                    &&& r@[k].can_verify == (id != Id::MSVC && id != Id::Apple)
                    &&& r@[k].can_install == (id != Id::GCC && id != Id::LLVM)
                },
        decreases setups@.len() - i,
    {
        let s = &setups[i];
        r.push(
            CompilerSetupListResult {
                id: s.id.as_name(),
                name: s.name,
                description: s.description,
                how_to_install: s.how_to_install,
                can_verify: s.can_verify,
                can_install: s.can_install,
            },
        );
        i = i + 1;
    }
    r
}

/// Which options the interactive layers enable for a family on `os`.
pub struct EnabledOptions {
    pub use_gnu_enabled: bool,
    pub pedantic_enabled: bool,
    pub acp_output_enabled: bool,
    pub ascii_check_enabled: bool,
    pub add_to_path_enabled: bool,
    pub desktop_shortcut_enabled: bool,
}

/// Collects the option availability of the family named `setup`. `acp`
/// is the active console code page the caller read.
pub fn options_scan(os: Os, setup: &str, acp: u32) -> (r: EnabledOptions)
    ensures
        r.use_gnu_enabled == (setup@ == "gcc-mingw"@ || setup@ == "gcc"@),
        r.pedantic_enabled == (setup@ != "msvc"@),
        os is Windows ==> r.acp_output_enabled == ((setup@ == "gcc-mingw"@ || setup@ == "msvc"@)
            && acp == 936),
        !(os is Windows) ==> !r.acp_output_enabled,
        r.ascii_check_enabled == (setup@ == "gcc-mingw"@),
        r.add_to_path_enabled == (setup@ == "gcc-mingw"@ || setup@ == "llvm-mingw"@),
        r.desktop_shortcut_enabled == (os is Windows),
{
    EnabledOptions {
        use_gnu_enabled: use_gnu_enabled(setup),
        pedantic_enabled: pedantic_enabled(setup),
        acp_output_enabled: acp_output_enabled(os, setup, acp),
        ascii_check_enabled: ascii_check_enabled(setup),
        add_to_path_enabled: add_to_path_enabled(setup),
        desktop_shortcut_enabled: desktop_shortcut_enabled(os, setup),
    }
}

/// The editor-path verdict, from the path and the caller's filesystem
/// probes.
pub fn vscode_verify(os: Os, path: &str, path_exists: bool, adjusted_is_file: bool) -> (r:
    VerifyResult<()>)
    ensures
        path_exists && adjusted_is_file ==> r is Accepted,
        !(path_exists && adjusted_is_file) ==> r is Rejected,
{
    let _ = path;
    match crate::vscode::verify(os, path, path_exists, adjusted_is_file) {
        Ok(()) => VerifyResult::Accepted { value: () },
        Err(message) => VerifyResult::Rejected { message },
    }
}

/// Decides whether a workspace is usable: an unusable path is refused,
/// and one already holding configuration gets a warning that it would be
/// overwritten. `has_config` is the caller's probe of the config folder.
pub fn workspace_verify(os: Os, path: &str, has_config: bool) -> (r: VerifyResult<()>)
    ensures
        os is Windows && !all_ascii(path@) ==> r is Rejected,
        !(os is Windows && !all_ascii(path@)) && has_config ==> (r matches VerifyResult::Warning {
            message,
        } && message@
            == "this workspace already holds configuration, which would be overwritten"@),
        !(os is Windows && !all_ascii(path@)) && !has_config ==> r is Accepted,
{
    match crate::workspace::path_available(os, path) {
        Err(message) => VerifyResult::Rejected { message },
        Ok(()) => {
            if has_config {
                VerifyResult::Warning {
                    message: "this workspace already holds configuration, which would be overwritten",
                }
            } else {
                VerifyResult::Accepted { value: () }
            }
        },
    }
}

/// How many tasks a resolved run performs.
pub fn task_init(args: &TaskArgs) -> (r: usize)
    ensures
        r == task_order().filter(applicable_pred(*args)).len(),
{
    let tasks = crate::tasks::list(args);
    tasks.len()
}

/// The browser runtime's version marker means an installed runtime only
/// when it is non-empty and not the null version.
pub open spec fn webview2_pv_valid(v: Option<Seq<char>>) -> bool {
    match v {
        Some(s) => s != ""@ && s != "0.0.0.0"@,
        None => false,
    }
}

/// Whether the embedded browser runtime the graphical shell needs is
/// installed, from the machine-wide and per-user version markers the
/// caller read out of the registry.
pub fn has_webview2_installed(machine_pv: Option<&String>, user_pv: Option<&String>) -> (r: bool)
    ensures
        r == (webview2_pv_valid(
            match machine_pv {
                Some(s) => Some(s@),
                None => None,
            },
        ) || webview2_pv_valid(
            match user_pv {
                Some(s) => Some(s@),
                None => None,
            },
        )),
{
    let m_ok = match machine_pv {
        Some(v) => !crate::strutil::str_equal(v.as_str(), "") && !crate::strutil::str_equal(
            v.as_str(),
            "0.0.0.0",
        ),
        None => false,
    };
    let u_ok = match user_pv {
        Some(v) => !crate::strutil::str_equal(v.as_str(), "") && !crate::strutil::str_equal(
            v.as_str(),
            "0.0.0.0",
        ),
        None => false,
    };
    m_ok || u_ok
}

} // verus!
