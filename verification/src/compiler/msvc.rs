//! The MSVC backend: records from the Visual Studio locator's report, and
//! the version-pinned tool path under an install root.
//!
//! MSVC exposes no version grammar; instances come from the external
//! locator utility, whose parsed report rows the caller hands over as
//! plain `(path, version, display)` triples.

use vstd::prelude::*;

use super::{Compiler, Id};

verus! {

/// One row of the locator's report: installation path, installation
/// version, display name.
pub type InstallInfo = (String, String, String);

/// Builds one MSVC record per reported installation, in report order.
/// An empty report is an empty result, never an error.
pub fn scan(installs: Vec<InstallInfo>) -> (r: Vec<Compiler>)
    ensures
        r@.len() == installs@.len(),
        forall|i: int|
            0 <= i < r@.len() ==> {
                &&& (#[trigger] r@[i]).setup == Id::MSVC
                &&& r@[i].path@ == installs@[i].0@
                &&& r@[i].version@ == installs@[i].1@
                &&& r@[i].package_string@ == installs@[i].2@
            },
{
    let mut r: Vec<Compiler> = Vec::new();
    let mut installs = installs;
    let ghost all = installs@;
    let mut i: usize = 0;
    while i < installs.len()
        invariant
            i <= all.len(),
            installs@ == all,
            r@.len() == i,
            forall|k: int|
                0 <= k < i ==> {
                    &&& (#[trigger] r@[k]).setup == Id::MSVC
                    &&& r@[k].path@ == all[k].0@
                    &&& r@[k].version@ == all[k].1@
                    &&& r@[k].package_string@ == all[k].2@
                },
        decreases all.len() - i,
    {
        let (path, version, display) = (
            installs[i].0.clone(),
            installs[i].1.clone(),
            installs[i].2.clone(),
        );
        r.push(Compiler::from_fields(Id::MSVC, path, version, display));
        i = i + 1;
    }
    r
}

/// The compiler binary of an MSVC install root, pinned to the tool
/// version the root's version marker file names (the caller reads and
/// trims that file).
pub fn path_to_exe(path: &str, tool_version: &str) -> (r: String)
    ensures
        r@ == path@ + "\\VC\\Tools\\MSVC\\"@ + tool_version@ + "\\bin\\HostX64\\x64\\cl.exe"@,
{
    let mut s = String::from_str(path);
    s.append("\\VC\\Tools\\MSVC\\");
    s.append(tool_version);
    s.append("\\bin\\HostX64\\x64\\cl.exe");
    s
}

/// The version marker file under an MSVC install root, which names the
/// default tool version.
pub fn version_marker_path(path: &str) -> (r: String)
    ensures
        r@ == path@ + "\\VC\\Auxiliary\\Build\\Microsoft.VCToolsVersion.default.txt"@,
{
    let mut s = String::from_str(path);
    s.append("\\VC\\Auxiliary\\Build\\Microsoft.VCToolsVersion.default.txt");
    s
}

} // verus!
