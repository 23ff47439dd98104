//! The option bundle collected from the user, and which options each
//! toolchain family enables.

use vstd::prelude::*;

use crate::strutil::str_equal;
use crate::Os;

verus! {

/// The configuration target language.
#[derive(Clone, Copy, PartialEq, Eq, Structural, Debug)]
pub enum Language {
    Cpp,
    C,
}

impl Language {
    /// The language's name as the option bundle carries it.
    pub fn to_string(&self) -> (r: String)
        ensures
            *self is Cpp ==> r@ == "C++"@,
            *self is C ==> r@ == "C"@,
    {
        match self {
            Language::Cpp => String::from_str("C++"),
            Language::C => String::from_str("C"),
        }
    }
}

/// The raw option set a run is configured with.
#[derive(Clone, Debug)]
pub struct Options {
    /// Disable the "pause after run" and hotkey conveniences.
    pub compatible_mode: bool,
    /// The target language: `C` or `C++`.
    pub language: String,
    /// The explicitly requested standard, if any.
    pub standard: Option<String>,
    /// Extra compiler arguments.
    pub args: Vec<String>,
    /// The hotkey bound to "run and pause".
    pub run_hotkey: String,
    /// Check file names for non-ASCII characters before debugging.
    pub ascii_check: bool,
    /// Uninstall unrecommended editor extensions.
    pub remove_extensions: bool,
    /// Add the compiler's folder to the persistent user `Path`.
    pub add_to_path: bool,
    /// Open the editor once configuration is done.
    pub open_vscode: bool,
    /// Force (`Some(true)`) or forbid (`Some(false)`) the test file;
    /// `None` generates it only where none exists.
    pub test: Option<bool>,
    /// Create a desktop shortcut to the editor.
    pub desktop_shortcut: bool,
    /// Send the anonymous usage ping.
    pub collect_data: bool,
}

/// The `use GNU extensions` option applies to the GCC families.
pub fn use_gnu_enabled(setup: &str) -> (r: bool)
    ensures
        r == (setup@ == "gcc-mingw"@ || setup@ == "gcc"@),
{
    str_equal(setup, "gcc-mingw") || str_equal(setup, "gcc")
}

/// The `-pedantic` option applies to every family but MSVC.
pub fn pedantic_enabled(setup: &str) -> (r: bool)
    ensures
        r == (setup@ != "msvc"@),
{
    !str_equal(setup, "msvc")
}

/// Code-page-aware output applies on Windows, for the families that run
/// under the legacy console code page 936.
pub fn acp_output_enabled(os: Os, setup: &str, acp: u32) -> (r: bool)
    ensures
        os is Windows ==> r == ((setup@ == "gcc-mingw"@ || setup@ == "msvc"@) && acp == 936),
        !(os is Windows) ==> r == false,
{
    match os {
        Os::Windows => (str_equal(setup, "gcc-mingw") || str_equal(setup, "msvc")) && acp == 936,
        _ => false,
    }
}

/// The non-ASCII file name check applies to MinGW GCC only.
pub fn ascii_check_enabled(setup: &str) -> (r: bool)
    ensures
        r == (setup@ == "gcc-mingw"@),
{
    str_equal(setup, "gcc-mingw")
}

/// Adding the compiler to the user `Path` applies to the MinGW variants.
pub fn add_to_path_enabled(setup: &str) -> (r: bool)
    ensures
        r == (setup@ == "gcc-mingw"@ || setup@ == "llvm-mingw"@),
{
    str_equal(setup, "gcc-mingw") || str_equal(setup, "llvm-mingw")
}

/// Desktop shortcuts apply on Windows, whatever the family.
pub fn desktop_shortcut_enabled(os: Os, setup: &str) -> (r: bool)
    ensures
        r == (os is Windows),
{
    let _ = setup;
    match os {
        Os::Windows => true,
        _ => false,
    }
}

} // verus!
