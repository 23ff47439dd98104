//! Compiler discovery and editor-configuration task pipeline.
//!
//! The library models a setup wizard's core: parsing compiler `--version`
//! output, inferring a default language standard from the toolchain family
//! and version, a platform-filtered registry of toolchain backends, and an
//! ordered, predicate-filtered pipeline of configuration tasks working over
//! one shared, resolved argument bundle.

#![verifier::loop_isolation(false)]

use vstd::prelude::*;

pub mod compiler;
pub mod handlers;
pub mod log;
pub mod options;
pub mod strutil;
pub mod sysctl;
pub mod tasks;
pub mod version;
pub mod vscode;
pub mod workspace;

verus! {

/// Operating systems the registry and the path rules distinguish.
#[derive(Clone, Copy, PartialEq, Eq, Structural, Debug)]
pub enum Os {
    Windows,
    Linux,
    MacOs,
}

impl Os {
    /// The extension of a produced executable on this system.
    pub fn exe_ext(self) -> (r: &'static str)
        ensures
            self is Windows ==> r@ == "exe"@,
            !(self is Windows) ==> r@ == "out"@,
    {
        match self {
            Os::Windows => "exe",
            _ => "out",
        }
    }
}

} // verus!
