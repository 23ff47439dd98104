//! Reading the machine architecture out of the kernel version string.

use vstd::prelude::*;

use crate::strutil::{check_contains, contains_seq, to_chars};

verus! {

/// The processor architectures the generated configuration
/// distinguishes.
#[derive(Clone, Copy, PartialEq, Eq, Structural, Debug)]
pub enum Arch {
    X64,
    Aarch64,
}

/// Decides the architecture from the kernel version string the system
/// control interface reports: an `ARM64` marker means a 64-bit ARM
/// machine, anything else counts as x64.
pub fn get_arch(ctlval: &str) -> (r: Arch)
    ensures
        r is Aarch64 <==> contains_seq(ctlval@, "ARM64"@),
{
    let cs = to_chars(ctlval);
    let pat = to_chars("ARM64");
    if check_contains(&cs, &pat) {
        Arch::Aarch64
    } else {
        Arch::X64
    }
}

} // verus!
