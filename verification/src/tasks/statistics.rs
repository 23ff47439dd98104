//! The anonymous usage ping and the error-report identifier.

use vstd::prelude::*;

use crate::Os;

verus! {

/// The usage counter endpoint of each operating system.
pub fn count_api_url(os: Os) -> (r: &'static str)
    ensures
        os is Windows ==> r@ == "https://api.countapi.xyz/hit/v4.vscch.tk/windows"@,
        os is Linux ==> r@ == "https://api.countapi.xyz/hit/v4.vscch.tk/linux"@,
        os is MacOs ==> r@ == "https://api.countapi.xyz/hit/v4.vscch.tk/macos"@,
{
    match os {
        Os::Windows => "https://api.countapi.xyz/hit/v4.vscch.tk/windows",
        Os::Linux => "https://api.countapi.xyz/hit/v4.vscch.tk/linux",
        Os::MacOs => "https://api.countapi.xyz/hit/v4.vscch.tk/macos",
    }
}

/// The identifier an error report is filed under: the machine's hardware
/// hash where one could be computed, else the caller's fallback number,
/// folded into six decimal digits.
pub fn error_report_id(hw_hash: Option<u64>, fallback: u64) -> (r: u64)
    ensures
        r == (match hw_hash {
            Some(h) => h as nat,
            None => fallback as nat,
        }) % 1000000,
{
    let base = match hw_hash {
        Some(h) => h,
        None => fallback,
    };
    base % 1000000
}

} // verus!
