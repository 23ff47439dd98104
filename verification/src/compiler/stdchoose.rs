//! The default language standard inferred from a toolchain class and a
//! compiler version.
//!
//! The threshold tables are taken as given; they encode compiler-vendor
//! history. A version exactly equal to a threshold falls into the
//! "not less than" branch.

use vstd::prelude::*;

use crate::version::{version_less, version_lt};

verus! {

/// The `(C++ standard, C standard)` pair the GCC table yields for `v`.
pub open spec fn gcc_std_spec(v: Seq<char>) -> (Seq<char>, Seq<char>) {
    if version_lt(v, "4.8"@) {
        ("c++98"@, "c99"@)
    } else if version_lt(v, "5.0"@) {
        ("c++11"@, "c11"@)
    } else if version_lt(v, "8.0"@) {
        ("c++14"@, "c11"@)
    } else if version_lt(v, "10.0"@) {
        ("c++17"@, "c17"@)
    } else if version_lt(v, "11.0"@) {
        ("c++20"@, "c17"@)
    } else {
        ("c++23"@, "c17"@)
    }
}

/// The `(C++ standard, C standard)` pair the Clang table yields for `v`.
pub open spec fn clang_std_spec(v: Seq<char>) -> (Seq<char>, Seq<char>) {
    if version_lt(v, "4.3"@) {
        ("c++98"@, "c99"@)
    } else if version_lt(v, "4.4"@) {
        ("c++11"@, "c11"@)
    } else if version_lt(v, "5.0"@) {
        ("c++14"@, "c11"@)
    } else if version_lt(v, "10.0"@) {
        ("c++17"@, "c17"@)
    } else {
        ("c++20"@, "c17"@)
    }
}

/// The default `(C++, C)` standards for a GCC of version `ver`.
pub fn gcc(ver: &str) -> (r: (&'static str, &'static str))
    ensures
        r.0@ == gcc_std_spec(ver@).0,
        r.1@ == gcc_std_spec(ver@).1,
{
    if version_less(ver, "4.8") {
        ("c++98", "c99")
    } else if version_less(ver, "5.0") {
        ("c++11", "c11")
    } else if version_less(ver, "8.0") {
        ("c++14", "c11")
    } else if version_less(ver, "10.0") {
        ("c++17", "c17")
    } else if version_less(ver, "11.0") {
        ("c++20", "c17")
    } else {
        ("c++23", "c17")
    }
}

/// The default `(C++, C)` standards for a Clang of version `ver`.
pub fn clang(ver: &str) -> (r: (&'static str, &'static str))
    ensures
        r.0@ == clang_std_spec(ver@).0,
        r.1@ == clang_std_spec(ver@).1,
{
    if version_less(ver, "4.3") {
        ("c++98", "c99")
    } else if version_less(ver, "4.4") {
        ("c++11", "c11")
    } else if version_less(ver, "5.0") {
        ("c++14", "c11")
    } else if version_less(ver, "10.0") {
        ("c++17", "c17")
    } else {
        ("c++20", "c17")
    }
}

} // verus!
