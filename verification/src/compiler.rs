//! The compiler toolchain model: family identifiers, verified compiler
//! records, backend descriptors, and the platform-filtered registry.

use vstd::prelude::*;

use crate::strutil::str_equal;
use crate::Os;

pub mod common;
pub mod gcc;
pub mod llvm;
pub mod mingw;
pub mod msvc;
pub mod stdchoose;
pub mod verparse;

verus! {

/// Identifier of a toolchain family.
#[derive(Clone, Copy, PartialEq, Eq, Structural, Debug)]
pub enum Id {
    MSVC,
    MinGW,
    LLVMMinGW,
    GCC,
    LLVM,
    Apple,
}

/// The registry name of a family.
pub open spec fn id_name(id: Id) -> Seq<char> {
    match id {
        Id::MSVC => "msvc"@,
        Id::MinGW => "gcc-mingw"@,
        Id::LLVMMinGW => "llvm-mingw"@,
        Id::GCC => "gcc"@,
        Id::LLVM => "llvm"@,
        Id::Apple => "apple"@,
    }
}

impl Id {
    /// The registry name of this family.
    pub fn as_name(&self) -> (r: &'static str)
        ensures
            r@ == id_name(*self),
    {
        match self {
            Id::MSVC => "msvc",
            Id::MinGW => "gcc-mingw",
            Id::LLVMMinGW => "llvm-mingw",
            Id::GCC => "gcc",
            Id::LLVM => "llvm",
            Id::Apple => "apple",
        }
    }

    /// The registry name of this family, as an owned string.
    pub fn to_string(&self) -> (r: String)
        ensures
            r@ == id_name(*self),
    {
        String::from_str(self.as_name())
    }
}

/// The version-string style of a family: which parser and which standard
/// table apply to it.
#[derive(Clone, Copy, PartialEq, Eq, Structural, Debug)]
pub enum CompilerType {
    GCC,
    LLVM,
    MSVC,
}

/// The version-string style of each family.
pub open spec fn id_type(id: Id) -> CompilerType {
    match id {
        Id::MSVC => CompilerType::MSVC,
        Id::MinGW => CompilerType::GCC,
        Id::LLVMMinGW => CompilerType::LLVM,
        Id::GCC => CompilerType::GCC,
        Id::LLVM => CompilerType::LLVM,
        Id::Apple => CompilerType::LLVM,
    }
}

/// The version grammar of class `ty` accepts the line `s`.
pub open spec fn parse_ok(ty: CompilerType, s: Seq<char>) -> bool {
    match ty {
        CompilerType::GCC => verparse::gcc_matches(s),
        CompilerType::LLVM => verparse::clang_matches(s),
        CompilerType::MSVC => false,
    }
}

/// The version captured from the line `s` by class `ty`'s grammar.
pub open spec fn parsed_version(ty: CompilerType, s: Seq<char>) -> Seq<char> {
    match ty {
        CompilerType::GCC => verparse::gcc_version_of(s),
        CompilerType::LLVM => verparse::clang_version_of(s),
        CompilerType::MSVC => Seq::empty(),
    }
}

/// The display string captured from the line `s` by class `ty`'s grammar.
pub open spec fn parsed_display(ty: CompilerType, s: Seq<char>) -> Seq<char> {
    match ty {
        CompilerType::GCC => verparse::gcc_display_of(s),
        CompilerType::LLVM => verparse::clang_display_of(s),
        CompilerType::MSVC => Seq::empty(),
    }
}

/// One discovered or verified compiler instance.
#[derive(Clone, Debug)]
pub struct Compiler {
    /// The family that produced and owns this record.
    pub setup: Id,
    /// Path to the toolchain root or binary the record was verified at.
    pub path: String,
    /// The normalized version, e.g. `11.2.0`.
    pub version: String,
    /// The human-readable package/build string.
    pub package_string: String,
}

impl Compiler {
    /// Builds a record from a family's parsed `--version` first line.
    /// Fails exactly when the line does not match the family's grammar;
    /// MSVC exposes no version grammar, so no record is built from text.
    pub fn new(setup: &CompilerSetup, path: &str, version_text: &str) -> (r: Option<Compiler>)
        ensures
            r is Some <==> parse_ok(setup.ty, version_text@),
            r matches Some(c) ==> c.setup == setup.id && c.path@ == path@ && c.version@
                == parsed_version(setup.ty, version_text@) && c.package_string@ == parsed_display(
                setup.ty,
                version_text@,
            ),
    {
        let parsed = match setup.ty {
            CompilerType::GCC => verparse::gcc(version_text),
            CompilerType::LLVM => verparse::clang(version_text),
            CompilerType::MSVC => {
                return None;
            },
        };
        match parsed {
            Ok((version, package_string)) => Some(
                Compiler {
                    setup: setup.id,
                    path: String::from_str(path),
                    version,
                    package_string,
                },
            ),
            Err(_) => None,
        }
    }

    /// Builds a record from already-normalized fields, as the MSVC locator
    /// reports them.
    pub fn from_fields(setup: Id, path: String, version: String, package_string: String) -> (r:
        Compiler)
        ensures
            r.setup == setup,
            r.path == path,
            r.version == version,
            r.package_string == package_string,
    {
        Compiler { setup, path, version, package_string }
    }

    /// The human-readable package/build string of the record.
    pub fn package(&self) -> (r: &String)
        ensures
            r == self.package_string,
    {
        &self.package_string
    }
}

/// The static capability descriptor of one toolchain family.
pub struct CompilerSetup {
    pub id: Id,
    pub name: &'static str,
    pub description: &'static str,
    pub how_to_install: &'static str,
    /// Whether the family can verify a user-supplied path.
    pub can_verify: bool,
    /// Whether the family can trigger an installation.
    pub can_install: bool,
    pub ty: CompilerType,
}

/// A descriptor carries the data the registry promises for its family.
pub open spec fn setup_wf(s: CompilerSetup) -> bool {
    &&& s.ty == id_type(s.id)
    &&& s.can_verify == match s.id {
        Id::MSVC => false,
        Id::Apple => false,
        _ => true,
    }
    &&& s.can_install == match s.id {
        Id::GCC => false,
        Id::LLVM => false,
        _ => true,
    }
}

impl CompilerSetup {
    /// The family is a MinGW variant.
    pub fn is_mingw(&self) -> (r: bool)
        ensures
            r == (self.id == Id::MinGW || self.id == Id::LLVMMinGW),
    {
        self.id == Id::MinGW || self.id == Id::LLVMMinGW
    }

    /// The family is MSVC.
    pub fn is_msvc(&self) -> (r: bool)
        ensures
            r == (self.id == Id::MSVC),
    {
        self.id == Id::MSVC
    }
}

/// The families enabled on each operating system, in registry order.
pub open spec fn enabled_ids(os: Os) -> Seq<Id> {
    match os {
        Os::Windows => seq![Id::MinGW, Id::MSVC, Id::LLVMMinGW],
        Os::Linux => seq![Id::GCC, Id::LLVM],
        Os::MacOs => seq![Id::Apple],
    }
}

/// The descriptor of one family.
pub fn setup_of(id: Id) -> (r: CompilerSetup)
    ensures
        r.id == id,
        setup_wf(r),
{
    match id {
        Id::MinGW => CompilerSetup {
            id: Id::MinGW,
            name: "MinGW",
            description: "GCC for Windows",
            how_to_install: "Download MinGW, unpack the mingw64 folder to a stable location, and enter its path below.",
            can_verify: true,
            can_install: true,
            ty: CompilerType::GCC,
        },
        Id::MSVC => CompilerSetup {
            id: Id::MSVC,
            name: "VC++ build tools",
            description: "Microsoft Visual C++",
            how_to_install: "Download the VC++ build tools installer and follow its steps.",
            can_verify: false,
            can_install: true,
            ty: CompilerType::MSVC,
        },
        Id::LLVMMinGW => CompilerSetup {
            id: Id::LLVMMinGW,
            name: "LLVM MinGW",
            description: "LLVM-based MinGW toolchain",
            how_to_install: "Download LLVM-MinGW, unpack it to a stable location, and enter its path below.",
            can_verify: true,
            can_install: true,
            ty: CompilerType::LLVM,
        },
        Id::GCC => CompilerSetup {
            id: Id::GCC,
            name: "GCC",
            description: "GNU Compiler Collection",
            how_to_install: "Install GCC with the system package manager, for example: sudo apt install g++.",
            can_verify: true,
            can_install: false,
            ty: CompilerType::GCC,
        },
        Id::LLVM => CompilerSetup {
            id: Id::LLVM,
            name: "LLVM",
            description: "LLVM Clang compiler",
            how_to_install: "Install Clang with the system package manager, for example: sudo apt install clang.",
            can_verify: true,
            can_install: false,
            ty: CompilerType::LLVM,
        },
        Id::Apple => CompilerSetup {
            id: Id::Apple,
            name: "Apple Clang",
            description: "Apple Clang compiler with Xcode",
            how_to_install: "Install the Xcode command line tools and follow the prompts.",
            can_verify: false,
            can_install: true,
            ty: CompilerType::LLVM,
        },
    }
}

/// The registry: the descriptors of the families enabled on `os`, in order.
pub fn enabled_setups(os: Os) -> (r: Vec<CompilerSetup>)
    ensures
        r@.len() == enabled_ids(os).len(),
        forall|i: int|
            0 <= i < r@.len() ==> (#[trigger] r@[i]).id == enabled_ids(os)[i] && setup_wf(r@[i]),
{
    let mut r: Vec<CompilerSetup> = Vec::new();
    match os {
        Os::Windows => {
            r.push(setup_of(Id::MinGW));
            r.push(setup_of(Id::MSVC));
            r.push(setup_of(Id::LLVMMinGW));
        },
        Os::Linux => {
            r.push(setup_of(Id::GCC));
            r.push(setup_of(Id::LLVM));
        },
        Os::MacOs => {
            r.push(setup_of(Id::Apple));
        },
    }
    r
}

/// Looks a family up by its registry name among the families enabled on
/// `os`. Yields nothing exactly when no enabled family carries the name —
/// a state mismatch, e.g. a saved choice from another operating system.
pub fn get_setup(os: Os, id: &str) -> (r: Option<CompilerSetup>)
    ensures
        r is Some <==> exists|k: int|
            0 <= k < enabled_ids(os).len() && id_name(#[trigger] enabled_ids(os)[k]) == id@,
        r matches Some(s) ==> setup_wf(s) && id_name(s.id) == id@ && exists|k: int|
            0 <= k < enabled_ids(os).len() && #[trigger] enabled_ids(os)[k] == s.id,
{
    let setups = enabled_setups(os);
    let mut i: usize = 0;
    while i < setups.len()
        invariant
            i <= setups@.len(),
            setups@.len() == enabled_ids(os).len(),
            forall|k: int|
                0 <= k < setups@.len() ==> (#[trigger] setups@[k]).id == enabled_ids(os)[k]
                    && setup_wf(setups@[k]),
            forall|k: int| 0 <= k < i ==> id_name(#[trigger] enabled_ids(os)[k]) != id@,
        decreases setups@.len() - i,
    {
        if str_equal(setups[i].id.as_name(), id) {
            let s = setup_of(setups[i].id);
            assert(enabled_ids(os)[i as int] == s.id);
            return Some(s);
        }
        i = i + 1;
    }
    None
}

} // verus!
