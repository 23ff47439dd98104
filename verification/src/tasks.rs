//! The task pipeline: the shared resolved argument bundle, the fixed
//! ordered task table with its applicability predicates, and the pure
//! decisions of the individual tasks.

use vstd::prelude::*;

use crate::compiler::{gcc, llvm, mingw, msvc, stdchoose, Compiler, CompilerType, Id, id_type};
use crate::options::Options;
use crate::strutil::{
    check_starts_with, join_char_spec, join_strings, parent_dir, parent_of,
    split_by_char, split_char_spec, starts_with_seq, str_views, to_chars,
};
use crate::sysctl::Arch;
use crate::tasks::test::{candidate_name, filepath, is_least_free};
use crate::vscode::adjusted_path_spec;
use crate::Os;

pub mod dotvscode;
pub mod extension;
pub mod run;
pub mod statistics;
pub mod test;

verus! {

/// The raw inputs of one configuration run.
#[derive(Clone, Debug)]
pub struct TaskInitArgs {
    /// The editor install path the user chose or the scan found.
    pub vscode: String,
    /// The verified compiler record.
    pub compiler: Compiler,
    /// The workspace folder, absolute or relative.
    pub workspace: String,
    /// The option set.
    pub options: Options,
}

/// What resolution reads from the machine: everything the argument
/// bundle depends on besides the raw inputs.
pub struct ResolveEnv {
    /// The operating system the run configures.
    pub os: Os,
    /// The machine architecture.
    pub arch: Arch,
    /// The process's current directory, for making the workspace
    /// absolute.
    pub current_dir: String,
    /// The file names already present in the workspace folder.
    pub existing: Vec<String>,
    /// For the MSVC family: the tool version its marker file names.
    pub msvc_tool_version: Option<String>,
}

/// The shared, frozen argument bundle every task reads.
#[derive(Clone, Debug)]
pub struct TaskArgs {
    pub os: Os,
    pub arch: Arch,
    /// The editor CLI launcher.
    pub vscode: String,
    /// The resolved toolchain family.
    pub setup: Id,
    /// The real compiler executable for the target language.
    pub compiler_path: String,
    /// The workspace folder, absolute.
    pub workspace: String,
    pub run_hotkey: String,
    pub compatible_mode: bool,
    pub is_c: bool,
    pub file_ext: &'static str,
    /// The resolved language standard.
    pub standard: String,
    /// The compiler arguments, with a standard flag present.
    pub args: Vec<String>,
    pub ascii_check: bool,
    pub remove_extensions: bool,
    pub add_to_path: bool,
    pub open_vscode: bool,
    /// The test file to generate, as an absolute path, if one is owed.
    pub test_file: Option<String>,
    pub desktop_shortcut: bool,
    pub collect_data: bool,
}

/// One unit of configuration work, gated by an applicability predicate.
#[derive(Clone, Copy, PartialEq, Eq, Structural, Debug)]
pub enum TaskKind {
    RemoveUnrecommended,
    InstallCCpp,
    InstallCodeLldb,
    InstallPauser,
    CreateKeybinding,
    CreateChecker,
    AddToPath,
    CreateFolder,
    TasksJson,
    LaunchJson,
    CCppPropertiesJson,
    GenerateTest,
    CreateShortcut,
    OpenVscode,
    SendStatistics,
}

/// The master task table: every task, in execution order. Later tasks
/// may assume earlier ones' effects; nothing else orders them.
pub open spec fn task_order() -> Seq<TaskKind> {
    seq![
        TaskKind::RemoveUnrecommended,
        TaskKind::InstallCCpp,
        TaskKind::InstallCodeLldb,
        TaskKind::InstallPauser,
        TaskKind::CreateKeybinding,
        TaskKind::CreateChecker,
        TaskKind::AddToPath,
        TaskKind::CreateFolder,
        TaskKind::TasksJson,
        TaskKind::LaunchJson,
        TaskKind::CCppPropertiesJson,
        TaskKind::GenerateTest,
        TaskKind::CreateShortcut,
        TaskKind::OpenVscode,
        TaskKind::SendStatistics,
    ]
}

/// Whether a task applies to a run.
pub open spec fn applicable_spec(t: TaskKind, a: TaskArgs) -> bool {
    match t {
        TaskKind::RemoveUnrecommended => a.remove_extensions,
        TaskKind::InstallCCpp => true,
        TaskKind::InstallCodeLldb => id_type(a.setup) == CompilerType::LLVM,
        TaskKind::InstallPauser => !a.compatible_mode,
        TaskKind::CreateKeybinding => !a.compatible_mode,
        TaskKind::CreateChecker => a.ascii_check,
        TaskKind::AddToPath => (a.setup == Id::MinGW || a.setup == Id::LLVMMinGW)
            && a.add_to_path,
        TaskKind::CreateFolder => true,
        TaskKind::TasksJson => true,
        TaskKind::LaunchJson => true,
        TaskKind::CCppPropertiesJson => true,
        TaskKind::GenerateTest => a.test_file is Some,
        TaskKind::CreateShortcut => a.desktop_shortcut,
        TaskKind::OpenVscode => a.open_vscode,
        TaskKind::SendStatistics => a.collect_data,
    }
}

/// The applicability predicate of a run, as one named function value.
pub open spec fn applicable_pred(a: TaskArgs) -> spec_fn(TaskKind) -> bool {
    |t: TaskKind| applicable_spec(t, a)
}

impl TaskKind {
    /// The task's reported name.
    pub fn name(&self) -> (r: &'static str)
        ensures
            r@ == task_name_spec(*self),
    {
        match self {
            TaskKind::RemoveUnrecommended => "extension::remove_unrecommended",
            TaskKind::InstallCCpp => "extension::install_c_cpp",
            TaskKind::InstallCodeLldb => "extension::install_code_lldb",
            TaskKind::InstallPauser => "extension::install_pauser",
            TaskKind::CreateKeybinding => "run::create_keybinding",
            TaskKind::CreateChecker => "run::create_checker",
            TaskKind::AddToPath => "compiler::add_to_path",
            TaskKind::CreateFolder => "dotvscode::create_folder",
            TaskKind::TasksJson => "dotvscode::tasks_json",
            TaskKind::LaunchJson => "dotvscode::launch_json",
            TaskKind::CCppPropertiesJson => "dotvscode::c_cpp_properties_json",
            TaskKind::GenerateTest => "test::generate",
            TaskKind::CreateShortcut => "shortcut::create",
            TaskKind::OpenVscode => "vscode::open",
            TaskKind::SendStatistics => "statistics::send",
        }
    }

    /// Evaluates the applicability predicate on the argument bundle.
    pub fn is_applicable(&self, a: &TaskArgs) -> (r: bool)
        ensures
            r == applicable_spec(*self, *a),
    {
        match self {
            TaskKind::RemoveUnrecommended => a.remove_extensions,
            TaskKind::InstallCCpp => true,
            TaskKind::InstallCodeLldb => {
                let setup = crate::compiler::setup_of(a.setup);
                matches!(setup.ty, CompilerType::LLVM)
            },
            TaskKind::InstallPauser => !a.compatible_mode,
            TaskKind::CreateKeybinding => !a.compatible_mode,
            TaskKind::CreateChecker => a.ascii_check,
            TaskKind::AddToPath => (matches!(a.setup, Id::MinGW) || matches!(
                a.setup,
                Id::LLVMMinGW,
            )) && a.add_to_path,
            TaskKind::CreateFolder => true,
            TaskKind::TasksJson => true,
            TaskKind::LaunchJson => true,
            TaskKind::CCppPropertiesJson => true,
            TaskKind::GenerateTest => a.test_file.is_some(),
            TaskKind::CreateShortcut => a.desktop_shortcut,
            TaskKind::OpenVscode => a.open_vscode,
            TaskKind::SendStatistics => a.collect_data,
        }
    }
}

/// The task's reported name.
pub open spec fn task_name_spec(t: TaskKind) -> Seq<char> {
    match t {
        TaskKind::RemoveUnrecommended => "extension::remove_unrecommended"@,
        TaskKind::InstallCCpp => "extension::install_c_cpp"@,
        TaskKind::InstallCodeLldb => "extension::install_code_lldb"@,
        TaskKind::InstallPauser => "extension::install_pauser"@,
        TaskKind::CreateKeybinding => "run::create_keybinding"@,
        TaskKind::CreateChecker => "run::create_checker"@,
        TaskKind::AddToPath => "compiler::add_to_path"@,
        TaskKind::CreateFolder => "dotvscode::create_folder"@,
        TaskKind::TasksJson => "dotvscode::tasks_json"@,
        TaskKind::LaunchJson => "dotvscode::launch_json"@,
        TaskKind::CCppPropertiesJson => "dotvscode::c_cpp_properties_json"@,
        TaskKind::GenerateTest => "test::generate"@,
        TaskKind::CreateShortcut => "shortcut::create"@,
        TaskKind::OpenVscode => "vscode::open"@,
        TaskKind::SendStatistics => "statistics::send"@,
    }
}

/// The full task table, in execution order.
pub fn full_list() -> (r: Vec<TaskKind>)
    ensures
        r@ == task_order(),
{
    let mut r: Vec<TaskKind> = Vec::new();
    r.push(TaskKind::RemoveUnrecommended);
    r.push(TaskKind::InstallCCpp);
    r.push(TaskKind::InstallCodeLldb);
    r.push(TaskKind::InstallPauser);
    r.push(TaskKind::CreateKeybinding);
    r.push(TaskKind::CreateChecker);
    r.push(TaskKind::AddToPath);
    r.push(TaskKind::CreateFolder);
    r.push(TaskKind::TasksJson);
    r.push(TaskKind::LaunchJson);
    r.push(TaskKind::CCppPropertiesJson);
    r.push(TaskKind::GenerateTest);
    r.push(TaskKind::CreateShortcut);
    r.push(TaskKind::OpenVscode);
    r.push(TaskKind::SendStatistics);
    assert(r@ =~= task_order());
    r
}

/// The tasks a run performs: the table filtered by applicability, in
/// table order.
pub fn list(a: &TaskArgs) -> (r: Vec<TaskKind>)
    ensures
        r@ == task_order().filter(applicable_pred(*a)),
{
    let all = full_list();
    let mut r: Vec<TaskKind> = Vec::new();
    let mut i: usize = 0;
    proof {
        reveal(Seq::filter);
        assert(task_order().subrange(0, 0) =~= Seq::<TaskKind>::empty());
        assert(r@ =~= Seq::<TaskKind>::empty().filter(applicable_pred(*a)));
    }
    while i < all.len()
        invariant
            i <= all@.len(),
            all@ == task_order(),
            r@ == task_order().subrange(0, i as int).filter(applicable_pred(*a)),
        decreases all@.len() - i,
    {
        let ghost pre = task_order().subrange(0, i as int);
        if all[i].is_applicable(a) {
            r.push(all[i]);
        }
        i = i + 1;
        proof {
            reveal(Seq::filter);
            let post = task_order().subrange(0, i as int);
            assert(post.drop_last() =~= pre);
            assert(post.last() == task_order()[i - 1]);
        }
    }
    proof {
        assert(task_order().subrange(0, task_order().len() as int) =~= task_order());
    }
    r
}

/// An element of a filtered sequence comes from the original.
proof fn lemma_filter_elem_back<A>(s: Seq<A>, pred: spec_fn(A) -> bool, fi: int)
    requires
        0 <= fi < s.filter(pred).len(),
    ensures
        exists|si: int| 0 <= si < s.len() && s[si] == s.filter(pred)[fi],
    decreases s.len(),
{
    reveal(Seq::filter);
    if s.len() > 0 {
        let dl = s.drop_last();
        if pred(s.last()) && fi == s.filter(pred).len() - 1 {
            assert(s[s.len() - 1] == s.filter(pred)[fi]);
        } else {
            lemma_filter_elem_back(dl, pred, fi);
            let si = choose|si: int| 0 <= si < dl.len() && dl[si] == dl.filter(pred)[fi];
            assert(s[si] == s.filter(pred)[fi]);
        }
    }
}

/// Two positions of a filtered sequence come from two positions of the
/// original, in the same order.
proof fn lemma_filter_map_back<A>(s: Seq<A>, pred: spec_fn(A) -> bool, fi: int, fj: int)
    requires
        0 <= fi < fj < s.filter(pred).len(),
    ensures
        exists|si: int, sj: int|
            0 <= si < sj < s.len() && s[si] == s.filter(pred)[fi] && s[sj] == s.filter(pred)[fj],
    decreases s.len(),
{
    reveal(Seq::filter);
    if s.len() > 0 {
        let dl = s.drop_last();
        if pred(s.last()) && fj == s.filter(pred).len() - 1 {
            lemma_filter_elem_back(dl, pred, fi);
            let si = choose|si: int| 0 <= si < dl.len() && dl[si] == dl.filter(pred)[fi];
            assert(s[si] == s.filter(pred)[fi]);
            assert(s[s.len() - 1] == s.filter(pred)[fj]);
        } else {
            lemma_filter_map_back(dl, pred, fi, fj);
            let (si, sj) = choose|si: int, sj: int|
                0 <= si < sj < dl.len() && dl[si] == dl.filter(pred)[fi] && dl[sj] == dl.filter(
                    pred,
                )[fj];
            assert(s[si] == s.filter(pred)[fi]);
            assert(s[sj] == s.filter(pred)[fj]);
        }
    }
}

/// Law: whatever the option set, the filtered task list holds the
/// config-folder creation, the build-task file, the launch file and the
/// IntelliSense file; the folder is created before each of the three
/// files is written; and the build-task file, whose build entry's label
/// the launch file references, is written before the launch file.
pub proof fn lemma_pipeline_order(a: TaskArgs)
    ensures
        ({
            let l = task_order().filter(applicable_pred(a));
            &&& l.contains(TaskKind::CreateFolder)
            &&& l.contains(TaskKind::TasksJson)
            &&& l.contains(TaskKind::LaunchJson)
            &&& l.contains(TaskKind::CCppPropertiesJson)
            &&& forall|i: int, j: int|
                0 <= i < l.len() && 0 <= j < l.len() && l[i] == TaskKind::CreateFolder && (l[j]
                    == TaskKind::TasksJson || l[j] == TaskKind::LaunchJson || l[j]
                    == TaskKind::CCppPropertiesJson) ==> i < j
            &&& forall|i: int, j: int|
                0 <= i < l.len() && 0 <= j < l.len() && l[i] == TaskKind::TasksJson && l[j]
                    == TaskKind::LaunchJson ==> i < j
        }),
{
    let s = task_order();
    let pred = applicable_pred(a);
    let l = s.filter(pred);
    assert(pred(TaskKind::CreateFolder));
    assert(pred(TaskKind::TasksJson));
    assert(pred(TaskKind::LaunchJson));
    assert(pred(TaskKind::CCppPropertiesJson));
    s.filter_lemma(pred);
    assert(s[7] == TaskKind::CreateFolder && l.contains(TaskKind::CreateFolder));
    assert(s[8] == TaskKind::TasksJson && l.contains(TaskKind::TasksJson));
    assert(s[9] == TaskKind::LaunchJson && l.contains(TaskKind::LaunchJson));
    assert(s[10] == TaskKind::CCppPropertiesJson && l.contains(TaskKind::CCppPropertiesJson));
    assert forall|i: int, j: int|
        0 <= i < l.len() && 0 <= j < l.len() && l[i] == TaskKind::CreateFolder && (l[j]
            == TaskKind::TasksJson || l[j] == TaskKind::LaunchJson || l[j]
            == TaskKind::CCppPropertiesJson) implies i < j by {
        if j < i {
            lemma_filter_map_back(s, pred, j, i);
            let (sj, si) = choose|sj: int, si: int|
                0 <= sj < si < s.len() && s[sj] == l[j] && s[si] == l[i];
            assert(si == 7);
            assert(sj >= 8);
        } else if j == i {
        }
    }
    assert forall|i: int, j: int|
        0 <= i < l.len() && 0 <= j < l.len() && l[i] == TaskKind::TasksJson && l[j]
            == TaskKind::LaunchJson implies i < j by {
        if j < i {
            lemma_filter_map_back(s, pred, j, i);
            let (sj, si) = choose|sj: int, si: int|
                0 <= sj < si < s.len() && s[sj] == l[j] && s[si] == l[i];
            assert(si == 8);
            assert(sj == 9);
        } else if j == i {
        }
    }
}

/// Where a pipeline run stops: the position of the first failed task.
/// The runner performs the filtered tasks in order and halts at the
/// first failure, keeping what earlier tasks wrote; a run with no
/// failure completes.
pub fn first_failure(results: &Vec<bool>) -> (r: Option<usize>)
    ensures
        match r {
            Some(i) => i < results@.len() && !results@[i as int] && forall|j: int|
                0 <= j < i ==> results@[j],
            None => forall|j: int| 0 <= j < results@.len() ==> results@[j],
        },
{
    let mut i: usize = 0;
    while i < results.len()
        invariant
            i <= results@.len(),
            forall|j: int| 0 <= j < i ==> results@[j],
        decreases results@.len() - i,
    {
        if !results[i] {
            return Some(i);
        }
        i = i + 1;
    }
    None
}

/// The standard flag prefix of a family: `/std:` for MSVC, `-std=`
/// elsewhere.
pub open spec fn std_prefix(id: Id) -> Seq<char> {
    if id == Id::MSVC {
        "/std:"@
    } else {
        "-std="@
    }
}

/// Some argument already carries the standard flag prefix.
pub open spec fn has_std_arg(args: Seq<Seq<char>>, prefix: Seq<char>) -> bool {
    exists|i: int| 0 <= i < args.len() && starts_with_seq(#[trigger] args[i], prefix)
}

/// The argument list with a standard flag appended where none is
/// present.
pub open spec fn injected_args(args: Seq<Seq<char>>, prefix: Seq<char>, standard: Seq<char>)
    -> Seq<Seq<char>> {
    if has_std_arg(args, prefix) {
        args
    } else {
        args.push(prefix + standard)
    }
}

/// Injecting the standard flag twice appends it once: the second pass
/// sees the first pass's flag. Where the list held no flag, exactly the
/// last entry of the result carries the prefix.
pub proof fn lemma_inject_idempotent(args: Seq<Seq<char>>, prefix: Seq<char>, standard: Seq<char>)
    ensures
        injected_args(injected_args(args, prefix, standard), prefix, standard) == injected_args(
            args,
            prefix,
            standard,
        ),
        !has_std_arg(args, prefix) ==> {
            let out = injected_args(args, prefix, standard);
            &&& starts_with_seq(out[out.len() - 1], prefix)
            &&& forall|i: int| 0 <= i < out.len() - 1 ==> !starts_with_seq(#[trigger] out[i], prefix)
        },
{
    if !has_std_arg(args, prefix) {
        let out = args.push(prefix + standard);
        assert((prefix + standard).subrange(0, prefix.len() as int) =~= prefix);
        assert(starts_with_seq(out[out.len() - 1], prefix));
        assert(has_std_arg(out, prefix));
        assert forall|i: int| 0 <= i < out.len() - 1 implies !starts_with_seq(
            #[trigger] out[i],
            prefix,
        ) by {
            assert(out[i] == args[i]);
        }
    }
}

/// Appends a standard flag built from `prefix` and `standard` unless some
/// argument already starts with `prefix`.
pub fn inject_std_arg(args: Vec<String>, prefix: &str, standard: &str) -> (r: Vec<String>)
    ensures
        str_views(r@) == injected_args(str_views(args@), prefix@, standard@),
{
    let pv = to_chars(prefix);
    let mut i: usize = 0;
    while i < args.len()
        invariant
            i <= args@.len(),
            pv@ == prefix@,
            forall|j: int| 0 <= j < i ==> !starts_with_seq(#[trigger] str_views(args@)[j], prefix@),
        decreases args@.len() - i,
    {
        let av = to_chars(args[i].as_str());
        if check_starts_with(&av, &pv) {
            assert(starts_with_seq(str_views(args@)[i as int], prefix@));
            return args;
        }
        i = i + 1;
    }
    assert(!has_std_arg(str_views(args@), prefix@));
    let mut flag = String::from_str(prefix);
    flag.append(standard);
    let mut out = args;
    let ghost old_views = str_views(out@);
    out.push(flag);
    assert(str_views(out@) =~= old_views.push(prefix@ + standard@));
    out
}

/// The default standard for a family class and version; MSVC carries a
/// fixed default.
pub open spec fn default_standard(ty: CompilerType, version: Seq<char>, is_c: bool) -> Seq<char> {
    match ty {
        CompilerType::GCC => if is_c {
            stdchoose::gcc_std_spec(version).1
        } else {
            stdchoose::gcc_std_spec(version).0
        },
        CompilerType::LLVM => if is_c {
            stdchoose::clang_std_spec(version).1
        } else {
            stdchoose::clang_std_spec(version).0
        },
        CompilerType::MSVC => if is_c {
            "c17"@
        } else {
            "c++20"@
        },
    }
}

/// The standard a run resolves to: the user's explicit choice, else the
/// family's default for the record's version.
pub open spec fn chosen_standard(opts: Options, ty: CompilerType, version: Seq<char>, is_c: bool)
    -> Seq<char> {
    match opts.standard {
        Some(s) => s@,
        None => default_standard(ty, version, is_c),
    }
}

/// The real executable a family resolves a verified root to, for the
/// target language. For MSVC, `tool` is the version its marker file
/// names.
pub open spec fn exe_path_spec(id: Id, root: Seq<char>, is_c: bool, tool: Seq<char>) -> Seq<
    char,
> {
    match id {
        Id::MinGW => if is_c {
            mingw::bin_dir_of(root) + "\\"@ + "gcc.exe"@
        } else {
            mingw::bin_dir_of(root) + "\\"@ + "g++.exe"@
        },
        Id::LLVMMinGW => if is_c {
            mingw::bin_dir_of(root) + "\\"@ + "clang.exe"@
        } else {
            mingw::bin_dir_of(root) + "\\"@ + "clang++.exe"@
        },
        Id::GCC => gcc::gcc_exe_spec(root, is_c),
        Id::LLVM => llvm::llvm_exe_spec(root, is_c),
        Id::Apple => llvm::llvm_exe_spec(root, is_c),
        Id::MSVC => root + "\\VC\\Tools\\MSVC\\"@ + tool + "\\bin\\HostX64\\x64\\cl.exe"@,
    }
}

/// The path separator character of the system.
pub open spec fn sep_char(os: Os) -> char {
    if os is Windows {
        '\\'
    } else {
        '/'
    }
}

/// A path is absolute: on Windows a drive-letter or UNC path, elsewhere
/// one beginning at the root.
pub open spec fn is_absolute_path(os: Os, p: Seq<char>) -> bool {
    if os is Windows {
        (p.len() >= 3 && p[1] == ':' && (p[2] == '\\' || p[2] == '/')) || starts_with_seq(
            p,
            "\\\\"@,
        )
    } else {
        p.len() > 0 && p[0] == '/'
    }
}

/// The workspace made absolute against the current directory.
pub open spec fn abs_path_spec(os: Os, p: Seq<char>, current_dir: Seq<char>) -> Seq<char> {
    if is_absolute_path(os, p) {
        p
    } else {
        current_dir + seq![sep_char(os)] + p
    }
}

/// Makes `p` absolute against `current_dir`.
pub fn absolutize(os: Os, p: &str, current_dir: &str) -> (r: String)
    ensures
        r@ == abs_path_spec(os, p@, current_dir@),
{
    let cs = to_chars(p);
    let abs: bool = match os {
        Os::Windows => {
            let unc = to_chars("\\\\");
            proof {
                reveal_strlit("\\\\");
                assert("\\\\"@.len() == 2);
            }
            (cs.len() >= 3 && cs[1] == ':' && (cs[2] == '\\' || cs[2] == '/'))
                || crate::strutil::check_starts_with(&cs, &unc)
        },
        _ => cs.len() > 0 && cs[0] == '/',
    };
    if abs {
        String::from_str(p)
    } else {
        let mut s = String::from_str(current_dir);
        crate::strutil::push_char(&mut s, if matches!(os, Os::Windows) {
            '\\'
        } else {
            '/'
        });
        s.append(p);
        assert(s@ =~= abs_path_spec(os, p@, current_dir@));
        s
    }
}

/// Whether the resolver owes a test file, and under which name.
pub open spec fn test_file_spec(
    opts: Options,
    names: Seq<Seq<char>>,
    ext: Seq<char>,
    ws: Seq<char>,
    os: Os,
) -> Option<Seq<char>> {
    let wanted = match opts.test {
        Some(t) => t,
        None => !names.contains(candidate_name(ext, 0)),
    };
    if wanted {
        Some(ws + seq![sep_char(os)] + least_free_name(names, ext))
    } else {
        None
    }
}

/// The least free candidate name, as `filepath` finds it.
pub open spec fn least_free_name(names: Seq<Seq<char>>, ext: Seq<char>) -> Seq<char> {
    candidate_name(ext, choose|k: nat| is_least_free(names, ext, k))
}

/// The two resolution failures: a family not enabled on this system, and
/// an MSVC run without a readable tool version.
pub open spec fn resolve_err(init: TaskInitArgs, env_os: Os, has_tool: bool) -> Option<Seq<char>> {
    if !crate::compiler::enabled_ids(env_os).contains(init.compiler.setup) {
        Some("unknown compiler family on this system"@)
    } else if init.compiler.setup == Id::MSVC && !has_tool {
        Some("the MSVC tool version is unknown"@)
    } else {
        None
    }
}

/// Builds the shared argument bundle of a run: resolves the compiler
/// executable, infers a missing standard, injects the standard flag,
/// makes the workspace absolute and decides the test file. Fails exactly
/// where the record's family is not enabled on this system, or an MSVC
/// run has no tool version to pin.
pub fn resolve(init: TaskInitArgs, env: ResolveEnv) -> (r: Result<TaskArgs, &'static str>)
    ensures
        ({
            let is_c = (init.options.language@ == "C"@);
            let ext: Seq<char> = if is_c {
                "c"@
            } else {
                "cpp"@
            };
            let ty = id_type(init.compiler.setup);
            let std = chosen_standard(init.options, ty, init.compiler.version@, is_c);
            let prefix = std_prefix(init.compiler.setup);
            let ws = abs_path_spec(env.os, init.workspace@, env.current_dir@);
            let tool: Seq<char> = match env.msvc_tool_version {
                Some(t) => t@,
                None => ""@,
            };
            &&& r is Err <==> resolve_err(init, env.os, env.msvc_tool_version is Some) is Some
            &&& r matches Err(e) ==> Some(e@) == resolve_err(
                init,
                env.os,
                env.msvc_tool_version is Some,
            )
            &&& r matches Ok(a) ==> {
                &&& a.os == env.os
                &&& a.arch == env.arch
                &&& a.vscode@ == adjusted_path_spec(env.os, init.vscode@)
                &&& a.setup == init.compiler.setup
                &&& a.compiler_path@ == exe_path_spec(
                    init.compiler.setup,
                    init.compiler.path@,
                    is_c,
                    tool,
                )
                &&& a.workspace@ == ws
                &&& a.run_hotkey@ == init.options.run_hotkey@
                &&& a.compatible_mode == init.options.compatible_mode
                &&& a.is_c == is_c
                &&& a.file_ext@ == ext
                &&& a.standard@ == std
                &&& str_views(a.args@) == injected_args(
                    str_views(init.options.args@),
                    prefix,
                    std,
                )
                &&& a.ascii_check == init.options.ascii_check
                &&& a.remove_extensions == init.options.remove_extensions
                &&& a.add_to_path == init.options.add_to_path
                &&& a.open_vscode == init.options.open_vscode
                &&& (a.test_file is Some <==> test_file_spec(
                    init.options,
                    str_views(env.existing@),
                    ext,
                    ws,
                    env.os,
                ) is Some)
                &&& a.test_file matches Some(t) ==> Some(t@) == test_file_spec(
                    init.options,
                    str_views(env.existing@),
                    ext,
                    ws,
                    env.os,
                )
                &&& a.desktop_shortcut == init.options.desktop_shortcut
                &&& a.collect_data == init.options.collect_data
            }
        }),
{
    let is_c = crate::strutil::str_equal(init.options.language.as_str(), "C");
    let file_ext: &'static str = if is_c {
        "c"
    } else {
        "cpp"
    };
    proof {
        reveal_strlit("c");
        reveal_strlit("cpp");
    }
    // The record's family must be enabled here.
    let enabled = crate::compiler::enabled_setups(env.os);
    let mut found = false;
    let mut i: usize = 0;
    while i < enabled.len()
        invariant
            i <= enabled@.len(),
            enabled@.len() == crate::compiler::enabled_ids(env.os).len(),
            forall|k: int|
                0 <= k < enabled@.len() ==> (#[trigger] enabled@[k]).id
                    == crate::compiler::enabled_ids(env.os)[k],
            found == exists|k: int|
                0 <= k < i && crate::compiler::enabled_ids(env.os)[k] == init.compiler.setup,
        decreases enabled@.len() - i,
    {
        if enabled[i].id == init.compiler.setup {
            found = true;
            assert(crate::compiler::enabled_ids(env.os)[i as int] == init.compiler.setup);
        }
        i = i + 1;
    }
    if !found {
        assert(!crate::compiler::enabled_ids(env.os).contains(init.compiler.setup)) by {
            if crate::compiler::enabled_ids(env.os).contains(init.compiler.setup) {
                let k = choose|k: int|
                    0 <= k < crate::compiler::enabled_ids(env.os).len()
                        && crate::compiler::enabled_ids(env.os)[k] == init.compiler.setup;
                assert(crate::compiler::enabled_ids(env.os)[k] == init.compiler.setup);
            }
        }
        return Err("unknown compiler family on this system");
    }
    assert(crate::compiler::enabled_ids(env.os).contains(init.compiler.setup));
    // Resolve the real executable.
    let compiler_path: String = match init.compiler.setup {
        Id::MinGW => mingw::path_to_gcc(init.compiler.path.as_str(), is_c),
        Id::LLVMMinGW => mingw::path_to_clang(init.compiler.path.as_str(), is_c),
        Id::GCC => gcc::path_to_exe(init.compiler.path.as_str(), is_c),
        Id::LLVM => llvm::path_to_exe(init.compiler.path.as_str(), is_c),
        Id::Apple => llvm::path_to_exe(init.compiler.path.as_str(), is_c),
        Id::MSVC => {
            match &env.msvc_tool_version {
                Some(tool) => msvc::path_to_exe(init.compiler.path.as_str(), tool.as_str()),
                None => {
                    return Err("the MSVC tool version is unknown");
                },
            }
        },
    };
    // Infer the standard where none was asked for.
    let standard: String = match &init.options.standard {
        Some(s) => s.clone(),
        None => {
            let setup = crate::compiler::setup_of(init.compiler.setup);
            let pair: (&'static str, &'static str) = match setup.ty {
                CompilerType::GCC => stdchoose::gcc(init.compiler.version.as_str()),
                CompilerType::LLVM => stdchoose::clang(init.compiler.version.as_str()),
                CompilerType::MSVC => ("c++20", "c17"),
            };
            if is_c {
                String::from_str(pair.1)
            } else {
                String::from_str(pair.0)
            }
        },
    };
    // Append the standard flag where none is present.
    let prefix: &'static str = if matches!(init.compiler.setup, Id::MSVC) {
        "/std:"
    } else {
        "-std="
    };
    let args = inject_std_arg(init.options.args, prefix, standard.as_str());
    // Make the workspace absolute and decide the test file.
    let workspace = absolutize(env.os, init.workspace.as_str(), env.current_dir.as_str());
    let wanted: bool = match init.options.test {
        Some(t) => t,
        None => {
            let first = crate::tasks::test::candidate_first(file_ext);
            !crate::strutil::contains_string(&env.existing, first.as_str())
        },
    };
    let test_file: Option<String> = if wanted {
        let name = filepath(file_ext, &env.existing);
        let mut full = workspace.clone();
        crate::strutil::push_char(&mut full, if matches!(env.os, Os::Windows) {
            '\\'
        } else {
            '/'
        });
        full.append(name.as_str());
        proof {
            let names = str_views(env.existing@);
            let k = choose|k: nat|
                is_least_free(names, file_ext@, k) && name@ == candidate_name(file_ext@, k);
            let k0 = choose|k: nat| is_least_free(names, file_ext@, k);
            assert(is_least_free(names, file_ext@, k0));
            assert(k == k0) by {
                if k < k0 {
                    assert(names.contains(candidate_name(file_ext@, k)));
                } else if k0 < k {
                    assert(names.contains(candidate_name(file_ext@, k0)));
                }
            }
            assert(full@ =~= workspace@ + seq![sep_char(env.os)] + least_free_name(
                names,
                file_ext@,
            ));
        }
        Some(full)
    } else {
        None
    };
    let vscode = crate::vscode::adjust_path(env.os, init.vscode.as_str());
    Ok(
        TaskArgs {
            os: env.os,
            arch: env.arch,
            vscode,
            setup: init.compiler.setup,
            compiler_path,
            workspace,
            run_hotkey: init.options.run_hotkey,
            compatible_mode: init.options.compatible_mode,
            is_c,
            file_ext,
            standard,
            args,
            ascii_check: init.options.ascii_check,
            remove_extensions: init.options.remove_extensions,
            add_to_path: init.options.add_to_path,
            open_vscode: init.options.open_vscode,
            test_file,
            desktop_shortcut: init.options.desktop_shortcut,
            collect_data: init.options.collect_data,
        },
    )
}

/// The new persistent user `Path` an add-to-path run writes, if any:
/// nothing where the machine `Path` already lists the compiler's folder;
/// else the folder, then the user entries that are not the folder.
pub open spec fn new_user_path_spec(dir: Seq<char>, user_path: Seq<char>) -> Seq<char> {
    join_char_spec(
        seq![dir] + crate::tasks::extension::without_id(split_char_spec(user_path, ';'), dir),
        ';',
    )
}

/// Decides the add-to-path change. `compiler_dir` is the compiler's
/// folder; `user_path` and `machine_path` are the persistent environment
/// values (empty where unset). Nothing is written where the machine
/// `Path` already lists the folder; else the new user `Path` puts the
/// folder first and drops its older occurrences.
pub fn add_to_path(compiler_dir: &str, user_path: &str, machine_path: &str) -> (r: Option<String>)
    ensures
        r is None <==> split_char_spec(machine_path@, ';').contains(compiler_dir@),
        r matches Some(p) ==> p@ == new_user_path_spec(compiler_dir@, user_path@),
{
    let dirv = to_chars(compiler_dir);
    let mcs = to_chars(machine_path);
    let mparts = split_by_char(&mcs, ';');
    let mut i: usize = 0;
    let ghost mviews = split_char_spec(machine_path@, ';');
    while i < mparts.len()
        invariant
            i <= mparts@.len(),
            dirv@ == compiler_dir@,
            crate::strutil::char_views(mparts@) == mviews,
            forall|j: int| 0 <= j < i ==> mviews[j] != compiler_dir@,
        decreases mparts@.len() - i,
    {
        if crate::strutil::chars_equal(&mparts[i], &dirv) {
            assert(mviews[i as int] == compiler_dir@);
            return None;
        }
        i = i + 1;
    }
    assert(!mviews.contains(compiler_dir@)) by {
        if mviews.contains(compiler_dir@) {
            let k = choose|k: int| 0 <= k < mviews.len() && mviews[k] == compiler_dir@;
            assert(mviews[k] == compiler_dir@);
        }
    }
    let ucs = to_chars(user_path);
    let uparts = split_by_char(&ucs, ';');
    let ghost uviews = split_char_spec(user_path@, ';');
    let mut entries: Vec<String> = Vec::new();
    entries.push(String::from_str(compiler_dir));
    let mut k: usize = 0;
    proof {
        reveal(Seq::filter);
        assert(uviews.subrange(0, 0) =~= Seq::<Seq<char>>::empty());
        assert(str_views(entries@) =~= seq![compiler_dir@]
            + crate::tasks::extension::without_id(uviews.subrange(0, 0), compiler_dir@));
    }
    while k < uparts.len()
        invariant
            k <= uparts@.len(),
            dirv@ == compiler_dir@,
            crate::strutil::char_views(uparts@) == uviews,
            str_views(entries@) == seq![compiler_dir@] + crate::tasks::extension::without_id(
                uviews.subrange(0, k as int),
                compiler_dir@,
            ),
        decreases uparts@.len() - k,
    {
        let ghost pre = uviews.subrange(0, k as int);
        if !crate::strutil::chars_equal(&uparts[k], &dirv) {
            let ghost before = str_views(entries@);
            entries.push(crate::strutil::from_chars(&uparts[k]));
            proof {
                assert(str_views(entries@) =~= before.push(uviews[k as int]));
            }
        }
        k = k + 1;
        proof {
            reveal(Seq::filter);
            let post = uviews.subrange(0, k as int);
            assert(post.drop_last() =~= pre);
            assert(post.last() == uviews[k - 1]);
        }
    }
    proof {
        assert(uviews.subrange(0, uviews.len() as int) =~= uviews);
    }
    Some(join_strings(&entries, ';'))
}

/// The editor's command-line arguments for opening the workspace,
/// jumping to the test file where one was generated.
pub fn open(workspace: &str, test_file: &Option<String>) -> (r: Vec<String>)
    ensures
        test_file is None ==> str_views(r@) == seq![workspace@],
        test_file matches Some(t) ==> str_views(r@) == seq![workspace@, "--goto"@, t@],
{
    let mut r: Vec<String> = Vec::new();
    r.push(String::from_str(workspace));
    match test_file {
        None => {
            assert(str_views(r@) =~= seq![workspace@]);
        },
        Some(t) => {
            r.push(String::from_str("--goto"));
            r.push(t.clone());
            assert(str_views(r@) =~= seq![workspace@, "--goto"@, t@]);
        },
    }
    r
}

/// The desktop shortcut's target: the editor binary two folders above
/// the CLI launcher.
pub fn shortcut_target(vscode: &str) -> (r: String)
    ensures
        r@ == parent_of(parent_of(vscode@)) + "\\Code.exe"@,
{
    let p1 = parent_dir(vscode);
    let mut p2 = parent_dir(p1.as_str());
    p2.append("\\Code.exe");
    p2
}

/// The desktop shortcut's description.
pub fn shortcut_description(workspace: &str) -> (r: String)
    ensures
        r@ == "Open VS Code at "@ + workspace@,
{
    let mut s = String::from_str("Open VS Code at ");
    s.append(workspace);
    s
}

/// The desktop shortcut's argument: the workspace, quoted.
pub fn shortcut_args(workspace: &str) -> (r: String)
    ensures
        r@ == "\""@ + workspace@ + "\""@,
{
    let mut s = String::from_str("\"");
    s.append(workspace);
    s.append("\"");
    s
}

} // verus!
