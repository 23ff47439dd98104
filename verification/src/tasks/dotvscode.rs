//! The editor configuration documents written under the workspace's
//! config folder: the build-task file, the debug-launch file, and the
//! IntelliSense properties file. The documents are built here as typed
//! values with exact contracts; serializing and writing them is the
//! caller's part.

use vstd::prelude::*;

use super::TaskArgs;
use crate::compiler::{id_type, CompilerType, Id};
use crate::strutil::{
    check_starts_with, lower_seq, parent_dir, parent_of, starts_with_seq, str_views, to_chars,
    to_lower,
};
use crate::sysctl::Arch;
use crate::Os;

verus! {

/// The executable extension of produced binaries, as the generated
/// commands name it.
pub open spec fn exe_ext_spec(os: Os) -> Seq<char> {
    if os is Windows {
        "exe"@
    } else {
        "out"@
    }
}

/// The path slash the generated commands use.
pub open spec fn slash_spec(os: Os) -> Seq<char> {
    if os is Windows {
        "\\"@
    } else {
        "/"@
    }
}

/// The search-path separator of the system.
pub open spec fn path_sep_spec(os: Os) -> Seq<char> {
    if os is Windows {
        ";"@
    } else {
        ":"@
    }
}

/// The templated path of the binary built from the current file.
pub open spec fn output_template_spec(os: Os) -> Seq<char> {
    "${fileDirname}"@ + slash_spec(os) + "${fileBasenameNoExtension}."@ + exe_ext_spec(os)
}

/// The templated output path of the current file's binary.
pub fn output_template(os: Os) -> (r: String)
    ensures
        r@ == output_template_spec(os),
{
    let mut s = String::from_str("${fileDirname}");
    match os {
        Os::Windows => s.append("\\"),
        _ => s.append("/"),
    }
    s.append("${fileBasenameNoExtension}.");
    match os {
        Os::Windows => s.append("exe"),
        _ => s.append("out"),
    }
    assert(s@ =~= output_template_spec(os));
    s
}

/// One task entry of the build-task file.
#[derive(Clone, Debug)]
pub struct TaskEntry {
    /// The entry's execution type: `shell`, `process` or `pause-console`.
    pub task_type: String,
    /// The label other entries and the launch file refer to.
    pub label: String,
    pub command: String,
    pub args: Vec<String>,
    /// MSVC only: the command line additionally ends with an escaped
    /// double quote, closing the quote opened before the environment
    /// batch script.
    pub append_escaped_quote: bool,
    /// The label of the entry this one depends on.
    pub depends_on: Option<String>,
    /// A `Path` value placed in the entry's environment.
    pub env_path: Option<String>,
    /// The problem matcher, where the entry has one.
    pub problem_matcher: Option<String>,
}

/// The options block of the build-task file.
pub enum FileOptions {
    /// No override.
    Plain,
    /// MSVC: a shell override loading the toolchain environment before
    /// the command.
    Shell { executable: String, args: Vec<String> },
    /// MinGW: the compiler's folder prepended to the search path.
    EnvPath { path: String },
}

/// The build-task file.
pub struct TasksFile {
    pub tasks: Vec<TaskEntry>,
    pub options: FileOptions,
}

/// Some argument already sets the execution character set.
pub open spec fn has_charset_arg(args: Seq<Seq<char>>) -> bool {
    exists|i: int|
        0 <= i < args.len() && starts_with_seq(#[trigger] args[i], "/execution-charset"@)
}

/// The compiler arguments of the build task: debug info, the current
/// file, the templated output, MSVC's character-set flags, then the
/// user's arguments (which carry the standard flag).
pub open spec fn build_args_spec(a: TaskArgs) -> Seq<Seq<char>> {
    let msvc = a.setup == Id::MSVC;
    let head: Seq<Seq<char>> = seq![
        if msvc {
            "/Zi"@
        } else {
            "-g"@
        },
        "${file}"@,
        if msvc {
            "/Fe:"@
        } else {
            "-o"@
        },
        output_template_spec(a.os),
    ];
    let mid: Seq<Seq<char>> = if msvc {
        if has_charset_arg(str_views(a.args@)) {
            seq!["/EHsc"@, "/source-charset:utf-8"@]
        } else {
            seq!["/EHsc"@, "/execution-charset:utf-8"@, "/source-charset:utf-8"@]
        }
    } else {
        Seq::empty()
    };
    head + mid + str_views(a.args@)
}

/// The build task: one compilation of the current file, the default
/// build-group entry, labeled `single file build`.
pub fn single_file_build_task(a: &TaskArgs) -> (r: TaskEntry)
    ensures
        r.label@ == "single file build"@,
        r.task_type@ == if a.setup == Id::MSVC {
            "shell"@
        } else {
            "process"@
        },
        r.command@ == if a.setup == Id::MSVC {
            "cl.exe"@
        } else {
            a.compiler_path@
        },
        str_views(r.args@) == build_args_spec(*a),
        r.append_escaped_quote == (a.setup == Id::MSVC),
        r.depends_on is None,
        r.env_path is None,
        r.problem_matcher matches Some(m) && m@ == if a.setup == Id::MSVC {
            "$msCompile"@
        } else {
            "$gcc"@
        },
{
    let msvc = matches!(a.setup, Id::MSVC);
    let mut args: Vec<String> = Vec::new();
    args.push(String::from_str(if msvc {
        "/Zi"
    } else {
        "-g"
    }));
    args.push(String::from_str("${file}"));
    args.push(String::from_str(if msvc {
        "/Fe:"
    } else {
        "-o"
    }));
    args.push(output_template(a.os));
    if msvc {
        args.push(String::from_str("/EHsc"));
        let pat = to_chars("/execution-charset");
        let mut has_charset = false;
        let mut i: usize = 0;
        while i < a.args.len()
            invariant
                i <= a.args@.len(),
                pat@ == "/execution-charset"@,
                has_charset == exists|j: int|
                    0 <= j < i && starts_with_seq(
                        #[trigger] str_views(a.args@)[j],
                        "/execution-charset"@,
                    ),
            decreases a.args@.len() - i,
        {
            let av = to_chars(a.args[i].as_str());
            if check_starts_with(&av, &pat) {
                has_charset = true;
                assert(starts_with_seq(str_views(a.args@)[i as int], "/execution-charset"@));
            }
            i = i + 1;
        }
        if !has_charset {
            args.push(String::from_str("/execution-charset:utf-8"));
        }
        args.push(String::from_str("/source-charset:utf-8"));
    }
    let mut i: usize = 0;
    let ghost base = str_views(args@);
    while i < a.args.len()
        invariant
            i <= a.args@.len(),
            str_views(args@) == base + str_views(a.args@).subrange(0, i as int),
        decreases a.args@.len() - i,
    {
        let ghost prev = str_views(args@);
        args.push(a.args[i].clone());
        proof {
            assert(str_views(args@) =~= prev.push(str_views(a.args@)[i as int]));
        }
        i = i + 1;
        assert(str_views(args@) =~= base + str_views(a.args@).subrange(0, i as int));
    }
    proof {
        assert(str_views(a.args@).subrange(0, a.args@.len() as int) =~= str_views(a.args@));
        assert(str_views(args@) =~~= build_args_spec(*a));
    }
    TaskEntry {
        task_type: String::from_str(if msvc {
            "shell"
        } else {
            "process"
        }),
        label: String::from_str("single file build"),
        command: if msvc {
            String::from_str("cl.exe")
        } else {
            a.compiler_path.clone()
        },
        args,
        append_escaped_quote: msvc,
        depends_on: None,
        env_path: None,
        problem_matcher: Some(String::from_str(if msvc {
            "$msCompile"
        } else {
            "$gcc"
        })),
    }
}

/// The search-path value that puts the compiler's folder first.
pub open spec fn path_prepend_spec(a: TaskArgs) -> Seq<char> {
    parent_of(a.compiler_path@) + path_sep_spec(a.os) + "${env:Path}"@
}

/// The compiler's folder prepended to the environment search path.
pub fn path_prepend(a: &TaskArgs) -> (r: String)
    ensures
        r@ == path_prepend_spec(*a),
{
    let mut s = parent_dir(a.compiler_path.as_str());
    match a.os {
        Os::Windows => s.append(";"),
        _ => s.append(":"),
    }
    s.append("${env:Path}");
    assert(s@ =~= path_prepend_spec(*a));
    s
}

/// The "run and pause" task: it runs the binary the build task made, so
/// it depends on the build task's label; for the MinGW families the
/// toolchain folder joins the search path.
pub fn pause_task(a: &TaskArgs) -> (r: TaskEntry)
    ensures
        r.label@ == "run and pause"@,
        r.task_type@ == "pause-console"@,
        r.command@ == output_template_spec(a.os),
        str_views(r.args@) == Seq::<Seq<char>>::empty(),
        r.depends_on matches Some(d) && d@ == "single file build"@,
        (a.setup == Id::MinGW || a.setup == Id::LLVMMinGW) ==> (r.env_path matches Some(p) && p@
            == path_prepend_spec(*a)),
        !(a.setup == Id::MinGW || a.setup == Id::LLVMMinGW) ==> r.env_path is None,
        !r.append_escaped_quote,
        r.problem_matcher is None,
{
    let mingw = matches!(a.setup, Id::MinGW) || matches!(a.setup, Id::LLVMMinGW);
    let args: Vec<String> = Vec::new();
    assert(str_views(args@) =~= Seq::<Seq<char>>::empty());
    TaskEntry {
        task_type: String::from_str("pause-console"),
        label: String::from_str("run and pause"),
        command: output_template(a.os),
        args,
        append_escaped_quote: false,
        depends_on: Some(String::from_str("single file build")),
        env_path: if mingw {
            Some(path_prepend(a))
        } else {
            None
        },
        problem_matcher: None,
    }
}

/// The arguments of the non-ASCII file name check.
pub open spec fn ascii_check_args_spec(checker: Seq<char>) -> Seq<Seq<char>> {
    seq![
        "-ExecutionPolicy"@,
        "ByPass"@,
        "-NoProfile"@,
        "-File"@,
        checker,
        "${fileDirname}\\${fileBasenameNoExtension}.exe"@,
    ]
}

/// The non-ASCII file name check, run by the system's script host after
/// the build task it depends on. `checker` is where the checker script
/// was installed.
pub fn ascii_check_task(checker: &str) -> (r: TaskEntry)
    ensures
        r.label@ == "ascii check"@,
        r.task_type@ == "process"@,
        r.command@ == "C:\\Windows\\system32\\WindowsPowerShell\\v1.0\\powershell.exe"@,
        str_views(r.args@) == ascii_check_args_spec(checker@),
        r.depends_on matches Some(d) && d@ == "single file build"@,
        r.env_path is None,
        !r.append_escaped_quote,
        r.problem_matcher is None,
{
    let mut args: Vec<String> = Vec::new();
    args.push(String::from_str("-ExecutionPolicy"));
    args.push(String::from_str("ByPass"));
    args.push(String::from_str("-NoProfile"));
    args.push(String::from_str("-File"));
    args.push(String::from_str(checker));
    args.push(String::from_str("${fileDirname}\\${fileBasenameNoExtension}.exe"));
    assert(str_views(args@) =~= ascii_check_args_spec(checker@));
    TaskEntry {
        task_type: String::from_str("process"),
        label: String::from_str("ascii check"),
        command: String::from_str("C:\\Windows\\system32\\WindowsPowerShell\\v1.0\\powershell.exe"),
        args,
        append_escaped_quote: false,
        depends_on: Some(String::from_str("single file build")),
        env_path: None,
        problem_matcher: None,
    }
}

/// The quoted environment batch script argument of the MSVC shell
/// override.
pub open spec fn vcvars_arg_spec(a: TaskArgs) -> Seq<char> {
    "\"\""@ + a.compiler_path@ + "\\..\\..\\..\\..\\..\\..\\..\\Auxiliary\\Build\\vcvars64.bat\""@
}

/// Builds the build-task file: the build entry, then (outside compatible
/// mode) the pause entry, then (with the ASCII check on) the check
/// entry; plus the platform options block.
pub fn tasks_json(a: &TaskArgs, checker: &str) -> (r: TasksFile)
    ensures
        r.tasks@.len() == 1 + (if !a.compatible_mode {
            1int
        } else {
            0
        }) + (if a.ascii_check {
            1int
        } else {
            0
        }),
        r.tasks@[0].label@ == "single file build"@,
        str_views(r.tasks@[0].args@) == build_args_spec(*a),
        !a.compatible_mode ==> r.tasks@[1].label@ == "run and pause"@ && (r.tasks@[1].depends_on
            matches Some(d) && d@ == "single file build"@),
        a.ascii_check ==> {
            let k: int = if !a.compatible_mode {
                2
            } else {
                1
            };
            r.tasks@[k].label@ == "ascii check"@ && (r.tasks@[k].depends_on matches Some(d) && d@
                == "single file build"@)
        },
        a.os is Windows && a.setup == Id::MSVC ==> (r.options matches FileOptions::Shell {
            executable,
            args,
        } && executable@ == "C:\\Windows\\System32\\cmd.exe"@ && str_views(args@) == seq![
            "/S"@,
            "/C"@,
            vcvars_arg_spec(*a),
            "&&"@,
        ]),
        a.os is Windows && (a.setup == Id::MinGW || a.setup == Id::LLVMMinGW) ==> (r.options
            matches FileOptions::EnvPath { path } && path@ == path_prepend_spec(*a)),
        !(a.os is Windows) || !(a.setup == Id::MSVC || a.setup == Id::MinGW || a.setup
            == Id::LLVMMinGW) ==> r.options is Plain,
{
    let mut tasks: Vec<TaskEntry> = Vec::new();
    tasks.push(single_file_build_task(a));
    if !a.compatible_mode {
        tasks.push(pause_task(a));
    }
    if a.ascii_check {
        tasks.push(ascii_check_task(checker));
    }
    let options: FileOptions = match a.os {
        Os::Windows => {
            if matches!(a.setup, Id::MSVC) {
                let mut vcvars = String::from_str("\"\"");
                vcvars.append(a.compiler_path.as_str());
                vcvars.append(
                    "\\..\\..\\..\\..\\..\\..\\..\\Auxiliary\\Build\\vcvars64.bat\"",
                );
                let mut sh_args: Vec<String> = Vec::new();
                sh_args.push(String::from_str("/S"));
                sh_args.push(String::from_str("/C"));
                sh_args.push(vcvars);
                sh_args.push(String::from_str("&&"));
                assert(str_views(sh_args@) =~~= seq![
                    "/S"@,
                    "/C"@,
                    vcvars_arg_spec(*a),
                    "&&"@,
                ]);
                FileOptions::Shell {
                    executable: String::from_str("C:\\Windows\\System32\\cmd.exe"),
                    args: sh_args,
                }
            } else if matches!(a.setup, Id::MinGW) || matches!(a.setup, Id::LLVMMinGW) {
                FileOptions::EnvPath { path: path_prepend(a) }
            } else {
                FileOptions::Plain
            }
        },
        _ => FileOptions::Plain,
    };
    TasksFile { tasks, options }
}

/// The debug-launch file: one launch configuration.
pub struct LaunchFile {
    /// The debugger backend: `cppdbg`, `lldb` or `cppvsdbg`.
    pub debug_type: String,
    /// The templated path of the program to debug.
    pub program: String,
    /// The `PATH` value pointing at the toolchain folder.
    pub env_path: String,
    /// The debugger flavor of the `cppdbg` backend.
    pub mi_mode: String,
    /// The debugger binary's path.
    pub mi_debugger_path: String,
    /// `cppdbg`: whether an external console opens.
    pub external_console: Option<bool>,
    /// Other backends: the console setting `externalTerminal`.
    pub console_external_terminal: bool,
    /// The task run before launching: the check where enabled, else the
    /// build.
    pub pre_launch_task: String,
    /// `cppdbg`: enable the pretty-printing setup block.
    pub setup_commands: bool,
}

/// The debugger base name of a family class.
pub open spec fn debugger_name_spec(ty: CompilerType) -> Seq<char> {
    match ty {
        CompilerType::GCC => "gdb"@,
        CompilerType::LLVM => "lldb"@,
        CompilerType::MSVC => ""@,
    }
}

/// The launch configuration's debug type of a family class.
pub open spec fn debug_type_spec(ty: CompilerType) -> Seq<char> {
    match ty {
        CompilerType::GCC => "cppdbg"@,
        CompilerType::LLVM => "lldb"@,
        CompilerType::MSVC => "cppvsdbg"@,
    }
}

/// The debugger binary's path: the debugger beside the compiler, with
/// the system's executable suffix.
pub open spec fn debugger_path_spec(a: TaskArgs) -> Seq<char> {
    parent_of(a.compiler_path@) + slash_spec(a.os) + debugger_name_spec(id_type(a.setup)) + (if a.os
        is Windows {
        ".exe"@
    } else {
        ""@
    })
}

/// The `PATH` override pointing at the toolchain folder.
pub open spec fn launch_env_path_spec(a: TaskArgs) -> Seq<char> {
    parent_of(a.compiler_path@) + path_sep_spec(a.os) + "${env:PATH}"@
}

/// Builds the debug-launch file.
pub fn launch_json(a: &TaskArgs) -> (r: LaunchFile)
    ensures
        r.debug_type@ == debug_type_spec(id_type(a.setup)),
        r.program@ == output_template_spec(a.os),
        r.env_path@ == launch_env_path_spec(*a),
        r.mi_mode@ == debugger_name_spec(id_type(a.setup)),
        r.mi_debugger_path@ == debugger_path_spec(*a),
        id_type(a.setup) == CompilerType::GCC ==> r.external_console == Some(!a.compatible_mode)
            && r.setup_commands,
        id_type(a.setup) != CompilerType::GCC ==> r.external_console is None
            && r.console_external_terminal && !r.setup_commands,
        r.pre_launch_task@ == if a.ascii_check {
            "ascii check"@
        } else {
            "single file build"@
        },
{
    let ty = crate::compiler::setup_of(a.setup).ty;
    let debugger_name: &'static str = match ty {
        CompilerType::GCC => "gdb",
        CompilerType::LLVM => "lldb",
        CompilerType::MSVC => "",
    };
    let debug_type: &'static str = match ty {
        CompilerType::GCC => "cppdbg",
        CompilerType::LLVM => "lldb",
        CompilerType::MSVC => "cppvsdbg",
    };
    let bin_path = parent_dir(a.compiler_path.as_str());
    let mut debugger_path = bin_path.clone();
    match a.os {
        Os::Windows => debugger_path.append("\\"),
        _ => debugger_path.append("/"),
    }
    debugger_path.append(debugger_name);
    match a.os {
        Os::Windows => debugger_path.append(".exe"),
        _ => debugger_path.append(""),
    }
    let mut env_path = bin_path;
    match a.os {
        Os::Windows => env_path.append(";"),
        _ => env_path.append(":"),
    }
    env_path.append("${env:PATH}");
    let is_gcc = matches!(ty, CompilerType::GCC);
    proof {
        assert(debugger_path@ =~= debugger_path_spec(*a));
        assert(env_path@ =~= launch_env_path_spec(*a));
    }
    LaunchFile {
        debug_type: String::from_str(debug_type),
        program: output_template(a.os),
        env_path,
        mi_mode: String::from_str(debugger_name),
        mi_debugger_path: debugger_path,
        external_console: if is_gcc {
            Some(!a.compatible_mode)
        } else {
            None
        },
        console_external_terminal: !is_gcc,
        pre_launch_task: String::from_str(if a.ascii_check {
            "ascii check"
        } else {
            "single file build"
        }),
        setup_commands: is_gcc,
    }
}

/// The IntelliSense properties file.
pub struct PropertiesFile {
    /// The configuration name of the system: `Win32`, `Mac` or `Linux`.
    pub name: String,
    pub compiler_path: String,
    /// Whether the standard goes under the `cStandard` key (else
    /// `cppStandard`).
    pub standard_is_c: bool,
    /// The standard, lower-cased.
    pub standard: String,
    /// The IntelliSense mode: system, compiler class and architecture.
    pub intellisense_mode: String,
}

/// The configuration name of each system.
pub open spec fn platform_name_spec(os: Os) -> Seq<char> {
    match os {
        Os::Windows => "Win32"@,
        Os::MacOs => "Mac"@,
        Os::Linux => "Linux"@,
    }
}

/// The IntelliSense mode: `<os>-<compiler>-<arch>`.
pub open spec fn intellisense_mode_spec(os: Os, ty: CompilerType, arch: Arch) -> Seq<char> {
    let osn: Seq<char> = match os {
        Os::Windows => "windows"@,
        Os::MacOs => "macos"@,
        Os::Linux => "linux"@,
    };
    let cn: Seq<char> = match ty {
        CompilerType::GCC => "gcc"@,
        CompilerType::LLVM => "clang"@,
        CompilerType::MSVC => "msvc"@,
    };
    let an: Seq<char> = if os is MacOs && arch is Aarch64 {
        "arm64"@
    } else {
        "x64"@
    };
    osn + "-"@ + cn + "-"@ + an
}

/// Builds the IntelliSense properties file.
pub fn c_cpp_properties_json(a: &TaskArgs) -> (r: PropertiesFile)
    ensures
        r.name@ == platform_name_spec(a.os),
        r.compiler_path@ == a.compiler_path@,
        r.standard_is_c == a.is_c,
        r.standard@ == lower_seq(a.standard@),
        r.intellisense_mode@ == intellisense_mode_spec(a.os, id_type(a.setup), a.arch),
{
    let ty = crate::compiler::setup_of(a.setup).ty;
    let name: &'static str = match a.os {
        Os::Windows => "Win32",
        Os::MacOs => "Mac",
        Os::Linux => "Linux",
    };
    let mut mode = String::from_str(match a.os {
        Os::Windows => "windows",
        Os::MacOs => "macos",
        Os::Linux => "linux",
    });
    mode.append("-");
    mode.append(match ty {
        CompilerType::GCC => "gcc",
        CompilerType::LLVM => "clang",
        CompilerType::MSVC => "msvc",
    });
    mode.append("-");
    let arm = matches!(a.os, Os::MacOs) && matches!(a.arch, Arch::Aarch64);
    mode.append(if arm {
        "arm64"
    } else {
        "x64"
    });
    let std_chars = to_chars(a.standard.as_str());
    let lowered = to_lower(&std_chars);
    proof {
        assert(mode@ =~= intellisense_mode_spec(a.os, id_type(a.setup), a.arch));
    }
    PropertiesFile {
        name: String::from_str(name),
        compiler_path: a.compiler_path.clone(),
        standard_is_c: a.is_c,
        standard: crate::strutil::from_chars(&lowered),
        intellisense_mode: mode,
    }
}

} // verus!
