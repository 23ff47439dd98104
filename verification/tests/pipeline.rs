use vscch::compiler::{setup_of, Compiler, Id};
use vscch::options::Options;
use vscch::sysctl::Arch;
use vscch::tasks::{
    add_to_path, inject_std_arg, list, open, resolve, ResolveEnv, TaskArgs, TaskInitArgs,
    TaskKind,
};
use vscch::Os;

fn plain_options() -> Options {
    Options {
        compatible_mode: false,
        language: String::from("C++"),
        standard: None,
        args: Vec::new(),
        run_hotkey: String::from("f6"),
        ascii_check: false,
        remove_extensions: false,
        add_to_path: true,
        open_vscode: false,
        test: None,
        desktop_shortcut: false,
        collect_data: true,
    }
}

fn linux_env() -> ResolveEnv {
    ResolveEnv {
        os: Os::Linux,
        arch: Arch::X64,
        current_dir: String::from("/home/user"),
        existing: Vec::new(),
        msvc_tool_version: None,
    }
}

fn gcc_record() -> Compiler {
    let setup = setup_of(Id::GCC);
    Compiler::new(
        &setup,
        "/usr/bin/g++",
        "g++ (Ubuntu 9.3.0-17ubuntu1~20.04) 9.3.0",
    )
    .unwrap()
}

fn sample_args() -> TaskArgs {
    TaskArgs {
        os: Os::Linux,
        arch: Arch::X64,
        vscode: String::from("/usr/bin/code"),
        setup: Id::GCC,
        compiler_path: String::from("/usr/bin/g++"),
        workspace: String::from("/work"),
        run_hotkey: String::from("f6"),
        compatible_mode: false,
        is_c: false,
        file_ext: "cpp",
        standard: String::from("c++17"),
        args: vec![String::from("-std=c++17")],
        ascii_check: true,
        remove_extensions: false,
        add_to_path: false,
        open_vscode: false,
        test_file: None,
        desktop_shortcut: false,
        collect_data: false,
    }
}

#[test]
fn inject_appends_exactly_one_standard_flag() {
    let out = inject_std_arg(Vec::new(), "-std=", "c++17");
    assert_eq!(out, vec![String::from("-std=c++17")]);
    // A second pass sees the first pass's flag.
    let twice = inject_std_arg(out.clone(), "-std=", "c++17");
    assert_eq!(twice, out);
    let std_count = twice.iter().filter(|a| a.starts_with("-std=")).count();
    assert_eq!(std_count, 1);
}

#[test]
fn inject_honors_existing_flag() {
    let out = inject_std_arg(vec![String::from("-std=c++2a")], "-std=", "c++17");
    assert_eq!(out, vec![String::from("-std=c++2a")]);
}

#[test]
fn filepath_prefers_plain_name() {
    let existing: Vec<String> = Vec::new();
    assert_eq!(vscch::tasks::test::filepath("cpp", &existing), "helloworld.cpp");
}

#[test]
fn filepath_appends_suffix_on_collision() {
    let existing = vec![String::from("helloworld.cpp")];
    assert_eq!(vscch::tasks::test::filepath("cpp", &existing), "helloworld(1).cpp");
}

#[test]
fn filepath_skips_all_taken_suffixes() {
    let existing = vec![
        String::from("helloworld.cpp"),
        String::from("helloworld(1).cpp"),
    ];
    assert_eq!(vscch::tasks::test::filepath("cpp", &existing), "helloworld(2).cpp");
}

#[test]
fn pipeline_keeps_declaration_order() {
    let args = sample_args();
    let tasks = list(&args);
    let pos = |k: TaskKind| tasks.iter().position(|t| *t == k).unwrap();
    assert!(pos(TaskKind::CreateFolder) < pos(TaskKind::TasksJson));
    assert!(pos(TaskKind::TasksJson) < pos(TaskKind::LaunchJson));
    assert!(pos(TaskKind::LaunchJson) < pos(TaskKind::CCppPropertiesJson));
    // Default option set: no compatible mode, ascii check on.
    assert!(tasks.contains(&TaskKind::InstallPauser));
    assert!(tasks.contains(&TaskKind::CreateKeybinding));
    assert!(tasks.contains(&TaskKind::CreateChecker));
    assert!(!tasks.contains(&TaskKind::RemoveUnrecommended));
    assert!(!tasks.contains(&TaskKind::CreateShortcut));
}

#[test]
fn task_names_follow_the_table() {
    assert_eq!(TaskKind::TasksJson.name(), "dotvscode::tasks_json");
    assert_eq!(TaskKind::SendStatistics.name(), "statistics::send");
}

#[test]
fn end_to_end_gcc_cpp_run() {
    // family GCC, version 9.3.0, no explicit standard, C++, empty
    // workspace, no compatible mode, no ascii check.
    let init = TaskInitArgs {
        vscode: String::from("/usr/bin/code"),
        compiler: gcc_record(),
        workspace: String::from("/work"),
        options: plain_options(),
    };
    let a = resolve(init, linux_env()).unwrap();
    assert_eq!(a.standard, "c++17");
    assert!(a.args.contains(&String::from("-std=c++17")));
    assert_eq!(a.test_file, Some(String::from("/work/helloworld.cpp")));
    assert_eq!(a.compiler_path, "/usr/bin/g++");
    assert_eq!(a.workspace, "/work");
    let tasks = list(&a);
    assert!(tasks.contains(&TaskKind::InstallPauser));
    assert!(tasks.contains(&TaskKind::CreateKeybinding));
    assert!(!tasks.contains(&TaskKind::CreateChecker));
    assert!(tasks.contains(&TaskKind::GenerateTest));
    let file = vscch::tasks::dotvscode::tasks_json(&a, "unused");
    assert_eq!(file.tasks.len(), 2);
    assert_eq!(file.tasks[0].label, "single file build");
    assert_eq!(file.tasks[1].label, "run and pause");
    assert!(file.tasks[0].args.contains(&String::from("-std=c++17")));
}

#[test]
fn resolve_honors_explicit_standard() {
    let mut opts = plain_options();
    opts.standard = Some(String::from("c++11"));
    let init = TaskInitArgs {
        vscode: String::from("/usr/bin/code"),
        compiler: gcc_record(),
        workspace: String::from("/work"),
        options: opts,
    };
    let a = resolve(init, linux_env()).unwrap();
    assert_eq!(a.standard, "c++11");
    assert!(a.args.contains(&String::from("-std=c++11")));
}

#[test]
fn resolve_relative_workspace_gets_absolute() {
    let init = TaskInitArgs {
        vscode: String::from("/usr/bin/code"),
        compiler: gcc_record(),
        workspace: String::from("project"),
        options: plain_options(),
    };
    let a = resolve(init, linux_env()).unwrap();
    assert_eq!(a.workspace, "/home/user/project");
}

#[test]
fn resolve_respects_test_choice() {
    let mut opts = plain_options();
    opts.test = Some(false);
    let init = TaskInitArgs {
        vscode: String::from("/usr/bin/code"),
        compiler: gcc_record(),
        workspace: String::from("/work"),
        options: opts,
    };
    let a = resolve(init, linux_env()).unwrap();
    assert_eq!(a.test_file, None);
    let tasks = list(&a);
    assert!(!tasks.contains(&TaskKind::GenerateTest));
}

#[test]
fn resolve_skips_test_when_file_exists() {
    let mut env = linux_env();
    env.existing = vec![String::from("helloworld.cpp")];
    let init = TaskInitArgs {
        vscode: String::from("/usr/bin/code"),
        compiler: gcc_record(),
        workspace: String::from("/work"),
        options: plain_options(),
    };
    let a = resolve(init, env).unwrap();
    assert_eq!(a.test_file, None);
}

#[test]
fn resolve_rejects_family_foreign_to_the_system() {
    // A MinGW record on a Linux run is a state mismatch.
    let init = TaskInitArgs {
        vscode: String::from("/usr/bin/code"),
        compiler: Compiler::from_fields(
            Id::MinGW,
            String::from("C:\\mingw64"),
            String::from("11.2.0"),
            String::from("MinGW"),
        ),
        workspace: String::from("/work"),
        options: plain_options(),
    };
    let e = resolve(init, linux_env()).unwrap_err();
    assert_eq!(e, "unknown compiler family on this system");
}

#[test]
fn resolve_rejects_msvc_without_tool_version() {
    let init = TaskInitArgs {
        vscode: String::from("C:\\vscode\\Code.exe"),
        compiler: Compiler::from_fields(
            Id::MSVC,
            String::from("C:\\VS"),
            String::from("17.1"),
            String::from("Build Tools"),
        ),
        workspace: String::from("C:\\work"),
        options: plain_options(),
    };
    let env = ResolveEnv {
        os: Os::Windows,
        arch: Arch::X64,
        current_dir: String::from("C:\\"),
        existing: Vec::new(),
        msvc_tool_version: None,
    };
    let e = resolve(init, env).unwrap_err();
    assert_eq!(e, "the MSVC tool version is unknown");
}

#[test]
fn tasks_file_orders_build_before_dependents() {
    let a = sample_args();
    let file = vscch::tasks::dotvscode::tasks_json(&a, "/data/vscch/check-ascii.ps1");
    assert_eq!(file.tasks.len(), 3);
    assert_eq!(file.tasks[0].label, "single file build");
    assert_eq!(file.tasks[1].label, "run and pause");
    assert_eq!(file.tasks[2].label, "ascii check");
    assert_eq!(file.tasks[1].depends_on, Some(String::from("single file build")));
    assert_eq!(file.tasks[2].depends_on, Some(String::from("single file build")));
}

#[test]
fn launch_file_references_the_right_task() {
    let mut a = sample_args();
    let l = vscch::tasks::dotvscode::launch_json(&a);
    assert_eq!(l.pre_launch_task, "ascii check");
    assert_eq!(l.debug_type, "cppdbg");
    assert_eq!(l.mi_mode, "gdb");
    assert_eq!(l.mi_debugger_path, "/usr/bin/gdb");
    assert_eq!(l.external_console, Some(true));
    a.ascii_check = false;
    let l2 = vscch::tasks::dotvscode::launch_json(&a);
    assert_eq!(l2.pre_launch_task, "single file build");
}

#[test]
fn properties_file_is_composed_from_the_run() {
    let a = sample_args();
    let p = vscch::tasks::dotvscode::c_cpp_properties_json(&a);
    assert_eq!(p.name, "Linux");
    assert_eq!(p.compiler_path, "/usr/bin/g++");
    assert!(!p.standard_is_c);
    assert_eq!(p.standard, "c++17");
    assert_eq!(p.intellisense_mode, "linux-gcc-x64");
}

#[test]
fn open_arguments_jump_to_the_test_file() {
    let none: Option<String> = None;
    assert_eq!(open("/work", &none), vec![String::from("/work")]);
    let some = Some(String::from("/work/helloworld.cpp"));
    assert_eq!(
        open("/work", &some),
        vec![
            String::from("/work"),
            String::from("--goto"),
            String::from("/work/helloworld.cpp"),
        ]
    );
}

#[test]
fn add_to_path_skips_machine_wide_entries() {
    assert_eq!(
        add_to_path("C:\\mingw64\\bin", "X;Y", "A;C:\\mingw64\\bin;B"),
        None
    );
}

#[test]
fn add_to_path_prepends_and_deduplicates() {
    let r = add_to_path("C:\\mingw64\\bin", "X;C:\\mingw64\\bin;Y", "A;B").unwrap();
    assert_eq!(r, "C:\\mingw64\\bin;X;Y");
}
