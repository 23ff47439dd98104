use vscch::compiler::{enabled_setups, get_setup, mingw, msvc, setup_of, Id};
use vscch::handlers::{
    compiler_setup_list, has_webview2_installed, options_scan, task_init, vscode_verify,
    workspace_verify, VerifyResult,
};
use vscch::sysctl::{get_arch, Arch};
use vscch::Os;

#[test]
fn registry_is_platform_filtered() {
    let linux: Vec<Id> = enabled_setups(Os::Linux).iter().map(|s| s.id).collect();
    assert_eq!(linux, vec![Id::GCC, Id::LLVM]);
    let windows: Vec<Id> = enabled_setups(Os::Windows).iter().map(|s| s.id).collect();
    assert_eq!(windows, vec![Id::MinGW, Id::MSVC, Id::LLVMMinGW]);
    let mac: Vec<Id> = enabled_setups(Os::MacOs).iter().map(|s| s.id).collect();
    assert_eq!(mac, vec![Id::Apple]);
}

#[test]
fn get_setup_finds_enabled_families_only() {
    let s = get_setup(Os::Linux, "gcc").unwrap();
    assert_eq!(s.id, Id::GCC);
    assert!(get_setup(Os::Linux, "msvc").is_none());
    assert!(get_setup(Os::Windows, "msvc").is_some());
    assert!(get_setup(Os::Linux, "nonsense").is_none());
}

#[test]
fn setup_capabilities_follow_the_table() {
    assert!(setup_of(Id::MinGW).can_verify && setup_of(Id::MinGW).can_install);
    assert!(!setup_of(Id::MSVC).can_verify && setup_of(Id::MSVC).can_install);
    assert!(setup_of(Id::GCC).can_verify && !setup_of(Id::GCC).can_install);
    assert!(!setup_of(Id::Apple).can_verify && setup_of(Id::Apple).can_install);
    assert!(setup_of(Id::MinGW).is_mingw() && !setup_of(Id::MinGW).is_msvc());
    assert!(setup_of(Id::MSVC).is_msvc() && !setup_of(Id::MSVC).is_mingw());
}

#[test]
fn setup_list_carries_ids_and_capabilities() {
    let rows = compiler_setup_list(Os::Linux);
    assert_eq!(rows.len(), 2);
    assert_eq!(rows[0].id, "gcc");
    assert!(rows[0].can_verify && !rows[0].can_install);
    assert_eq!(rows[1].id, "llvm");
}

#[test]
fn mingw_check_bin_appends_bin_component() {
    assert_eq!(mingw::check_bin("C:\\mingw64"), "C:\\mingw64\\bin");
    assert_eq!(mingw::check_bin("C:\\mingw64\\bin"), "C:\\mingw64\\bin");
    // `sbin` is not a `bin` component.
    assert_eq!(mingw::check_bin("C:\\sbin"), "C:\\sbin\\bin");
}

#[test]
fn mingw_paths_to_executables() {
    assert_eq!(mingw::path_to_gcc("C:\\mingw64", true), "C:\\mingw64\\bin\\gcc.exe");
    assert_eq!(mingw::path_to_gcc("C:\\mingw64", false), "C:\\mingw64\\bin\\g++.exe");
    assert_eq!(
        mingw::path_to_clang("C:\\llvm-mingw", false),
        "C:\\llvm-mingw\\bin\\clang++.exe"
    );
}

#[test]
fn gcc_path_swaps_driver_names() {
    assert_eq!(vscch::compiler::gcc::path_to_exe("/usr/bin/g++", true), "/usr/bin/gcc");
    assert_eq!(vscch::compiler::gcc::path_to_exe("/usr/bin/gcc", false), "/usr/bin/g++");
    assert_eq!(
        vscch::compiler::gcc::path_to_exe("/usr/bin/g++-12", true),
        "/usr/bin/gcc-12"
    );
}

#[test]
fn llvm_path_never_stutters() {
    assert_eq!(
        vscch::compiler::llvm::path_to_exe("/usr/bin/clang++", false),
        "/usr/bin/clang++"
    );
    assert_eq!(
        vscch::compiler::llvm::path_to_exe("/usr/bin/clang", false),
        "/usr/bin/clang++"
    );
    assert_eq!(
        vscch::compiler::llvm::path_to_exe("/usr/bin/clang++", true),
        "/usr/bin/clang"
    );
}

#[test]
fn msvc_path_is_pinned_by_tool_version() {
    assert_eq!(
        msvc::path_to_exe("C:\\VS", "14.32.31326"),
        "C:\\VS\\VC\\Tools\\MSVC\\14.32.31326\\bin\\HostX64\\x64\\cl.exe"
    );
    assert_eq!(
        msvc::version_marker_path("C:\\VS"),
        "C:\\VS\\VC\\Auxiliary\\Build\\Microsoft.VCToolsVersion.default.txt"
    );
}

#[test]
fn msvc_scan_maps_report_rows() {
    let rows = vec![
        (
            String::from("C:\\VS"),
            String::from("17.2.5"),
            String::from("Visual Studio Build Tools 2022"),
        ),
    ];
    let records = msvc::scan(rows);
    assert_eq!(records.len(), 1);
    assert_eq!(records[0].setup, Id::MSVC);
    assert_eq!(records[0].path, "C:\\VS");
    assert_eq!(records[0].version, "17.2.5");
    assert_eq!(records[0].package(), "Visual Studio Build Tools 2022");
}

#[test]
fn mingw_verify_reports_the_first_failed_check() {
    let setup = setup_of(Id::MinGW);
    let out = String::from("g++ (MinGW) 11.2.0");
    assert_eq!(
        vscch::compiler::mingw::verify(&setup, "C:\\a;b", true, true, Some(&out)).unwrap_err(),
        "the path must not contain a semicolon ';'"
    );
    assert_eq!(
        vscch::compiler::mingw::verify(&setup, "C:\\min\u{4e2d}gw", true, true, Some(&out))
            .unwrap_err(),
        "the path must be ASCII, without non-Latin or special characters"
    );
    assert_eq!(
        vscch::compiler::mingw::verify(&setup, "C:\\mingw64", false, true, Some(&out))
            .unwrap_err(),
        "the path does not exist"
    );
    assert_eq!(
        vscch::compiler::mingw::verify(&setup, "C:\\mingw64", true, false, Some(&out))
            .unwrap_err(),
        "bin does not exist"
    );
    assert_eq!(
        vscch::compiler::mingw::verify(&setup, "C:\\mingw64", true, true, None).unwrap_err(),
        "the executable is not a compiler"
    );
    let c = vscch::compiler::mingw::verify(&setup, "C:\\mingw64", true, true, Some(&out)).unwrap();
    assert_eq!(c.path, "C:\\mingw64\\bin");
    assert_eq!(c.version, "11.2.0");
}

#[test]
fn gcc_verify_reports_resolution_and_parse_failures() {
    let setup = setup_of(Id::GCC);
    assert_eq!(
        vscch::compiler::gcc::verify(&setup, None, None).unwrap_err(),
        "the file was not found"
    );
    let resolved = String::from("/usr/bin/g++");
    let bad = String::from("not a version line");
    assert_eq!(
        vscch::compiler::gcc::verify(&setup, Some(&resolved), Some(&bad)).unwrap_err(),
        "the compiler version could not be parsed"
    );
}

#[test]
fn vscode_scan_reads_the_quoted_command() {
    let cmd = "\"C:\\Program Files\\Microsoft VS Code\\Code.exe\" --open-url -- \"%1\"";
    assert_eq!(
        vscch::vscode::scan(cmd),
        Some(String::from("C:\\Program Files\\Microsoft VS Code\\Code.exe"))
    );
    assert_eq!(vscch::vscode::scan("no quotes here"), None);
}

#[test]
fn vscode_adjust_path_per_system() {
    assert_eq!(
        vscch::vscode::adjust_path(Os::Windows, "C:\\vscode\\Code.exe"),
        "C:\\vscode\\bin\\code.cmd"
    );
    assert_eq!(
        vscch::vscode::adjust_path(Os::MacOs, "/Applications/Visual Studio Code.app"),
        "/Applications/Visual Studio Code.app/Contents/Resources/app/bin/code"
    );
    assert_eq!(vscch::vscode::adjust_path(Os::Linux, "/usr/bin/code"), "/usr/bin/code");
}

#[test]
fn vscode_verify_verdicts() {
    assert!(matches!(
        vscode_verify(Os::Linux, "/usr/bin/code", true, true),
        VerifyResult::Accepted { .. }
    ));
    assert!(matches!(
        vscode_verify(Os::Linux, "/usr/bin/code", false, false),
        VerifyResult::Rejected { .. }
    ));
}

#[test]
fn workspace_verify_verdicts() {
    assert!(matches!(
        workspace_verify(Os::Linux, "/work", false),
        VerifyResult::Accepted { .. }
    ));
    assert!(matches!(
        workspace_verify(Os::Linux, "/work", true),
        VerifyResult::Warning { .. }
    ));
    assert!(matches!(
        workspace_verify(Os::Windows, "C:\\\u{4e2d}\u{6587}", false),
        VerifyResult::Rejected { .. }
    ));
}

#[test]
fn options_availability_follows_the_family() {
    let o = options_scan(Os::Windows, "gcc-mingw", 936);
    assert!(o.use_gnu_enabled && o.pedantic_enabled && o.acp_output_enabled);
    assert!(o.ascii_check_enabled && o.add_to_path_enabled && o.desktop_shortcut_enabled);
    let o2 = options_scan(Os::Linux, "llvm", 0);
    assert!(!o2.use_gnu_enabled && o2.pedantic_enabled && !o2.acp_output_enabled);
    assert!(!o2.ascii_check_enabled && !o2.add_to_path_enabled && !o2.desktop_shortcut_enabled);
    let o3 = options_scan(Os::Windows, "msvc", 936);
    assert!(!o3.pedantic_enabled && o3.acp_output_enabled);
}

#[test]
fn webview2_markers_decide_installation() {
    let good = String::from("109.0.1518.78");
    let null = String::from("0.0.0.0");
    let empty = String::new();
    assert!(has_webview2_installed(Some(&good), None));
    assert!(has_webview2_installed(None, Some(&good)));
    assert!(!has_webview2_installed(Some(&null), Some(&empty)));
    assert!(!has_webview2_installed(None, None));
}

#[test]
fn arch_is_read_from_the_kernel_version() {
    assert_eq!(get_arch("Darwin Kernel Version 21.5.0: ARM64_T8101"), Arch::Aarch64);
    assert_eq!(get_arch("Darwin Kernel Version 21.5.0: x86_64"), Arch::X64);
}

#[test]
fn path_available_checks_ascii_on_windows_only() {
    assert!(vscch::workspace::path_available(Os::Windows, "C:\\work").is_ok());
    assert!(vscch::workspace::path_available(Os::Windows, "C:\\\u{4e2d}\u{6587}").is_err());
    assert!(vscch::workspace::path_available(Os::Linux, "/w\u{00f6}rk").is_ok());
}

#[test]
fn task_count_matches_the_filtered_list() {
    let a = vscch::tasks::TaskArgs {
        os: Os::Linux,
        arch: Arch::X64,
        vscode: String::from("/usr/bin/code"),
        setup: Id::GCC,
        compiler_path: String::from("/usr/bin/g++"),
        workspace: String::from("/work"),
        run_hotkey: String::from("f6"),
        compatible_mode: true,
        is_c: false,
        file_ext: "cpp",
        standard: String::from("c++17"),
        args: Vec::new(),
        ascii_check: false,
        remove_extensions: false,
        add_to_path: false,
        open_vscode: false,
        test_file: None,
        desktop_shortcut: false,
        collect_data: false,
    };
    // Applicable: install_c_cpp, create_folder, the three files.
    assert_eq!(task_init(&a), 5);
}
