use vscch::compiler::Id;
use vscch::tasks::extension::{
    c_cpp_id, code_lldb_id, install_c_cpp, install_pauser, pauser_id, remove_unrecommended,
    unrecommended_ids, ExtensionManager,
};
use vscch::tasks::run::{checker_path, keybinding_keep, make_keybinding};
use vscch::tasks::statistics::{count_api_url, error_report_id};
use vscch::tasks::test::{c_comment, cpp_comment, generate};
use vscch::tasks::{shortcut_args, shortcut_description, shortcut_target};
use vscch::Os;

#[test]
fn comments_wrap_in_the_language_style() {
    assert_eq!(c_comment("note"), "/* note */");
    assert_eq!(cpp_comment("note"), "// note");
}

#[test]
fn generated_test_file_names_the_hotkeys() {
    let text = generate(Os::Linux, false, false, Id::GCC);
    assert!(text.contains("// Press F6 to build and run."));
    assert!(text.contains("std::cout << \"Hello, world!\" << std::endl;"));
    assert!(text.contains("// Press F5 to build and debug."));
    assert!(!text.contains("non-ASCII"));
}

#[test]
fn generated_c_file_uses_c_comments_and_body() {
    let text = generate(Os::Linux, true, true, Id::GCC);
    assert!(text.contains("/* Press Ctrl + F5 to build and run. */"));
    assert!(text.contains("printf(\"Hello, world!\\n\");"));
}

#[test]
fn generated_mingw_file_warns_about_names() {
    let text = generate(Os::Windows, false, false, Id::MinGW);
    assert!(text.contains("no non-ASCII characters"));
}

#[test]
fn extension_manager_install_is_idempotent() {
    let mut m = ExtensionManager::new(true);
    assert!(install_c_cpp(&mut m));
    assert!(!install_c_cpp(&mut m));
    assert_eq!(m.installed, vec![String::from(c_cpp_id())]);
    assert!(install_pauser(&mut m));
    assert_eq!(
        m.installed,
        vec![String::from(c_cpp_id()), String::from(pauser_id())]
    );
}

#[test]
fn disabled_manager_runs_nothing() {
    let mut m = ExtensionManager::new(false);
    assert!(!install_c_cpp(&mut m));
    assert!(m.installed.is_empty());
}

#[test]
fn uninstall_drops_the_cached_entry() {
    let mut m = ExtensionManager::new(true);
    m.update(vec![String::from("a.b"), String::from("c.d")]);
    assert!(m.uninstall("a.b"));
    assert_eq!(m.installed, vec![String::from("c.d")]);
    assert!(!m.uninstall("a.b"));
}

#[test]
fn remove_unrecommended_clears_known_ids() {
    let mut m = ExtensionManager::new(true);
    m.update(vec![
        String::from("formulahendry.code-runner"),
        String::from("keep.me"),
        String::from("xaver.clang-format"),
    ]);
    let removed = remove_unrecommended(&mut m);
    assert_eq!(
        removed,
        vec!["formulahendry.code-runner", "xaver.clang-format"]
    );
    assert_eq!(m.installed, vec![String::from("keep.me")]);
    assert_eq!(unrecommended_ids().len(), 9);
    assert_eq!(code_lldb_id(), "vadimcn.vscode-lldb");
}

#[test]
fn checker_path_lives_under_the_data_folder() {
    assert_eq!(
        checker_path(Os::Windows, "C:\\Users\\me\\AppData\\Roaming"),
        "C:\\Users\\me\\AppData\\Roaming\\vscch/check-ascii.ps1"
    );
    assert_eq!(
        checker_path(Os::Linux, "/home/me/.local/share"),
        "/home/me/.local/share/vscch/check-ascii.ps1"
    );
}

#[test]
fn keybinding_merge_replaces_same_key_entries() {
    let existing = vec![String::from("f5"), String::from("f6"), String::from("ctrl+b")];
    let keep = keybinding_keep(&existing, "f6");
    assert_eq!(keep, vec![true, false, true]);
    let b = make_keybinding("f6");
    assert_eq!(b.key, "f6");
    assert_eq!(b.command, "workbench.action.tasks.runTask");
    assert_eq!(b.args, "run and pause");
}

#[test]
fn shortcut_fields_point_at_the_editor_and_workspace() {
    assert_eq!(
        shortcut_target("C:\\vscode\\bin\\code.cmd"),
        "C:\\vscode\\Code.exe"
    );
    assert_eq!(shortcut_description("C:\\work"), "Open VS Code at C:\\work");
    assert_eq!(shortcut_args("C:\\work"), "\"C:\\work\"");
}

#[test]
fn statistics_endpoints_and_report_id() {
    assert_eq!(
        count_api_url(Os::Linux),
        "https://api.countapi.xyz/hit/v4.vscch.tk/linux"
    );
    assert_eq!(error_report_id(Some(123_456_789_012), 7), 789_012);
    assert_eq!(error_report_id(None, 1_234_567), 234_567);
}

#[test]
fn log_path_is_stamped() {
    assert_eq!(
        vscch::log::get_log_path("/home/me/.local/share", "20220101120000"),
        "/home/me/.local/share/vscch/vscch_20220101120000.log"
    );
}

#[test]
fn workspace_config_detection() {
    let entries = vec![String::from("main.cpp"), String::from(".vscode")];
    assert!(vscch::workspace::has_config(&entries));
    let none = vec![String::from("main.cpp")];
    assert!(!vscch::workspace::has_config(&none));
    assert_eq!(vscch::workspace::config_folder("/work"), "/work/.vscode");
}

#[test]
fn parent_and_lowercase_utilities() {
    assert_eq!(vscch::strutil::parent_dir("/usr/bin/g++"), "/usr/bin");
    assert_eq!(vscch::strutil::parent_dir("C:\\mingw64\\bin\\gcc.exe"), "C:\\mingw64\\bin");
    assert_eq!(vscch::strutil::parent_dir("lonely"), "");
    assert_eq!(vscch::strutil::u64_to_string(0), "0");
    assert_eq!(vscch::strutil::u64_to_string(907), "907");
    assert_eq!(vscch::strutil::join_strings(&vec![], ';'), "");
}
