use vscch::compiler::verparse::{clang, gcc, ParseError};

#[test]
fn gcc_parses_ubuntu_fixture() {
    let r = gcc("g++ (Ubuntu 11.2.0-19ubuntu1) 11.2.0").unwrap();
    assert_eq!(r.0, "11.2.0");
    assert_eq!(r.1, "Ubuntu 11.2.0-19ubuntu1");
}

#[test]
fn gcc_parses_mingw_exe_fixture() {
    let r = gcc("x86_64-w64-mingw32-g++.exe (Rev3, Built by MSYS2 project) 12.1.0").unwrap();
    assert_eq!(r.0, "12.1.0");
    assert_eq!(r.1, "Rev3, Built by MSYS2 project");
}

#[test]
fn gcc_parses_gcc_named_binary() {
    let r = gcc("gcc (GCC) 4.7.0").unwrap();
    assert_eq!(r.0, "4.7.0");
    assert_eq!(r.1, "GCC");
}

#[test]
fn gcc_takes_last_paren_split() {
    // The display string itself holds `) `; the split leaves the version
    // after the last one.
    let r = gcc("g++ (GCC (experimental) build) 9.3.0").unwrap();
    assert_eq!(r.0, "9.3.0");
    assert_eq!(r.1, "GCC (experimental) build");
}

#[test]
fn gcc_rejects_empty_input() {
    assert_eq!(gcc(""), Err(ParseError::GccVersion));
}

#[test]
fn gcc_rejects_clang_style_input() {
    assert_eq!(
        gcc("Ubuntu clang version 14.0.0-1ubuntu1"),
        Err(ParseError::GccVersion)
    );
}

#[test]
fn gcc_rejects_missing_parens() {
    assert_eq!(gcc("g++ 11.2.0"), Err(ParseError::GccVersion));
}

#[test]
fn gcc_rejects_missing_version() {
    assert_eq!(gcc("g++ (Ubuntu) "), Err(ParseError::GccVersion));
}

#[test]
fn gcc_error_message_names_the_grammar() {
    let e = gcc("").unwrap_err();
    assert_eq!(e.message(), "gcc version parse error");
}

#[test]
fn clang_parses_ubuntu_fixture() {
    let r = clang("Ubuntu clang version 14.0.0-1ubuntu1").unwrap();
    assert_eq!(r.0, "14.0.0-1ubuntu1");
    assert_eq!(r.1, "");
}

#[test]
fn clang_parses_trailing_display_group() {
    let r = clang("clang version 6.0.0 (tags/RELEASE_600/final)").unwrap();
    assert_eq!(r.0, "6.0.0");
    assert_eq!(r.1, "tags/RELEASE_600/final");
}

#[test]
fn clang_parses_apple_fixture() {
    let r = clang("Apple clang version 14.0.0 (clang-1400.0.29.202)").unwrap();
    assert_eq!(r.0, "14.0.0");
    assert_eq!(r.1, "clang-1400.0.29.202");
}

#[test]
fn clang_missing_display_defaults_to_empty() {
    let r = clang("clang version 15.0.7").unwrap();
    assert_eq!(r.0, "15.0.7");
    assert_eq!(r.1, "");
}

#[test]
fn clang_rejects_gcc_style_input() {
    assert_eq!(
        clang("g++ (Ubuntu 11.2.0-19ubuntu1) 11.2.0"),
        Err(ParseError::ClangVersion)
    );
}

#[test]
fn clang_rejects_empty_input() {
    assert_eq!(clang(""), Err(ParseError::ClangVersion));
}

#[test]
fn clang_error_message_names_the_grammar() {
    let e = clang("nonsense").unwrap_err();
    assert_eq!(e.message(), "clang version parse error");
}

#[test]
fn compiler_record_from_gcc_line() {
    let setup = vscch::compiler::setup_of(vscch::compiler::Id::GCC);
    let c = vscch::compiler::Compiler::new(
        &setup,
        "/usr/bin/g++",
        "g++ (Ubuntu 11.2.0-19ubuntu1) 11.2.0",
    )
    .unwrap();
    assert_eq!(c.setup, vscch::compiler::Id::GCC);
    assert_eq!(c.path, "/usr/bin/g++");
    assert_eq!(c.version, "11.2.0");
    assert_eq!(c.package(), "Ubuntu 11.2.0-19ubuntu1");
}

#[test]
fn compiler_record_never_built_from_msvc_text() {
    let setup = vscch::compiler::setup_of(vscch::compiler::Id::MSVC);
    assert!(vscch::compiler::Compiler::new(&setup, "C:\\VS", "anything").is_none());
}

#[test]
fn test_compiler_takes_first_line_only() {
    let setup = vscch::compiler::setup_of(vscch::compiler::Id::GCC);
    let out = String::from("g++ (Ubuntu 11.2.0-19ubuntu1) 11.2.0\r\nCopyright (C) 2021\n");
    let c = vscch::compiler::common::test_compiler(&setup, "/usr/bin/g++", Some(&out)).unwrap();
    assert_eq!(c.version, "11.2.0");
}

#[test]
fn test_compiler_absent_output_is_no_record() {
    let setup = vscch::compiler::setup_of(vscch::compiler::Id::GCC);
    assert!(vscch::compiler::common::test_compiler(&setup, "/usr/bin/g++", None).is_none());
    let empty = String::new();
    assert!(vscch::compiler::common::test_compiler(&setup, "/usr/bin/g++", Some(&empty)).is_none());
}
