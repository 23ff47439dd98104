use vscch::compiler::stdchoose;
use vscch::version::version_less;

#[test]
fn gcc_nine_three_gets_cpp17() {
    assert_eq!(stdchoose::gcc("9.3.0"), ("c++17", "c17"));
}

#[test]
fn gcc_four_seven_gets_cpp98() {
    assert_eq!(stdchoose::gcc("4.7.0"), ("c++98", "c99"));
}

#[test]
fn gcc_exact_threshold_falls_into_not_less_branch() {
    // `5.0` is not below `5.0`, so the `<8.0` bucket applies.
    assert_eq!(stdchoose::gcc("5.0"), ("c++14", "c11"));
}

#[test]
fn gcc_buckets_across_the_table() {
    assert_eq!(stdchoose::gcc("4.8"), ("c++11", "c11"));
    assert_eq!(stdchoose::gcc("7.5.0"), ("c++14", "c11"));
    assert_eq!(stdchoose::gcc("10.3"), ("c++20", "c17"));
    assert_eq!(stdchoose::gcc("11.0"), ("c++23", "c17"));
    assert_eq!(stdchoose::gcc("12.1.0"), ("c++23", "c17"));
}

#[test]
fn clang_buckets_across_the_table() {
    assert_eq!(stdchoose::clang("4.2"), ("c++98", "c99"));
    assert_eq!(stdchoose::clang("4.3"), ("c++11", "c11"));
    assert_eq!(stdchoose::clang("4.9"), ("c++14", "c11"));
    assert_eq!(stdchoose::clang("9.9"), ("c++17", "c17"));
    assert_eq!(stdchoose::clang("10.0"), ("c++20", "c17"));
    assert_eq!(stdchoose::clang("14.0.0-1ubuntu1"), ("c++20", "c17"));
}

#[test]
fn version_order_is_numeric_not_lexical() {
    assert!(version_less("9.3.0", "10.0"));
    assert!(!version_less("10.0", "9.3.0"));
    assert!(version_less("4.7.9", "4.8"));
    assert!(!version_less("5.0", "5.0"));
    assert!(version_less("5.0", "5.0.1"));
    assert!(!version_less("5.0.0", "5.0"));
    assert!(version_less("11.2.0-19ubuntu1", "12.0"));
}

#[test]
fn version_components_ignore_text_suffixes() {
    // `0-1ubuntu1` counts by its leading digit run.
    assert!(version_less("14.0.0-1ubuntu1", "14.1"));
    assert!(!version_less("14.1", "14.0.0-1ubuntu1"));
}
