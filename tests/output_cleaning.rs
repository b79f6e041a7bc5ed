use shell_terminal::output::{clean_stderr, command_output, is_noise_folded, merge_output, noise_line};
use shell_terminal::shell::{Platform, ShellFamily};

#[test]
fn code_page_notice_alone_cleans_to_empty() {
    assert_eq!(clean_stderr("Active code page: 65001"), "");
    assert_eq!(clean_stderr("Active code page: 65001\r\n"), "");
}

#[test]
fn noise_and_empty_lines_are_dropped() {
    assert_eq!(clean_stderr("ACTIVE CODE PAGE: 936\r\nreal error\n\nsecond\n"), "real error\nsecond");
}

#[test]
fn carriage_returns_before_line_feeds_are_removed() {
    assert_eq!(clean_stderr("one\r\ntwo\r\n"), "one\ntwo");
}

#[test]
fn noise_test_on_folded_text() {
    assert!(is_noise_folded(""));
    assert!(is_noise_folded("active code page: 65001"));
    assert!(!is_noise_folded("Active code page: 65001"));
    assert!(!is_noise_folded("file not found"));
}

#[test]
fn noise_test_folds_case() {
    assert!(noise_line("Active Code Page: 437"));
    assert!(!noise_line("Access denied"));
}

#[test]
fn merge_joins_with_one_line_break() {
    assert_eq!(merge_output("out", ""), "out");
    assert_eq!(merge_output("", "err"), "err");
    assert_eq!(merge_output("out", "err"), "out\nerr");
    assert_eq!(merge_output("", ""), "");
}

#[test]
fn silent_failing_command_reports_empty_text() {
    assert_eq!(command_output(b"", b"", ShellFamily::Bash, Platform::Posix), "");
}

#[test]
fn command_output_merges_decoded_streams() {
    let text = command_output(
        b"hello\n",
        b"Active code page: 65001\r\nwarning\r\n",
        ShellFamily::Cmd,
        Platform::Windows,
    );
    assert_eq!(text, "hello\n\nwarning");
}
