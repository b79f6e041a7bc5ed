use shell_terminal::encoding::decode;
use shell_terminal::shell::{Platform, ShellFamily};

fn families() -> Vec<ShellFamily> {
    vec![
        ShellFamily::PowerShell,
        ShellFamily::Cmd,
        ShellFamily::Bash,
        ShellFamily::Zsh,
        ShellFamily::Other,
    ]
}

#[test]
fn empty_bytes_decode_to_empty_text() {
    for family in families() {
        for platform in [Platform::Windows, Platform::Posix] {
            assert_eq!(decode(&[], family, platform), "");
        }
    }
}

#[test]
fn non_ascii_marker_round_trips_for_every_family() {
    let marker = "marker-中文-héllo-✓";
    for family in families() {
        for platform in [Platform::Windows, Platform::Posix] {
            assert_eq!(decode(marker.as_bytes(), family, platform), marker);
        }
    }
}

#[test]
fn posix_decoding_replaces_invalid_sequences() {
    assert_eq!(decode(&[0xFF, b'a'], ShellFamily::Bash, Platform::Posix), "\u{FFFD}a");
}

#[test]
fn console_shell_on_posix_decodes_as_utf8() {
    assert_eq!(decode(&[0xD6, 0xD0], ShellFamily::Cmd, Platform::Posix), "\u{FFFD}\u{FFFD}");
}

#[test]
fn windows_console_falls_back_to_gbk() {
    assert_eq!(decode(&[0xD6, 0xD0, 0xCE, 0xC4], ShellFamily::Cmd, Platform::Windows), "中文");
}

#[test]
fn gbk_wins_over_big5_when_both_decode_cleanly() {
    // A4 A4 is a hiragana letter in GBK and a CJK ideograph in Big5.
    assert_eq!(decode(&[0xA4, 0xA4], ShellFamily::PowerShell, Platform::Windows), "い");
}

#[test]
fn windows_console_falls_back_to_windows_1252() {
    assert_eq!(decode(&[0xFF], ShellFamily::Cmd, Platform::Windows), "ÿ");
}

#[test]
fn stray_control_characters_reject_a_candidate() {
    // GBK decodes this without errors but yields U+0001; Big5 fails on 0x80.
    assert_eq!(decode(&[0x01, 0x80], ShellFamily::Cmd, Platform::Windows), "\u{1}€");
}

#[test]
fn non_console_family_on_windows_decodes_as_utf8() {
    assert_eq!(decode(&[0xD6, 0xD0], ShellFamily::Bash, Platform::Windows), "\u{FFFD}\u{FFFD}");
}
