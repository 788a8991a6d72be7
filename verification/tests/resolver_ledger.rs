use timerctl::ledger::{ledger_contains, ledger_line};
use timerctl::resolve::resolve_unit_dir;
use timerctl::trim::trim_str;

#[test]
fn test_resolver_prefers_config_base() {
    let r = resolve_unit_dir(Some("/xdg".to_string()), Some("/home/u".to_string()));
    assert_eq!(r, "/xdg/systemd/user");
}

#[test]
fn test_resolver_home_fallback() {
    let r = resolve_unit_dir(None, Some("/home/u".to_string()));
    assert_eq!(r, "/home/u/.config/systemd/user");
    let r = resolve_unit_dir(Some("".to_string()), Some("/home/u".to_string()));
    assert_eq!(r, "/home/u/.config/systemd/user");
}

#[test]
fn test_resolver_last_resort() {
    assert_eq!(resolve_unit_dir(None, None), "/tmp/systemd/user");
    assert_eq!(
        resolve_unit_dir(Some("".to_string()), Some("".to_string())),
        "/tmp/systemd/user"
    );
}

#[test]
fn test_resolver_idempotent() {
    let first = resolve_unit_dir(Some("/xdg".to_string()), None);
    let second = resolve_unit_dir(Some("/xdg".to_string()), None);
    assert_eq!(first, second);
}

#[test]
fn test_ledger_contains_exact_line() {
    assert!(ledger_contains("backup\nnightly\n", "backup"));
    assert!(ledger_contains("backup\nnightly\n", "nightly"));
    assert!(!ledger_contains("backup\nnightly\n", "weekly"));
}

#[test]
fn test_ledger_contains_trims_blanks() {
    assert!(ledger_contains("  backup \r\n", "backup"));
    assert!(ledger_contains("\tnightly\t", "nightly"));
}

#[test]
fn test_ledger_contains_no_substring_match() {
    assert!(!ledger_contains("backups\n", "backup"));
    assert!(!ledger_contains("backup\n", "backups"));
}

#[test]
fn test_ledger_contains_empty_content() {
    assert!(!ledger_contains("", "backup"));
}

#[test]
fn test_ledger_line() {
    assert_eq!(ledger_line("backup"), "backup\n");
}

#[test]
fn test_ledger_append_then_contains() {
    let content = "old\n".to_string() + &ledger_line("fresh");
    assert!(ledger_contains(&content, "fresh"));
    assert!(ledger_contains(&content, "old"));
}

#[test]
fn test_trim_str() {
    assert_eq!(trim_str("  a b \n"), "a b");
    assert_eq!(trim_str(""), "");
    assert_eq!(trim_str(" \t\r\n"), "");
}
