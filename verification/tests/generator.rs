use timerctl::escape::escape_single_quotes;
use timerctl::generate::{service_text, timer_text};
use timerctl::timers::{normalize, ConfigError, Timer};

fn blank_timer() -> Timer {
    Timer {
        name: None,
        description: None,
        schedule: None,
        executable: None,
        exec_if_missed: None,
        single_use: None,
        recurring: None,
        on_calendar: None,
        from_boot: None,
        normal_service: None,
        service: None,
        already_made_service: None,
        enable_at_login: None,
        start_after_create: None,
    }
}

#[test]
fn test_escape_plain() {
    assert_eq!(escape_single_quotes("echo hi"), "echo hi");
    assert_eq!(escape_single_quotes(""), "");
}

#[test]
fn test_escape_single_quote() {
    assert_eq!(escape_single_quotes("it's"), "it'\\''s");
    assert_eq!(escape_single_quotes("''"), "'\\'''\\''");
}

#[test]
fn test_service_text_normal_service() {
    let mut t = blank_timer();
    t.name = Some("test_timer".to_string());
    t.description = Some("A test timer".to_string());
    t.executable = Some("/path/to/executable".to_string());
    t.normal_service = Some(true);
    let rt = normalize(t).unwrap();
    let text = service_text(&rt).unwrap();
    assert_eq!(
        text,
        "[Unit]\nDescription=A test timer\n\n[Service]\nType=simple\nExecStart=/bin/sh -c '/path/to/executable'\nRestart=on-failure\n\n[Install]\nWantedBy=default.target\n"
    );
}

#[test]
fn test_service_text_oneshot() {
    let mut t = blank_timer();
    t.name = Some("backup".to_string());
    t.executable = Some("/usr/bin/backup.sh".to_string());
    let rt = normalize(t).unwrap();
    let text = service_text(&rt).unwrap();
    assert_eq!(
        text,
        "[Unit]\n\n[Service]\nType=oneshot\nExecStart=/bin/sh -c '/usr/bin/backup.sh'\nRestart=no\n\n[Install]\nWantedBy=default.target\n"
    );
    assert!(text.contains("Type=oneshot"));
    assert!(!text.contains("Type=simple"));
    assert!(text.contains("Restart=no"));
    assert!(!text.contains("Restart=on-failure"));
}

#[test]
fn test_service_text_escapes_quotes() {
    let mut t = blank_timer();
    t.name = Some("q".to_string());
    t.executable = Some("echo 'hello'".to_string());
    let rt = normalize(t).unwrap();
    let text = service_text(&rt).unwrap();
    assert!(text.contains("ExecStart=/bin/sh -c 'echo '\\''hello'\\'''\n"));
}

#[test]
fn test_service_text_empty_description_omitted() {
    let mut t = blank_timer();
    t.name = Some("d".to_string());
    t.description = Some("".to_string());
    t.executable = Some("x".to_string());
    let rt = normalize(t).unwrap();
    let text = service_text(&rt).unwrap();
    assert!(!text.contains("Description="));
}

#[test]
fn test_service_text_skipped_when_already_made() {
    let mut t = blank_timer();
    t.name = Some("once".to_string());
    t.already_made_service = Some(true);
    let rt = normalize(t).unwrap();
    assert!(service_text(&rt).is_none());
}

#[test]
fn test_timer_text_exact() {
    let mut t = blank_timer();
    t.name = Some("backup".to_string());
    t.schedule = Some("daily".to_string());
    t.recurring = Some(true);
    t.executable = Some("/usr/bin/backup.sh".to_string());
    let rt = normalize(t).unwrap();
    let text = timer_text(&rt);
    assert_eq!(
        text,
        "[Unit]\nDescription=Timer for backup\n\n[Timer]\nUnit=backup.service\nOnUnitActiveSec=daily\nPersistent=no\nRemainAfterElapse=yes\n\n[Install]\nWantedBy=timers.target\n"
    );
}

#[test]
fn test_timer_text_trigger_priority() {
    let mut t = blank_timer();
    t.name = Some("p".to_string());
    t.schedule = Some("S".to_string());
    t.executable = Some("x".to_string());
    t.on_calendar = Some(true);
    t.from_boot = Some(true);
    t.recurring = Some(true);
    let all = timer_text(&normalize(t).unwrap());
    assert!(all.contains("OnCalendar=S\n"));
    assert!(!all.contains("OnBootSec="));

    let mut t = blank_timer();
    t.name = Some("p".to_string());
    t.schedule = Some("S".to_string());
    t.executable = Some("x".to_string());
    t.from_boot = Some(true);
    t.recurring = Some(true);
    let boot = timer_text(&normalize(t).unwrap());
    assert!(boot.contains("OnBootSec=S\n"));
    assert!(!boot.contains("OnCalendar="));

    let mut t = blank_timer();
    t.name = Some("p".to_string());
    t.schedule = Some("S".to_string());
    t.executable = Some("x".to_string());
    t.recurring = Some(true);
    let rec = timer_text(&normalize(t).unwrap());
    assert!(rec.contains("OnUnitActiveSec=S\n"));

    let mut t = blank_timer();
    t.name = Some("p".to_string());
    t.schedule = Some("S".to_string());
    t.executable = Some("x".to_string());
    let fallback = timer_text(&normalize(t).unwrap());
    assert!(fallback.contains("OnActiveSec=S\n"));
    assert!(!fallback.contains("OnUnitActiveSec="));
}

#[test]
fn test_timer_text_persistent_flag() {
    let mut t = blank_timer();
    t.name = Some("p".to_string());
    t.executable = Some("x".to_string());
    t.exec_if_missed = Some(true);
    let text = timer_text(&normalize(t).unwrap());
    assert!(text.contains("Persistent=yes\n"));
    assert!(text.contains("RemainAfterElapse=no\n"));
}

#[test]
fn test_normalize_defaults() {
    let mut t = blank_timer();
    t.executable = Some("x".to_string());
    let rt = normalize(t).unwrap();
    assert_eq!(rt.name, "unnamed");
    assert_eq!(rt.schedule, "1min");
    assert_eq!(rt.service_unit, "unnamed");
    assert!(!rt.recurring);
    assert!(!rt.on_calendar);
    assert!(!rt.from_boot);
    assert!(!rt.exec_if_missed);
    assert!(!rt.single_use);
    assert!(!rt.normal_service);
    assert!(!rt.already_made_service);
    assert!(!rt.enable_at_login);
    assert!(!rt.start_after_create);
}

#[test]
fn test_normalize_missing_executable() {
    let t = blank_timer();
    let err = normalize(t).unwrap_err();
    assert_eq!(err, ConfigError::MissingExecutable);
    assert_eq!(err.message(), "executable required to create service");
}

#[test]
fn test_normalize_service_unit_fallbacks() {
    let mut t = blank_timer();
    t.name = Some("n".to_string());
    t.executable = Some("x".to_string());
    assert_eq!(normalize(t).unwrap().service_unit, "n");

    let mut t = blank_timer();
    t.name = Some("n".to_string());
    t.service = Some("svc".to_string());
    t.executable = Some("x".to_string());
    assert_eq!(normalize(t).unwrap().service_unit, "svc");
}
