use timerctl::create::{
    create_action, create_advance, create_start, make_plan, CreateAction, CreateStep,
};
use timerctl::events::StepEvent;
use timerctl::ops::{
    disable_report, enable_args, enable_report, list_args, show_args, start_banner, stop_report,
    timer_unit,
};
use timerctl::remove::{
    removal_action, removal_advance, removal_start, DeletionInfo, RemovalAction, RemovalOutcome,
    RemovalStep,
};
use timerctl::resolve::resolve_unit_dir;
use timerctl::timers::{normalize, Timer};

fn blank_timer() -> Timer {
    Timer {
        name: None,
        description: None,
        schedule: None,
        executable: None,
        exec_if_missed: None,
        single_use: None,
        recurring: None,
        on_calendar: None,
        from_boot: None,
        normal_service: None,
        service: None,
        already_made_service: None,
        enable_at_login: None,
        start_after_create: None,
    }
}

#[test]
fn test_creation_scenario_recurring_backup() {
    let mut t = blank_timer();
    t.name = Some("backup".to_string());
    t.schedule = Some("daily".to_string());
    t.recurring = Some(true);
    t.already_made_service = Some(false);
    t.executable = Some("/usr/bin/backup.sh".to_string());
    t.enable_at_login = Some(true);
    t.start_after_create = Some(true);
    let rt = normalize(t).unwrap();
    let dir = resolve_unit_dir(Some("/cfg".to_string()), None);
    let plan = make_plan(rt, dir);

    let state = create_start(&plan);
    assert_eq!(state.step, CreateStep::EnsureDir);
    assert_eq!(
        create_action(&plan, &state),
        CreateAction::EnsureDir("/cfg/systemd/user".to_string())
    );

    let state = create_advance(&plan, state, &StepEvent::Succeeded(String::new()));
    assert_eq!(state.step, CreateStep::WriteService);
    match create_action(&plan, &state) {
        CreateAction::WriteFile(path, text) => {
            assert_eq!(path, "/cfg/systemd/user/backup.service");
            assert!(text.contains("Type=oneshot"));
            assert!(!text.contains("Type=simple"));
        }
        other => panic!("unexpected action: {:?}", other),
    }

    let state = create_advance(&plan, state, &StepEvent::Succeeded(String::new()));
    assert_eq!(state.step, CreateStep::WriteTimer);
    match create_action(&plan, &state) {
        CreateAction::WriteFile(path, text) => {
            assert_eq!(path, "/cfg/systemd/user/backup.timer");
            assert!(text.contains("OnUnitActiveSec=daily\n"));
            assert!(text.contains("RemainAfterElapse=yes\n"));
        }
        other => panic!("unexpected action: {:?}", other),
    }

    // not single-use: straight to the reload
    let state = create_advance(&plan, state, &StepEvent::Succeeded(String::new()));
    assert_eq!(state.step, CreateStep::Reload);
    assert_eq!(
        create_action(&plan, &state),
        CreateAction::RunManager(vec!["--user".to_string(), "daemon-reload".to_string()])
    );

    let state = create_advance(&plan, state, &StepEvent::Succeeded("Ok(0)".to_string()));
    assert_eq!(state.step, CreateStep::Activate);
    assert_eq!(
        create_action(&plan, &state),
        CreateAction::RunManager(vec![
            "--user".to_string(),
            "enable".to_string(),
            "--now".to_string(),
            "backup.timer".to_string(),
        ])
    );

    let state = create_advance(&plan, state, &StepEvent::Succeeded(String::new()));
    assert_eq!(state.step, CreateStep::Finished);
    assert!(state.log.contains("Adding timer: backup"));
    assert!(state.log.contains("Reloading systemd user daemon: Ok(0)"));
    assert!(state.log.contains("Enabled and started backup.timer (user)"));
}

#[test]
fn test_creation_scenario_already_made_service() {
    let mut t = blank_timer();
    t.name = Some("once".to_string());
    t.already_made_service = Some(true);
    t.service = Some("existing".to_string());
    t.schedule = Some("now".to_string());
    t.on_calendar = Some(true);
    let rt = normalize(t).unwrap();
    let plan = make_plan(rt, resolve_unit_dir(None, Some("/home/u".to_string())));

    assert!(plan.service_text.is_none());
    assert!(plan.timer_text.contains("Unit=existing.service\n"));
    assert!(plan.timer_text.contains("OnCalendar=now\n"));

    // with no service file generated, the directory step leads straight to
    // the timer write
    let state = create_start(&plan);
    let state = create_advance(&plan, state, &StepEvent::Succeeded(String::new()));
    assert_eq!(state.step, CreateStep::WriteTimer);
    match create_action(&plan, &state) {
        CreateAction::WriteFile(path, _) => {
            assert_eq!(path, "/home/u/.config/systemd/user/once.timer");
        }
        other => panic!("unexpected action: {:?}", other),
    }
}

#[test]
fn test_creation_single_use_ledger_steps() {
    let mut t = blank_timer();
    t.name = Some("solo".to_string());
    t.executable = Some("x".to_string());
    t.single_use = Some(true);
    let rt = normalize(t).unwrap();
    let plan = make_plan(rt, "/d".to_string());

    let state = create_start(&plan);
    let state = create_advance(&plan, state, &StepEvent::Succeeded(String::new()));
    let state = create_advance(&plan, state, &StepEvent::Succeeded(String::new()));
    let state = create_advance(&plan, state, &StepEvent::Succeeded(String::new()));
    assert_eq!(state.step, CreateStep::CheckLedger);
    assert_eq!(
        create_action(&plan, &state),
        CreateAction::ReadFile("/d/.single_use.txt".to_string())
    );

    // name not recorded yet: the machine appends it
    let state = create_advance(&plan, state, &StepEvent::Succeeded("other\n".to_string()));
    assert_eq!(state.step, CreateStep::AppendLedger);
    assert_eq!(
        create_action(&plan, &state),
        CreateAction::AppendFile("/d/.single_use.txt".to_string(), "solo\n".to_string())
    );

    let state = create_advance(&plan, state, &StepEvent::Succeeded(String::new()));
    assert_eq!(state.step, CreateStep::Reload);
}

#[test]
fn test_creation_single_use_deduplicates() {
    let mut t = blank_timer();
    t.name = Some("solo".to_string());
    t.executable = Some("x".to_string());
    t.single_use = Some(true);
    let rt = normalize(t).unwrap();
    let plan = make_plan(rt, "/d".to_string());

    let state = create_start(&plan);
    let state = create_advance(&plan, state, &StepEvent::Succeeded(String::new()));
    let state = create_advance(&plan, state, &StepEvent::Succeeded(String::new()));
    let state = create_advance(&plan, state, &StepEvent::Succeeded(String::new()));
    assert_eq!(state.step, CreateStep::CheckLedger);

    // already recorded: no second append
    let state = create_advance(&plan, state, &StepEvent::Succeeded("solo\n".to_string()));
    assert_eq!(state.step, CreateStep::Reload);
}

#[test]
fn test_creation_write_failure_is_fatal() {
    let mut t = blank_timer();
    t.name = Some("w".to_string());
    t.executable = Some("x".to_string());
    let rt = normalize(t).unwrap();
    let plan = make_plan(rt, "/d".to_string());

    let state = create_start(&plan);
    let state = create_advance(&plan, state, &StepEvent::Succeeded(String::new()));
    assert_eq!(state.step, CreateStep::WriteService);
    let state = create_advance(&plan, state, &StepEvent::Failed("denied".to_string()));
    assert_eq!(state.step, CreateStep::Finished);
    assert!(state
        .log
        .contains("Failed to write /d/w.service: denied"));
}

#[test]
fn test_creation_no_flags_reports_manual_start() {
    let mut t = blank_timer();
    t.name = Some("m".to_string());
    t.executable = Some("x".to_string());
    let rt = normalize(t).unwrap();
    let plan = make_plan(rt, "/d".to_string());

    let state = create_start(&plan);
    let state = create_advance(&plan, state, &StepEvent::Succeeded(String::new()));
    let state = create_advance(&plan, state, &StepEvent::Succeeded(String::new()));
    let state = create_advance(&plan, state, &StepEvent::Succeeded(String::new()));
    assert_eq!(state.step, CreateStep::Reload);
    let state = create_advance(&plan, state, &StepEvent::Succeeded("Ok".to_string()));
    assert_eq!(state.step, CreateStep::Finished);
    assert!(state
        .log
        .contains("Timer created but not enabled or started (flags not set)."));
}

#[test]
fn test_removal_abort_on_stop_failure() {
    // removal of a timer whose unit does not exist: the stop step fails and
    // nothing further is attempted
    let info = DeletionInfo { name: "ghost".to_string(), remove_service: false };
    let step = removal_start();
    assert_eq!(step, RemovalStep::StopTimer);
    assert_eq!(
        removal_action(&info, "/d", step),
        RemovalAction::RunManager(vec![
            "--user".to_string(),
            "stop".to_string(),
            "ghost.timer".to_string(),
        ])
    );
    let outcome = removal_advance(&info, step, &StepEvent::CommandFailed(String::new()));
    assert_eq!(
        outcome,
        RemovalOutcome::Abort("Failed to stop timer: ghost".to_string())
    );
}

#[test]
fn test_removal_invocation_error_text() {
    let info = DeletionInfo { name: "test_timer".to_string(), remove_service: false };
    let outcome = removal_advance(
        &info,
        RemovalStep::StopTimer,
        &StepEvent::Failed("spawn failed".to_string()),
    );
    assert_eq!(
        outcome,
        RemovalOutcome::Abort("Failed to stop timer test_timer: spawn failed".to_string())
    );
}

#[test]
fn test_removal_success_path() {
    let info = DeletionInfo { name: "test_timer".to_string(), remove_service: true };
    let dir = "/home/u/.config/systemd/user";
    let ok = StepEvent::Succeeded(String::new());

    let mut step = removal_start();
    let expected_actions = [
        RemovalAction::RunManager(vec![
            "--user".to_string(),
            "stop".to_string(),
            "test_timer.timer".to_string(),
        ]),
        RemovalAction::RunManager(vec![
            "--user".to_string(),
            "disable".to_string(),
            "test_timer.timer".to_string(),
        ]),
        RemovalAction::DeleteFile(format!("{}/test_timer.timer", dir)),
        RemovalAction::RunManager(vec!["--user".to_string(), "daemon-reload".to_string()]),
        RemovalAction::RunManager(vec![
            "--user".to_string(),
            "stop".to_string(),
            "test_timer.service".to_string(),
        ]),
        RemovalAction::RunManager(vec![
            "--user".to_string(),
            "disable".to_string(),
            "test_timer.service".to_string(),
        ]),
        RemovalAction::DeleteFile(format!("{}/test_timer.service", dir)),
    ];
    for (i, expected) in expected_actions.iter().enumerate() {
        assert_eq!(&removal_action(&info, dir, step), expected);
        match removal_advance(&info, step, &ok) {
            RemovalOutcome::Next(n) => step = n,
            RemovalOutcome::Done(m) => {
                assert_eq!(i, expected_actions.len() - 1);
                assert_eq!(m, "Successfully removed timer: test_timer");
                return;
            }
            RemovalOutcome::Abort(m) => panic!("unexpected abort: {}", m),
        }
    }
    panic!("removal never completed");
}

#[test]
fn test_removal_without_service_ends_at_reload() {
    let info = DeletionInfo { name: "t".to_string(), remove_service: false };
    let ok = StepEvent::Succeeded(String::new());
    let mut step = removal_start();
    for _ in 0..3 {
        match removal_advance(&info, step, &ok) {
            RemovalOutcome::Next(n) => step = n,
            other => panic!("unexpected outcome: {:?}", other),
        }
    }
    assert_eq!(step, RemovalStep::Reload);
    match removal_advance(&info, step, &ok) {
        RemovalOutcome::Done(m) => assert_eq!(m, "Successfully removed timer: t"),
        other => panic!("unexpected outcome: {:?}", other),
    }
}

#[test]
fn test_ops_reports() {
    assert_eq!(timer_unit("a"), "a.timer");
    assert_eq!(
        enable_args("test_timer"),
        vec![
            "--user".to_string(),
            "enable".to_string(),
            "test_timer.timer".to_string(),
        ]
    );
    assert_eq!(
        enable_report("test_timer", true, "done\n", ""),
        "Enabling timer: test_timer - Success: done\n"
    );
    assert_eq!(
        enable_report("test_timer", false, "", "no such unit"),
        "Enabling timer: test_timer - Failed: no such unit"
    );
    assert_eq!(
        disable_report("test_timer", true, "gone\n", ""),
        Ok("Disabling timer: test_timer - Success: gone".to_string())
    );
    assert_eq!(
        disable_report("test_timer", false, "", " bad \n"),
        Err("Disabling timer: test_timer - Failed: bad".to_string())
    );
    assert_eq!(start_banner("test_timer"), "Starting timer: test_timer");
    assert_eq!(
        stop_report("test_timer", "out"),
        "Stopped timer: test_timer\nout"
    );
    assert_eq!(
        show_args("t"),
        vec!["--user".to_string(), "show".to_string(), "t.timer".to_string()]
    );
    assert_eq!(
        list_args(),
        vec![
            "--user".to_string(),
            "list-unit-files".to_string(),
            "--type=timer".to_string(),
        ]
    );
}
