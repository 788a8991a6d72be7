//! The creation path of the lifecycle orchestrator, as a state machine.
//!
//! A [`Plan`] fixes every path and text up front.  The machine then walks
//! the creation sequence: create the unit directory, write the service file
//! (when one was generated), write the timer file, record a single-use name
//! in the ledger (deduplicated, best-effort), ask the manager to reload,
//! and enable or start the timer as the flags ask.  A failure before the
//! timer file is written ends the run; later failures are reported in the
//! log and the run continues.  The caller performs each step's external
//! action and feeds the outcome back in; the log grows into the final
//! result text.

use vstd::prelude::*;
use crate::events::{StepEvent, event_text};
use crate::generate::{service_text, spec_service_text, spec_timer_text, timer_text};
use crate::ledger::{ledger_line, ledger_contains, spec_ledger_has};
use crate::ops::{enable_args, start_args, timer_unit};
use crate::timers::ResolvedTimer;

verus! {

/// Everything the creation sequence will touch, fixed before any external
/// work: the resolved paths, the generated texts, and the flags that steer
/// the tail of the sequence.
pub struct Plan {
    pub name: String,
    pub unit_dir: String,
    pub service_path: String,
    pub timer_path: String,
    pub ledger_path: String,
    pub service_text: Option<String>,
    pub timer_text: String,
    pub single_use: bool,
    pub enable_at_login: bool,
    pub start_after_create: bool,
}

/// Joins a directory, a slash, a stem and a suffix into one path.
fn join_path(dir: &str, stem: &str, suffix: &str) -> (r: String)
    ensures
        r@ == dir@ + "/"@ + stem@ + suffix@,
{
    String::from_str(dir).concat("/").concat(stem).concat(suffix)
}

/// Lays out the creation plan for a resolved description inside the given
/// unit directory: the unit file paths, the ledger path, and the generated
/// texts.
pub fn make_plan(rt: ResolvedTimer, unit_dir: String) -> (p: Plan)
    requires
        rt.wf(),
    ensures
        p.name@ == rt.name@,
        p.unit_dir@ == unit_dir@,
        p.service_path@ == unit_dir@ + "/"@ + rt.service_unit@ + ".service"@,
        p.timer_path@ == unit_dir@ + "/"@ + rt.name@ + ".timer"@,
        p.ledger_path@ == unit_dir@ + "/.single_use.txt"@,
        rt.already_made_service ==> p.service_text is None,
        !rt.already_made_service ==> (p.service_text matches Some(text) && text@
            == spec_service_text(
            match rt.description {
                Some(d) => Some(d@),
                None => None,
            },
            rt.normal_service,
            rt.executable->0@,
        )),
        p.timer_text@ == spec_timer_text(
            rt.name@,
            rt.service_unit@,
            rt.on_calendar,
            rt.from_boot,
            rt.recurring,
            rt.schedule@,
            rt.exec_if_missed,
        ),
        p.single_use == rt.single_use,
        p.enable_at_login == rt.enable_at_login,
        p.start_after_create == rt.start_after_create,
{
    let service = service_text(&rt);
    let timer = timer_text(&rt);
    let service_path = join_path(unit_dir.as_str(), rt.service_unit.as_str(), ".service");
    let timer_path = join_path(unit_dir.as_str(), rt.name.as_str(), ".timer");
    let ledger_path = String::from_str(unit_dir.as_str()).concat("/.single_use.txt");
    Plan {
        name: rt.name,
        unit_dir,
        service_path,
        timer_path,
        ledger_path,
        service_text: service,
        timer_text: timer,
        single_use: rt.single_use,
        enable_at_login: rt.enable_at_login,
        start_after_create: rt.start_after_create,
    }
}

/// The steps of the creation sequence, in the order they run.
#[derive(Clone, Copy, Debug, PartialEq, Eq, Structural)]
pub enum CreateStep {
    /// Create the unit directory, parents included.
    EnsureDir,
    /// Write the generated service file.
    WriteService,
    /// Write the timer file.
    WriteTimer,
    /// Read the ledger to see whether the name is already recorded.
    CheckLedger,
    /// Append the name to the ledger.
    AppendLedger,
    /// Ask the manager to reload its unit files.
    Reload,
    /// Enable or start the timer, as the flags ask.
    Activate,
    /// The sequence has ended; the log is the result.
    Finished,
}

/// Where the creation sequence stands: the step to perform next, and the
/// log of everything reported so far.
pub struct CreateState {
    pub step: CreateStep,
    pub log: String,
}

/// The external action one creation step asks of the caller.
#[derive(Debug, PartialEq, Eq)]
pub enum CreateAction {
    /// Create this directory and its parents.
    EnsureDir(String),
    /// Write the file at this path with this content.
    WriteFile(String, String),
    /// Read the file at this path, handing back its content.
    ReadFile(String),
    /// Append this line to the file at this path.
    AppendFile(String, String),
    /// Invoke the service manager with these arguments.
    RunManager(Vec<String>),
    /// Nothing remains to be done.
    Stop,
}

/// The step that follows `step` when `ev` is fed in.  A failure up to the
/// timer write ends the run; the ledger steps and everything after the
/// reload continue whatever came back.
pub open spec fn spec_create_next(p: Plan, step: CreateStep, ev: StepEvent) -> CreateStep {
    match step {
        CreateStep::EnsureDir => match ev {
            StepEvent::Succeeded(_) => if p.service_text is Some {
                CreateStep::WriteService
            } else {
                CreateStep::WriteTimer
            },
            _ => CreateStep::Finished,
        },
        CreateStep::WriteService => match ev {
            StepEvent::Succeeded(_) => CreateStep::WriteTimer,
            _ => CreateStep::Finished,
        },
        CreateStep::WriteTimer => match ev {
            StepEvent::Succeeded(_) => if p.single_use {
                CreateStep::CheckLedger
            } else {
                CreateStep::Reload
            },
            _ => CreateStep::Finished,
        },
        CreateStep::CheckLedger => match ev {
            StepEvent::Succeeded(content) => if spec_ledger_has(content@, p.name@) {
                CreateStep::Reload
            } else {
                CreateStep::AppendLedger
            },
            _ => CreateStep::AppendLedger,
        },
        CreateStep::AppendLedger => CreateStep::Reload,
        CreateStep::Reload => if p.enable_at_login || p.start_after_create {
            CreateStep::Activate
        } else {
            CreateStep::Finished
        },
        CreateStep::Activate => CreateStep::Finished,
        CreateStep::Finished => CreateStep::Finished,
    }
}

/// What feeding `ev` into `step` appends to the log: nothing for a quiet
/// success, the step's error report for a failure, and the reload and
/// activation outcomes always.
pub open spec fn spec_create_delta(p: Plan, step: CreateStep, ev: StepEvent) -> Seq<char> {
    match step {
        CreateStep::EnsureDir => match ev {
            StepEvent::Succeeded(_) => Seq::empty(),
            _ => "Failed to create user systemd unit dir "@ + p.unit_dir@ + ": "@ + event_text(ev),
        },
        CreateStep::WriteService => match ev {
            StepEvent::Succeeded(_) => Seq::empty(),
            _ => "Failed to write "@ + p.service_path@ + ": "@ + event_text(ev),
        },
        CreateStep::WriteTimer => match ev {
            StepEvent::Succeeded(_) => Seq::empty(),
            _ => "Failed to write "@ + p.timer_path@ + ": "@ + event_text(ev),
        },
        CreateStep::CheckLedger => Seq::empty(),
        CreateStep::AppendLedger => match ev {
            StepEvent::Succeeded(_) => Seq::empty(),
            _ => "Failed to write single-use promise "@ + p.ledger_path@ + ": "@ + event_text(ev),
        },
        CreateStep::Reload => "Reloading systemd user daemon: "@ + event_text(ev) + "\n"@ + (
        if !p.enable_at_login && !p.start_after_create {
            "Timer created but not enabled or started (flags not set)."@
        } else {
            Seq::empty()
        }),
        CreateStep::Activate => if p.enable_at_login && p.start_after_create {
            match ev {
                StepEvent::Succeeded(_) => "Enabled and started "@ + p.name@ + ".timer (user)"@,
                StepEvent::CommandFailed(d) => "systemctl returned status "@ + d@,
                StepEvent::Failed(e) => "Failed to enable/start timer: "@ + e@,
            }
        } else if p.enable_at_login {
            match ev {
                StepEvent::Succeeded(_) => "Enabled "@ + p.name@ + ".timer (user)"@,
                StepEvent::CommandFailed(d) => "systemctl returned status "@ + d@,
                StepEvent::Failed(e) => "Failed to enable timer: "@ + e@,
            }
        } else if p.start_after_create {
            match ev {
                StepEvent::Succeeded(_) => "Started "@ + p.name@ + ".timer (user)"@,
                StepEvent::CommandFailed(d) => "systemctl returned status "@ + d@,
                StepEvent::Failed(e) => "Failed to start timer: "@ + e@,
            }
        } else {
            Seq::empty()
        },
        CreateStep::Finished => Seq::empty(),
    }
}

/// Position of a step in the creation sequence.
pub open spec fn create_step_rank(step: CreateStep) -> int {
    match step {
        CreateStep::EnsureDir => 0,
        CreateStep::WriteService => 1,
        CreateStep::WriteTimer => 2,
        CreateStep::CheckLedger => 3,
        CreateStep::AppendLedger => 4,
        CreateStep::Reload => 5,
        CreateStep::Activate => 6,
        CreateStep::Finished => 7,
    }
}

/// Law: the creation machine only moves forward — every outcome fed into a
/// step that is not yet finished yields a strictly later step, so a run
/// visits no step twice and always ends.
pub proof fn lemma_create_progress(p: Plan, step: CreateStep, ev: StepEvent)
    requires
        step != CreateStep::Finished,
    ensures
        create_step_rank(spec_create_next(p, step, ev)) > create_step_rank(step),
{
}

/// The machine's starting state: the directory step, with the log opened by
/// the announcement of the timer being added.
pub fn create_start(p: &Plan) -> (s: CreateState)
    ensures
        s.step == CreateStep::EnsureDir,
        s.log@ == "Adding timer: "@ + p.name@ + "\n"@,
{
    CreateState {
        step: CreateStep::EnsureDir,
        log: String::from_str("Adding timer: ").concat(p.name.as_str()).concat("\n"),
    }
}

/// The external action the current step asks of the caller.
pub fn create_action(p: &Plan, s: &CreateState) -> (a: CreateAction)
    ensures
        s.step == CreateStep::EnsureDir ==> (a matches CreateAction::EnsureDir(d) && d@
            == p.unit_dir@),
        s.step == CreateStep::WriteService ==> (p.service_text matches Some(t) ==> (
        a matches CreateAction::WriteFile(pa, c) && pa@ == p.service_path@ && c@ == t@)),
        s.step == CreateStep::WriteService && p.service_text is None ==> a == CreateAction::Stop,
        s.step == CreateStep::WriteTimer ==> (a matches CreateAction::WriteFile(pa, c) && pa@
            == p.timer_path@ && c@ == p.timer_text@),
        s.step == CreateStep::CheckLedger ==> (a matches CreateAction::ReadFile(pa) && pa@
            == p.ledger_path@),
        s.step == CreateStep::AppendLedger ==> (a matches CreateAction::AppendFile(pa, line) && pa@
            == p.ledger_path@ && line@ == p.name@ + "\n"@),
        s.step == CreateStep::Reload ==> (a matches CreateAction::RunManager(args)
            && args.deep_view() == seq!["--user"@, "daemon-reload"@]),
        s.step == CreateStep::Activate && p.enable_at_login && p.start_after_create ==> (
        a matches CreateAction::RunManager(args) && args.deep_view() == seq!["--user"@, "enable"@, "--now"@, p.name@
            + ".timer"@]),
        s.step == CreateStep::Activate && p.enable_at_login && !p.start_after_create ==> (
        a matches CreateAction::RunManager(args) && args.deep_view() == seq!["--user"@, "enable"@, p.name@
            + ".timer"@]),
        s.step == CreateStep::Activate && !p.enable_at_login && p.start_after_create ==> (
        a matches CreateAction::RunManager(args) && args.deep_view() == seq!["--user"@, "start"@, p.name@
            + ".timer"@]),
        s.step == CreateStep::Activate && !p.enable_at_login && !p.start_after_create ==> a
            == CreateAction::Stop,
        s.step == CreateStep::Finished ==> a == CreateAction::Stop,
{
    match s.step {
        CreateStep::EnsureDir => CreateAction::EnsureDir(p.unit_dir.clone()),
        CreateStep::WriteService => match &p.service_text {
            Some(t) => CreateAction::WriteFile(p.service_path.clone(), t.clone()),
            None => CreateAction::Stop,
        },
        CreateStep::WriteTimer => CreateAction::WriteFile(
            p.timer_path.clone(),
            p.timer_text.clone(),
        ),
        CreateStep::CheckLedger => CreateAction::ReadFile(p.ledger_path.clone()),
        CreateStep::AppendLedger => CreateAction::AppendFile(
            p.ledger_path.clone(),
            ledger_line(p.name.as_str()),
        ),
        CreateStep::Reload => {
            let mut v: Vec<String> = Vec::new();
            v.push(String::from_str("--user"));
            v.push(String::from_str("daemon-reload"));
            proof {
                assert(v.deep_view() =~= seq!["--user"@, "daemon-reload"@]);
            }
            CreateAction::RunManager(v)
        },
        CreateStep::Activate => {
            if p.enable_at_login && p.start_after_create {
                let mut v: Vec<String> = Vec::new();
                v.push(String::from_str("--user"));
                v.push(String::from_str("enable"));
                v.push(String::from_str("--now"));
                v.push(timer_unit(p.name.as_str()));
                proof {
                    assert(v.deep_view() =~= seq!["--user"@, "enable"@, "--now"@, p.name@
                        + ".timer"@]);
                }
                CreateAction::RunManager(v)
            } else if p.enable_at_login {
                CreateAction::RunManager(enable_args(p.name.as_str()))
            } else if p.start_after_create {
                CreateAction::RunManager(start_args(p.name.as_str()))
            } else {
                CreateAction::Stop
            }
        },
        CreateStep::Finished => CreateAction::Stop,
    }
}

/// Feeds one step's outcome into the machine: the step advances as
/// [`spec_create_next`] says and the log grows by [`spec_create_delta`].
pub fn create_advance(p: &Plan, s: CreateState, ev: &StepEvent) -> (s2: CreateState)
    ensures
        s2.step == spec_create_next(*p, s.step, *ev),
        s2.log@ == s.log@ + spec_create_delta(*p, s.step, *ev),
{
    let mut log = s.log;
    let step = match s.step {
        CreateStep::EnsureDir => match ev {
            StepEvent::Succeeded(_) => if p.service_text.is_some() {
                CreateStep::WriteService
            } else {
                CreateStep::WriteTimer
            },
            StepEvent::CommandFailed(e) | StepEvent::Failed(e) => {
                log.append("Failed to create user systemd unit dir ");
                log.append(p.unit_dir.as_str());
                log.append(": ");
                log.append(e.as_str());
                CreateStep::Finished
            },
        },
        CreateStep::WriteService => match ev {
            StepEvent::Succeeded(_) => CreateStep::WriteTimer,
            StepEvent::CommandFailed(e) | StepEvent::Failed(e) => {
                log.append("Failed to write ");
                log.append(p.service_path.as_str());
                log.append(": ");
                log.append(e.as_str());
                CreateStep::Finished
            },
        },
        CreateStep::WriteTimer => match ev {
            StepEvent::Succeeded(_) => if p.single_use {
                CreateStep::CheckLedger
            } else {
                CreateStep::Reload
            },
            StepEvent::CommandFailed(e) | StepEvent::Failed(e) => {
                log.append("Failed to write ");
                log.append(p.timer_path.as_str());
                log.append(": ");
                log.append(e.as_str());
                CreateStep::Finished
            },
        },
        CreateStep::CheckLedger => match ev {
            StepEvent::Succeeded(content) => if ledger_contains(
                content.as_str(),
                p.name.as_str(),
            ) {
                CreateStep::Reload
            } else {
                CreateStep::AppendLedger
            },
            _ => CreateStep::AppendLedger,
        },
        CreateStep::AppendLedger => {
            match ev {
                StepEvent::Succeeded(_) => {},
                StepEvent::CommandFailed(e) | StepEvent::Failed(e) => {
                    log.append("Failed to write single-use promise ");
                    log.append(p.ledger_path.as_str());
                    log.append(": ");
                    log.append(e.as_str());
                },
            }
            CreateStep::Reload
        },
        CreateStep::Reload => {
            log.append("Reloading systemd user daemon: ");
            match ev {
                StepEvent::Succeeded(d) | StepEvent::CommandFailed(d) | StepEvent::Failed(d) => {
                    log.append(d.as_str());
                },
            }
            log.append("\n");
            if p.enable_at_login || p.start_after_create {
                CreateStep::Activate
            } else {
                log.append("Timer created but not enabled or started (flags not set).");
                CreateStep::Finished
            }
        },
        CreateStep::Activate => {
            if p.enable_at_login && p.start_after_create {
                match ev {
                    StepEvent::Succeeded(_) => {
                        log.append("Enabled and started ");
                        log.append(p.name.as_str());
                        log.append(".timer (user)");
                    },
                    StepEvent::CommandFailed(d) => {
                        log.append("systemctl returned status ");
                        log.append(d.as_str());
                    },
                    StepEvent::Failed(e) => {
                        log.append("Failed to enable/start timer: ");
                        log.append(e.as_str());
                    },
                }
            } else if p.enable_at_login {
                match ev {
                    StepEvent::Succeeded(_) => {
                        log.append("Enabled ");
                        log.append(p.name.as_str());
                        log.append(".timer (user)");
                    },
                    StepEvent::CommandFailed(d) => {
                        log.append("systemctl returned status ");
                        log.append(d.as_str());
                    },
                    StepEvent::Failed(e) => {
                        log.append("Failed to enable timer: ");
                        log.append(e.as_str());
                    },
                }
            } else if p.start_after_create {
                match ev {
                    StepEvent::Succeeded(_) => {
                        log.append("Started ");
                        log.append(p.name.as_str());
                        log.append(".timer (user)");
                    },
                    StepEvent::CommandFailed(d) => {
                        log.append("systemctl returned status ");
                        log.append(d.as_str());
                    },
                    StepEvent::Failed(e) => {
                        log.append("Failed to start timer: ");
                        log.append(e.as_str());
                    },
                }
            }
            CreateStep::Finished
        },
        CreateStep::Finished => CreateStep::Finished,
    };
    CreateState { step, log }
}

} // verus!
