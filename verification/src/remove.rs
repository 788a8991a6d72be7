//! The removal path of the lifecycle orchestrator, as a state machine.
//!
//! Removal is sequential and fails fast: stop the timer unit, disable it,
//! delete its file, reload the manager, and — only when asked — repeat
//! stop, disable and delete for the service unit.  The caller performs each
//! step's external action and feeds the outcome back in; the first failure
//! aborts the whole sequence with a descriptive error, and no later step is
//! ever reached.

use vstd::prelude::*;
use crate::events::StepEvent;
use crate::ops::{timer_unit, service_unit, user_unit_args};

verus! {

/// What the caller asked to remove.
pub struct DeletionInfo {
    /// Name of the timer unit to remove.
    pub name: String,
    /// Whether the associated service unit is removed as well.
    pub remove_service: bool,
}

/// The steps of the removal sequence, in the order they run.
#[derive(Clone, Copy, Debug, PartialEq, Eq, Structural)]
pub enum RemovalStep {
    StopTimer,
    DisableTimer,
    DeleteTimerFile,
    Reload,
    StopService,
    DisableService,
    DeleteServiceFile,
}

/// The external action one removal step asks of the caller.
#[derive(Debug, PartialEq, Eq)]
pub enum RemovalAction {
    /// Invoke the service manager with these arguments.
    RunManager(Vec<String>),
    /// Delete the file at this path.
    DeleteFile(String),
}

/// Where the machine stands after a step's outcome was fed in.
#[derive(Debug, PartialEq, Eq)]
pub enum RemovalOutcome {
    /// Perform the action of this step next.
    Next(RemovalStep),
    /// The whole sequence succeeded, with this message.
    Done(String),
    /// A step failed; the sequence stops here with this error.
    Abort(String),
}

/// The step that follows `step` when its outcome was a success, or `None`
/// when the sequence is complete.  A failed outcome never has a successor.
pub open spec fn spec_removal_next(
    info: DeletionInfo,
    step: RemovalStep,
    ev: StepEvent,
) -> Option<RemovalStep> {
    if !(ev is Succeeded) {
        None
    } else {
        match step {
            RemovalStep::StopTimer => Some(RemovalStep::DisableTimer),
            RemovalStep::DisableTimer => Some(RemovalStep::DeleteTimerFile),
            RemovalStep::DeleteTimerFile => Some(RemovalStep::Reload),
            RemovalStep::Reload => if info.remove_service {
                Some(RemovalStep::StopService)
            } else {
                None
            },
            RemovalStep::StopService => Some(RemovalStep::DisableService),
            RemovalStep::DisableService => Some(RemovalStep::DeleteServiceFile),
            RemovalStep::DeleteServiceFile => None,
        }
    }
}

/// The error reported when `step` fails with `ev`: an invocation error
/// carries the step, the unit and the error's text; a non-zero exit names
/// the step and the unit.
pub open spec fn spec_removal_error(info: DeletionInfo, step: RemovalStep, ev: StepEvent) -> Seq<
    char,
> {
    let detail = match ev {
        StepEvent::Succeeded(d) => d@,
        StepEvent::CommandFailed(d) => d@,
        StepEvent::Failed(d) => d@,
    };
    let invocation = ev is Failed;
    match step {
        RemovalStep::StopTimer => if invocation {
            "Failed to stop timer "@ + info.name@ + ": "@ + detail
        } else {
            "Failed to stop timer: "@ + info.name@
        },
        RemovalStep::DisableTimer => if invocation {
            "Failed to disable timer "@ + info.name@ + ": "@ + detail
        } else {
            "Failed to disable timer: "@ + info.name@
        },
        RemovalStep::DeleteTimerFile => "Failed to remove timer file: "@ + detail,
        RemovalStep::Reload => if invocation {
            "Failed to reload daemon: "@ + detail
        } else {
            "Failed to reload daemon"@
        },
        RemovalStep::StopService => if invocation {
            "Failed to stop service "@ + info.name@ + ".service: "@ + detail
        } else {
            "Failed to stop service: "@ + info.name@ + ".service"@
        },
        RemovalStep::DisableService => if invocation {
            "Failed to disable service "@ + info.name@ + ".service: "@ + detail
        } else {
            "Failed to disable service: "@ + info.name@ + ".service"@
        },
        RemovalStep::DeleteServiceFile => "Failed to remove service file: "@ + detail,
    }
}

/// Position of a step in the removal sequence.
pub open spec fn removal_step_rank(step: RemovalStep) -> int {
    match step {
        RemovalStep::StopTimer => 0,
        RemovalStep::DisableTimer => 1,
        RemovalStep::DeleteTimerFile => 2,
        RemovalStep::Reload => 3,
        RemovalStep::StopService => 4,
        RemovalStep::DisableService => 5,
        RemovalStep::DeleteServiceFile => 6,
    }
}

/// Law: the removal machine only moves forward — whenever a step has a
/// successor it is a strictly later step, so a run visits no step twice and
/// always ends.
pub proof fn lemma_removal_progress(info: DeletionInfo, step: RemovalStep, ev: StepEvent)
    ensures
        spec_removal_next(info, step, ev) matches Some(n) ==> removal_step_rank(n)
            > removal_step_rank(step),
{
}

/// The first step of every removal: stop the timer unit.
pub fn removal_start() -> (s: RemovalStep)
    ensures
        s == RemovalStep::StopTimer,
{
    RemovalStep::StopTimer
}

/// The external action of `step`: a manager command on the unit, or the
/// deletion of its file inside `unit_dir`.
pub fn removal_action(info: &DeletionInfo, unit_dir: &str, step: RemovalStep) -> (a: RemovalAction)
    ensures
        step == RemovalStep::StopTimer ==> (a matches RemovalAction::RunManager(args)
            && args.deep_view() == seq!["--user"@, "stop"@, info.name@ + ".timer"@]),
        step == RemovalStep::DisableTimer ==> (a matches RemovalAction::RunManager(args)
            && args.deep_view() == seq!["--user"@, "disable"@, info.name@ + ".timer"@]),
        step == RemovalStep::DeleteTimerFile ==> (a matches RemovalAction::DeleteFile(p) && p@
            == unit_dir@ + "/"@ + info.name@ + ".timer"@),
        step == RemovalStep::Reload ==> (a matches RemovalAction::RunManager(args)
            && args.deep_view() == seq!["--user"@, "daemon-reload"@]),
        step == RemovalStep::StopService ==> (a matches RemovalAction::RunManager(args)
            && args.deep_view() == seq!["--user"@, "stop"@, info.name@ + ".service"@]),
        step == RemovalStep::DisableService ==> (a matches RemovalAction::RunManager(args)
            && args.deep_view() == seq!["--user"@, "disable"@, info.name@ + ".service"@]),
        step == RemovalStep::DeleteServiceFile ==> (a matches RemovalAction::DeleteFile(p) && p@
            == unit_dir@ + "/"@ + info.name@ + ".service"@),
{
    match step {
        RemovalStep::StopTimer => RemovalAction::RunManager(
            user_unit_args("stop", timer_unit(info.name.as_str())),
        ),
        RemovalStep::DisableTimer => RemovalAction::RunManager(
            user_unit_args("disable", timer_unit(info.name.as_str())),
        ),
        RemovalStep::DeleteTimerFile => RemovalAction::DeleteFile(
            String::from_str(unit_dir).concat("/").concat(info.name.as_str()).concat(".timer"),
        ),
        RemovalStep::Reload => {
            let mut v: Vec<String> = Vec::new();
            v.push(String::from_str("--user"));
            v.push(String::from_str("daemon-reload"));
            proof {
                assert(v.deep_view() =~= seq!["--user"@, "daemon-reload"@]);
            }
            RemovalAction::RunManager(v)
        },
        RemovalStep::StopService => RemovalAction::RunManager(
            user_unit_args("stop", service_unit(info.name.as_str())),
        ),
        RemovalStep::DisableService => RemovalAction::RunManager(
            user_unit_args("disable", service_unit(info.name.as_str())),
        ),
        RemovalStep::DeleteServiceFile => RemovalAction::DeleteFile(
            String::from_str(unit_dir).concat("/").concat(info.name.as_str()).concat(".service"),
        ),
    }
}

/// Feeds one step's outcome into the machine: a success proceeds to the next
/// step or completes the sequence; anything else aborts it with the step's
/// error, and nothing after the failed step is ever attempted.
pub fn removal_advance(info: &DeletionInfo, step: RemovalStep, ev: &StepEvent) -> (o:
    RemovalOutcome)
    ensures
        spec_removal_next(*info, step, *ev) matches Some(n) ==> o == RemovalOutcome::Next(n),
        (ev matches StepEvent::Succeeded(_)) && spec_removal_next(*info, step, *ev) is None ==> (
        o matches RemovalOutcome::Done(m) && m@ == "Successfully removed timer: "@ + info.name@),
        !(ev matches StepEvent::Succeeded(_)) ==> (o matches RemovalOutcome::Abort(m) && m@
            == spec_removal_error(*info, step, *ev)),
{
    match ev {
        StepEvent::Succeeded(_) => {
            match step {
                RemovalStep::StopTimer => RemovalOutcome::Next(RemovalStep::DisableTimer),
                RemovalStep::DisableTimer => RemovalOutcome::Next(RemovalStep::DeleteTimerFile),
                RemovalStep::DeleteTimerFile => RemovalOutcome::Next(RemovalStep::Reload),
                RemovalStep::Reload => if info.remove_service {
                    RemovalOutcome::Next(RemovalStep::StopService)
                } else {
                    RemovalOutcome::Done(
                        String::from_str("Successfully removed timer: ").concat(
                            info.name.as_str(),
                        ),
                    )
                },
                RemovalStep::StopService => RemovalOutcome::Next(RemovalStep::DisableService),
                RemovalStep::DisableService => RemovalOutcome::Next(
                    RemovalStep::DeleteServiceFile,
                ),
                RemovalStep::DeleteServiceFile => RemovalOutcome::Done(
                    String::from_str("Successfully removed timer: ").concat(info.name.as_str()),
                ),
            }
        },
        StepEvent::CommandFailed(detail) | StepEvent::Failed(detail) => {
            let invocation = matches!(ev, StepEvent::Failed(_));
            let msg = match step {
                RemovalStep::StopTimer => if invocation {
                    String::from_str("Failed to stop timer ").concat(info.name.as_str()).concat(
                        ": ",
                    ).concat(detail.as_str())
                } else {
                    String::from_str("Failed to stop timer: ").concat(info.name.as_str())
                },
                RemovalStep::DisableTimer => if invocation {
                    String::from_str("Failed to disable timer ").concat(info.name.as_str()).concat(
                        ": ",
                    ).concat(detail.as_str())
                } else {
                    String::from_str("Failed to disable timer: ").concat(info.name.as_str())
                },
                RemovalStep::DeleteTimerFile => String::from_str(
                    "Failed to remove timer file: ",
                ).concat(detail.as_str()),
                RemovalStep::Reload => if invocation {
                    String::from_str("Failed to reload daemon: ").concat(detail.as_str())
                } else {
                    String::from_str("Failed to reload daemon")
                },
                RemovalStep::StopService => if invocation {
                    String::from_str("Failed to stop service ").concat(info.name.as_str()).concat(
                        ".service: ",
                    ).concat(detail.as_str())
                } else {
                    String::from_str("Failed to stop service: ").concat(info.name.as_str()).concat(
                        ".service",
                    )
                },
                RemovalStep::DisableService => if invocation {
                    String::from_str("Failed to disable service ").concat(
                        info.name.as_str(),
                    ).concat(".service: ").concat(detail.as_str())
                } else {
                    String::from_str("Failed to disable service: ").concat(
                        info.name.as_str(),
                    ).concat(".service")
                },
                RemovalStep::DeleteServiceFile => String::from_str(
                    "Failed to remove service file: ",
                ).concat(detail.as_str()),
            };
            RemovalOutcome::Abort(msg)
        },
    }
}

/// Law: when the stop step fails, the sequence aborts at once — it has no
/// successor step, so the disable step and the file deletion are never
/// reached — and the error names the stop step and the timer unit.
pub proof fn lemma_removal_abort_on_stop_failure(info: DeletionInfo, ev: StepEvent)
    requires
        !(ev matches StepEvent::Succeeded(_)),
    ensures
        spec_removal_next(info, RemovalStep::StopTimer, ev) is None,
        ev matches StepEvent::CommandFailed(_) ==> spec_removal_error(
            info,
            RemovalStep::StopTimer,
            ev,
        ) == "Failed to stop timer: "@ + info.name@,
        ev matches StepEvent::Failed(d) ==> spec_removal_error(info, RemovalStep::StopTimer, ev)
            == "Failed to stop timer "@ + info.name@ + ": "@ + d@,
{
}

/// Law: a step is only ever reached through the success of the step before
/// it — the machine proceeds only on a success, the disable step only
/// follows the stop step, and the file deletion only follows the disable
/// step.
pub proof fn lemma_removal_order(info: DeletionInfo, step: RemovalStep, ev: StepEvent)
    ensures
        spec_removal_next(info, step, ev) matches Some(_) ==> ev matches StepEvent::Succeeded(_),
        spec_removal_next(info, step, ev) == Some(RemovalStep::DisableTimer) ==> step
            == RemovalStep::StopTimer,
        spec_removal_next(info, step, ev) == Some(RemovalStep::DeleteTimerFile) ==> step
            == RemovalStep::DisableTimer,
        spec_removal_next(info, step, ev) == Some(RemovalStep::StopService) ==> step
            == RemovalStep::Reload && info.remove_service,
{
}

} // verus!
