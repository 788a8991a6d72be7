//! The outcome a caller reports back for one orchestration step.

use vstd::prelude::*;

verus! {

/// What one external step came to.  The payload is display text gathered by
/// the caller: captured output or a status code for a command that ran, the
/// error's text when it could not run at all.
#[derive(Debug, PartialEq, Eq)]
pub enum StepEvent {
    /// The command or filesystem call succeeded.
    Succeeded(String),
    /// The command ran but reported failure (a non-zero exit).
    CommandFailed(String),
    /// The step could not be carried out: the command could not be spawned,
    /// or the filesystem call returned an error.
    Failed(String),
}

/// The display text the event carries, whatever its kind.
pub open spec fn event_text(ev: StepEvent) -> Seq<char> {
    match ev {
        StepEvent::Succeeded(d) => d@,
        StepEvent::CommandFailed(d) => d@,
        StepEvent::Failed(d) => d@,
    }
}

} // verus!
