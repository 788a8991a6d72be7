//! The compute halves of the single-unit operations: building the argument
//! lists handed to the external service manager, and composing the report
//! text from what came back.  The caller spawns the commands and feeds the
//! captured output in.

use vstd::prelude::*;
use crate::trim::{trimmed, trim_str};

verus! {

/// `<name>.timer`, the timer unit a name refers to.
pub fn timer_unit(name: &str) -> (r: String)
    ensures
        r@ == name@ + ".timer"@,
{
    String::from_str(name).concat(".timer")
}

/// `<name>.service`, the service unit a name refers to.
pub fn service_unit(name: &str) -> (r: String)
    ensures
        r@ == name@ + ".service"@,
{
    String::from_str(name).concat(".service")
}

/// Arguments of a user-scoped manager command with one verb and one unit:
/// `--user <verb> <unit>`.
pub fn user_unit_args(verb: &str, unit: String) -> (r: Vec<String>)
    ensures
        r.deep_view() == seq!["--user"@, verb@, unit@],
{
    let mut v: Vec<String> = Vec::new();
    v.push(String::from_str("--user"));
    v.push(String::from_str(verb));
    v.push(unit);
    proof {
        assert(v.deep_view() =~= seq!["--user"@, verb@, v@[2]@]);
    }
    v
}

/// Arguments that enable `<name>.timer` at login: `--user enable <unit>`.
pub fn enable_args(name: &str) -> (r: Vec<String>)
    ensures
        r.deep_view() == seq!["--user"@, "enable"@, name@ + ".timer"@],
{
    user_unit_args("enable", timer_unit(name))
}

/// Arguments that disable `<name>.timer`: `--user disable <unit>`.
pub fn disable_args(name: &str) -> (r: Vec<String>)
    ensures
        r.deep_view() == seq!["--user"@, "disable"@, name@ + ".timer"@],
{
    user_unit_args("disable", timer_unit(name))
}

/// Arguments that start `<name>.timer` now: `--user start <unit>`.
pub fn start_args(name: &str) -> (r: Vec<String>)
    ensures
        r.deep_view() == seq!["--user"@, "start"@, name@ + ".timer"@],
{
    user_unit_args("start", timer_unit(name))
}

/// Arguments that stop `<name>.timer`: `--user stop <unit>`.
pub fn stop_args(name: &str) -> (r: Vec<String>)
    ensures
        r.deep_view() == seq!["--user"@, "stop"@, name@ + ".timer"@],
{
    user_unit_args("stop", timer_unit(name))
}

/// Arguments that introspect `<name>.timer`: `--user show <unit>`.
pub fn show_args(name: &str) -> (r: Vec<String>)
    ensures
        r.deep_view() == seq!["--user"@, "show"@, name@ + ".timer"@],
{
    user_unit_args("show", timer_unit(name))
}

/// Arguments that enumerate timer units: `--user list-unit-files --type=timer`.
pub fn list_args() -> (r: Vec<String>)
    ensures
        r.deep_view() == seq!["--user"@, "list-unit-files"@, "--type=timer"@],
{
    let mut v: Vec<String> = Vec::new();
    v.push(String::from_str("--user"));
    v.push(String::from_str("list-unit-files"));
    v.push(String::from_str("--type=timer"));
    proof {
        assert(v.deep_view() =~= seq!["--user"@, "list-unit-files"@, "--type=timer"@]);
    }
    v
}

/// Report of the enable operation: the intent, then the captured output on
/// success or the captured error text on a non-zero exit.
pub fn enable_report(name: &str, success: bool, stdout: &str, stderr: &str) -> (r: String)
    ensures
        success ==> r@ == "Enabling timer: "@ + name@ + " - Success: "@ + stdout@,
        !success ==> r@ == "Enabling timer: "@ + name@ + " - Failed: "@ + stderr@,
{
    let head = String::from_str("Enabling timer: ").concat(name);
    if success {
        head.concat(" - Success: ").concat(stdout)
    } else {
        head.concat(" - Failed: ").concat(stderr)
    }
}

/// Report of the disable operation: the success message carries the trimmed
/// captured output; a non-zero exit is an error carrying the trimmed
/// captured error text.
pub fn disable_report(name: &str, success: bool, stdout: &str, stderr: &str) -> (r: Result<
    String,
    String,
>)
    ensures
        success ==> (r matches Ok(m) && m@ == "Disabling timer: "@ + name@ + " - Success: "@
            + trimmed(stdout@)),
        !success ==> (r matches Err(m) && m@ == "Disabling timer: "@ + name@ + " - Failed: "@
            + trimmed(stderr@)),
{
    let head = String::from_str("Disabling timer: ").concat(name);
    if success {
        Ok(head.concat(" - Success: ").concat(trim_str(stdout).as_str()))
    } else {
        Err(head.concat(" - Failed: ").concat(trim_str(stderr).as_str()))
    }
}

/// The line announcing that a start was requested.
pub fn start_banner(name: &str) -> (r: String)
    ensures
        r@ == "Starting timer: "@ + name@,
{
    String::from_str("Starting timer: ").concat(name)
}

/// Report of the stop operation: the stopped unit's name, then the captured
/// output.
pub fn stop_report(name: &str, stdout: &str) -> (r: String)
    ensures
        r@ == "Stopped timer: "@ + name@ + "\n"@ + stdout@,
{
    String::from_str("Stopped timer: ").concat(name).concat("\n").concat(stdout)
}

} // verus!
