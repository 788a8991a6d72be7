//! The declarative timer description and its normalization.
//!
//! A [`Timer`] arrives with every field optional.  [`normalize`] applies the
//! defaulting rules once, producing a [`ResolvedTimer`] in which every flag
//! is concrete and the service unit name is fixed, so that generation and
//! orchestration never re-apply defaulting policy.

use vstd::prelude::*;

verus! {

/// Declarative description of a timer unit, as supplied by the caller.
/// Every field is optional; [`normalize`] resolves the defaults.
#[derive(Debug)]
pub struct Timer {
    pub name: Option<String>,
    pub description: Option<String>,
    pub schedule: Option<String>,
    pub executable: Option<String>,
    pub exec_if_missed: Option<bool>,
    pub single_use: Option<bool>,
    pub recurring: Option<bool>,
    pub on_calendar: Option<bool>,
    pub from_boot: Option<bool>,
    pub normal_service: Option<bool>,
    pub service: Option<String>,
    pub already_made_service: Option<bool>,
    pub enable_at_login: Option<bool>,
    pub start_after_create: Option<bool>,
}

/// An absent boolean flag counts as false.
pub open spec fn flag(b: Option<bool>) -> bool {
    b is Some && b->0
}

/// An absent string takes the given default.
pub open spec fn str_or(o: Option<String>, default: Seq<char>) -> Seq<char> {
    if o is Some {
        o->0@
    } else {
        default
    }
}

/// Timer unit name used when the caller supplies none.
pub open spec fn default_name() -> Seq<char> {
    "unnamed"@
}

/// Trigger expression used when the caller supplies none: fire shortly
/// after the timer itself becomes active.
pub open spec fn default_schedule() -> Seq<char> {
    "1min"@
}

/// Configuration faults detected before any external work starts.
#[derive(Clone, Copy, Debug, PartialEq, Eq, Structural)]
pub enum ConfigError {
    /// A service definition must be generated, but no command line was given.
    MissingExecutable,
}

impl ConfigError {
    pub fn message(&self) -> (r: String)
        ensures
            r@ == "executable required to create service"@,
    {
        String::from_str("executable required to create service")
    }
}

/// A fully resolved description: every default applied, the referenced
/// service unit name fixed.
#[derive(Debug)]
pub struct ResolvedTimer {
    pub name: String,
    pub description: Option<String>,
    pub schedule: String,
    pub executable: Option<String>,
    pub exec_if_missed: bool,
    pub single_use: bool,
    pub recurring: bool,
    pub on_calendar: bool,
    pub from_boot: bool,
    pub normal_service: bool,
    pub service_unit: String,
    pub already_made_service: bool,
    pub enable_at_login: bool,
    pub start_after_create: bool,
}

impl ResolvedTimer {
    /// Whenever a service definition is to be generated, the command line
    /// to run is present.
    pub open spec fn wf(&self) -> bool {
        !self.already_made_service ==> self.executable is Some
    }
}

/// Applies the defaulting rules of the descriptor: absent flags are false,
/// an absent name and schedule take their sentinels, an empty description
/// counts as absent, and the service unit name falls back to the timer
/// name.  Fails exactly when a service must be generated
/// (`already_made_service` absent or false) but no executable was given.
pub fn normalize(t: Timer) -> (r: Result<ResolvedTimer, ConfigError>)
    ensures
        r is Err <==> !flag(t.already_made_service) && t.executable is None,
        r matches Err(e) ==> e == ConfigError::MissingExecutable,
        r matches Ok(rt) ==> {
            &&& rt.wf()
            &&& rt.name@ == str_or(t.name, default_name())
            &&& rt.description == (if t.description is Some && t.description->0@.len() > 0 {
                t.description
            } else {
                None
            })
            &&& rt.schedule@ == str_or(t.schedule, default_schedule())
            &&& rt.executable == t.executable
            &&& rt.exec_if_missed == flag(t.exec_if_missed)
            &&& rt.single_use == flag(t.single_use)
            &&& rt.recurring == flag(t.recurring)
            &&& rt.on_calendar == flag(t.on_calendar)
            &&& rt.from_boot == flag(t.from_boot)
            &&& rt.normal_service == flag(t.normal_service)
            &&& rt.service_unit@ == str_or(t.service, str_or(t.name, default_name()))
            &&& rt.already_made_service == flag(t.already_made_service)
            &&& rt.enable_at_login == flag(t.enable_at_login)
            &&& rt.start_after_create == flag(t.start_after_create)
        },
{
    let already_made_service = t.already_made_service.unwrap_or(false);
    if !already_made_service && t.executable.is_none() {
        return Err(ConfigError::MissingExecutable);
    }
    let name = match t.name {
        Some(n) => n,
        None => String::from_str("unnamed"),
    };
    let schedule = match t.schedule {
        Some(s) => s,
        None => String::from_str("1min"),
    };
    let service_unit = match t.service {
        Some(s) => s,
        None => name.clone(),
    };
    let description = match t.description {
        Some(d) => if d.as_str().unicode_len() > 0 {
            Some(d)
        } else {
            None
        },
        None => None,
    };
    Ok(ResolvedTimer {
        name,
        description,
        schedule,
        executable: t.executable,
        exec_if_missed: t.exec_if_missed.unwrap_or(false),
        single_use: t.single_use.unwrap_or(false),
        recurring: t.recurring.unwrap_or(false),
        on_calendar: t.on_calendar.unwrap_or(false),
        from_boot: t.from_boot.unwrap_or(false),
        normal_service: t.normal_service.unwrap_or(false),
        service_unit,
        already_made_service,
        enable_at_login: t.enable_at_login.unwrap_or(false),
        start_after_create: t.start_after_create.unwrap_or(false),
    })
}

} // verus!
