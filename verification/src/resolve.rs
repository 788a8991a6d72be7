//! The unit directory resolver.
//!
//! The directory that holds generated unit files is computed from an
//! explicit snapshot of two environment values, so the fallback chain is a
//! pure function of its arguments: a set, non-empty base config directory
//! wins; then a set, non-empty home directory; then a fixed writable
//! last-resort path.  The caller creates the directory afterwards.

use vstd::prelude::*;

verus! {

/// Whether an environment value counts as present: set and non-empty.
pub open spec fn env_set(v: Option<Seq<char>>) -> bool {
    v is Some && v->0.len() > 0
}

/// The resolved unit directory for a given environment snapshot.
pub open spec fn spec_unit_dir(config_base: Option<Seq<char>>, home: Option<Seq<char>>) -> Seq<
    char,
> {
    if env_set(config_base) {
        config_base->0 + "/systemd/user"@
    } else if env_set(home) {
        home->0 + "/.config/systemd/user"@
    } else {
        "/tmp/systemd/user"@
    }
}

/// Resolves the unit directory from a snapshot of the base config directory
/// variable and the home directory variable.  The last-resort path is a
/// fixed writable location rather than a literal `~`, since tilde expansion
/// is not guaranteed by filesystem calls.
pub fn resolve_unit_dir(config_base: Option<String>, home: Option<String>) -> (r: String)
    ensures
        r@ == spec_unit_dir(
            match config_base {
                Some(c) => Some(c@),
                None => None,
            },
            match home {
                Some(h) => Some(h@),
                None => None,
            },
        ),
{
    if let Some(c) = config_base {
        if c.as_str().unicode_len() > 0 {
            return c.concat("/systemd/user");
        }
    }
    if let Some(h) = home {
        if h.as_str().unicode_len() > 0 {
            return h.concat("/.config/systemd/user");
        }
    }
    String::from_str("/tmp/systemd/user")
}

/// Law: resolution is a pure function of the environment snapshot — two
/// resolutions against an unchanged environment yield the same path.
pub proof fn lemma_resolution_deterministic(
    config_base: Option<Seq<char>>,
    home: Option<Seq<char>>,
    r1: Seq<char>,
    r2: Seq<char>,
)
    requires
        r1 == spec_unit_dir(config_base, home),
        r2 == spec_unit_dir(config_base, home),
    ensures
        r1 == r2,
{
}

} // verus!
