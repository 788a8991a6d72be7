//! The unit text generator: a pure function from a resolved description to
//! the service and timer definition texts.
//!
//! The texts follow the line-oriented `[Section]` / `Key=Value` grammar of
//! the consuming service manager; key and section names are reproduced
//! verbatim.

use vstd::prelude::*;
use crate::escape::{escaped, escape_single_quotes};
use crate::timers::ResolvedTimer;

verus! {

/// `Type=` line of the service definition, chosen by `normal_service`.
pub open spec fn spec_type_line(normal_service: bool) -> Seq<char> {
    if normal_service {
        "Type=simple"@
    } else {
        "Type=oneshot"@
    }
}

/// `Restart=` line of the service definition, chosen by `normal_service`.
pub open spec fn spec_restart_line(normal_service: bool) -> Seq<char> {
    if normal_service {
        "Restart=on-failure"@
    } else {
        "Restart=no"@
    }
}

/// The full service definition text for a description that asks for one.
pub open spec fn spec_service_text(
    description: Option<Seq<char>>,
    normal_service: bool,
    executable: Seq<char>,
) -> Seq<char> {
    "[Unit]\n"@ + (match description {
        Some(d) => "Description="@ + d + "\n"@,
        None => Seq::<char>::empty(),
    }) + "\n[Service]\n"@ + spec_type_line(normal_service) + "\n"@ + "ExecStart=/bin/sh -c '"@
        + escaped(executable) + "'\n"@ + spec_restart_line(normal_service) + "\n"@
        + "\n[Install]\nWantedBy=default.target\n"@
}

/// The single trigger line of the timer definition, chosen by the fixed
/// priority `on_calendar > from_boot > recurring > default`.
pub open spec fn spec_trigger_line(
    on_calendar: bool,
    from_boot: bool,
    recurring: bool,
    schedule: Seq<char>,
) -> Seq<char> {
    if on_calendar {
        "OnCalendar="@ + schedule
    } else if from_boot {
        "OnBootSec="@ + schedule
    } else if recurring {
        "OnUnitActiveSec="@ + schedule
    } else {
        "OnActiveSec="@ + schedule
    }
}

/// The full timer definition text.
pub open spec fn spec_timer_text(
    name: Seq<char>,
    service_unit: Seq<char>,
    on_calendar: bool,
    from_boot: bool,
    recurring: bool,
    schedule: Seq<char>,
    exec_if_missed: bool,
) -> Seq<char> {
    "[Unit]\nDescription=Timer for "@ + name + "\n\n[Timer]\nUnit="@ + service_unit
        + ".service\n"@ + spec_trigger_line(on_calendar, from_boot, recurring, schedule) + "\n"@
        + (if exec_if_missed {
        "Persistent=yes"@
    } else {
        "Persistent=no"@
    }) + "\n"@ + (if recurring {
        "RemainAfterElapse=yes"@
    } else {
        "RemainAfterElapse=no"@
    }) + "\n\n[Install]\nWantedBy=timers.target\n"@
}

/// Service definition text for the description: `None` exactly when the
/// service already exists and none is to be generated.
pub fn service_text(rt: &ResolvedTimer) -> (r: Option<String>)
    requires
        rt.wf(),
    ensures
        rt.already_made_service ==> r is None,
        !rt.already_made_service ==> (r matches Some(text) && text@ == spec_service_text(
            match rt.description {
                Some(d) => Some(d@),
                None => None,
            },
            rt.normal_service,
            rt.executable->0@,
        )),
{
    if rt.already_made_service {
        return None;
    }
    let mut out = String::new();
    out.append("[Unit]\n");
    match &rt.description {
        Some(d) => {
            out.append("Description=");
            out.append(d.as_str());
            out.append("\n");
        },
        None => {},
    }
    out.append("\n[Service]\n");
    if rt.normal_service {
        out.append("Type=simple");
    } else {
        out.append("Type=oneshot");
    }
    out.append("\n");
    out.append("ExecStart=/bin/sh -c '");
    let exe = match &rt.executable {
        Some(e) => e.as_str(),
        None => "",
    };
    let esc = escape_single_quotes(exe);
    out.append(esc.as_str());
    out.append("'\n");
    if rt.normal_service {
        out.append("Restart=on-failure");
    } else {
        out.append("Restart=no");
    }
    out.append("\n");
    out.append("\n[Install]\nWantedBy=default.target\n");
    proof {
        assert(out@ =~= spec_service_text(
            match rt.description {
                Some(d) => Some(d@),
                None => None,
            },
            rt.normal_service,
            rt.executable->0@,
        ));
    }
    Some(out)
}

/// Timer definition text for the description; always produced.
pub fn timer_text(rt: &ResolvedTimer) -> (r: String)
    ensures
        r@ == spec_timer_text(
            rt.name@,
            rt.service_unit@,
            rt.on_calendar,
            rt.from_boot,
            rt.recurring,
            rt.schedule@,
            rt.exec_if_missed,
        ),
{
    let mut out = String::new();
    out.append("[Unit]\nDescription=Timer for ");
    out.append(rt.name.as_str());
    out.append("\n\n[Timer]\nUnit=");
    out.append(rt.service_unit.as_str());
    out.append(".service\n");
    if rt.on_calendar {
        out.append("OnCalendar=");
    } else if rt.from_boot {
        out.append("OnBootSec=");
    } else if rt.recurring {
        out.append("OnUnitActiveSec=");
    } else {
        out.append("OnActiveSec=");
    }
    out.append(rt.schedule.as_str());
    out.append("\n");
    if rt.exec_if_missed {
        out.append("Persistent=yes");
    } else {
        out.append("Persistent=no");
    }
    out.append("\n");
    if rt.recurring {
        out.append("RemainAfterElapse=yes");
    } else {
        out.append("RemainAfterElapse=no");
    }
    out.append("\n\n[Install]\nWantedBy=timers.target\n");
    proof {
        assert(out@ =~= spec_timer_text(
            rt.name@,
            rt.service_unit@,
            rt.on_calendar,
            rt.from_boot,
            rt.recurring,
            rt.schedule@,
            rt.exec_if_missed,
        ));
    }
    out
}

/// Law: the service text carries `Type=simple` together with
/// `Restart=on-failure` when `normal_service` holds, and `Type=oneshot`
/// together with `Restart=no` otherwise; the two `Type=` values differ, so
/// exactly one of them stands in the text, determined solely by
/// `normal_service`.
pub proof fn lemma_service_type_restart(normal_service: bool)
    ensures
        normal_service ==> spec_type_line(normal_service) == "Type=simple"@
            && spec_restart_line(normal_service) == "Restart=on-failure"@,
        !normal_service ==> spec_type_line(normal_service) == "Type=oneshot"@
            && spec_restart_line(normal_service) == "Restart=no"@,
        "Type=simple"@ != "Type=oneshot"@,
        "Restart=on-failure"@ != "Restart=no"@,
{
    reveal_strlit("Type=simple");
    reveal_strlit("Type=oneshot");
    reveal_strlit("Restart=on-failure");
    reveal_strlit("Restart=no");
    assert("Type=simple"@.len() == 11);
    assert("Type=oneshot"@.len() == 12);
    assert("Restart=on-failure"@.len() == 18);
    assert("Restart=no"@.len() == 10);
}

/// Law: the trigger line is the schedule behind exactly one of the four
/// trigger keys, picked by the fixed priority
/// `on_calendar > from_boot > recurring > default`.
pub proof fn lemma_trigger_priority(
    on_calendar: bool,
    from_boot: bool,
    recurring: bool,
    schedule: Seq<char>,
)
    ensures
        on_calendar ==> spec_trigger_line(on_calendar, from_boot, recurring, schedule)
            == "OnCalendar="@ + schedule,
        !on_calendar && from_boot ==> spec_trigger_line(on_calendar, from_boot, recurring, schedule)
            == "OnBootSec="@ + schedule,
        !on_calendar && !from_boot && recurring ==> spec_trigger_line(
            on_calendar,
            from_boot,
            recurring,
            schedule,
        ) == "OnUnitActiveSec="@ + schedule,
        !on_calendar && !from_boot && !recurring ==> spec_trigger_line(
            on_calendar,
            from_boot,
            recurring,
            schedule,
        ) == "OnActiveSec="@ + schedule,
{
}

/// Whether `p` is a prefix of `l`.
pub open spec fn starts_with(l: Seq<char>, p: Seq<char>) -> bool {
    p.len() <= l.len() && l.take(p.len() as int) == p
}

/// Whether a line is a trigger line: it begins with one of the four trigger
/// keys.
pub open spec fn is_trigger_key_line(l: Seq<char>) -> bool {
    starts_with(l, "OnCalendar="@) || starts_with(l, "OnBootSec="@) || starts_with(
        l,
        "OnUnitActiveSec="@,
    ) || starts_with(l, "OnActiveSec="@)
}

/// The timer definition text as its sequence of lines, each line without
/// its terminating newline.
pub open spec fn spec_timer_lines(
    name: Seq<char>,
    service_unit: Seq<char>,
    on_calendar: bool,
    from_boot: bool,
    recurring: bool,
    schedule: Seq<char>,
    exec_if_missed: bool,
) -> Seq<Seq<char>> {
    seq![
        "[Unit]"@,
        "Description=Timer for "@ + name,
        Seq::<char>::empty(),
        "[Timer]"@,
        "Unit="@ + service_unit + ".service"@,
        spec_trigger_line(on_calendar, from_boot, recurring, schedule),
        (if exec_if_missed {
            "Persistent=yes"@
        } else {
            "Persistent=no"@
        }),
        (if recurring {
            "RemainAfterElapse=yes"@
        } else {
            "RemainAfterElapse=no"@
        }),
        Seq::<char>::empty(),
        "[Install]"@,
        "WantedBy=timers.target"@,
    ]
}

/// The text the lines stand for: each line followed by a newline.
pub open spec fn render_lines(lines: Seq<Seq<char>>) -> Seq<char>
    decreases lines.len(),
{
    if lines.len() == 0 {
        Seq::empty()
    } else {
        lines[0] + seq!['\n'] + render_lines(lines.skip(1))
    }
}

proof fn lemma_not_trigger_by_head(l: Seq<char>)
    requires
        l.len() == 0 || l[0] != 'O',
    ensures
        !is_trigger_key_line(l),
{
    reveal_strlit("OnCalendar=");
    reveal_strlit("OnBootSec=");
    reveal_strlit("OnUnitActiveSec=");
    reveal_strlit("OnActiveSec=");
    if l.len() > 0 {
        if starts_with(l, "OnCalendar="@) {
            assert(l.take(11)[0] == 'O');
        }
        if starts_with(l, "OnBootSec="@) {
            assert(l.take(10)[0] == 'O');
        }
        if starts_with(l, "OnUnitActiveSec="@) {
            assert(l.take(16)[0] == 'O');
        }
        if starts_with(l, "OnActiveSec="@) {
            assert(l.take(12)[0] == 'O');
        }
    }
}

/// Law: the timer text is its lines rendered one after the other, and among
/// those lines exactly one is a trigger line — the one the fixed priority
/// picked.
#[verifier::rlimit(100)]
pub proof fn lemma_timer_text_one_trigger_line(
    name: Seq<char>,
    service_unit: Seq<char>,
    on_calendar: bool,
    from_boot: bool,
    recurring: bool,
    schedule: Seq<char>,
    exec_if_missed: bool,
)
    ensures
        spec_timer_text(
            name,
            service_unit,
            on_calendar,
            from_boot,
            recurring,
            schedule,
            exec_if_missed,
        ) == render_lines(
            spec_timer_lines(
                name,
                service_unit,
                on_calendar,
                from_boot,
                recurring,
                schedule,
                exec_if_missed,
            ),
        ),
        spec_timer_lines(
            name,
            service_unit,
            on_calendar,
            from_boot,
            recurring,
            schedule,
            exec_if_missed,
        )[5] == spec_trigger_line(on_calendar, from_boot, recurring, schedule),
        is_trigger_key_line(spec_trigger_line(on_calendar, from_boot, recurring, schedule)),
        forall|i: int|
            0 <= i < 11 && i != 5 ==> !is_trigger_key_line(
                #[trigger] spec_timer_lines(
                    name,
                    service_unit,
                    on_calendar,
                    from_boot,
                    recurring,
                    schedule,
                    exec_if_missed,
                )[i],
            ),
{
    let ls = spec_timer_lines(
        name,
        service_unit,
        on_calendar,
        from_boot,
        recurring,
        schedule,
        exec_if_missed,
    );
    let trigger = spec_trigger_line(on_calendar, from_boot, recurring, schedule);
    let persistent = if exec_if_missed {
        "Persistent=yes"@
    } else {
        "Persistent=no"@
    };
    let remain = if recurring {
        "RemainAfterElapse=yes"@
    } else {
        "RemainAfterElapse=no"@
    };

    // the text is the lines rendered in order
    reveal_strlit("\n");
    reveal_strlit("[Unit]");
    reveal_strlit("Description=Timer for ");
    reveal_strlit("[Timer]");
    reveal_strlit("Unit=");
    reveal_strlit(".service");
    reveal_strlit("[Install]");
    reveal_strlit("WantedBy=timers.target");
    reveal_strlit("[Unit]\nDescription=Timer for ");
    reveal_strlit("\n\n[Timer]\nUnit=");
    reveal_strlit(".service\n");
    reveal_strlit("\n\n[Install]\nWantedBy=timers.target\n");
    assert("\n"@ =~= seq!['\n']);
    assert("[Unit]\nDescription=Timer for "@ =~= "[Unit]"@ + seq!['\n']
        + "Description=Timer for "@);
    assert("\n\n[Timer]\nUnit="@ =~= seq!['\n'] + seq!['\n'] + "[Timer]"@ + seq!['\n'] + "Unit="@);
    assert(".service\n"@ =~= ".service"@ + seq!['\n']);
    assert("\n\n[Install]\nWantedBy=timers.target\n"@ =~= seq!['\n'] + seq!['\n'] + "[Install]"@
        + seq!['\n'] + "WantedBy=timers.target"@ + seq!['\n']);
    assert(ls.subrange(0, 11) =~= ls);
    assert(ls.subrange(11, 11) =~= Seq::<Seq<char>>::empty());
    assert(render_lines(Seq::<Seq<char>>::empty()) == Seq::<char>::empty());
    lemma_render_step(ls, 0);
    lemma_render_step(ls, 1);
    lemma_render_step(ls, 2);
    lemma_render_step(ls, 3);
    lemma_render_step(ls, 4);
    lemma_render_step(ls, 5);
    lemma_render_step(ls, 6);
    lemma_render_step(ls, 7);
    lemma_render_step(ls, 8);
    lemma_render_step(ls, 9);
    lemma_render_step(ls, 10);
    assert(render_lines(ls) =~= ls[0] + seq!['\n'] + (ls[1] + seq!['\n'] + (ls[2] + seq!['\n'] + (
    ls[3] + seq!['\n'] + (ls[4] + seq!['\n'] + (ls[5] + seq!['\n'] + (ls[6] + seq!['\n'] + (ls[7]
        + seq!['\n'] + (ls[8] + seq!['\n'] + (ls[9] + seq!['\n'] + (ls[10] + seq!['\n']
        + Seq::<char>::empty())))))))))));
    assert(spec_timer_text(
        name,
        service_unit,
        on_calendar,
        from_boot,
        recurring,
        schedule,
        exec_if_missed,
    ) =~= render_lines(ls));

    // the trigger line stands at its place and is the only trigger line
    assert(starts_with(trigger, "OnCalendar="@) || starts_with(trigger, "OnBootSec="@)
        || starts_with(trigger, "OnUnitActiveSec="@) || starts_with(trigger, "OnActiveSec="@)) by {
        reveal_strlit("OnCalendar=");
        reveal_strlit("OnBootSec=");
        reveal_strlit("OnUnitActiveSec=");
        reveal_strlit("OnActiveSec=");
        if on_calendar {
            assert(("OnCalendar="@ + schedule).take(11) =~= "OnCalendar="@);
        } else if from_boot {
            assert(("OnBootSec="@ + schedule).take(10) =~= "OnBootSec="@);
        } else if recurring {
            assert(("OnUnitActiveSec="@ + schedule).take(16) =~= "OnUnitActiveSec="@);
        } else {
            assert(("OnActiveSec="@ + schedule).take(12) =~= "OnActiveSec="@);
        }
    }
    assert(("Description=Timer for "@ + name)[0] == 'D');
    assert(("Unit="@ + service_unit + ".service"@)[0] == 'U');
    assert(persistent[0] == 'P') by {
        reveal_strlit("Persistent=yes");
        reveal_strlit("Persistent=no");
    }
    assert(remain[0] == 'R') by {
        reveal_strlit("RemainAfterElapse=yes");
        reveal_strlit("RemainAfterElapse=no");
    }
    assert forall|i: int| 0 <= i < 11 && i != 5 implies !is_trigger_key_line(
        #[trigger] ls[i],
    ) by {
        if i == 0 {
            lemma_not_trigger_by_head("[Unit]"@);
        } else if i == 1 {
            lemma_not_trigger_by_head("Description=Timer for "@ + name);
        } else if i == 2 {
            lemma_not_trigger_by_head(Seq::<char>::empty());
        } else if i == 3 {
            lemma_not_trigger_by_head("[Timer]"@);
        } else if i == 4 {
            lemma_not_trigger_by_head("Unit="@ + service_unit + ".service"@);
        } else if i == 6 {
            lemma_not_trigger_by_head(persistent);
        } else if i == 7 {
            lemma_not_trigger_by_head(remain);
        } else if i == 8 {
            lemma_not_trigger_by_head(Seq::<char>::empty());
        } else if i == 9 {
            lemma_not_trigger_by_head("[Install]"@);
        } else if i == 10 {
            lemma_not_trigger_by_head("WantedBy=timers.target"@);
        }
    }
}

/// One unfolding of [`render_lines`] on a tail of `s`.
proof fn lemma_render_step(s: Seq<Seq<char>>, j: int)
    requires
        0 <= j < s.len(),
    ensures
        render_lines(s.subrange(j, s.len() as int)) == s[j] + seq!['\n'] + render_lines(
            s.subrange(j + 1, s.len() as int),
        ),
{
    let sub = s.subrange(j, s.len() as int);
    assert(sub[0] == s[j]);
    assert(sub.skip(1) =~= s.subrange(j + 1, s.len() as int));
}

/// Whether a line is a `Type=` line.
pub open spec fn is_type_line(l: Seq<char>) -> bool {
    starts_with(l, "Type="@)
}

/// Whether a line is a `Restart=` line.
pub open spec fn is_restart_line(l: Seq<char>) -> bool {
    starts_with(l, "Restart="@)
}

/// The service definition text as its sequence of lines, each line without
/// its terminating newline.
pub open spec fn spec_service_lines(
    description: Option<Seq<char>>,
    normal_service: bool,
    executable: Seq<char>,
) -> Seq<Seq<char>> {
    (match description {
        Some(d) => seq!["[Unit]"@, "Description="@ + d],
        None => seq!["[Unit]"@],
    }) + seq![
        Seq::<char>::empty(),
        "[Service]"@,
        spec_type_line(normal_service),
        "ExecStart=/bin/sh -c '"@ + escaped(executable) + "'"@,
        spec_restart_line(normal_service),
        Seq::<char>::empty(),
        "[Install]"@,
        "WantedBy=default.target"@,
    ]
}

proof fn lemma_not_type_by_head(l: Seq<char>)
    requires
        l.len() == 0 || l[0] != 'T',
    ensures
        !is_type_line(l),
{
    reveal_strlit("Type=");
    if l.len() > 0 && starts_with(l, "Type="@) {
        assert(l.take(5)[0] == 'T');
    }
}

proof fn lemma_not_restart_by_head(l: Seq<char>)
    requires
        l.len() == 0 || l[0] != 'R',
    ensures
        !is_restart_line(l),
{
    reveal_strlit("Restart=");
    if l.len() > 0 && starts_with(l, "Restart="@) {
        assert(l.take(8)[0] == 'R');
    }
}

/// The service text is its lines rendered one after the other, when a
/// description line is present.
#[verifier::rlimit(100)]
#[verifier::spinoff_prover]
proof fn lemma_service_render_with_description(
    d: Seq<char>,
    normal_service: bool,
    executable: Seq<char>,
)
    ensures
        spec_service_text(Some(d), normal_service, executable) == render_lines(
            spec_service_lines(Some(d), normal_service, executable),
        ),
{
    let ls = spec_service_lines(Some(d), normal_service, executable);
    let type_line = spec_type_line(normal_service);
    let restart_line = spec_restart_line(normal_service);
    let exec_line = "ExecStart=/bin/sh -c '"@ + escaped(executable) + "'"@;
    reveal_strlit("\n");
    reveal_strlit("[Unit]");
    reveal_strlit("[Unit]\n");
    reveal_strlit("Description=");
    reveal_strlit("[Service]");
    reveal_strlit("\n[Service]\n");
    reveal_strlit("'");
    reveal_strlit("'\n");
    reveal_strlit("[Install]");
    reveal_strlit("WantedBy=default.target");
    reveal_strlit("\n[Install]\nWantedBy=default.target\n");
    assert("\n"@ =~= seq!['\n']);
    assert("[Unit]\n"@ =~= "[Unit]"@ + seq!['\n']);
    assert("\n[Service]\n"@ =~= seq!['\n'] + "[Service]"@ + seq!['\n']);
    assert("'\n"@ =~= "'"@ + seq!['\n']);
    assert("\n[Install]\nWantedBy=default.target\n"@ =~= seq!['\n'] + "[Install]"@ + seq!['\n']
        + "WantedBy=default.target"@ + seq!['\n']);
    assert(ls.subrange(0, 10) =~= ls);
    assert(ls.subrange(10, 10) =~= Seq::<Seq<char>>::empty());
    assert(render_lines(Seq::<Seq<char>>::empty()) == Seq::<char>::empty());
    lemma_render_step(ls, 0);
    lemma_render_step(ls, 1);
    lemma_render_step(ls, 2);
    lemma_render_step(ls, 3);
    lemma_render_step(ls, 4);
    lemma_render_step(ls, 5);
    lemma_render_step(ls, 6);
    lemma_render_step(ls, 7);
    lemma_render_step(ls, 8);
    lemma_render_step(ls, 9);
    assert(render_lines(ls) =~= "[Unit]"@ + seq!['\n'] + ("Description="@ + d + seq!['\n'] + (
    Seq::<char>::empty() + seq!['\n'] + ("[Service]"@ + seq!['\n'] + (type_line + seq!['\n'] + (
    exec_line + seq!['\n'] + (restart_line + seq!['\n'] + (Seq::<char>::empty() + seq!['\n'] + (
    "[Install]"@ + seq!['\n'] + ("WantedBy=default.target"@ + seq!['\n']
        + Seq::<char>::empty()))))))))));
    assert(spec_service_text(Some(d), normal_service, executable) =~= render_lines(ls));
}

/// The service text is its lines rendered one after the other, when no
/// description line is present.
#[verifier::rlimit(100)]
#[verifier::spinoff_prover]
proof fn lemma_service_render_without_description(normal_service: bool, executable: Seq<char>)
    ensures
        spec_service_text(None, normal_service, executable) == render_lines(
            spec_service_lines(None, normal_service, executable),
        ),
{
    let ls = spec_service_lines(None, normal_service, executable);
    let type_line = spec_type_line(normal_service);
    let restart_line = spec_restart_line(normal_service);
    let exec_line = "ExecStart=/bin/sh -c '"@ + escaped(executable) + "'"@;
    reveal_strlit("\n");
    reveal_strlit("[Unit]");
    reveal_strlit("[Unit]\n");
    reveal_strlit("[Service]");
    reveal_strlit("\n[Service]\n");
    reveal_strlit("'");
    reveal_strlit("'\n");
    reveal_strlit("[Install]");
    reveal_strlit("WantedBy=default.target");
    reveal_strlit("\n[Install]\nWantedBy=default.target\n");
    assert("\n"@ =~= seq!['\n']);
    assert("[Unit]\n"@ =~= "[Unit]"@ + seq!['\n']);
    assert("\n[Service]\n"@ =~= seq!['\n'] + "[Service]"@ + seq!['\n']);
    assert("'\n"@ =~= "'"@ + seq!['\n']);
    assert("\n[Install]\nWantedBy=default.target\n"@ =~= seq!['\n'] + "[Install]"@ + seq!['\n']
        + "WantedBy=default.target"@ + seq!['\n']);
    assert(ls.subrange(0, 9) =~= ls);
    assert(ls.subrange(9, 9) =~= Seq::<Seq<char>>::empty());
    assert(render_lines(Seq::<Seq<char>>::empty()) == Seq::<char>::empty());
    lemma_render_step(ls, 0);
    lemma_render_step(ls, 1);
    lemma_render_step(ls, 2);
    lemma_render_step(ls, 3);
    lemma_render_step(ls, 4);
    lemma_render_step(ls, 5);
    lemma_render_step(ls, 6);
    lemma_render_step(ls, 7);
    lemma_render_step(ls, 8);
    assert(render_lines(ls) =~= "[Unit]"@ + seq!['\n'] + (Seq::<char>::empty() + seq!['\n'] + (
    "[Service]"@ + seq!['\n'] + (type_line + seq!['\n'] + (exec_line + seq!['\n'] + (
    restart_line + seq!['\n'] + (Seq::<char>::empty() + seq!['\n'] + ("[Install]"@ + seq!['\n']
        + ("WantedBy=default.target"@ + seq!['\n'] + Seq::<char>::empty())))))))));
    assert(spec_service_text(None, normal_service, executable) =~= render_lines(ls));
}

/// Law: the service text is its lines rendered one after the other; among
/// those lines exactly one is a `Type=` line and exactly one a `Restart=`
/// line, both standing where the grammar puts them and determined solely by
/// `normal_service`.
#[verifier::rlimit(100)]
pub proof fn lemma_service_text_one_type_line(
    description: Option<Seq<char>>,
    normal_service: bool,
    executable: Seq<char>,
)
    ensures
        spec_service_text(description, normal_service, executable) == render_lines(
            spec_service_lines(description, normal_service, executable),
        ),
        ({
            let ls = spec_service_lines(description, normal_service, executable);
            let k: int = if description is Some {
                1int
            } else {
                0int
            };
            &&& ls.len() == 9 + k
            &&& ls[3 + k] == spec_type_line(normal_service)
            &&& ls[5 + k] == spec_restart_line(normal_service)
            &&& is_type_line(ls[3 + k])
            &&& is_restart_line(ls[5 + k])
            &&& forall|i: int| 0 <= i < ls.len() && i != 3 + k ==> !is_type_line(#[trigger] ls[i])
            &&& forall|i: int|
                0 <= i < ls.len() && i != 5 + k ==> !is_restart_line(#[trigger] ls[i])
        }),
{
    match description {
        Some(d) => lemma_service_render_with_description(d, normal_service, executable),
        None => lemma_service_render_without_description(normal_service, executable),
    }
    let ls = spec_service_lines(description, normal_service, executable);
    let k: int = if description is Some {
        1int
    } else {
        0int
    };
    let n = ls.len() as int;
    let type_line = spec_type_line(normal_service);
    let restart_line = spec_restart_line(normal_service);
    let exec_line = "ExecStart=/bin/sh -c '"@ + escaped(executable) + "'"@;
    assert(n == 9 + k);
    assert(ls[0] == "[Unit]"@);
    assert(ls[1 + k] == Seq::<char>::empty());
    assert(ls[2 + k] == "[Service]"@);
    assert(ls[3 + k] == type_line);
    assert(ls[4 + k] == exec_line);
    assert(ls[5 + k] == restart_line);
    assert(ls[6 + k] == Seq::<char>::empty());
    assert(ls[7 + k] == "[Install]"@);
    assert(ls[8 + k] == "WantedBy=default.target"@);
    reveal_strlit("Type=");
    reveal_strlit("Type=simple");
    reveal_strlit("Type=oneshot");
    reveal_strlit("Restart=");
    reveal_strlit("Restart=on-failure");
    reveal_strlit("Restart=no");
    reveal_strlit("ExecStart=/bin/sh -c '");
    reveal_strlit("[Unit]");
    reveal_strlit("[Service]");
    reveal_strlit("[Install]");
    reveal_strlit("WantedBy=default.target");
    if k == 1 {
        reveal_strlit("Description=");
        assert(ls[1] == "Description="@ + description->0);
        assert(ls[1][0] == 'D');
    }
    assert(is_type_line(type_line)) by {
        assert(type_line.take(5) =~= "Type="@);
    }
    assert(is_restart_line(restart_line)) by {
        assert(restart_line.take(8) =~= "Restart="@);
    }
    assert(type_line[0] == 'T');
    assert(restart_line[0] == 'R');
    assert(exec_line[0] == 'E');
    assert forall|i: int| 0 <= i < n && i != 3 + k implies !is_type_line(#[trigger] ls[i]) by {
        if i == 0 {
            lemma_not_type_by_head("[Unit]"@);
        } else if k == 1 && i == 1 {
            lemma_not_type_by_head(ls[1]);
        } else if i == 1 + k || i == 6 + k {
            lemma_not_type_by_head(Seq::<char>::empty());
        } else if i == 2 + k {
            lemma_not_type_by_head("[Service]"@);
        } else if i == 4 + k {
            lemma_not_type_by_head(exec_line);
        } else if i == 5 + k {
            lemma_not_type_by_head(restart_line);
        } else if i == 7 + k {
            lemma_not_type_by_head("[Install]"@);
        } else if i == 8 + k {
            lemma_not_type_by_head("WantedBy=default.target"@);
        }
    }
    assert forall|i: int| 0 <= i < n && i != 5 + k implies !is_restart_line(#[trigger] ls[i]) by {
        if i == 0 {
            lemma_not_restart_by_head("[Unit]"@);
        } else if k == 1 && i == 1 {
            lemma_not_restart_by_head(ls[1]);
        } else if i == 1 + k || i == 6 + k {
            lemma_not_restart_by_head(Seq::<char>::empty());
        } else if i == 2 + k {
            lemma_not_restart_by_head("[Service]"@);
        } else if i == 3 + k {
            lemma_not_restart_by_head(type_line);
        } else if i == 4 + k {
            lemma_not_restart_by_head(exec_line);
        } else if i == 7 + k {
            lemma_not_restart_by_head("[Install]"@);
        } else if i == 8 + k {
            lemma_not_restart_by_head("WantedBy=default.target"@);
        }
    }
}

/// Law: no line can carry two of the four trigger keys at once — any two
/// lines formed from different keys differ, whatever schedules follow them,
/// so the timer text holds exactly the one trigger line the priority picked.
pub proof fn lemma_trigger_keys_distinct(s1: Seq<char>, s2: Seq<char>)
    ensures
        "OnCalendar="@ + s1 != "OnBootSec="@ + s2,
        "OnCalendar="@ + s1 != "OnUnitActiveSec="@ + s2,
        "OnCalendar="@ + s1 != "OnActiveSec="@ + s2,
        "OnBootSec="@ + s1 != "OnUnitActiveSec="@ + s2,
        "OnBootSec="@ + s1 != "OnActiveSec="@ + s2,
        "OnUnitActiveSec="@ + s1 != "OnActiveSec="@ + s2,
{
    reveal_strlit("OnCalendar=");
    reveal_strlit("OnBootSec=");
    reveal_strlit("OnUnitActiveSec=");
    reveal_strlit("OnActiveSec=");
    assert(("OnCalendar="@ + s1)[2] == 'C');
    assert(("OnBootSec="@ + s2)[2] == 'B');
    assert(("OnUnitActiveSec="@ + s2)[2] == 'U');
    assert(("OnActiveSec="@ + s2)[2] == 'A');
    assert(("OnBootSec="@ + s1)[2] == 'B');
    assert(("OnUnitActiveSec="@ + s1)[2] == 'U');
}

} // verus!
