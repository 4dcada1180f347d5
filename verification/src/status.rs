//! What is printed about a session, and the parts of its logs.

use vstd::prelude::*;
use vstd::slice::slice_subrange;

use crate::component::{ComponentReport, HealthState, ReportError};
use crate::paths;
use crate::paths::log_path;
use crate::session;
use crate::session::{host_port, screen, SessionState};
use crate::text;
use crate::text::decimal_text;

verus! {

/// The component whose log is shown, unless another one is asked for.
pub const DEFAULT_LOG_COMPONENT: &'static str = "websockify";

/// How much of a log is shown, unless told otherwise.
pub const DEFAULT_TAIL_BYTES: usize = 32768;

/// `yes` as it is printed.
pub open spec fn bool_text(yes: bool) -> Seq<char> {
    if yes {
        "true"@
    } else {
        "false"@
    }
}

fn bool_str(yes: bool) -> (r: &'static str)
    ensures
        r@ == bool_text(yes),
{
    if yes {
        "true"
    } else {
        "false"
    }
}

/// The lines that announce a session that is ready.
pub open spec fn started_texts(state: SessionState) -> Seq<Seq<char>> {
    seq![
        "qgui: display        "@ + state.display@,
        "qgui: resolution     "@ + session::screen_text(state.res@, state.depth),
        "qgui: vnc            "@ + session::host_port_text(state.vnc_bind@, state.vnc_port)
            + "  (loopback-only, proxy auth)"@,
        "qgui: novnc          "@ + session::host_port_text(state.novnc_bind@, state.novnc_port)
            + "  (enabled)"@,
        "qgui: dbus           "@ + state.dbus_socket@,
        "qgui: xdg_runtime    "@ + state.xdg_runtime_dir@,
        "qgui: ready"@,
    ]
}

/// The lines that announce a session that is ready.
pub fn started_lines(state: &SessionState) -> (r: Vec<String>)
    ensures
        text::texts(r@) == started_texts(*state),
{
    let mut r: Vec<String> = Vec::new();
    let vnc = host_port(state.vnc_bind.as_str(), state.vnc_port);
    let novnc = host_port(state.novnc_bind.as_str(), state.novnc_port);
    r.push("qgui: display        ".to_string().concat(state.display.as_str()));
    r.push(
        "qgui: resolution     ".to_string().concat(screen(state.res.as_str(), state.depth).as_str()),
    );
    r.push(
        "qgui: vnc            ".to_string().concat(vnc.as_str()).concat(
            "  (loopback-only, proxy auth)",
        ),
    );
    r.push("qgui: novnc          ".to_string().concat(novnc.as_str()).concat("  (enabled)"));
    r.push("qgui: dbus           ".to_string().concat(state.dbus_socket.as_str()));
    r.push("qgui: xdg_runtime    ".to_string().concat(state.xdg_runtime_dir.as_str()));
    r.push("qgui: ready".to_string());
    r
}

/// The lines on the session itself.
pub open spec fn session_status_texts(
    state: Option<SessionState>,
    vnc: bool,
    novnc: bool,
) -> Seq<Seq<char>> {
    match state {
        None => seq!["qgui: session=missing"@],
        Some(s) => seq![
            "qgui: display="@ + s.display@ + " resolution="@ + s.res@ + " depth="@ + text::decimal(
                s.depth as int,
            ),
            "qgui: dbus_socket="@ + s.dbus_socket@,
            "qgui: xdg_runtime_dir="@ + s.xdg_runtime_dir@,
            "qgui: novnc_web_root="@ + s.novnc_web_root@,
            "qgui: vnc="@ + session::host_port_text(s.vnc_bind@, s.vnc_port) + " reachable="@
                + bool_text(vnc),
            "qgui: novnc="@ + session::host_port_text(s.novnc_bind@, s.novnc_port) + " reachable="@
                + bool_text(novnc),
        ],
    }
}

/// The lines on the session itself; `vnc` and `novnc` say whether something
/// listens there.
pub fn session_status_lines(state: Option<&SessionState>, vnc: bool, novnc: bool) -> (r: Vec<
    String,
>)
    ensures
        text::texts(r@) == session_status_texts(
            match state {
                Some(s) => Some(*s),
                None => None,
            },
            vnc,
            novnc,
        ),
{
    let mut r: Vec<String> = Vec::new();
    match state {
        None => {
            r.push("qgui: session=missing".to_string());
        },
        Some(s) => {
            let vnc_at = host_port(s.vnc_bind.as_str(), s.vnc_port);
            let novnc_at = host_port(s.novnc_bind.as_str(), s.novnc_port);
            r.push(
                "qgui: display=".to_string().concat(s.display.as_str()).concat(
                    " resolution=",
                ).concat(s.res.as_str()).concat(" depth=").concat(
                    decimal_text(s.depth as u64).as_str(),
                ),
            );
            r.push("qgui: dbus_socket=".to_string().concat(s.dbus_socket.as_str()));
            r.push("qgui: xdg_runtime_dir=".to_string().concat(s.xdg_runtime_dir.as_str()));
            r.push("qgui: novnc_web_root=".to_string().concat(s.novnc_web_root.as_str()));
            r.push(
                "qgui: vnc=".to_string().concat(vnc_at.as_str()).concat(" reachable=").concat(
                    bool_str(vnc),
                ),
            );
            r.push(
                "qgui: novnc=".to_string().concat(novnc_at.as_str()).concat(" reachable=").concat(
                    bool_str(novnc),
                ),
            );
        },
    }
    r
}

/// The line on a component.
pub open spec fn component_status_text(report: ComponentReport) -> Seq<char> {
    match report.pid {
        Some(pid) => "qgui: component="@ + report.name@ + " pid="@ + text::decimal(pid as int)
            + " status="@ + report.state.text(),
        None => "qgui: component="@ + report.name@ + " status="@ + report.state.text(),
    }
}

/// The line on a component.
pub fn component_status_line(report: &ComponentReport) -> (r: String)
    ensures
        r@ == component_status_text(*report),
{
    let head = "qgui: component=".to_string().concat(report.name);
    match report.pid {
        Some(pid) => head.concat(" pid=").concat(decimal_text(pid as u64).as_str()).concat(
            " status=",
        ).concat(report.state.as_str()),
        None => head.concat(" status=").concat(report.state.as_str()),
    }
}

/// One line for each component.
pub open spec fn component_status_texts(list: Seq<ComponentReport>) -> Seq<Seq<char>> {
    list.map_values(|report: ComponentReport| component_status_text(report))
}

/// One line for each component.
pub fn component_status_lines(list: &Vec<ComponentReport>) -> (r: Vec<String>)
    ensures
        text::texts(r@) == component_status_texts(list@),
{
    let mut r: Vec<String> = Vec::new();
    let mut i: usize = 0;
    while i < list.len()
        invariant
            i <= list@.len(),
            r@.len() == i,
            forall|j: int| 0 <= j < i ==> (#[trigger] r@[j])@ == component_status_text(list@[j]),
        decreases list@.len() - i,
    {
        r.push(component_status_line(&list[i]));
        i += 1;
    }
    assert(text::texts(r@) == component_status_texts(list@));
    r
}

/// All lines on a session: those on the session itself, and behind them those on
/// its components.
pub open spec fn status_texts(
    state: Option<SessionState>,
    vnc: bool,
    novnc: bool,
    reports: Result<Seq<ComponentReport>, ReportError>,
) -> Seq<Seq<char>> {
    session_status_texts(state, vnc, novnc) + match reports {
        Ok(list) => component_status_texts(list),
        Err(_) => seq![],
    }
}

/// What the status of a session comes to.
#[derive(Debug)]
pub struct Status {
    /// The lines to print.
    pub lines: Vec<String>,
    /// The error to end with once they are printed.
    pub error: Option<ReportError>,
}

/// What the status of a session comes to. The lines on the session itself are
/// printed also where a pid file is in the way of the reports.
pub fn status(
    state: Option<&SessionState>,
    vnc: bool,
    novnc: bool,
    reports: &Result<Vec<ComponentReport>, ReportError>,
) -> (r: Status)
    ensures
        text::texts(r.lines@) == status_texts(
            match state {
                Some(s) => Some(*s),
                None => None,
            },
            vnc,
            novnc,
            match reports {
                Ok(list) => Ok(list@),
                Err(e) => Err(*e),
            },
        ),
        r.error == (match reports {
            Ok(_) => None,
            Err(e) => Some(*e),
        }),
{
    let mut lines = session_status_lines(state, vnc, novnc);
    match reports {
        Err(e) => {
            assert(text::texts(lines@) + Seq::<Seq<char>>::empty() == text::texts(lines@));
            Status { lines, error: Some(*e) }
        },
        Ok(list) => {
            let mut more = component_status_lines(list);
            let ghost first = lines@;
            let ghost second = more@;
            lines.append(&mut more);
            assert(text::texts(lines@) == text::texts(first) + text::texts(second));
            Status { lines, error: None }
        },
    }
}

/// The end of a log: its last `tail_bytes` bytes, or all of it where it is shorter.
pub fn log_tail(bytes: &[u8], tail_bytes: usize) -> (r: &[u8])
    ensures
        r@ == bytes@.subrange(
            if bytes@.len() > tail_bytes {
                bytes@.len() - tail_bytes
            } else {
                0
            },
            bytes@.len() as int,
        ),
{
    let start: usize = bytes.len().saturating_sub(tail_bytes);
    slice_subrange(bytes, start, bytes.len())
}

/// The lines that mark in a log where a program starts.
pub open spec fn log_banner_text(name: Seq<char>, time: Seq<char>) -> Seq<char> {
    "\n== "@ + name + ": starting at "@ + time + " ==\n\n"@
}

/// The lines that mark in a log that `name` starts at `time`.
pub fn log_banner(name: &str, time: &str) -> (r: String)
    ensures
        r@ == log_banner_text(name@, time@),
{
    "\n== ".to_string().concat(name).concat(": starting at ").concat(time).concat(" ==\n\n")
}

/// What is said where the log of a component is not there.
pub fn log_not_found_message(component: &str) -> (m: String)
    ensures
        m@ == "log file not found: "@ + paths::log_path_text(component@),
{
    "log file not found: ".to_string().concat(log_path(component).as_str())
}

/// The end of a log that is shown is the end of the log: what is left out, put
/// in front of it, makes the log again.
pub proof fn law_tail_is_the_end(bytes: Seq<u8>, tail_bytes: nat)
    ensures
        ({
            let start = if bytes.len() > tail_bytes {
                bytes.len() - tail_bytes
            } else {
                0
            };
            let tail = bytes.subrange(start, bytes.len() as int);
            &&& bytes == bytes.take(start) + tail
            &&& tail.len() <= tail_bytes
            &&& tail.len() == tail_bytes || tail == bytes
        }),
{
}

/// The line on a port ends with what was found of that very port, whatever was found of
/// the other one, and begins with where it is.
pub proof fn law_reachability_is_that_of_the_port(
    state: SessionState,
    vnc: bool,
    novnc: bool,
    lines: Vec<String>,
)
    requires
        call_ensures(session_status_lines, (Some(&state), vnc, novnc), lines),
    ensures
        text::texts(lines@).len() == 6,
        text::texts(lines@)[4] == "qgui: vnc="@ + state.vnc_bind@ + seq![':'] + text::decimal(
            state.vnc_port as int,
        ) + if vnc {
            " reachable=true"@
        } else {
            " reachable=false"@
        },
        text::texts(lines@)[5] == "qgui: novnc="@ + state.novnc_bind@ + seq![':'] + text::decimal(
            state.novnc_port as int,
        ) + if novnc {
            " reachable=true"@
        } else {
            " reachable=false"@
        },
{
    lemma_reachable(vnc);
    lemma_reachable(novnc);
    session::law_host_and_port_show(state.vnc_bind@, state.vnc_port, state.vnc_port);
    session::law_host_and_port_show(state.novnc_bind@, state.novnc_port, state.novnc_port);
    let all = text::texts(lines@);
    assert(all[4] =~= "qgui: vnc="@ + state.vnc_bind@ + seq![':'] + text::decimal(
        state.vnc_port as int,
    ) + (" reachable="@ + bool_text(vnc)));
    assert(all[5] =~= "qgui: novnc="@ + state.novnc_bind@ + seq![':'] + text::decimal(
        state.novnc_port as int,
    ) + (" reachable="@ + bool_text(novnc)));
}

proof fn lemma_reachable(yes: bool)
    ensures
        " reachable="@ + bool_text(yes) == if yes {
            " reachable=true"@
        } else {
            " reachable=false"@
        },
{
    reveal_strlit(" reachable=");
    reveal_strlit("true");
    reveal_strlit("false");
    reveal_strlit(" reachable=true");
    reveal_strlit(" reachable=false");
    assert(" reachable="@ + "true"@ =~= " reachable=true"@);
    assert(" reachable="@ + "false"@ =~= " reachable=false"@);
}

/// The lines on a session show its display, its resolution and depth, its bus, its
/// runtime directory and its web root; that there is no session is said in one line,
/// whatever listens.
pub proof fn law_status_shows_the_session(
    state: SessionState,
    vnc: bool,
    novnc: bool,
    lines: Vec<String>,
    missing: Vec<String>,
)
    requires
        call_ensures(session_status_lines, (Some(&state), vnc, novnc), lines),
        call_ensures(session_status_lines, (None::<&SessionState>, vnc, novnc), missing),
    ensures
        text::texts(lines@).take(4) == seq![
            "qgui: display="@ + state.display@ + " resolution="@ + state.res@ + " depth="@
                + text::decimal(state.depth as int),
            "qgui: dbus_socket="@ + state.dbus_socket@,
            "qgui: xdg_runtime_dir="@ + state.xdg_runtime_dir@,
            "qgui: novnc_web_root="@ + state.novnc_web_root@,
        ],
        text::texts(missing@) == seq!["qgui: session=missing"@],
{
}

/// The lines that announce a session show what it is.
pub proof fn law_announcement_shows_the_session(state: SessionState, lines: Vec<String>)
    requires
        call_ensures(started_lines, (&state,), lines),
    ensures
        text::texts(lines@) == seq![
            "qgui: display        "@ + state.display@,
            "qgui: resolution     "@ + (state.res@ + seq!['x'] + text::decimal(state.depth as int)),
            "qgui: vnc            "@ + (state.vnc_bind@ + seq![':'] + text::decimal(
                state.vnc_port as int,
            )) + "  (loopback-only, proxy auth)"@,
            "qgui: novnc          "@ + (state.novnc_bind@ + seq![':'] + text::decimal(
                state.novnc_port as int,
            )) + "  (enabled)"@,
            "qgui: dbus           "@ + state.dbus_socket@,
            "qgui: xdg_runtime    "@ + state.xdg_runtime_dir@,
            "qgui: ready"@,
        ],
{
    session::law_resolution_and_depth_show(state.res@, state.depth, state.depth);
    session::law_host_and_port_show(state.vnc_bind@, state.vnc_port, state.vnc_port);
    session::law_host_and_port_show(state.novnc_bind@, state.novnc_port, state.novnc_port);
}

/// The line on a component names it, says how it is doing, and shows its pid where one
/// is known.
pub proof fn law_line_on_a_component(report: ComponentReport, line: String)
    requires
        call_ensures(component_status_line, (&report,), line),
    ensures
        line@ == "qgui: component="@ + report.name@ + match report.pid {
            Some(pid) => " pid="@ + text::decimal(pid as int),
            None => seq![],
        } + match report.state {
            HealthState::Running => " status=running"@,
            HealthState::Dead => " status=dead"@,
            HealthState::Missing => " status=missing"@,
        },
{
    reveal_strlit(" status=");
    reveal_strlit("running");
    reveal_strlit("dead");
    reveal_strlit("missing");
    reveal_strlit(" status=running");
    reveal_strlit(" status=dead");
    reveal_strlit(" status=missing");
    assert(" status="@ + "running"@ =~= " status=running"@);
    assert(" status="@ + "dead"@ =~= " status=dead"@);
    assert(" status="@ + "missing"@ =~= " status=missing"@);
    let head = "qgui: component="@ + report.name@;
    let tail = " status="@ + report.state.text();
    match report.pid {
        Some(pid) => {
            assert(line@ =~= head + (" pid="@ + text::decimal(pid as int)) + tail);
        },
        None => {
            assert(line@ =~= head + Seq::<char>::empty() + tail);
        },
    }
}

/// The status has the lines on the session, and behind them one line on each component
/// in the order of the reports; where there are no reports, it ends with the error.
pub proof fn law_status_is_complete(
    state: Option<&SessionState>,
    vnc: bool,
    novnc: bool,
    list: Vec<ComponentReport>,
    error: ReportError,
    session_lines: Vec<String>,
    whole: Status,
    broken: Status,
)
    requires
        call_ensures(session_status_lines, (state, vnc, novnc), session_lines),
        call_ensures(
            status,
            (state, vnc, novnc, &Ok::<Vec<ComponentReport>, ReportError>(list)),
            whole,
        ),
        call_ensures(
            status,
            (state, vnc, novnc, &Err::<Vec<ComponentReport>, ReportError>(error)),
            broken,
        ),
    ensures
        whole.lines@.len() == session_lines@.len() + list@.len(),
        text::texts(whole.lines@).take(session_lines@.len() as int) == text::texts(session_lines@),
        forall|i: int, line: String|
            0 <= i < list@.len() && #[trigger] call_ensures(
                component_status_line,
                (&#[trigger] list@[i],),
                line,
            ) ==> whole.lines@[session_lines@.len() + i]@ == line@,
        whole.error is None,
        text::texts(broken.lines@) == text::texts(session_lines@),
        broken.error == Some(error),
{
    let all = text::texts(whole.lines@);
    let n = session_lines@.len() as int;
    assert(text::texts(session_lines@).len() == n);
    assert(component_status_texts(list@).len() == list@.len());
    assert(all.len() == whole.lines@.len());
    assert(all.take(n) =~= text::texts(session_lines@));
    assert forall|i: int, line: String|
        0 <= i < list@.len() && #[trigger] call_ensures(
            component_status_line,
            (&#[trigger] list@[i],),
            line,
        ) implies whole.lines@[n + i]@ == line@ by {
        assert(all[n + i] == component_status_texts(list@)[i]);
        assert(all[n + i] == whole.lines@[n + i]@);
    }
    assert(text::texts(broken.lines@) =~= text::texts(session_lines@));
}

/// What is shown of a log is its end: as many bytes as were asked for, or all of them
/// where it holds no more.
pub proof fn law_end_of_a_log_is_shown(bytes: &[u8], tail_bytes: usize, r: &[u8])
    requires
        call_ensures(log_tail, (bytes, tail_bytes), r),
    ensures
        r@.len() <= bytes@.len(),
        r@ == bytes@.skip(bytes@.len() - r@.len()),
        r@.len() == tail_bytes || r@ == bytes@ && r@.len() < tail_bytes,
{
    assert(r@ =~= bytes@.skip(bytes@.len() - r@.len()));
    if bytes@.len() <= tail_bytes {
        assert(r@ =~= bytes@);
    }
}

/// What is written to a log where a program starts names the program and the time, on a
/// line of its own; and that a log is not there is said with its place.
pub proof fn law_log_texts(name: &str, time: &str, banner: String, component: &str, m: String)
    requires
        call_ensures(log_banner, (name, time), banner),
        call_ensures(log_not_found_message, (component,), m),
    ensures
        banner@ == "\n"@ + ("== "@ + name@ + ": starting at "@ + time@ + " =="@) + "\n\n"@,
        component@.len() == 0 || component@[0] != '/' ==> m@
            == "log file not found: /var/lib/qgui/logs/"@ + component@ + ".log"@,
        component@.len() > 0 && component@[0] == '/' ==> m@ == "log file not found: "@ + component@
            + ".log"@,
{
    reveal_strlit("\n== ");
    reveal_strlit("\n");
    reveal_strlit("== ");
    reveal_strlit(" ==\n\n");
    reveal_strlit(" ==");
    reveal_strlit("\n\n");
    assert("\n== "@ =~= "\n"@ + "== "@);
    assert(" ==\n\n"@ =~= " =="@ + "\n\n"@);
    assert(banner@ =~= "\n"@ + ("== "@ + name@ + ": starting at "@ + time@ + " =="@) + "\n\n"@);
    reveal_strlit("log file not found: ");
    reveal_strlit("/var/lib/qgui/logs/");
    reveal_strlit("log file not found: /var/lib/qgui/logs/");
    assert("log file not found: /var/lib/qgui/logs/"@ =~= "log file not found: "@
        + "/var/lib/qgui/logs/"@);
    if component@.len() == 0 || component@[0] != '/' {
        paths::law_files_of_a_name(component@);
        assert(m@ =~= "log file not found: /var/lib/qgui/logs/"@ + component@ + ".log"@);
    } else {
        let file = component@ + ".log"@;
        assert(file[0] == '/');
        paths::law_join(paths::log_dir_text(), file);
        assert(m@ =~= "log file not found: "@ + component@ + ".log"@);
    }
}

/// There is one line for each report, in their order.
pub proof fn law_one_line_for_each_component(
    list: Vec<ComponentReport>,
    lines: Vec<String>,
    i: int,
    line: String,
)
    requires
        call_ensures(component_status_lines, (&list,), lines),
        0 <= i < list@.len(),
        call_ensures(component_status_line, (&list@[i],), line),
    ensures
        lines@.len() == list@.len(),
        lines@[i]@ == line@,
{
    let all = text::texts(lines@);
    assert(all.len() == lines@.len());
    assert(component_status_texts(list@).len() == list@.len());
    assert(all[i] == component_status_texts(list@)[i]);
}

} // verus!
