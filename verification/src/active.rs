//! Whether the session that is written down can be used.

use vstd::prelude::*;

use crate::component;
use crate::component::{
    first_failed_report, ComponentProbe, ComponentReport, HealthState, ReportError,
};
use crate::session;
use crate::session::{host_port, SessionState};
use crate::target::{Target, TargetView};
use crate::text;

verus! {

/// Something to look at before a session counts as usable.
#[derive(Clone, Copy, Debug, PartialEq, Eq, Structural)]
pub enum SessionProbe {
    /// Whether the socket of the session bus is there.
    DbusSocket,
    /// Whether the VNC server listens.
    Vnc,
    /// Whether noVNC listens.
    Novnc,
}

/// What was found so far; `None` where nobody has looked.
#[derive(Clone, Copy, Debug, PartialEq, Eq)]
pub struct SessionFacts {
    /// The socket of the session bus is there.
    pub dbus: Option<bool>,
    /// The VNC server listens.
    pub vnc: Option<bool>,
    /// noVNC listens.
    pub novnc: Option<bool>,
}

/// What a look at the session `state` is about.
pub open spec fn probe_target_of(probe: SessionProbe, state: SessionState) -> TargetView {
    match probe {
        SessionProbe::DbusSocket => TargetView::Path(state.dbus_socket@),
        SessionProbe::Vnc => TargetView::Port(state.vnc_bind@, state.vnc_port),
        SessionProbe::Novnc => TargetView::Port(state.novnc_bind@, state.novnc_port),
    }
}

/// What a look at the session `state` is about.
pub fn probe_target(probe: SessionProbe, state: &SessionState) -> (r: Target)
    ensures
        r@ == probe_target_of(probe, *state),
{
    match probe {
        SessionProbe::DbusSocket => Target::Path(state.dbus_socket.clone()),
        SessionProbe::Vnc => Target::Port { host: state.vnc_bind.clone(), port: state.vnc_port },
        SessionProbe::Novnc => Target::Port {
            host: state.novnc_bind.clone(),
            port: state.novnc_port,
        },
    }
}

/// Why a session cannot be used.
#[derive(Debug)]
pub enum SessionFault {
    /// No session is written down, or what is written down cannot be read.
    NoSession,
    /// A pid file is in the way of the reports on the components.
    NoReports(ReportError),
    /// A component is not running.
    ComponentDown {
        /// What the component is called.
        name: &'static str,
        /// How it is doing.
        state: HealthState,
    },
    /// The socket of the session bus is not there.
    DbusMissing {
        /// Where it should be.
        socket: String,
    },
    /// The VNC server does not listen.
    VncDown {
        /// The address where it should listen.
        bind: String,
        /// The port.
        port: u16,
    },
    /// noVNC does not listen.
    NovncDown {
        /// The address where it should listen.
        bind: String,
        /// The port.
        port: u16,
    },
}

/// What is known about the use of a session.
#[derive(Debug)]
pub enum SessionCheck {
    /// It can be used.
    Usable,
    /// It cannot be used.
    Unusable(SessionFault),
    /// The components have to be looked at.
    LookAtComponents,
    /// One more thing has to be looked at.
    Probe(SessionProbe),
}

/// The reports that came of a look at the components; `None` where nobody has looked.
pub type Reports = Option<Result<Vec<ComponentReport>, ReportError>>;

/// The reports that came of a look at the components, as a sequence.
pub open spec fn looked(reports: Reports) -> Option<Result<Seq<ComponentReport>, ReportError>> {
    match reports {
        None => None,
        Some(Ok(list)) => Some(Ok(list@)),
        Some(Err(e)) => Some(Err(e)),
    }
}

/// What the reports of the components and the facts say about the use of the
/// session that is written down. That none is written down comes first, then
/// the pid files and the components, the session bus, the VNC server and noVNC;
/// what comes later is not looked at where something fails.
pub open spec fn session_check(
    session: Option<SessionState>,
    reports: Option<Result<Seq<ComponentReport>, ReportError>>,
    facts: SessionFacts,
) -> SessionCheck {
    match (session, reports) {
        (None, _) => SessionCheck::Unusable(SessionFault::NoSession),
        (Some(_), None) => SessionCheck::LookAtComponents,
        (Some(_), Some(Err(e))) => SessionCheck::Unusable(SessionFault::NoReports(e)),
        (Some(s), Some(Ok(list))) => match component::first_failed(list) {
            Some(report) => SessionCheck::Unusable(
                SessionFault::ComponentDown { name: report.name, state: report.state },
            ),
            None => match (facts.dbus, facts.vnc, facts.novnc) {
                (None, _, _) => SessionCheck::Probe(SessionProbe::DbusSocket),
                (Some(false), _, _) => SessionCheck::Unusable(
                    SessionFault::DbusMissing { socket: s.dbus_socket },
                ),
                (Some(true), None, _) => SessionCheck::Probe(SessionProbe::Vnc),
                (Some(true), Some(false), _) => SessionCheck::Unusable(
                    SessionFault::VncDown { bind: s.vnc_bind, port: s.vnc_port },
                ),
                (Some(true), Some(true), None) => SessionCheck::Probe(SessionProbe::Novnc),
                (Some(true), Some(true), Some(false)) => SessionCheck::Unusable(
                    SessionFault::NovncDown { bind: s.novnc_bind, port: s.novnc_port },
                ),
                (Some(true), Some(true), Some(true)) => SessionCheck::Usable,
            },
        },
    }
}

/// Says whether the session that is written down can be used, or what has to be
/// looked at next to know. `session` is `None` where none could be loaded.
pub fn require_active_session_state(
    session: Option<&SessionState>,
    reports: &Reports,
    facts: SessionFacts,
) -> (r: SessionCheck)
    ensures
        r == session_check(
            match session {
                Some(s) => Some(*s),
                None => None,
            },
            looked(*reports),
            facts,
        ),
{
    let s = match session {
        None => return SessionCheck::Unusable(SessionFault::NoSession),
        Some(s) => s,
    };
    let list = match reports {
        None => return SessionCheck::LookAtComponents,
        Some(Err(e)) => return SessionCheck::Unusable(SessionFault::NoReports(*e)),
        Some(Ok(list)) => list,
    };
    if let Some(report) = first_failed_report(list) {
        return SessionCheck::Unusable(
            SessionFault::ComponentDown { name: report.name, state: report.state },
        );
    }
    match facts.dbus {
        None => return SessionCheck::Probe(SessionProbe::DbusSocket),
        Some(present) => if !present {
            return SessionCheck::Unusable(
                SessionFault::DbusMissing { socket: s.dbus_socket.clone() },
            );
        },
    }
    match facts.vnc {
        None => return SessionCheck::Probe(SessionProbe::Vnc),
        Some(listening) => if !listening {
            return SessionCheck::Unusable(
                SessionFault::VncDown { bind: s.vnc_bind.clone(), port: s.vnc_port },
            );
        },
    }
    match facts.novnc {
        None => SessionCheck::Probe(SessionProbe::Novnc),
        Some(listening) => if listening {
            SessionCheck::Usable
        } else {
            SessionCheck::Unusable(
                SessionFault::NovncDown { bind: s.novnc_bind.clone(), port: s.novnc_port },
            )
        },
    }
}

/// The facts before anybody has looked.
pub open spec fn nothing_known() -> SessionFacts {
    SessionFacts { dbus: None, vnc: None, novnc: None }
}

/// The facts once `probe` was found to be so or not.
pub open spec fn learn(facts: SessionFacts, probe: SessionProbe, found: bool) -> SessionFacts {
    match probe {
        SessionProbe::DbusSocket => SessionFacts { dbus: Some(found), ..facts },
        SessionProbe::Vnc => SessionFacts { vnc: Some(found), ..facts },
        SessionProbe::Novnc => SessionFacts { novnc: Some(found), ..facts },
    }
}

impl SessionFacts {
    /// The facts before anybody has looked.
    pub fn none() -> (r: SessionFacts)
        ensures
            r == nothing_known(),
    {
        SessionFacts { dbus: None, vnc: None, novnc: None }
    }

    /// The facts once `probe` was found to be so or not.
    pub fn with(self, probe: SessionProbe, found: bool) -> (r: SessionFacts)
        ensures
            r == learn(self, probe, found),
    {
        match probe {
            SessionProbe::DbusSocket => SessionFacts { dbus: Some(found), ..self },
            SessionProbe::Vnc => SessionFacts { vnc: Some(found), ..self },
            SessionProbe::Novnc => SessionFacts { novnc: Some(found), ..self },
        }
    }
}

impl SessionFault {
    /// The fault in words.
    pub open spec fn text(self) -> Seq<char> {
        match self {
            SessionFault::NoSession => "no active qgui session; run `qgui up` first"@,
            SessionFault::NoReports(e) => e.cause.text(),
            SessionFault::ComponentDown { name, state } => {
                "qgui session is not usable: component '"@ + name@ + "' is "@ + state.text()
            },
            SessionFault::DbusMissing { socket } => {
                "qgui session is not usable: dbus session socket missing at "@ + socket@
            },
            SessionFault::VncDown { bind, port } => {
                "qgui session is not usable: VNC is not listening on "@ + session::host_port_text(
                    bind@,
                    port,
                )
            },
            SessionFault::NovncDown { bind, port } => {
                "qgui session is not usable: noVNC/websockify is not listening on "@
                    + session::host_port_text(bind@, port)
            },
        }
    }

    /// The fault in words.
    pub fn message(&self) -> (m: String)
        ensures
            m@ == self.text(),
    {
        match self {
            SessionFault::NoSession => "no active qgui session; run `qgui up` first".to_string(),
            SessionFault::NoReports(e) => e.message().to_string(),
            SessionFault::ComponentDown { name, state } => {
                "qgui session is not usable: component '".to_string().concat(name).concat(
                    "' is ",
                ).concat(state.as_str())
            },
            SessionFault::DbusMissing { socket } => {
                "qgui session is not usable: dbus session socket missing at ".to_string().concat(
                    socket.as_str(),
                )
            },
            SessionFault::VncDown { bind, port } => {
                "qgui session is not usable: VNC is not listening on ".to_string().concat(
                    host_port(bind.as_str(), *port).as_str(),
                )
            },
            SessionFault::NovncDown { bind, port } => {
                "qgui session is not usable: noVNC/websockify is not listening on ".to_string().concat(
                host_port(bind.as_str(), *port).as_str())
            },
        }
    }
}

// ---------------------------------------------------------------------------
// Laws
// ---------------------------------------------------------------------------

/// Where no session can be loaded, that is the answer, in its own words,
/// whatever the pid files, the components and the ports say.
pub proof fn law_no_session_comes_first(
    reports: Option<Result<Seq<ComponentReport>, ReportError>>,
    facts: SessionFacts,
)
    ensures
        session_check(None, reports, facts) == SessionCheck::Unusable(SessionFault::NoSession),
        SessionFault::NoSession.text() == "no active qgui session; run `qgui up` first"@,
{
}

/// Where a session is loaded, a pid file that is in the way comes next, whatever
/// the session bus and the ports say.
pub proof fn law_pid_files_come_second(
    session: SessionState,
    error: ReportError,
    facts: SessionFacts,
)
    ensures
        session_check(Some(session), Some(Err(error)), facts) == SessionCheck::Unusable(
            SessionFault::NoReports(error),
        ),
{
}

/// A session is usable exactly where it is written down, all its components run,
/// its bus is there, and the VNC server and noVNC were found to listen.
pub proof fn law_usable(
    session: Option<SessionState>,
    reports: Option<Result<Seq<ComponentReport>, ReportError>>,
    facts: SessionFacts,
)
    ensures
        session_check(session, reports, facts) == SessionCheck::Usable <==> {
            &&& session is Some
            &&& reports matches Some(Ok(list)) && forall|i: int|
                0 <= i < list.len() ==> (#[trigger] list[i]).state == HealthState::Running
            &&& facts.dbus == Some(true)
            &&& facts.vnc == Some(true)
            &&& facts.novnc == Some(true)
        },
{
    if let Some(Ok(list)) = reports {
        component::law_none_failed(list);
    }
}

/// A usable session has a live process for every component, with its pid known.
pub proof fn law_usable_means_alive(
    session: Option<SessionState>,
    probes: Seq<ComponentProbe>,
    list: Seq<ComponentReport>,
    facts: SessionFacts,
)
    requires
        probes.len() == component::start_order().len(),
        list.len() == component::start_order().len(),
        forall|i: int|
            0 <= i < list.len() ==> component::reports(
                #[trigger] list[i],
                component::start_order()[i],
                probes[i],
            ),
        session_check(session, Some(Ok(list)), facts) == SessionCheck::Usable,
    ensures
        forall|i: int|
            0 <= i < probes.len() ==> component::is_live(#[trigger] probes[i]),
{
    law_usable(session, Some(Ok(list)), facts);
    assert forall|i: int| 0 <= i < probes.len() implies component::is_live(
        #[trigger] probes[i],
    ) by {
        assert(list[i].state == HealthState::Running);
        assert(component::reports(list[i], component::start_order()[i], probes[i]));
    }
}

/// Looks are asked for one after another, and three of them beside the one at
/// the components lead to an answer.
pub proof fn law_looks_come_to_an_end(
    session: Option<SessionState>,
    reports: Result<Seq<ComponentReport>, ReportError>,
    a: bool,
    b: bool,
    c: bool,
)
    ensures
        ({
            let f1 = learn(nothing_known(), SessionProbe::DbusSocket, a);
            let f2 = learn(f1, SessionProbe::Vnc, b);
            let f3 = learn(f2, SessionProbe::Novnc, c);
            &&& session_check(session, None, nothing_known()) is LookAtComponents || session is None
            &&& !(session_check(session, Some(reports), nothing_known()) is LookAtComponents)
            &&& session_check(session, Some(reports), nothing_known()) matches SessionCheck::Probe(
                p,
            ) ==> p == SessionProbe::DbusSocket
            &&& session_check(session, Some(reports), f1) matches SessionCheck::Probe(p) ==> p
                == SessionProbe::Vnc
            &&& session_check(session, Some(reports), f2) matches SessionCheck::Probe(p) ==> p
                == SessionProbe::Novnc
            &&& session_check(session, Some(reports), f3) is Usable || session_check(
                session,
                Some(reports),
                f3,
            ) is Unusable
        }),
{
}

/// What is known of a thing to look at.
pub open spec fn fact_of(facts: SessionFacts, probe: SessionProbe) -> Option<bool> {
    match probe {
        SessionProbe::DbusSocket => facts.dbus,
        SessionProbe::Vnc => facts.vnc,
        SessionProbe::Novnc => facts.novnc,
    }
}

/// What was found of one thing is known afterwards, and nothing else changes; at first
/// nothing is known.
pub proof fn law_learning(
    facts: SessionFacts,
    probe: SessionProbe,
    other: SessionProbe,
    found: bool,
    r: SessionFacts,
    first: SessionFacts,
)
    requires
        call_ensures(SessionFacts::with, (facts, probe, found), r),
        call_ensures(SessionFacts::none, (), first),
    ensures
        fact_of(r, probe) == Some(found),
        other != probe ==> fact_of(r, other) == fact_of(facts, other),
        fact_of(first, other) is None,
{
}

/// Without a session nothing is looked at, and with one the components are looked at
/// first, whatever is known of the rest.
pub proof fn law_components_are_looked_at_first(
    session: SessionState,
    reports: Reports,
    facts: SessionFacts,
    without: SessionCheck,
    with: SessionCheck,
)
    requires
        call_ensures(
            require_active_session_state,
            (
                None::<&SessionState>,
                &reports,
                facts,
            ),
            without,
        ),
        call_ensures(
            require_active_session_state,
            (
                Some(&session),
                &None::<Result<Vec<ComponentReport>, ReportError>>,
                facts,
            ),
            with,
        ),
    ensures
        without == SessionCheck::Unusable(SessionFault::NoSession),
        with == SessionCheck::LookAtComponents,
{
}

/// A pid file that is in the way is what is wrong, in the words of its error.
pub proof fn law_bad_pid_file_is_what_is_wrong(
    session: SessionState,
    error: ReportError,
    facts: SessionFacts,
    r: SessionCheck,
    m: String,
)
    requires
        call_ensures(
            require_active_session_state,
            (
                Some(&session),
                &Some(Err::<Vec<ComponentReport>, ReportError>(error)),
                facts,
            ),
            r,
        ),
        r matches SessionCheck::Unusable(fault) ==> call_ensures(
            SessionFault::message,
            (&fault,),
            m,
        ),
    ensures
        r == SessionCheck::Unusable(SessionFault::NoReports(error)),
        m@ == error.cause.text(),
{
}

/// Where a component does not run, the first such one is what is wrong, whatever is
/// known of the rest, and it is named with how it is doing.
pub proof fn law_component_that_is_down_is_named(
    session: SessionState,
    list: Vec<ComponentReport>,
    facts: SessionFacts,
    k: int,
    r: SessionCheck,
    m: String,
)
    requires
        0 <= k < list@.len(),
        list@[k].state != HealthState::Running,
        forall|j: int| 0 <= j < k ==> (#[trigger] list@[j]).state == HealthState::Running,
        call_ensures(
            require_active_session_state,
            (
                Some(&session),
                &Some(Ok::<Vec<ComponentReport>, ReportError>(list)),
                facts,
            ),
            r,
        ),
        r matches SessionCheck::Unusable(fault) ==> call_ensures(
            SessionFault::message,
            (&fault,),
            m,
        ),
    ensures
        r == SessionCheck::Unusable(
            SessionFault::ComponentDown { name: list@[k].name, state: list@[k].state },
        ),
        m@ == "qgui session is not usable: component '"@ + list@[k].name@ + "' is "@
            + match list@[k].state {
            HealthState::Running => "running"@,
            HealthState::Dead => "dead"@,
            HealthState::Missing => "missing"@,
        },
{
    component::law_none_failed(list@);
    let i = component::law_first_failed(list@);
    if i < k {
        assert(list@[i].state == HealthState::Running);
    }
    if k < i {
        assert(list@[k].state == HealthState::Running);
    }
}

/// The things to look at once the components run, in their order.
pub open spec fn looks() -> Seq<SessionProbe> {
    seq![SessionProbe::DbusSocket, SessionProbe::Vnc, SessionProbe::Novnc]
}

/// Where all components run, and what comes before in the order is in place: what nobody
/// has looked at is looked at next, and what was found missing is what is wrong, with the
/// place where it was looked for.
pub proof fn law_missing_part_is_named(
    session: SessionState,
    list: Vec<ComponentReport>,
    facts: SessionFacts,
    k: int,
    r: SessionCheck,
    m: String,
    target: Target,
)
    requires
        forall|j: int| 0 <= j < list@.len() ==> (#[trigger] list@[j]).state == HealthState::Running,
        0 <= k < 3,
        forall|j: int| 0 <= j < k ==> fact_of(facts, #[trigger] looks()[j]) == Some(true),
        fact_of(facts, looks()[k]) != Some(true),
        call_ensures(
            require_active_session_state,
            (
                Some(&session),
                &Some(Ok::<Vec<ComponentReport>, ReportError>(list)),
                facts,
            ),
            r,
        ),
        r matches SessionCheck::Unusable(fault) ==> call_ensures(
            SessionFault::message,
            (&fault,),
            m,
        ),
        call_ensures(probe_target, (looks()[k], &session), target),
    ensures
        fact_of(facts, looks()[k]) is None ==> r == SessionCheck::Probe(looks()[k]),
        fact_of(facts, looks()[k]) == Some(false) ==> r is Unusable && match target@ {
            TargetView::Path(path) => k == 0 && m@
                == "qgui session is not usable: dbus session socket missing at "@ + path,
            TargetView::Port(host, port) => k > 0 && m@ == if k == 1 {
                "qgui session is not usable: VNC is not listening on "@
            } else {
                "qgui session is not usable: noVNC/websockify is not listening on "@
            } + (host + seq![':'] + text::decimal(port as int)),
            _ => false,
        },
{
    component::law_none_failed(list@);
    assert(looks()[0] == SessionProbe::DbusSocket && looks()[1] == SessionProbe::Vnc && looks()[2]
        == SessionProbe::Novnc);
    if k > 0 {
        assert(fact_of(facts, looks()[0]) == Some(true));
    }
    if k > 1 {
        assert(fact_of(facts, looks()[1]) == Some(true));
    }
    session::law_host_and_port_show(session.vnc_bind@, session.vnc_port, session.vnc_port);
    session::law_host_and_port_show(session.novnc_bind@, session.novnc_port, session.novnc_port);
}

/// A session is looked at where it says that it is.
pub proof fn law_session_is_looked_at_where_it_is(
    session: SessionState,
    dbus: Target,
    vnc: Target,
    novnc: Target,
)
    requires
        call_ensures(probe_target, (SessionProbe::DbusSocket, &session), dbus),
        call_ensures(probe_target, (SessionProbe::Vnc, &session), vnc),
        call_ensures(probe_target, (SessionProbe::Novnc, &session), novnc),
    ensures
        dbus@ == TargetView::Path(session.dbus_socket@),
        vnc@ == TargetView::Port(session.vnc_bind@, session.vnc_port),
        novnc@ == TargetView::Port(session.novnc_bind@, session.novnc_port),
{
}

} // verus!
