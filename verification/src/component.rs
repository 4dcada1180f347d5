//! The programs that make up a session, and how each of them is doing.

use vstd::prelude::*;

use crate::pidfile;
use crate::pidfile::{read_pid, PidFile, PidFileError};

verus! {

/// A program of the session whose pid is kept.
#[derive(Clone, Copy, Debug, PartialEq, Eq, Structural)]
pub enum Component {
    /// The X server.
    Xvfb,
    /// The desktop.
    Xfce,
    /// The VNC server.
    X11vnc,
    /// The bridge between the browser and the VNC server.
    Websockify,
}

impl Component {
    /// What the component is called.
    pub open spec fn text(self) -> Seq<char> {
        match self {
            Component::Xvfb => "xvfb"@,
            Component::Xfce => "xfce"@,
            Component::X11vnc => "x11vnc"@,
            Component::Websockify => "websockify"@,
        }
    }

    /// What the component is called in reports, logs and pid files.
    pub fn name(self) -> (r: &'static str)
        ensures
            r@ == self.text(),
    {
        match self {
            Component::Xvfb => "xvfb",
            Component::Xfce => "xfce",
            Component::X11vnc => "x11vnc",
            Component::Websockify => "websockify",
        }
    }
}

/// The components in the order in which they start.
pub open spec fn start_order() -> Seq<Component> {
    seq![Component::Xvfb, Component::Xfce, Component::X11vnc, Component::Websockify]
}

/// The components in the order in which they stop.
pub open spec fn stop_order() -> Seq<Component> {
    seq![Component::Websockify, Component::X11vnc, Component::Xfce, Component::Xvfb]
}

/// The components in the order in which they start and are reported.
pub fn components() -> (r: [Component; 4])
    ensures
        r@ == start_order(),
{
    [Component::Xvfb, Component::Xfce, Component::X11vnc, Component::Websockify]
}

/// Components stop in the reverse of the order in which they start.
pub proof fn law_stop_reverses_start()
    ensures
        stop_order() == start_order().reverse(),
{
}

/// Different components have different names.
pub proof fn law_names_are_distinct(a: Component, b: Component)
    requires
        a.text() == b.text(),
    ensures
        a == b,
{
    reveal_strlit("xvfb");
    reveal_strlit("xfce");
    reveal_strlit("x11vnc");
    reveal_strlit("websockify");
    assert("xvfb"@[1] == 'v' && "xfce"@[1] == 'f');
    assert("x11vnc"@.len() == 6 && "websockify"@.len() == 10);
}

/// How a component is doing.
#[derive(Clone, Copy, Debug, PartialEq, Eq, Structural)]
pub enum HealthState {
    /// Its process is there.
    Running,
    /// Its process was started and is gone.
    Dead,
    /// No process is known.
    Missing,
}

impl HealthState {
    /// The state in words.
    pub open spec fn text(self) -> Seq<char> {
        match self {
            HealthState::Running => "running"@,
            HealthState::Dead => "dead"@,
            HealthState::Missing => "missing"@,
        }
    }

    /// The state in words.
    pub fn as_str(self) -> (r: &'static str)
        ensures
            r@ == self.text(),
    {
        match self {
            HealthState::Running => "running",
            HealthState::Dead => "dead",
            HealthState::Missing => "missing",
        }
    }
}

/// What was found of a component.
#[derive(Clone, Debug)]
pub struct ComponentProbe {
    /// What is in place of its pid file.
    pub file: PidFile,
    /// A process with the pid in that file is there.
    pub alive: bool,
}

/// The pid file of a component is in the way of a report on any of them.
#[derive(Clone, Copy, Debug, PartialEq, Eq, Structural)]
pub struct ReportError {
    /// The component.
    pub component: Component,
    /// What is wrong with its pid file.
    pub cause: PidFileError,
}

impl ReportError {
    /// The error in words.
    pub fn message(self) -> (m: &'static str)
        ensures
            m@ == self.cause.text(),
    {
        self.cause.message()
    }
}

/// The pid file of a component says what its pid is, or that there is none.
pub open spec fn is_readable(probe: ComponentProbe) -> bool {
    pidfile::pid_of_file(probe.file) is Ok
}

/// The pid of a component is known, and its process is there.
pub open spec fn is_live(probe: ComponentProbe) -> bool {
    &&& pidfile::pid_of_file(probe.file) is Ok
    &&& pidfile::pid_of_file(probe.file)->Ok_0 is Some
    &&& probe.alive
}

/// What a probe says of a component.
pub open spec fn health(probe: ComponentProbe) -> HealthState {
    match pidfile::pid_of_file(probe.file) {
        Ok(Some(_)) => if probe.alive {
            HealthState::Running
        } else {
            HealthState::Dead
        },
        _ => HealthState::Missing,
    }
}

/// What is known of a component.
#[derive(Clone, Copy, Debug)]
pub struct ComponentReport {
    /// What the component is called.
    pub name: &'static str,
    /// The pid in its pid file.
    pub pid: Option<u32>,
    /// How it is doing.
    pub state: HealthState,
}

/// `report` says of `component` what `probe` found.
pub open spec fn reports(
    report: ComponentReport,
    component: Component,
    probe: ComponentProbe,
) -> bool {
    &&& report.name@ == component.text()
    &&& pidfile::pid_of_file(probe.file) == Ok::<Option<u32>, PidFileError>(report.pid)
    &&& report.state == health(probe)
}

/// What the first pid file that is in the way does, from the `i`th component on.
pub open spec fn report_error(probes: Seq<ComponentProbe>, i: int) -> Option<ReportError>
    decreases probes.len() - i,
{
    if i >= probes.len() {
        None
    } else {
        match pidfile::pid_of_file(probes[i].file) {
            Err(cause) => Some(ReportError { component: start_order()[i], cause }),
            Ok(_) => report_error(probes, i + 1),
        }
    }
}

fn component_report(component: Component, probe: &ComponentProbe) -> (r: Result<
    ComponentReport,
    ReportError,
>)
    ensures
        match r {
            Ok(report) => reports(report, component, *probe),
            Err(e) => e.component == component && pidfile::pid_of_file(probe.file) == Err::<
                Option<u32>,
                PidFileError,
            >(e.cause),
        },
{
    match read_pid(&probe.file) {
        Err(cause) => Err(ReportError { component, cause }),
        Ok(pid) => {
            let state = match pid {
                Some(_) => if probe.alive {
                    HealthState::Running
                } else {
                    HealthState::Dead
                },
                None => HealthState::Missing,
            };
            Ok(ComponentReport { name: component.name(), pid, state })
        },
    }
}

/// One report for each component, in the order in which they start. `probes`
/// holds what was found of them, in the same order. One pid file that cannot be
/// read, or that holds no number, is in the way of all reports; one that is not
/// there is not.
pub fn component_reports(probes: &[ComponentProbe; 4]) -> (r: Result<
    Vec<ComponentReport>,
    ReportError,
>)
    ensures
        r is Ok <==> forall|i: int| 0 <= i < 4 ==> is_readable(#[trigger] probes@[i]),
        match r {
            Ok(list) => list@.len() == 4 && forall|i: int|
                0 <= i < 4 ==> reports(#[trigger] list@[i], start_order()[i], probes@[i]),
            Err(e) => report_error(probes@, 0) == Some(e),
        },
{
    let order = components();
    let mut list: Vec<ComponentReport> = Vec::new();
    let mut i: usize = 0;
    while i < 4
        invariant
            i <= 4,
            order@ == start_order(),
            list@.len() == i,
            report_error(probes@, 0) == report_error(probes@, i as int),
            forall|j: int| 0 <= j < i ==> is_readable(#[trigger] probes@[j]),
            forall|j: int|
                0 <= j < i ==> reports(#[trigger] list@[j], start_order()[j], probes@[j]),
        decreases 4 - i,
    {
        match component_report(order[i], &probes[i]) {
            Ok(report) => {
                assert(is_readable(probes@[i as int]));
                list.push(report);
            },
            Err(e) => {
                assert(!is_readable(probes@[i as int]));
                return Err(e);
            },
        }
        i += 1;
    }
    Ok(list)
}

/// The first report of a component that is not running.
pub open spec fn first_failed(list: Seq<ComponentReport>) -> Option<ComponentReport>
    decreases list.len(),
{
    if list.len() == 0 {
        None
    } else if list[0].state != HealthState::Running {
        Some(list[0])
    } else {
        first_failed(list.drop_first())
    }
}

/// The first report of a component that is not running.
pub fn first_failed_report(list: &Vec<ComponentReport>) -> (r: Option<ComponentReport>)
    ensures
        r == first_failed(list@),
{
    let mut i: usize = 0;
    assert(list@.skip(0) == list@);
    while i < list.len()
        invariant
            i <= list@.len(),
            first_failed(list@) == first_failed(list@.skip(i as int)),
        decreases list@.len() - i,
    {
        let report = list[i];
        if report.state != HealthState::Running {
            return Some(report);
        }
        assert(list@.skip(i as int).drop_first() == list@.skip(i + 1));
        i += 1;
    }
    None
}

/// The first component that is not running, from the `i`th on.
pub open spec fn first_down(probes: Seq<ComponentProbe>, i: int) -> Option<Component>
    decreases probes.len() - i,
{
    if i >= probes.len() {
        None
    } else if health(probes[i]) != HealthState::Running {
        Some(start_order()[i])
    } else {
        first_down(probes, i + 1)
    }
}

/// The first failed report is that of the first component that is not running.
proof fn lemma_first_down(list: Seq<ComponentReport>, probes: Seq<ComponentProbe>, i: int)
    requires
        list.len() == probes.len(),
        0 <= i <= list.len(),
        forall|j: int|
            0 <= j < list.len() ==> reports(#[trigger] list[j], start_order()[j], probes[j]),
    ensures
        match first_failed(list.skip(i)) {
            Some(report) => first_down(probes, i) is Some && report.name@ == first_down(
                probes,
                i,
            )->0.text(),
            None => first_down(probes, i) is None,
        },
    decreases list.len() - i,
{
    if i < list.len() {
        assert(list.skip(i)[0] == list[i]);
        assert(reports(list[i], start_order()[i], probes[i]));
        assert(list.skip(i).drop_first() == list.skip(i + 1));
        lemma_first_down(list, probes, i + 1);
    }
}

/// The name of the first component that is not running. Where a pid file is in
/// the way of the reports, no component is named, whatever the others say.
pub fn first_failed_component(probes: &[ComponentProbe; 4]) -> (r: Result<
    Option<&'static str>,
    ReportError,
>)
    ensures
        r is Ok <==> forall|i: int| 0 <= i < 4 ==> is_readable(#[trigger] probes@[i]),
        match r {
            Ok(Some(name)) => first_down(probes@, 0) is Some && name@ == first_down(
                probes@,
                0,
            )->0.text(),
            Ok(None) => first_down(probes@, 0) is None,
            Err(e) => report_error(probes@, 0) == Some(e),
        },
{
    match component_reports(probes) {
        Err(e) => Err(e),
        Ok(list) => {
            proof {
                assert(list@.skip(0) == list@);
                lemma_first_down(list@, probes@, 0);
            }
            match first_failed_report(&list) {
                Some(report) => Ok(Some(report.name)),
                None => Ok(None),
            }
        },
    }
}

/// A pid file is in the way exactly where one of them is not readable, and the
/// first such one is named.
pub proof fn law_report_error(probes: Seq<ComponentProbe>, i: int)
    requires
        0 <= i <= probes.len(),
    ensures
        report_error(probes, i) is None <==> forall|j: int|
            i <= j < probes.len() ==> is_readable(#[trigger] probes[j]),
        report_error(probes, i) matches Some(e) ==> exists|k: int|
            #![trigger probes[k]]
            i <= k < probes.len() && e.component == start_order()[k] && pidfile::pid_of_file(
                probes[k].file,
            ) == Err::<Option<u32>, PidFileError>(e.cause) && forall|j: int|
                i <= j < k ==> is_readable(#[trigger] probes[j]),
    decreases probes.len() - i,
{
    if i < probes.len() {
        assert(is_readable(probes[i]) <==> pidfile::pid_of_file(probes[i].file) is Ok);
        law_report_error(probes, i + 1);
        if report_error(probes, i) is Some && is_readable(probes[i]) {
            let e = report_error(probes, i + 1)->0;
            let k = choose|k: int|
                #![trigger probes[k]]
                i + 1 <= k < probes.len() && e.component == start_order()[k]
                    && pidfile::pid_of_file(probes[k].file) == Err::<Option<u32>, PidFileError>(
                    e.cause,
                ) && forall|j: int| i + 1 <= j < k ==> is_readable(#[trigger] probes[j]);
            assert(forall|j: int| i <= j < k ==> is_readable(#[trigger] probes[j]));
        }
    }
}

/// No component has failed exactly where all of them are running.
pub proof fn law_none_failed(list: Seq<ComponentReport>)
    ensures
        first_failed(list) is None <==> forall|i: int|
            0 <= i < list.len() ==> (#[trigger] list[i]).state == HealthState::Running,
    decreases list.len(),
{
    if list.len() > 0 {
        let rest = list.drop_first();
        law_none_failed(rest);
        assert forall|i: int| 0 < i < list.len() implies rest[i - 1] == #[trigger] list[i] by {}
        if first_failed(list) is None {
            assert forall|i: int| 0 <= i < list.len() implies (#[trigger] list[i]).state
                == HealthState::Running by {
                if i > 0 {
                    assert(rest[i - 1].state == HealthState::Running);
                }
            }
        } else if list[0].state == HealthState::Running {
            let k = choose|k: int|
                0 <= k < rest.len() && (#[trigger] rest[k]).state != HealthState::Running;
            assert(list[k + 1].state != HealthState::Running);
        }
    }
}

/// The component that is named is not running, and all before it are.
pub proof fn law_first_failed(list: Seq<ComponentReport>) -> (i: int)
    requires
        first_failed(list) is Some,
    ensures
        0 <= i < list.len(),
        first_failed(list) == Some(list[i]),
        list[i].state != HealthState::Running,
        forall|j: int| 0 <= j < i ==> (#[trigger] list[j]).state == HealthState::Running,
    decreases list.len(),
{
    if list[0].state != HealthState::Running {
        0
    } else {
        let rest = list.drop_first();
        let k = law_first_failed(rest);
        assert forall|j: int| 0 <= j < k + 1 implies (#[trigger] list[j]).state
            == HealthState::Running by {
            if j > 0 {
                assert(list[j] == rest[j - 1]);
            }
        }
        k + 1
    }
}

/// The components, by name, in the order in which they start.
pub proof fn law_order_of_the_components()
    ensures
        start_order().map_values(|c: Component| c.text()) == seq![
            "xvfb"@,
            "xfce"@,
            "x11vnc"@,
            "websockify"@,
        ],
{
}

/// A pid that was read from a pid file.
pub open spec fn known_pid(probe: ComponentProbe) -> Option<u32> {
    match pidfile::pid_of_file(probe.file) {
        Ok(pid) => pid,
        Err(_) => None,
    }
}

/// Reports are made exactly where every pid file is absent or holds a number. Each one
/// names its component, gives the pid in its file, and says that it runs where a process
/// with that pid is there, that it is dead where none is, and that it is missing where
/// it has no pid file.
pub proof fn law_reports_say_what_was_found(
    probes: [ComponentProbe; 4],
    r: Result<Vec<ComponentReport>, ReportError>,
    i: int,
)
    requires
        call_ensures(component_reports, (&probes,), r),
        0 <= i < 4,
    ensures
        r is Err <==> exists|k: int|
            0 <= k < 4 && pidfile::pid_of_file((#[trigger] probes@[k]).file) is Err,
        r matches Ok(list) ==> {
            &&& list@.len() == 4
            &&& list@[i].name@ == start_order()[i].text()
            &&& list@[i].pid == known_pid(probes@[i])
            &&& list@[i].state == HealthState::Missing <==> probes@[i].file is Absent
            &&& list@[i].state == HealthState::Running <==> !(probes@[i].file is Absent)
                && probes@[i].alive
            &&& list@[i].state == HealthState::Dead <==> !(probes@[i].file is Absent)
                && !probes@[i].alive
        },
{
    assert forall|k: int| 0 <= k < 4 implies (is_readable(#[trigger] probes@[k])
        <==> pidfile::pid_of_file(probes@[k].file) is Ok) by {}
    if r is Err {
        let k = choose|k: int| 0 <= k < 4 && !is_readable(#[trigger] probes@[k]);
        assert(pidfile::pid_of_file(probes@[k].file) is Err);
    }
    if let Ok(list) = r {
        assert(reports(list@[i], start_order()[i], probes@[i]));
        assert(is_readable(probes@[i]));
    }
}

/// Where reports cannot be made, the first pid file in the order of the components that
/// is in the way is the one that is reported, with what is wrong with it.
pub proof fn law_first_bad_pid_file_is_reported(
    probes: [ComponentProbe; 4],
    r: Result<Vec<ComponentReport>, ReportError>,
    first: Result<Option<&'static str>, ReportError>,
    k: int,
)
    requires
        call_ensures(component_reports, (&probes,), r),
        call_ensures(first_failed_component, (&probes,), first),
        0 <= k < 4,
        pidfile::pid_of_file(probes@[k].file) is Err,
        forall|j: int| 0 <= j < k ==> pidfile::pid_of_file((#[trigger] probes@[j]).file) is Ok,
    ensures
        r is Err,
        first is Err,
        r->Err_0 == first->Err_0,
        r->Err_0.component == start_order()[k],
        pidfile::pid_of_file(probes@[k].file) == Err::<Option<u32>, PidFileError>(
            r->Err_0.cause,
        ),
{
    assert(!is_readable(probes@[k]));
    law_report_error(probes@, 0);
    let e = report_error(probes@, 0)->0;
    let m = choose|m: int|
        #![trigger probes@[m]]
        0 <= m < 4 && e.component == start_order()[m] && pidfile::pid_of_file(probes@[m].file)
            == Err::<Option<u32>, PidFileError>(e.cause) && forall|j: int|
            0 <= j < m ==> is_readable(#[trigger] probes@[j]);
    if m < k {
        assert(pidfile::pid_of_file(probes@[m].file) is Ok);
    }
    if k < m {
        assert(is_readable(probes@[k]));
    }
}

/// A component was found to be running: it has a pid file with a number in it, and the
/// process is there.
pub open spec fn found_running(probe: ComponentProbe) -> bool {
    known_pid(probe) is Some && probe.alive
}

/// The component that is named is the first one that was not found to be running; none
/// is named exactly where all were.
pub proof fn law_first_that_does_not_run_is_named(
    probes: [ComponentProbe; 4],
    r: Result<Option<&'static str>, ReportError>,
)
    requires
        call_ensures(first_failed_component, (&probes,), r),
        r is Ok,
    ensures
        r->Ok_0 is None <==> forall|k: int| 0 <= k < 4 ==> found_running(#[trigger] probes@[k]),
        r->Ok_0 matches Some(name) ==> exists|k: int|
            #![trigger probes@[k]]
            0 <= k < 4 && !found_running(probes@[k]) && name@ == start_order()[k].text() && forall|
                j: int,
            |
                0 <= j < k ==> found_running(#[trigger] probes@[j]),
{
    assert forall|k: int| 0 <= k < 4 implies (health(#[trigger] probes@[k])
        == HealthState::Running <==> found_running(probes@[k])) by {
        assert(is_readable(probes@[k]));
    }
    let k = lemma_first_down_place(probes@, 0);
    if k < 4 {
        assert(!found_running(probes@[k]));
    }
}

proof fn lemma_first_down_place(probes: Seq<ComponentProbe>, i: int) -> (k: int)
    requires
        0 <= i <= probes.len(),
    ensures
        i <= k <= probes.len(),
        forall|j: int| i <= j < k ==> health(#[trigger] probes[j]) == HealthState::Running,
        k < probes.len() ==> health(probes[k]) != HealthState::Running && first_down(probes, i)
            == Some(start_order()[k]),
        k == probes.len() ==> first_down(probes, i) is None,
    decreases probes.len() - i,
{
    if i < probes.len() && health(probes[i]) == HealthState::Running {
        lemma_first_down_place(probes, i + 1)
    } else {
        i
    }
}

/// The report that is picked is the first one that does not say that its component runs.
pub proof fn law_first_failed_report(
    list: Vec<ComponentReport>,
    r: Option<ComponentReport>,
    k: int,
)
    requires
        call_ensures(first_failed_report, (&list,), r),
        0 <= k <= list@.len(),
        forall|j: int| 0 <= j < k ==> (#[trigger] list@[j]).state == HealthState::Running,
        k < list@.len() ==> list@[k].state != HealthState::Running,
    ensures
        r == if k < list@.len() {
            Some(list@[k])
        } else {
            None
        },
{
    law_none_failed(list@);
    if k < list@.len() {
        let i = law_first_failed(list@);
        if i < k {
            assert(list@[i].state == HealthState::Running);
        }
        if k < i {
            assert(list@[k].state == HealthState::Running);
        }
    }
}

} // verus!
