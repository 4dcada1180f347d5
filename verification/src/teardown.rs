//! How a session is torn down: the order of the steps, and what each outcome leads to.
//!
//! A teardown is a sequence of actions. Each action is performed outside, and
//! what came of it is handed to [`down_next`], which names the next one.

use vstd::prelude::*;

use crate::component;
use crate::component::Component;
use crate::paths;
use crate::paths::{
    base_dirs, dbus_socket_path, display_artifacts, display_socket_path, pid_path, state_path,
};
use crate::pidfile;
use crate::pidfile::{process_path, raw_pid, read_pid, PidFile, PidFileError};
use crate::target;
use crate::target::{maybe_path, Target, TargetView};
use crate::text;

verus! {

/// How long a process gets between the request to end and being killed.
pub const GRACE_MILLIS: u64 = 300;

/// A step of a teardown.
#[derive(Clone, Copy, Debug, PartialEq, Eq, Structural)]
pub enum DownAction {
    /// Make the directories that every command needs.
    EnsureDirs,
    /// Read what is written down of the session; that there may be nothing is fine.
    LoadState,
    /// Read the pid file of a component.
    ReadPid(Component),
    /// See whether the process is there.
    ProbeBefore(Component, u32),
    /// Ask the process to end.
    Terminate(Component, u32),
    /// Give the process time to end.
    Grace(Component, u32),
    /// See whether the process is still there.
    ProbeAfter(Component, u32),
    /// Kill the process.
    Kill(Component, u32),
    /// Remove the pid file of a component.
    RemovePidFile(Component),
    /// Remove the socket of the session bus.
    RemoveDbusSocket,
    /// Remove what is written down of the session.
    RemoveState,
    /// See whether the X display has a socket, and whether it is there.
    ProbeSocket,
    /// Remove what the X server left behind.
    ClearArtifacts,
    /// The session is torn down.
    Stopped,
    /// Give up with the error of the step before.
    GiveUp,
}

/// What came of a step.
#[derive(Clone, Copy, Debug, PartialEq, Eq)]
pub enum DownEvent {
    /// It was done.
    Done,
    /// It could not be done.
    Failed,
    /// The pid in the pid file; `None` where there is no file.
    Pid(Option<u32>),
    /// Whether the process is there.
    Alive(bool),
    /// Whether the socket is there; `None` where the display has none.
    Socket(Option<bool>),
}

/// `event` is something that can come of `action`. The errors of signals and of
/// removals are nothing that a teardown stops at.
pub open spec fn down_answers(action: DownAction, event: DownEvent) -> bool {
    match action {
        DownAction::EnsureDirs => event is Done || event is Failed,
        DownAction::LoadState => event is Done,
        DownAction::ReadPid(_) => event is Pid || event is Failed,
        DownAction::ProbeBefore(_, _) => event is Alive,
        DownAction::Terminate(_, _) => event is Done || event is Failed,
        DownAction::Grace(_, _) => event is Done,
        DownAction::ProbeAfter(_, _) => event is Alive,
        DownAction::Kill(_, _) => event is Done || event is Failed,
        DownAction::RemovePidFile(_) => event is Done || event is Failed,
        DownAction::RemoveDbusSocket => event is Done || event is Failed,
        DownAction::RemoveState => event is Done || event is Failed,
        DownAction::ProbeSocket => event is Socket,
        DownAction::ClearArtifacts => event is Done,
        DownAction::Stopped => false,
        DownAction::GiveUp => false,
    }
}

/// What follows once a component is stopped.
pub open spec fn after_component(component: Component) -> DownAction {
    match component {
        Component::Websockify => DownAction::ReadPid(Component::X11vnc),
        Component::X11vnc => DownAction::ReadPid(Component::Xfce),
        Component::Xfce => DownAction::ReadPid(Component::Xvfb),
        Component::Xvfb => DownAction::RemoveDbusSocket,
    }
}

/// What follows an action, given what came of it. An event that cannot come of
/// the action leaves it pending.
pub open spec fn down_step(action: DownAction, event: DownEvent) -> DownAction {
    if !down_answers(action, event) {
        action
    } else {
        match action {
            DownAction::EnsureDirs => if event is Done {
                DownAction::LoadState
            } else {
                DownAction::GiveUp
            },
            DownAction::LoadState => DownAction::ReadPid(Component::Websockify),
            DownAction::ReadPid(c) => match event {
                DownEvent::Pid(Some(pid)) => DownAction::ProbeBefore(c, pid),
                DownEvent::Pid(None) => after_component(c),
                _ => DownAction::GiveUp,
            },
            DownAction::ProbeBefore(c, pid) => if event == DownEvent::Alive(true) {
                DownAction::Terminate(c, pid)
            } else {
                DownAction::RemovePidFile(c)
            },
            DownAction::Terminate(c, pid) => DownAction::Grace(c, pid),
            DownAction::Grace(c, pid) => DownAction::ProbeAfter(c, pid),
            DownAction::ProbeAfter(c, pid) => if event == DownEvent::Alive(true) {
                DownAction::Kill(c, pid)
            } else {
                DownAction::RemovePidFile(c)
            },
            DownAction::Kill(c, _) => DownAction::RemovePidFile(c),
            DownAction::RemovePidFile(c) => after_component(c),
            DownAction::RemoveDbusSocket => DownAction::RemoveState,
            DownAction::RemoveState => DownAction::ProbeSocket,
            DownAction::ProbeSocket => if event == DownEvent::Socket(Some(false)) {
                DownAction::ClearArtifacts
            } else {
                DownAction::Stopped
            },
            DownAction::ClearArtifacts => DownAction::Stopped,
            DownAction::Stopped => action,
            DownAction::GiveUp => action,
        }
    }
}

fn after_component_exec(component: Component) -> (r: DownAction)
    ensures
        r == after_component(component),
{
    match component {
        Component::Websockify => DownAction::ReadPid(Component::X11vnc),
        Component::X11vnc => DownAction::ReadPid(Component::Xfce),
        Component::Xfce => DownAction::ReadPid(Component::Xvfb),
        Component::Xvfb => DownAction::RemoveDbusSocket,
    }
}

/// The first action of a teardown.
pub fn down_begin() -> (r: DownAction)
    ensures
        r == DownAction::EnsureDirs,
{
    DownAction::EnsureDirs
}

/// The action that follows `action`, given what came of it.
pub fn down_next(action: DownAction, event: DownEvent) -> (r: DownAction)
    ensures
        r == down_step(action, event),
{
    match (action, event) {
        (DownAction::EnsureDirs, DownEvent::Done) => DownAction::LoadState,
        (DownAction::EnsureDirs, DownEvent::Failed) => DownAction::GiveUp,
        (DownAction::LoadState, DownEvent::Done) => DownAction::ReadPid(Component::Websockify),
        (DownAction::ReadPid(c), DownEvent::Pid(Some(pid))) => DownAction::ProbeBefore(c, pid),
        (DownAction::ReadPid(c), DownEvent::Pid(None)) => after_component_exec(c),
        (DownAction::ReadPid(_), DownEvent::Failed) => DownAction::GiveUp,
        (DownAction::ProbeBefore(c, pid), DownEvent::Alive(alive)) => if alive {
            DownAction::Terminate(c, pid)
        } else {
            DownAction::RemovePidFile(c)
        },
        (DownAction::Terminate(c, pid), DownEvent::Done | DownEvent::Failed) => DownAction::Grace(
            c,
            pid,
        ),
        (DownAction::Grace(c, pid), DownEvent::Done) => DownAction::ProbeAfter(c, pid),
        (DownAction::ProbeAfter(c, pid), DownEvent::Alive(alive)) => if alive {
            DownAction::Kill(c, pid)
        } else {
            DownAction::RemovePidFile(c)
        },
        (DownAction::Kill(c, _), DownEvent::Done | DownEvent::Failed) => DownAction::RemovePidFile(
            c,
        ),
        (
            DownAction::RemovePidFile(c),
            DownEvent::Done | DownEvent::Failed,
        ) => after_component_exec(c),
        (
            DownAction::RemoveDbusSocket,
            DownEvent::Done | DownEvent::Failed,
        ) => DownAction::RemoveState,
        (DownAction::RemoveState, DownEvent::Done | DownEvent::Failed) => DownAction::ProbeSocket,
        (DownAction::ProbeSocket, DownEvent::Socket(Some(false))) => DownAction::ClearArtifacts,
        (DownAction::ProbeSocket, DownEvent::Socket(_)) => DownAction::Stopped,
        (DownAction::ClearArtifacts, DownEvent::Done) => DownAction::Stopped,
        _ => action,
    }
}

/// What reading the pid file of a component comes to in a teardown.
pub open spec fn pid_event_of(file: PidFile) -> DownEvent {
    match pidfile::pid_of_file(file) {
        Ok(pid) => DownEvent::Pid(pid),
        Err(_) => DownEvent::Failed,
    }
}

/// What reading the pid file of a component comes to in a teardown.
pub fn pid_event(file: &PidFile) -> (r: DownEvent)
    ensures
        r == pid_event_of(*file),
{
    match read_pid(file) {
        Ok(pid) => DownEvent::Pid(pid),
        Err(_) => DownEvent::Failed,
    }
}

/// The number of the signal that asks a process to end.
pub const SIGTERM: i32 = 15;

/// The number of the signal that kills a process.
pub const SIGKILL: i32 = 9;

/// What an action is about, where `display` is the display that is cleared.
pub open spec fn down_target_of(action: DownAction, display: Seq<char>) -> TargetView {
    match action {
        DownAction::EnsureDirs => TargetView::Dirs(paths::base_dir_texts()),
        DownAction::LoadState => TargetView::Path(paths::state_path_text()),
        DownAction::ReadPid(c) => TargetView::Path(paths::pid_path_text(c.text())),
        DownAction::ProbeBefore(_, pid) => TargetView::Path(pidfile::process_path_text(pid)),
        DownAction::Terminate(_, pid) => TargetView::Signal(
            pidfile::signed_pid(pid),
            SIGTERM as int,
        ),
        DownAction::Grace(_, _) => TargetView::Pause(GRACE_MILLIS),
        DownAction::ProbeAfter(_, pid) => TargetView::Path(pidfile::process_path_text(pid)),
        DownAction::Kill(_, pid) => TargetView::Signal(pidfile::signed_pid(pid), SIGKILL as int),
        DownAction::RemovePidFile(c) => TargetView::Path(paths::pid_path_text(c.text())),
        DownAction::RemoveDbusSocket => TargetView::Path(paths::dbus_socket_text()),
        DownAction::RemoveState => TargetView::Path(paths::state_path_text()),
        DownAction::ProbeSocket => target::path_or_nothing(paths::socket_path_text(display)),
        DownAction::ClearArtifacts => TargetView::Paths(paths::artifact_texts(display)),
        DownAction::Stopped => TargetView::Nothing,
        DownAction::GiveUp => TargetView::Nothing,
    }
}

/// What an action is about, where `display` is the display that is cleared.
pub fn down_target(action: DownAction, display: &str) -> (r: Target)
    ensures
        r@ == down_target_of(action, display@),
{
    match action {
        DownAction::EnsureDirs => Target::Dirs(base_dirs()),
        DownAction::LoadState => Target::Path(state_path()),
        DownAction::ReadPid(c) => Target::Path(pid_path(c.name())),
        DownAction::ProbeBefore(_, pid) => Target::Path(process_path(pid)),
        DownAction::Terminate(_, pid) => Target::Signal { pid: raw_pid(pid), signal: SIGTERM },
        DownAction::Grace(_, _) => Target::Pause { millis: GRACE_MILLIS },
        DownAction::ProbeAfter(_, pid) => Target::Path(process_path(pid)),
        DownAction::Kill(_, pid) => Target::Signal { pid: raw_pid(pid), signal: SIGKILL },
        DownAction::RemovePidFile(c) => Target::Path(pid_path(c.name())),
        DownAction::RemoveDbusSocket => Target::Path(dbus_socket_path()),
        DownAction::RemoveState => Target::Path(state_path()),
        DownAction::ProbeSocket => maybe_path(display_socket_path(display)),
        DownAction::ClearArtifacts => Target::Paths(display_artifacts(display)),
        DownAction::Stopped => Target::Nothing,
        DownAction::GiveUp => Target::Nothing,
    }
}

/// What is printed once a session is torn down.
pub fn stopped_message() -> (m: &'static str)
    ensures
        m@ == "qgui: stopped"@,
{
    "qgui: stopped"
}

// ---------------------------------------------------------------------------
// Laws
// ---------------------------------------------------------------------------

/// The actions of a teardown from its start, each with what came of it.
pub open spec fn is_teardown(run: Seq<(DownAction, DownEvent)>) -> bool {
    &&& run.len() > 0 ==> run[0].0 == DownAction::EnsureDirs
    &&& forall|i: int| 0 <= i < run.len() ==> down_answers((#[trigger] run[i]).0, run[i].1)
    &&& forall|i: int, j: int|
        #![trigger run[i], run[j]]
        0 <= j < i < run.len() && i == j + 1 ==> run[i].0 == down_step(run[j].0, run[j].1)
}

/// The action that is due after a run.
pub open spec fn down_due(run: Seq<(DownAction, DownEvent)>) -> DownAction {
    if run.len() == 0 {
        DownAction::EnsureDirs
    } else {
        down_step(run.last().0, run.last().1)
    }
}

/// The place of a component in the order of stopping.
pub open spec fn stop_place(component: Component) -> int {
    match component {
        Component::Websockify => 0,
        Component::X11vnc => 1,
        Component::Xfce => 2,
        Component::Xvfb => 3,
    }
}

/// The place of an action in a teardown.
pub open spec fn down_place(action: DownAction) -> int {
    match action {
        DownAction::EnsureDirs => 0,
        DownAction::LoadState => 1,
        DownAction::ReadPid(c) => 2 + 7 * stop_place(c),
        DownAction::ProbeBefore(c, _) => 3 + 7 * stop_place(c),
        DownAction::Terminate(c, _) => 4 + 7 * stop_place(c),
        DownAction::Grace(c, _) => 5 + 7 * stop_place(c),
        DownAction::ProbeAfter(c, _) => 6 + 7 * stop_place(c),
        DownAction::Kill(c, _) => 7 + 7 * stop_place(c),
        DownAction::RemovePidFile(c) => 8 + 7 * stop_place(c),
        DownAction::RemoveDbusSocket => 30,
        DownAction::RemoveState => 31,
        DownAction::ProbeSocket => 32,
        DownAction::ClearArtifacts => 33,
        DownAction::Stopped => 34,
        DownAction::GiveUp => 35,
    }
}

/// The place of a component is the one it has in the order of stopping.
pub proof fn law_stop_place(component: Component)
    ensures
        0 <= stop_place(component) < component::stop_order().len(),
        component::stop_order()[stop_place(component)] == component,
{
}

/// A teardown goes forward: no action comes back, so that there are at most
/// thirty-four of them.
pub proof fn law_teardown_ends(run: Seq<(DownAction, DownEvent)>)
    requires
        is_teardown(run),
    ensures
        forall|i: int, j: int|
            0 <= i < j < run.len() ==> down_place((#[trigger] run[i]).0) < down_place(
                (#[trigger] run[j]).0,
            ),
        run.len() <= 34,
{
    assert forall|i: int, j: int| 0 <= i < j < run.len() implies down_place((#[trigger] run[i]).0)
        < down_place((#[trigger] run[j]).0) by {
        lemma_down_forward(run, i, j);
    }
    if run.len() > 0 {
        lemma_down_place_grows(run, run.len() - 1);
        assert(down_answers(run[run.len() - 1].0, run[run.len() - 1].1));
    }
}

proof fn lemma_down_step_forward(action: DownAction, event: DownEvent)
    requires
        down_answers(action, event),
    ensures
        down_place(action) < down_place(down_step(action, event)),
{
}

proof fn lemma_down_edge(run: Seq<(DownAction, DownEvent)>, j: int)
    requires
        is_teardown(run),
        0 < j < run.len(),
    ensures
        down_place(run[j - 1].0) < down_place(run[j].0),
{
    let (action, event) = run[j - 1];
    assert(down_answers(action, event));
    assert(run[j].0 == down_step(action, event));
    lemma_down_step_forward(action, event);
}

proof fn lemma_growing(places: Seq<int>, i: int, j: int)
    requires
        0 <= i < j < places.len(),
        forall|k: int, l: int|
            #![trigger places[k], places[l]]
            0 <= k < l < places.len() && l == k + 1 ==> places[k] < places[l],
    ensures
        places[i] < places[j],
    decreases j - i,
{
    assert(places[j - 1] < places[j]);
    if i < j - 1 {
        lemma_growing(places, i, j - 1);
    }
}

/// The places of the actions of a run.
spec fn places_of(run: Seq<(DownAction, DownEvent)>) -> Seq<int> {
    run.map_values(|step: (DownAction, DownEvent)| down_place(step.0))
}

proof fn lemma_places_grow(run: Seq<(DownAction, DownEvent)>)
    requires
        is_teardown(run),
    ensures
        forall|k: int, l: int|
            #![trigger places_of(run)[k], places_of(run)[l]]
            0 <= k < l < run.len() && l == k + 1 ==> places_of(run)[k] < places_of(run)[l],
{
    let places = places_of(run);
    assert forall|k: int, l: int|
        #![trigger places[k], places[l]]
        0 <= k < l < run.len() && l == k + 1 implies places[k] < places[l] by {
        lemma_down_edge(run, l);
    }
}

proof fn lemma_down_forward(run: Seq<(DownAction, DownEvent)>, i: int, j: int)
    requires
        is_teardown(run),
        0 <= i < j < run.len(),
    ensures
        down_place(run[i].0) < down_place(run[j].0),
{
    lemma_places_grow(run);
    lemma_growing(places_of(run), i, j);
}

proof fn lemma_down_place_grows(run: Seq<(DownAction, DownEvent)>, i: int)
    requires
        is_teardown(run),
        0 <= i < run.len(),
    ensures
        down_place(run[i].0) >= i,
    decreases i,
{
    if i > 0 {
        lemma_down_place_grows(run, i - 1);
        lemma_down_forward(run, i - 1, i);
    }
}

/// Components are dealt with in the order of stopping.
pub proof fn law_teardown_keeps_the_order(
    run: Seq<(DownAction, DownEvent)>,
    i: int,
    j: int,
    first: Component,
    second: Component,
)
    requires
        is_teardown(run),
        0 <= i < j < run.len(),
        run[i].0 == DownAction::ReadPid(first),
        run[j].0 == DownAction::ReadPid(second),
    ensures
        stop_place(first) < stop_place(second),
{
    lemma_down_forward(run, i, j);
}

/// A process is asked to end only where its pid was read from the pid file of
/// the component just before, and the process was found to be there.
pub proof fn law_only_known_processes_are_signalled(
    run: Seq<(DownAction, DownEvent)>,
    i: int,
    component: Component,
    pid: u32,
)
    requires
        is_teardown(run),
        0 <= i < run.len(),
        run[i].0 == DownAction::Terminate(component, pid),
    ensures
        i >= 2,
        run[i - 1] == (DownAction::ProbeBefore(component, pid), DownEvent::Alive(true)),
        run[i - 2] == (DownAction::ReadPid(component), DownEvent::Pid(Some(pid))),
{
    assert(run[i].0 == down_step(run[i - 1].0, run[i - 1].1));
    assert(run[i - 1].0 == down_step(run[i - 2].0, run[i - 2].1));
}

/// A process is killed only where it was asked to end, was given time, and was
/// found to be still there.
pub proof fn law_kill_is_the_last_resort(
    run: Seq<(DownAction, DownEvent)>,
    i: int,
    component: Component,
    pid: u32,
)
    requires
        is_teardown(run),
        0 <= i < run.len(),
        run[i].0 == DownAction::Kill(component, pid),
    ensures
        i >= 3,
        run[i - 1] == (DownAction::ProbeAfter(component, pid), DownEvent::Alive(true)),
        run[i - 2].0 == DownAction::Grace(component, pid),
        run[i - 3].0 == DownAction::Terminate(component, pid),
{
    assert(run[i].0 == down_step(run[i - 1].0, run[i - 1].1));
    assert(run[i - 1].0 == down_step(run[i - 2].0, run[i - 2].1));
    assert(run[i - 2].0 == down_step(run[i - 3].0, run[i - 3].1));
}

/// What the X server left behind is removed only where the socket of its
/// display is not there.
pub proof fn law_live_display_is_kept(run: Seq<(DownAction, DownEvent)>, i: int)
    requires
        is_teardown(run),
        0 <= i < run.len(),
        run[i].0 == DownAction::ClearArtifacts,
    ensures
        i >= 1,
        run[i - 1] == (DownAction::ProbeSocket, DownEvent::Socket(Some(false))),
{
    assert(run[i].0 == down_step(run[i - 1].0, run[i - 1].1));
}

/// A teardown gives up only where the directories could not be made or a pid
/// file could not be read.
pub proof fn law_what_stops_a_teardown(run: Seq<(DownAction, DownEvent)>)
    requires
        is_teardown(run),
        down_due(run) == DownAction::GiveUp,
    ensures
        run.len() > 0,
        run.last().1 == DownEvent::Failed,
        run.last().0 == DownAction::EnsureDirs || run.last().0 is ReadPid,
{
    assert(down_answers(run[run.len() - 1].0, run[run.len() - 1].1));
}

/// The component was dealt with in a run: it had no pid file, or the removal of
/// its pid file was tried.
pub open spec fn is_stopped(run: Seq<(DownAction, DownEvent)>, component: Component) -> bool {
    exists|i: int|
        0 <= i < run.len() && (run[i] == (DownAction::ReadPid(component), DownEvent::Pid(None))
            || (#[trigger] run[i]).0 == DownAction::RemovePidFile(component))
}

/// `action` was tried in a run.
pub open spec fn is_tried(run: Seq<(DownAction, DownEvent)>, action: DownAction) -> bool {
    exists|i: int| 0 <= i < run.len() && (#[trigger] run[i]).0 == action
}

proof fn lemma_component_is_stopped(
    run: Seq<(DownAction, DownEvent)>,
    component: Component,
    n: int,
)
    requires
        is_teardown(run),
        0 <= n < run.len(),
        8 + 7 * stop_place(component) < down_place(run[n].0),
    ensures
        is_stopped(run, component),
    decreases n,
{
    if n == 0 {
        assert(run[0].0 == DownAction::EnsureDirs);
    } else {
        assert(run[n].0 == down_step(run[n - 1].0, run[n - 1].1));
        assert(down_answers(run[n - 1].0, run[n - 1].1));
        if 8 + 7 * stop_place(component) < down_place(run[n - 1].0) {
            lemma_component_is_stopped(run, component, n - 1);
        }
    }
}

proof fn lemma_is_tried(run: Seq<(DownAction, DownEvent)>, action: DownAction, n: int)
    requires
        is_teardown(run),
        0 <= n < run.len(),
        action == DownAction::RemoveDbusSocket || action == DownAction::RemoveState || action
            == DownAction::ProbeSocket,
        down_place(action) <= down_place(run[n].0),
    ensures
        is_tried(run, action),
    decreases n,
{
    if n == 0 {
        assert(run[0].0 == DownAction::EnsureDirs);
    } else {
        assert(run[n].0 == down_step(run[n - 1].0, run[n - 1].1));
        assert(down_answers(run[n - 1].0, run[n - 1].1));
        if down_place(action) <= down_place(run[n - 1].0) {
            lemma_is_tried(run, action, n - 1);
        } else {
            assert(run[n].0 == action);
        }
    }
}

/// A teardown that comes to its end has dealt with every component, and has
/// tried to remove the socket of the session bus and what is written down of
/// the session.
pub proof fn law_teardown_is_complete(run: Seq<(DownAction, DownEvent)>)
    requires
        is_teardown(run),
        down_due(run) == DownAction::Stopped,
    ensures
        forall|c: Component| is_stopped(run, c),
        is_tried(run, DownAction::RemoveDbusSocket),
        is_tried(run, DownAction::RemoveState),
{
    let n = run.len() - 1;
    assert(down_answers(run[n].0, run[n].1));
    assert(down_place(run[n].0) >= 32);
    assert forall|c: Component| is_stopped(run, c) by {
        lemma_component_is_stopped(run, c, n);
    }
    lemma_is_tried(run, DownAction::RemoveDbusSocket, n);
    lemma_is_tried(run, DownAction::RemoveState, n);
}

/// The removal of the file at `path` was tried in a run.
pub open spec fn is_removed(
    run: Seq<(DownAction, DownEvent)>,
    display: Seq<char>,
    path: Seq<char>,
) -> bool {
    exists|i: int|
        #![trigger run[i]]
        0 <= i < run.len() && (run[i].0 is RemovePidFile || run[i].0 is RemoveDbusSocket
            || run[i].0 is RemoveState) && down_target_of(run[i].0, display) == TargetView::Path(
            path,
        )
}

/// A teardown that comes to its end has tried to remove the socket of the session
/// bus, the file that holds the session, and every pid file that was there.
pub proof fn law_teardown_removes_the_files(
    run: Seq<(DownAction, DownEvent)>,
    display: Seq<char>,
)
    requires
        is_teardown(run),
        down_due(run) == DownAction::Stopped,
    ensures
        is_removed(run, display, paths::dbus_socket_text()),
        is_removed(run, display, paths::state_path_text()),
        forall|c: Component|
            #![trigger c.text()]
            is_removed(run, display, paths::pid_path_text(c.text())) || run.contains(
                (DownAction::ReadPid(c), DownEvent::Pid(None)),
            ),
{
    law_teardown_is_complete(run);
    let d = choose|i: int| 0 <= i < run.len() && (#[trigger] run[i]).0 == DownAction::RemoveDbusSocket;
    assert(run[d].0 is RemoveDbusSocket);
    let s = choose|i: int| 0 <= i < run.len() && (#[trigger] run[i]).0 == DownAction::RemoveState;
    assert(run[s].0 is RemoveState);
    assert forall|c: Component|
        #![trigger c.text()]
        is_removed(run, display, paths::pid_path_text(c.text())) || run.contains(
            (DownAction::ReadPid(c), DownEvent::Pid(None)),
        ) by {
        assert(is_stopped(run, c));
        let i = choose|i: int|
            0 <= i < run.len() && (run[i] == (DownAction::ReadPid(c), DownEvent::Pid(None)) || (
            #[trigger] run[i]).0 == DownAction::RemovePidFile(c));
        if run[i].0 == DownAction::RemovePidFile(c) {
            assert(run[i].0 is RemovePidFile);
        }
    }
}

/// A teardown sends two signals: the one that asks a process to end, and the one
/// that kills, which a process gets only where it was sent the first one before
/// and was given its time.
pub proof fn law_signals(
    run: Seq<(DownAction, DownEvent)>,
    i: int,
    display: Seq<char>,
    pid: int,
    signal: int,
)
    requires
        is_teardown(run),
        0 <= i < run.len(),
        down_target_of(run[i].0, display) == TargetView::Signal(pid, signal),
    ensures
        signal == 15 || signal == 9,
        signal == 9 ==> i >= 3,
        signal == 9 ==> down_target_of(run[i - 2].0, display) == TargetView::Pause(GRACE_MILLIS),
        signal == 9 ==> down_target_of(run[i - 3].0, display) == TargetView::Signal(pid, 15),
{
    if let DownAction::Kill(c, p) = run[i].0 {
        law_kill_is_the_last_resort(run, i, c, p);
    }
}

/// The pid file of a component was found missing in a run, or was removed.
pub open spec fn is_gone(run: Seq<(DownAction, DownEvent)>, component: Component) -> bool {
    run.contains((DownAction::ReadPid(component), DownEvent::Pid(None))) || run.contains(
        (DownAction::RemovePidFile(component), DownEvent::Done),
    )
}

/// No pid file that a teardown has found missing, or has removed, is there in a
/// later one.
pub open spec fn stays_removed(
    first: Seq<(DownAction, DownEvent)>,
    second: Seq<(DownAction, DownEvent)>,
) -> bool {
    forall|c: Component, i: int|
        #![trigger is_gone(first, c), second[i]]
        0 <= i < second.len() && second[i].0 == DownAction::ReadPid(c) && is_gone(first, c)
            ==> second[i].1 == DownEvent::Pid(None)
}

/// A second teardown signals nobody, where the first one came to its end, could
/// remove the pid files, and nobody has written one since.
pub proof fn law_second_teardown_signals_nobody(
    first: Seq<(DownAction, DownEvent)>,
    second: Seq<(DownAction, DownEvent)>,
    i: int,
    display: Seq<char>,
)
    requires
        is_teardown(first),
        down_due(first) == DownAction::Stopped,
        forall|k: int|
            0 <= k < first.len() && (#[trigger] first[k]).0 is RemovePidFile ==> first[k].1
                == DownEvent::Done,
        is_teardown(second),
        stays_removed(first, second),
        0 <= i < second.len(),
    ensures
        !(down_target_of(second[i].0, display) is Signal),
{
    match second[i].0 {
        DownAction::Terminate(c, pid) => {
            lemma_not_signalled_again(first, second, i, c, pid);
        },
        DownAction::Kill(c, pid) => {
            law_kill_is_the_last_resort(second, i, c, pid);
            lemma_not_signalled_again(first, second, i - 3, c, pid);
        },
        _ => {},
    }
}

proof fn lemma_not_signalled_again(
    first: Seq<(DownAction, DownEvent)>,
    second: Seq<(DownAction, DownEvent)>,
    i: int,
    component: Component,
    pid: u32,
)
    requires
        is_teardown(first),
        down_due(first) == DownAction::Stopped,
        forall|k: int|
            0 <= k < first.len() && (#[trigger] first[k]).0 is RemovePidFile ==> first[k].1
                == DownEvent::Done,
        is_teardown(second),
        stays_removed(first, second),
        0 <= i < second.len(),
    ensures
        second[i].0 != DownAction::Terminate(component, pid),
{
    if second[i].0 == DownAction::Terminate(component, pid) {
        law_only_known_processes_are_signalled(second, i, component, pid);
        law_teardown_is_complete(first);
        assert(is_stopped(first, component));
        let k = choose|k: int|
            0 <= k < first.len() && (first[k] == (
                DownAction::ReadPid(component),
                DownEvent::Pid(None),
            ) || (#[trigger] first[k]).0 == DownAction::RemovePidFile(component));
        assert(first.contains(first[k]));
        assert(is_gone(first, component));
        assert(second[i - 2].0 == DownAction::ReadPid(component));
    }
}

/// What came after the `i`th step of a run, or is due after it.
pub open spec fn down_after(run: Seq<(DownAction, DownEvent)>, i: int) -> DownAction {
    if i + 1 < run.len() {
        run[i + 1].0
    } else {
        down_due(run)
    }
}

proof fn lemma_down_after(run: Seq<(DownAction, DownEvent)>, i: int)
    requires
        is_teardown(run),
        0 <= i < run.len(),
    ensures
        down_answers(run[i].0, run[i].1),
        down_after(run, i) == down_step(run[i].0, run[i].1),
{
    if i + 1 < run.len() {
        assert(run[i + 1].0 == down_step(run[i].0, run[i].1));
    }
}

/// Every process that is found alive is signalled: it is asked to end where its pid was
/// just read, and killed where it was asked before.
pub proof fn law_live_process_is_signalled(
    run: Seq<(DownAction, DownEvent)>,
    i: int,
    component: Component,
    pid: u32,
    display: Seq<char>,
)
    requires
        is_teardown(run),
        0 <= i < run.len(),
    ensures
        run[i] == (DownAction::ProbeBefore(component, pid), DownEvent::Alive(true))
            ==> down_target_of(down_after(run, i), display) == TargetView::Signal(
            pidfile::signed_pid(pid),
            15,
        ),
        run[i] == (DownAction::ProbeAfter(component, pid), DownEvent::Alive(true))
            ==> down_target_of(down_after(run, i), display) == TargetView::Signal(
            pidfile::signed_pid(pid),
            9,
        ),
{
    lemma_down_after(run, i);
}

/// The process whose pid was read from a pid file is the one that is looked for, and one
/// that was asked to end is given its time and looked for again.
pub proof fn law_process_in_the_pid_file_is_looked_for(
    run: Seq<(DownAction, DownEvent)>,
    i: int,
    component: Component,
    pid: u32,
    display: Seq<char>,
)
    requires
        is_teardown(run),
        0 <= i < run.len(),
    ensures
        run[i] == (DownAction::ReadPid(component), DownEvent::Pid(Some(pid))) ==> down_after(run, i)
            == DownAction::ProbeBefore(component, pid) && down_target_of(
            down_after(run, i),
            display,
        ) == TargetView::Path("/proc"@ + "/"@ + text::decimal(pid as int)),
        run[i].0 == DownAction::Terminate(component, pid) ==> down_after(run, i)
            == DownAction::Grace(component, pid) && down_target_of(down_after(run, i), display)
            == TargetView::Pause(300),
        run[i].0 == DownAction::Grace(component, pid) ==> down_after(run, i)
            == DownAction::ProbeAfter(component, pid) && down_target_of(
            down_after(run, i),
            display,
        ) == TargetView::Path("/proc"@ + "/"@ + text::decimal(pid as int)),
{
    lemma_down_after(run, i);
    pidfile::law_process_entries(pid, pid);
}

/// The pid file of a process that is gone, or was killed, is removed: the same file that
/// was read.
pub proof fn law_pid_file_that_was_read_is_removed(
    run: Seq<(DownAction, DownEvent)>,
    i: int,
    component: Component,
    pid: u32,
    display: Seq<char>,
)
    requires
        is_teardown(run),
        0 <= i < run.len(),
        run[i] == (DownAction::ProbeBefore(component, pid), DownEvent::Alive(false)) || run[i] == (
            DownAction::ProbeAfter(component, pid),
            DownEvent::Alive(false),
        ) || run[i].0 == DownAction::Kill(component, pid),
    ensures
        down_after(run, i) == DownAction::RemovePidFile(component),
        down_target_of(down_after(run, i), display) == down_target_of(
            DownAction::ReadPid(component),
            display,
        ),
        down_target_of(down_after(run, i), display) == TargetView::Path(
            "/run/qgui/"@ + component.text() + ".pid"@,
        ),
{
    lemma_down_after(run, i);
    lemma_name_is_relative(component);
    paths::law_files_of_a_name(component.text());
}

proof fn lemma_name_is_relative(component: Component)
    ensures
        component.text().len() > 0,
        component.text()[0] != '/',
{
    reveal_strlit("xvfb");
    reveal_strlit("xfce");
    reveal_strlit("x11vnc");
    reveal_strlit("websockify");
}

/// A pid file is removed only where it was there.
pub proof fn law_only_pid_files_that_were_there_are_removed(
    run: Seq<(DownAction, DownEvent)>,
    i: int,
    component: Component,
)
    requires
        is_teardown(run),
        0 <= i < run.len(),
        run[i].0 == DownAction::RemovePidFile(component),
    ensures
        i >= 1,
        run[i - 1].0 is ProbeBefore || run[i - 1].0 is ProbeAfter || run[i - 1].0 is Kill,
        !run.contains((DownAction::ReadPid(component), DownEvent::Pid(None))),
{
    assert(run[i].0 == down_step(run[i - 1].0, run[i - 1].1));
    assert(down_answers(run[i - 1].0, run[i - 1].1));
    if run.contains((DownAction::ReadPid(component), DownEvent::Pid(None))) {
        let k = choose|k: int|
            0 <= k < run.len() && run[k] == (DownAction::ReadPid(component), DownEvent::Pid(None));
        if i < k {
            lemma_down_forward(run, i, k);
        } else if k < i {
            lemma_down_after(run, k);
            if k + 1 < i {
                lemma_down_forward(run, k + 1, i);
            }
        }
    }
}

/// Every component has its turn, and after the last one the files of the session have
/// theirs: its bus, what is written down of it, and its display.
pub proof fn law_every_part_has_its_turn(
    run: Seq<(DownAction, DownEvent)>,
    i: int,
    k: int,
    display: Seq<char>,
)
    requires
        is_teardown(run),
        0 <= i < run.len(),
        0 <= k < 4,
    ensures
        run[i] == (DownAction::EnsureDirs, DownEvent::Done) ==> down_after(run, i)
            == DownAction::LoadState,
        run[i].0 == DownAction::LoadState ==> down_after(run, i) == DownAction::ReadPid(
            component::stop_order()[0],
        ),
        run[i] == (DownAction::ReadPid(component::stop_order()[k]), DownEvent::Pid(None))
            || run[i].0 == DownAction::RemovePidFile(component::stop_order()[k]) ==> if k < 3 {
            down_after(run, i) == DownAction::ReadPid(component::stop_order()[k + 1])
        } else {
            down_after(run, i) == DownAction::RemoveDbusSocket
        },
        run[i].0 == DownAction::RemoveDbusSocket ==> down_after(run, i) == DownAction::RemoveState,
        run[i].0 == DownAction::RemoveState ==> down_after(run, i) == DownAction::ProbeSocket,
{
    lemma_down_after(run, i);
}

/// What an X server left behind is removed where its socket is not there, and a teardown
/// is over once that is done or is not called for.
pub proof fn law_display_without_a_socket_is_cleared(
    run: Seq<(DownAction, DownEvent)>,
    i: int,
    there: Option<bool>,
)
    requires
        is_teardown(run),
        0 <= i < run.len(),
    ensures
        run[i] == (DownAction::ProbeSocket, DownEvent::Socket(there)) ==> if there == Some(false) {
            down_after(run, i) == DownAction::ClearArtifacts
        } else {
            down_after(run, i) == DownAction::Stopped
        },
        run[i].0 == DownAction::ClearArtifacts ==> down_after(run, i) == DownAction::Stopped,
{
    lemma_down_after(run, i);
}

/// A teardown stops where the directories cannot be made, or a pid file is in the way.
pub proof fn law_bad_pid_file_stops_a_teardown(run: Seq<(DownAction, DownEvent)>, i: int)
    requires
        is_teardown(run),
        0 <= i < run.len(),
        run[i].0 is EnsureDirs || run[i].0 is ReadPid,
        run[i].1 is Failed,
    ensures
        down_after(run, i) == DownAction::GiveUp,
{
    lemma_down_after(run, i);
}

/// A signal or a removal that fails changes nothing in what follows.
pub proof fn law_what_fails_is_passed_over(action: DownAction, done: DownAction, failed: DownAction)
    requires
        action is Terminate || action is Kill || action is RemovePidFile || action
            is RemoveDbusSocket || action is RemoveState,
        call_ensures(down_next, (action, DownEvent::Done), done),
        call_ensures(down_next, (action, DownEvent::Failed), failed),
    ensures
        done == failed,
        done != action,
        !(done is GiveUp),
{
}

/// What can come of each step, and that nothing else moves a teardown.
pub proof fn law_what_moves_a_teardown(
    action: DownAction,
    event: DownEvent,
    component: Component,
    pid: u32,
    found: Option<u32>,
    alive: bool,
    there: Option<bool>,
    r: DownAction,
)
    requires
        call_ensures(down_next, (action, event), r),
    ensures
        down_answers(DownAction::EnsureDirs, DownEvent::Done),
        down_answers(DownAction::EnsureDirs, DownEvent::Failed),
        down_answers(DownAction::LoadState, DownEvent::Done),
        down_answers(DownAction::ReadPid(component), DownEvent::Pid(found)),
        down_answers(DownAction::ReadPid(component), DownEvent::Failed),
        down_answers(DownAction::ProbeBefore(component, pid), DownEvent::Alive(alive)),
        down_answers(DownAction::Grace(component, pid), DownEvent::Done),
        down_answers(DownAction::ProbeAfter(component, pid), DownEvent::Alive(alive)),
        down_answers(DownAction::ProbeSocket, DownEvent::Socket(there)),
        down_answers(DownAction::ClearArtifacts, DownEvent::Done),
        action is Stopped || action is GiveUp ==> !down_answers(action, event),
        event is Pid && down_answers(action, event) ==> action is ReadPid,
        event is Alive && down_answers(action, event) ==> action is ProbeBefore || action
            is ProbeAfter,
        event is Socket && down_answers(action, event) ==> action is ProbeSocket,
        event is Done && down_answers(action, event) ==> !(action is ReadPid || action
            is ProbeBefore || action is ProbeAfter || action is ProbeSocket),
        event is Failed && down_answers(action, event) ==> !(action is LoadState || action
            is ProbeBefore || action is Grace || action is ProbeAfter || action is ProbeSocket
            || action is ClearArtifacts),
        !down_answers(action, event) ==> r == action,
        r == down_step(action, event),
{
}

/// The files that a teardown is about: the session is read from the file that is removed,
/// and the display that is looked at is the one that is cleared.
pub proof fn law_files_of_a_teardown(name: Seq<char>, elsewhere: Seq<char>, component: Component)
    requires
        elsewhere.len() > 0 ==> elsewhere[0] != ':',
    ensures
        ({
            let display = seq![':'] + name;
            &&& down_target_of(DownAction::EnsureDirs, display) == TargetView::Dirs(
                seq!["/run/qgui"@, "/var/lib/qgui"@, "/var/lib/qgui/logs"@],
            )
            &&& down_target_of(DownAction::LoadState, display) == TargetView::Path(
                "/run/qgui/session.json"@,
            )
            &&& down_target_of(DownAction::RemoveState, display) == down_target_of(
                DownAction::LoadState,
                display,
            )
            &&& down_target_of(DownAction::RemoveDbusSocket, display) == TargetView::Path(
                "/run/qgui/dbus.sock"@,
            )
            &&& down_target_of(DownAction::ReadPid(component), display) == TargetView::Path(
                "/run/qgui/"@ + component.text() + ".pid"@,
            )
            &&& down_target_of(DownAction::ProbeSocket, display) == TargetView::Path(
                "/tmp/.X11-unix/X"@ + name,
            )
            &&& down_target_of(DownAction::ClearArtifacts, display) == TargetView::Paths(
                seq!["/tmp/.X"@ + name + "-lock"@, "/tmp/.X11-unix/X"@ + name],
            )
        }),
        down_target_of(DownAction::ProbeSocket, elsewhere) == TargetView::Nothing,
{
    paths::law_places();
    paths::law_files_of_a_display(name, elsewhere);
    lemma_name_is_relative(component);
    paths::law_files_of_a_name(component.text());
}

/// Components are stopped in the reverse of the order in which they start: the bridge
/// first, then the VNC server, the desktop and the X server.
pub proof fn law_order_of_stopping()
    ensures
        component::stop_order().map_values(|c: Component| c.text()) == seq![
            "websockify"@,
            "x11vnc"@,
            "xfce"@,
            "xvfb"@,
        ],
{
}

/// A pid file comes to what is read from it, and to a failure where it is in the way.
pub proof fn law_what_a_pid_file_comes_to(
    file: PidFile,
    read: Result<Option<u32>, PidFileError>,
    r: DownEvent,
)
    requires
        call_ensures(read_pid, (&file,), read),
        call_ensures(pid_event, (&file,), r),
    ensures
        match read {
            Ok(pid) => r == DownEvent::Pid(pid),
            Err(_) => r == DownEvent::Failed,
        },
{
}

/// A teardown begins with the directories.
pub proof fn law_teardown_begins(first: DownAction, m: &'static str)
    requires
        call_ensures(down_begin, (), first),
        call_ensures(stopped_message, (), m),
    ensures
        down_due(seq![]) == first,
        first == DownAction::EnsureDirs,
        m@ == "qgui: stopped"@,
{
}

} // verus!
