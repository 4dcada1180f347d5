//! How a session is started: the order of the steps, and what each outcome leads to.
//!
//! A start is a sequence of actions. Each action is performed outside, and what
//! came of it is handed to [`start_next`], which names the next one. The wait for
//! the X display, one of the actions, is itself such a sequence.

use vstd::prelude::*;

use crate::active;
use crate::active::SessionProbe;
use crate::clock;
use crate::clock::time_is_up;
use crate::command;
use crate::command::{command_env, component_command, dbus_command, CommandLine, DBUS_NAME};
use crate::component;
use crate::component::Component;
use crate::doctor;
use crate::doctor::{doctor_target, DoctorAction, DoctorEvent};
use crate::paths;
use crate::paths::{
    base_dirs, dbus_socket_path, display_artifacts, display_socket_path, pid_path, state_path,
    xdg_runtime_path, RUNTIME_DIR_MODE,
};
use crate::pidfile;
use crate::pidfile::{pid_text, PidFileError};
use crate::resolution;
use crate::resolution::{validate_resolution, BadResolution};
use crate::session;
use crate::session::{host_port, session_state, SessionState, UpArgs};
use crate::target;
use crate::target::{maybe_path, Target, TargetView};
use crate::teardown;
use crate::teardown::{down_target, DownAction};
use crate::text;

verus! {

/// How long to wait before looking again.
pub const POLL_MILLIS: u64 = 200;

/// How long the X display may take to come up.
pub const DISPLAY_WAIT_SECS: u64 = 5;

/// How long an attempt to connect may take.
pub const CONNECT_MILLIS: u64 = 200;

// ---------------------------------------------------------------------------
// The wait for the X display
// ---------------------------------------------------------------------------

/// A step of the wait for the X display. The number is that of the seconds that
/// the wait may take.
#[derive(Clone, Copy, Debug, PartialEq, Eq, Structural)]
pub enum WaitAction {
    /// See how much time has passed.
    ReadClock(u64),
    /// See whether the socket of the display is there.
    ProbeSocket(u64),
    /// Wait a moment.
    Pause(u64),
    /// The display is up.
    Ready,
    /// Give up with this error.
    Fail(WaitFault),
}

/// Why the X display did not come up.
#[derive(Clone, Copy, Debug, PartialEq, Eq, Structural)]
pub enum WaitFault {
    /// It is not a display on this machine.
    InvalidDisplay,
    /// The time is up.
    TimedOut,
}

/// What came of a step.
#[derive(Clone, Copy, Debug, PartialEq, Eq, Structural)]
pub enum WaitEvent {
    /// It was done.
    Done,
    /// How many nanoseconds have passed since the wait began.
    Elapsed(u128),
    /// Whether the socket is there.
    Exists(bool),
}

/// What follows an action, given what came of it. An event that cannot come of
/// the action leaves it pending.
pub open spec fn wait_step(action: WaitAction, event: WaitEvent) -> WaitAction {
    match (action, event) {
        (WaitAction::ReadClock(secs), WaitEvent::Elapsed(nanos)) => if clock::is_up(
            nanos as int,
            secs as int,
        ) {
            WaitAction::Fail(WaitFault::TimedOut)
        } else {
            WaitAction::ProbeSocket(secs)
        },
        (WaitAction::ProbeSocket(_), WaitEvent::Exists(true)) => WaitAction::Ready,
        (WaitAction::ProbeSocket(secs), WaitEvent::Exists(false)) => WaitAction::Pause(secs),
        (WaitAction::Pause(secs), WaitEvent::Done) => WaitAction::ReadClock(secs),
        _ => action,
    }
}

/// The first action of a wait of at most `timeout_secs` seconds for `display`: a
/// display without a socket on this machine is not waited for.
pub open spec fn wait_first(display: Seq<char>, timeout_secs: u64) -> WaitAction {
    match paths::socket_path_text(display) {
        Some(_) => WaitAction::ReadClock(timeout_secs),
        None => WaitAction::Fail(WaitFault::InvalidDisplay),
    }
}

/// The first action of a wait of at most `timeout_secs` seconds for `display`.
pub fn wait_for_display_ready(display: &str, timeout_secs: u64) -> (r: WaitAction)
    ensures
        r == wait_first(display@, timeout_secs),
{
    match display_socket_path(display) {
        Some(_) => WaitAction::ReadClock(timeout_secs),
        None => WaitAction::Fail(WaitFault::InvalidDisplay),
    }
}

/// The action that follows `action`, given what came of it.
pub fn wait_next(action: WaitAction, event: WaitEvent) -> (r: WaitAction)
    ensures
        r == wait_step(action, event),
{
    match (action, event) {
        (WaitAction::ReadClock(secs), WaitEvent::Elapsed(nanos)) => if time_is_up(nanos, secs) {
            WaitAction::Fail(WaitFault::TimedOut)
        } else {
            WaitAction::ProbeSocket(secs)
        },
        (WaitAction::ProbeSocket(secs), WaitEvent::Exists(exists)) => if exists {
            WaitAction::Ready
        } else {
            WaitAction::Pause(secs)
        },
        (WaitAction::Pause(secs), WaitEvent::Done) => WaitAction::ReadClock(secs),
        _ => action,
    }
}

/// What an action of the wait for `display` is about.
pub open spec fn wait_target_of(action: WaitAction, display: Seq<char>) -> TargetView {
    match action {
        WaitAction::ProbeSocket(_) => target::path_or_nothing(paths::socket_path_text(display)),
        WaitAction::Pause(_) => TargetView::Pause(POLL_MILLIS),
        _ => TargetView::Nothing,
    }
}

/// What an action of the wait for `display` is about.
pub fn wait_target(action: WaitAction, display: &str) -> (r: Target)
    ensures
        r@ == wait_target_of(action, display@),
{
    match action {
        WaitAction::ProbeSocket(_) => maybe_path(display_socket_path(display)),
        WaitAction::Pause(_) => Target::Pause { millis: POLL_MILLIS },
        _ => Target::Nothing,
    }
}

impl WaitFault {
    /// The fault in words.
    pub open spec fn text(self, display: Seq<char>) -> Seq<char> {
        match self {
            WaitFault::InvalidDisplay => "invalid X display '"@ + display + "'"@,
            WaitFault::TimedOut => "timed out waiting for X display "@ + display
                + " to become ready"@,
        }
    }

    /// The fault in words.
    pub fn message(self, display: &str) -> (m: String)
        ensures
            m@ == self.text(display@),
    {
        match self {
            WaitFault::InvalidDisplay => "invalid X display '".to_string().concat(display).concat(
                "'",
            ),
            WaitFault::TimedOut => "timed out waiting for X display ".to_string().concat(
                display,
            ).concat(" to become ready"),
        }
    }
}

// ---------------------------------------------------------------------------
// The start
// ---------------------------------------------------------------------------

/// A step of a start.
#[derive(Clone, Copy, Debug, PartialEq, Eq, Structural)]
pub enum StartAction {
    /// Make the directories that every command needs.
    EnsureDirs,
    /// Check that all is in place.
    Doctor,
    /// Tear down what is left of another session; that this may fail is fine.
    Down,
    /// Remove what an X server left behind.
    ClearArtifacts,
    /// Make the runtime directory of the session one that only its owner may use.
    SecureRuntimeDir,
    /// Start the session bus.
    SpawnDbus,
    /// Start a component.
    Spawn(Component),
    /// Write down the pid of a component.
    WritePid(Component, u32),
    /// Wait for the X display.
    WaitDisplay,
    /// See whether the web root is there.
    ProbeWebRoot,
    /// Check the files of the noVNC client in the web root.
    CheckAssets,
    /// See how much time has passed since the first such look.
    ReadClock,
    /// See whether noVNC listens.
    ProbeNovnc,
    /// See whether the VNC server listens; the flag says whether noVNC does.
    ProbeVnc(bool),
    /// See whether the socket of the session bus is there.
    ProbeDbus,
    /// Wait a moment.
    Pause,
    /// Write down the session.
    WriteState,
    /// The session is ready.
    Started,
    /// Give up with the error of the step before.
    GiveUp,
    /// Give up with this error.
    Fail(StartFault),
}

/// Why a session did not start.
#[derive(Clone, Copy, Debug, PartialEq, Eq, Structural)]
pub enum StartFault {
    /// The resolution is not one.
    BadResolution,
    /// The web root is not there.
    WebRootNotFound,
    /// The time is up.
    TimedOut,
}

/// What came of a step.
#[derive(Clone, Copy, Debug, PartialEq, Eq, Structural)]
pub enum StartEvent {
    /// It was done.
    Done,
    /// It could not be done.
    Failed,
    /// The pid of the program that was started.
    Spawned(u32),
    /// Whether the file is there.
    Exists(bool),
    /// Whether something listens.
    Listening(bool),
    /// How many nanoseconds have passed since the first look at the time.
    Elapsed(u128),
}

/// `event` is something that can come of `action`.
pub open spec fn start_answers(action: StartAction, event: StartEvent) -> bool {
    match action {
        StartAction::EnsureDirs => event is Done || event is Failed,
        StartAction::Doctor => event is Done || event is Failed,
        StartAction::Down => event is Done || event is Failed,
        StartAction::ClearArtifacts => event is Done,
        StartAction::SecureRuntimeDir => event is Done || event is Failed,
        StartAction::SpawnDbus => event is Spawned || event is Failed,
        StartAction::Spawn(_) => event is Spawned || event is Failed,
        StartAction::WritePid(_, _) => event is Done || event is Failed,
        StartAction::WaitDisplay => event is Done || event is Failed,
        StartAction::ProbeWebRoot => event is Exists,
        StartAction::CheckAssets => event is Done || event is Failed,
        StartAction::ReadClock => event is Elapsed,
        StartAction::ProbeNovnc => event is Listening,
        StartAction::ProbeVnc(_) => event is Listening,
        StartAction::ProbeDbus => event is Exists,
        StartAction::Pause => event is Done,
        StartAction::WriteState => event is Done || event is Failed,
        StartAction::Started => false,
        StartAction::GiveUp => false,
        StartAction::Fail(_) => false,
    }
}

/// What follows once the pid of a component is written down.
pub open spec fn after_pid(component: Component) -> StartAction {
    match component {
        Component::Xvfb => StartAction::WaitDisplay,
        Component::Xfce => StartAction::Spawn(Component::X11vnc),
        Component::X11vnc => StartAction::ProbeWebRoot,
        Component::Websockify => StartAction::ReadClock,
    }
}

/// What a start is to go by.
pub struct StartPlan {
    /// The resolution is one.
    pub valid: bool,
    /// How many seconds it may take until all is ready.
    pub budget_secs: u64,
}

/// What the start of the session that `args` ask for is to go by.
pub open spec fn plan_of(args: UpArgs) -> StartPlan {
    StartPlan {
        valid: resolution::valid_resolution(args.res@),
        budget_secs: args.wait_ready_secs,
    }
}

/// What follows an action, given what came of it. An event that cannot come of
/// the action leaves it pending.
pub open spec fn start_step(
    plan: StartPlan,
    action: StartAction,
    event: StartEvent,
) -> StartAction {
    if !start_answers(action, event) {
        action
    } else if event is Failed && action != StartAction::Down {
        StartAction::GiveUp
    } else {
        match action {
            StartAction::EnsureDirs => if plan.valid {
                StartAction::Doctor
            } else {
                StartAction::Fail(StartFault::BadResolution)
            },
            StartAction::Doctor => StartAction::Down,
            StartAction::Down => StartAction::ClearArtifacts,
            StartAction::ClearArtifacts => StartAction::SecureRuntimeDir,
            StartAction::SecureRuntimeDir => StartAction::SpawnDbus,
            StartAction::SpawnDbus => StartAction::Spawn(Component::Xvfb),
            StartAction::Spawn(c) => match event {
                StartEvent::Spawned(pid) => StartAction::WritePid(c, pid),
                _ => action,
            },
            StartAction::WritePid(c, _) => after_pid(c),
            StartAction::WaitDisplay => StartAction::Spawn(Component::Xfce),
            StartAction::ProbeWebRoot => if event == StartEvent::Exists(true) {
                StartAction::CheckAssets
            } else {
                StartAction::Fail(StartFault::WebRootNotFound)
            },
            StartAction::CheckAssets => StartAction::Spawn(Component::Websockify),
            StartAction::ReadClock => match event {
                StartEvent::Elapsed(nanos) => if clock::is_up(
                    nanos as int,
                    plan.budget_secs as int,
                ) {
                    StartAction::Fail(StartFault::TimedOut)
                } else {
                    StartAction::ProbeNovnc
                },
                _ => action,
            },
            StartAction::ProbeNovnc => StartAction::ProbeVnc(event == StartEvent::Listening(true)),
            StartAction::ProbeVnc(novnc) => if novnc && event == StartEvent::Listening(true) {
                StartAction::ProbeDbus
            } else {
                StartAction::Pause
            },
            StartAction::ProbeDbus => if event == StartEvent::Exists(true) {
                StartAction::WriteState
            } else {
                StartAction::Pause
            },
            StartAction::Pause => StartAction::ReadClock,
            StartAction::WriteState => StartAction::Started,
            StartAction::Started => action,
            StartAction::GiveUp => action,
            StartAction::Fail(_) => action,
        }
    }
}

/// The first action of a start.
pub fn start_begin() -> (r: StartAction)
    ensures
        r == StartAction::EnsureDirs,
{
    StartAction::EnsureDirs
}

fn after_pid_exec(component: Component) -> (r: StartAction)
    ensures
        r == after_pid(component),
{
    match component {
        Component::Xvfb => StartAction::WaitDisplay,
        Component::Xfce => StartAction::Spawn(Component::X11vnc),
        Component::X11vnc => StartAction::ProbeWebRoot,
        Component::Websockify => StartAction::ReadClock,
    }
}

/// The action that follows `action` in the start of the session that `args` ask
/// for, given what came of it.
pub fn start_next(args: &UpArgs, action: StartAction, event: StartEvent) -> (r: StartAction)
    ensures
        r == start_step(plan_of(*args), action, event),
{
    match (action, event) {
        (StartAction::EnsureDirs, StartEvent::Done) => match validate_resolution(
            args.res.as_str(),
        ) {
            Ok(_) => StartAction::Doctor,
            Err(_) => StartAction::Fail(StartFault::BadResolution),
        },
        (StartAction::Doctor, StartEvent::Done) => StartAction::Down,
        (
            StartAction::Down,
            StartEvent::Done | StartEvent::Failed,
        ) => StartAction::ClearArtifacts,
        (StartAction::ClearArtifacts, StartEvent::Done) => StartAction::SecureRuntimeDir,
        (StartAction::SecureRuntimeDir, StartEvent::Done) => StartAction::SpawnDbus,
        (StartAction::SpawnDbus, StartEvent::Spawned(_)) => StartAction::Spawn(Component::Xvfb),
        (StartAction::Spawn(c), StartEvent::Spawned(pid)) => StartAction::WritePid(c, pid),
        (StartAction::WritePid(c, _), StartEvent::Done) => after_pid_exec(c),
        (StartAction::WaitDisplay, StartEvent::Done) => StartAction::Spawn(Component::Xfce),
        (StartAction::ProbeWebRoot, StartEvent::Exists(exists)) => if exists {
            StartAction::CheckAssets
        } else {
            StartAction::Fail(StartFault::WebRootNotFound)
        },
        (StartAction::CheckAssets, StartEvent::Done) => StartAction::Spawn(Component::Websockify),
        (StartAction::ReadClock, StartEvent::Elapsed(nanos)) => if time_is_up(
            nanos,
            args.wait_ready_secs,
        ) {
            StartAction::Fail(StartFault::TimedOut)
        } else {
            StartAction::ProbeNovnc
        },
        (StartAction::ProbeNovnc, StartEvent::Listening(novnc)) => StartAction::ProbeVnc(novnc),
        (StartAction::ProbeVnc(novnc), StartEvent::Listening(vnc)) => if novnc && vnc {
            StartAction::ProbeDbus
        } else {
            StartAction::Pause
        },
        (StartAction::ProbeDbus, StartEvent::Exists(exists)) => if exists {
            StartAction::WriteState
        } else {
            StartAction::Pause
        },
        (StartAction::Pause, StartEvent::Done) => StartAction::ReadClock,
        (StartAction::WriteState, StartEvent::Done) => StartAction::Started,
        (
            StartAction::EnsureDirs
            | StartAction::Doctor
            | StartAction::SecureRuntimeDir
            | StartAction::SpawnDbus
            | StartAction::Spawn(_)
            | StartAction::WritePid(_, _)
            | StartAction::WaitDisplay
            | StartAction::CheckAssets
            | StartAction::WriteState,
            StartEvent::Failed,
        ) => StartAction::GiveUp,
        _ => action,
    }
}

/// What an action of the start of the session that `args` ask for is about.
pub open spec fn start_target_of(action: StartAction, args: UpArgs) -> TargetView {
    match action {
        StartAction::EnsureDirs => TargetView::Dirs(paths::base_dir_texts()),
        StartAction::Doctor => TargetView::Checkup(false),
        StartAction::Down => TargetView::Nothing,
        StartAction::ClearArtifacts => TargetView::Paths(paths::artifact_texts(args.display@)),
        StartAction::SecureRuntimeDir => TargetView::PrivateDir(
            paths::xdg_runtime_text(),
            RUNTIME_DIR_MODE,
        ),
        StartAction::SpawnDbus => TargetView::Program(
            DBUS_NAME@,
            "dbus-daemon"@,
            command::dbus_args(),
            false,
            seq![],
        ),
        StartAction::Spawn(c) => TargetView::Program(
            c.text(),
            command::component_program(c),
            command::component_args(c, args),
            command::joins_session(c),
            command::added_variables(command::joins_session(c), session::session_of(args)),
        ),
        StartAction::WritePid(c, pid) => TargetView::File(
            paths::pid_path_text(c.text()),
            text::decimal(pid as int),
        ),
        StartAction::WaitDisplay => TargetView::Display(args.display@, DISPLAY_WAIT_SECS),
        StartAction::ProbeWebRoot => TargetView::Path(args.novnc_web_root@),
        StartAction::CheckAssets => TargetView::Path(args.novnc_web_root@),
        StartAction::ReadClock => TargetView::Nothing,
        StartAction::ProbeNovnc => TargetView::Port(args.novnc_bind@, args.novnc_port),
        StartAction::ProbeVnc(_) => TargetView::Port(args.vnc_bind@, args.vnc_port),
        StartAction::ProbeDbus => TargetView::Path(paths::dbus_socket_text()),
        StartAction::Pause => TargetView::Pause(POLL_MILLIS),
        StartAction::WriteState => TargetView::Session(
            paths::state_path_text(),
            session::session_of(args),
        ),
        StartAction::Started => TargetView::Nothing,
        StartAction::GiveUp => TargetView::Nothing,
        StartAction::Fail(_) => TargetView::Nothing,
    }
}

fn program_target(log: &'static str, command: CommandLine, args: &UpArgs) -> (r: Target)
    ensures
        r@ == TargetView::Program(
            log@,
            command.program@,
            text::texts(command.args@),
            command.session_env,
            command::added_variables(command.session_env, session::session_of(*args)),
        ),
{
    let env = command_env(&command, &session_state(args));
    Target::Program { log, command, env }
}

/// What an action of the start of the session that `args` ask for is about.
pub fn start_target(action: StartAction, args: &UpArgs) -> (r: Target)
    ensures
        r@ == start_target_of(action, *args),
{
    match action {
        StartAction::EnsureDirs => Target::Dirs(base_dirs()),
        StartAction::Doctor => Target::Checkup { check_ports: false },
        StartAction::Down => Target::Nothing,
        StartAction::ClearArtifacts => Target::Paths(display_artifacts(args.display.as_str())),
        StartAction::SecureRuntimeDir => Target::PrivateDir {
            path: xdg_runtime_path(),
            mode: RUNTIME_DIR_MODE,
        },
        StartAction::SpawnDbus => program_target(DBUS_NAME, dbus_command(), args),
        StartAction::Spawn(c) => program_target(c.name(), component_command(c, args), args),
        StartAction::WritePid(c, pid) => Target::File {
            path: pid_path(c.name()),
            contents: pid_text(pid),
        },
        StartAction::WaitDisplay => Target::Display {
            display: args.display.clone(),
            secs: DISPLAY_WAIT_SECS,
        },
        StartAction::ProbeWebRoot => Target::Path(args.novnc_web_root.clone()),
        StartAction::CheckAssets => Target::Path(args.novnc_web_root.clone()),
        StartAction::ReadClock => Target::Nothing,
        StartAction::ProbeNovnc => Target::Port {
            host: args.novnc_bind.clone(),
            port: args.novnc_port,
        },
        StartAction::ProbeVnc(_) => Target::Port {
            host: args.vnc_bind.clone(),
            port: args.vnc_port,
        },
        StartAction::ProbeDbus => Target::Path(dbus_socket_path()),
        StartAction::Pause => Target::Pause { millis: POLL_MILLIS },
        StartAction::WriteState => Target::Session {
            path: state_path(),
            state: session_state(args),
        },
        StartAction::Started => Target::Nothing,
        StartAction::GiveUp => Target::Nothing,
        StartAction::Fail(_) => Target::Nothing,
    }
}

impl StartFault {
    /// The fault in words.
    pub open spec fn text(self, args: UpArgs) -> Seq<char> {
        match self {
            StartFault::BadResolution => "resolution must be WIDTHxHEIGHT"@,
            StartFault::WebRootNotFound => "noVNC web root not found at "@ + args.novnc_web_root@
                + " (expected vnc.html)"@,
            StartFault::TimedOut => {
                "qgui up: timed out waiting for full GUI readiness on noVNC "@
                    + session::host_port_text(args.novnc_bind@, args.novnc_port) + " and VNC "@
                    + session::host_port_text(args.vnc_bind@, args.vnc_port)
            },
        }
    }

    /// The fault in words.
    pub fn message(self, args: &UpArgs) -> (m: String)
        ensures
            m@ == self.text(*args),
    {
        match self {
            StartFault::BadResolution => BadResolution.message().to_string(),
            StartFault::WebRootNotFound => {
                "noVNC web root not found at ".to_string().concat(
                    args.novnc_web_root.as_str(),
                ).concat(" (expected vnc.html)")
            },
            StartFault::TimedOut => {
                let novnc = host_port(args.novnc_bind.as_str(), args.novnc_port);
                let vnc = host_port(args.vnc_bind.as_str(), args.vnc_port);
                "qgui up: timed out waiting for full GUI readiness on noVNC ".to_string().concat(
                    novnc.as_str(),
                ).concat(" and VNC ").concat(vnc.as_str())
            },
        }
    }
}

// ---------------------------------------------------------------------------
// Laws
// ---------------------------------------------------------------------------

/// The actions of a start from its beginning, each with what came of it.
pub open spec fn is_start(plan: StartPlan, run: Seq<(StartAction, StartEvent)>) -> bool {
    &&& run.len() > 0 ==> run[0].0 == StartAction::EnsureDirs
    &&& forall|i: int| 0 <= i < run.len() ==> start_answers((#[trigger] run[i]).0, run[i].1)
    &&& forall|i: int, j: int|
        #![trigger run[i], run[j]]
        0 <= j < i < run.len() && i == j + 1 ==> run[i].0 == start_step(plan, run[j].0, run[j].1)
}

/// The action that is due after a run.
pub open spec fn start_due(plan: StartPlan, run: Seq<(StartAction, StartEvent)>) -> StartAction {
    if run.len() == 0 {
        StartAction::EnsureDirs
    } else {
        start_step(plan, run.last().0, run.last().1)
    }
}

/// The place of an action in a start. The actions of the wait for the last
/// step, which come round again, share one.
pub open spec fn start_place(action: StartAction) -> int {
    match action {
        StartAction::EnsureDirs => 0,
        StartAction::Doctor => 1,
        StartAction::Down => 2,
        StartAction::ClearArtifacts => 3,
        StartAction::SecureRuntimeDir => 4,
        StartAction::SpawnDbus => 5,
        StartAction::Spawn(Component::Xvfb) => 6,
        StartAction::WritePid(Component::Xvfb, _) => 7,
        StartAction::WaitDisplay => 8,
        StartAction::Spawn(Component::Xfce) => 9,
        StartAction::WritePid(Component::Xfce, _) => 10,
        StartAction::Spawn(Component::X11vnc) => 11,
        StartAction::WritePid(Component::X11vnc, _) => 12,
        StartAction::ProbeWebRoot => 13,
        StartAction::CheckAssets => 14,
        StartAction::Spawn(Component::Websockify) => 15,
        StartAction::WritePid(Component::Websockify, _) => 16,
        StartAction::ReadClock => 17,
        StartAction::ProbeNovnc => 17,
        StartAction::ProbeVnc(_) => 17,
        StartAction::ProbeDbus => 17,
        StartAction::Pause => 17,
        StartAction::WriteState => 18,
        StartAction::Started => 19,
        StartAction::GiveUp => 20,
        StartAction::Fail(_) => 20,
    }
}

proof fn lemma_start_step_forward(plan: StartPlan, action: StartAction, event: StartEvent)
    requires
        start_answers(action, event),
    ensures
        start_place(action) <= start_place(start_step(plan, action, event)),
        start_place(action) < 17 ==> start_place(action) < start_place(
            start_step(plan, action, event),
        ),
{
}

proof fn lemma_start_forward(plan: StartPlan, run: Seq<(StartAction, StartEvent)>, i: int, j: int)
    requires
        is_start(plan, run),
        0 <= i < j < run.len(),
    ensures
        start_place(run[i].0) <= start_place(run[j].0),
        start_place(run[i].0) < 17 ==> start_place(run[i].0) < start_place(run[j].0),
    decreases j - i,
{
    let (action, event) = run[j - 1];
    assert(start_answers(action, event));
    assert(run[j].0 == start_step(plan, action, event));
    lemma_start_step_forward(plan, action, event);
    if i < j - 1 {
        lemma_start_forward(plan, run, i, j - 1);
    }
}

/// Components start in their order, and none starts twice.
pub proof fn law_start_keeps_the_order(
    plan: StartPlan,
    run: Seq<(StartAction, StartEvent)>,
    i: int,
    j: int,
    first: Component,
    second: Component,
)
    requires
        is_start(plan, run),
        0 <= i < j < run.len(),
        run[i].0 == StartAction::Spawn(first),
        run[j].0 == StartAction::Spawn(second),
    ensures
        start_index(first) < start_index(second),
{
    lemma_start_forward(plan, run, i, j);
}

/// The place of a component in the order of starting.
pub open spec fn start_index(component: Component) -> int {
    match component {
        Component::Xvfb => 0,
        Component::Xfce => 1,
        Component::X11vnc => 2,
        Component::Websockify => 3,
    }
}

/// The place of a component is the one it has in the order of starting.
pub proof fn law_start_index(component: Component)
    ensures
        0 <= start_index(component) < component::start_order().len(),
        component::start_order()[start_index(component)] == component,
{
}

/// The pid that is written down for a component is the one that its start gave.
pub proof fn law_pid_is_that_of_the_start(
    plan: StartPlan,
    run: Seq<(StartAction, StartEvent)>,
    i: int,
    component: Component,
    pid: u32,
)
    requires
        is_start(plan, run),
        0 <= i < run.len(),
        run[i].0 == StartAction::WritePid(component, pid),
    ensures
        i >= 1,
        run[i - 1] == (StartAction::Spawn(component), StartEvent::Spawned(pid)),
{
    assert(run[i].0 == start_step(plan, run[i - 1].0, run[i - 1].1));
    assert(start_answers(run[i - 1].0, run[i - 1].1));
}

/// A session is written down only where, just before, noVNC and the VNC server
/// were found to listen and the socket of the session bus to be there.
pub proof fn law_only_a_ready_session_is_written_down(
    plan: StartPlan,
    run: Seq<(StartAction, StartEvent)>,
    i: int,
)
    requires
        is_start(plan, run),
        0 <= i < run.len(),
        run[i].0 == StartAction::WriteState,
    ensures
        i >= 3,
        run[i - 1] == (StartAction::ProbeDbus, StartEvent::Exists(true)),
        run[i - 2] == (StartAction::ProbeVnc(true), StartEvent::Listening(true)),
        run[i - 3] == (StartAction::ProbeNovnc, StartEvent::Listening(true)),
{
    assert(run[i].0 == start_step(plan, run[i - 1].0, run[i - 1].1));
    assert(start_answers(run[i - 1].0, run[i - 1].1));
    assert(run[i - 1].0 == start_step(plan, run[i - 2].0, run[i - 2].1));
    assert(start_answers(run[i - 2].0, run[i - 2].1));
    assert(run[i - 2].0 == start_step(plan, run[i - 3].0, run[i - 3].1));
    assert(start_answers(run[i - 3].0, run[i - 3].1));
}

/// Where the resolution is not one, nothing is done but making directories.
pub proof fn law_bad_resolution_starts_nothing(plan: StartPlan, run: Seq<(StartAction, StartEvent)>)
    requires
        is_start(plan, run),
        !plan.valid,
    ensures
        run.len() <= 1,
{
    if run.len() > 1 {
        assert(run[1].0 == start_step(plan, run[0].0, run[0].1));
        assert(start_answers(run[0].0, run[0].1));
        assert(start_answers(run[1].0, run[1].1));
    }
}

/// Nothing follows a step that failed, but for the teardown of another session.
pub proof fn law_failure_ends_a_start(
    plan: StartPlan,
    run: Seq<(StartAction, StartEvent)>,
    i: int,
)
    requires
        is_start(plan, run),
        0 <= i < run.len(),
        run[i].1 == StartEvent::Failed,
        run[i].0 != StartAction::Down,
    ensures
        i == run.len() - 1,
        start_due(plan, run) == StartAction::GiveUp,
{
    assert(start_answers(run[i].0, run[i].1));
    if i < run.len() - 1 {
        assert(run[i + 1].0 == start_step(plan, run[i].0, run[i].1));
        assert(start_answers(run[i + 1].0, run[i + 1].1));
    }
}

/// `action` was done in a run.
pub open spec fn is_done(run: Seq<(StartAction, StartEvent)>, action: StartAction) -> bool {
    exists|i: int| 0 <= i < run.len() && #[trigger] run[i] == (action, StartEvent::Done)
}

/// A component was started in a run, and the pid that it got was written down.
pub open spec fn is_recorded(run: Seq<(StartAction, StartEvent)>, component: Component) -> bool {
    exists|i: int, j: int|
        #![trigger run[i], run[j]]
        0 <= j < i < run.len() && i == j + 1 && (run[j].1 matches StartEvent::Spawned(pid)
            && run[j].0 == StartAction::Spawn(component) && run[i] == (
            StartAction::WritePid(component, pid),
            StartEvent::Done,
        ))
}

/// A step that a start cannot go past without success.
pub open spec fn is_start_gate(action: StartAction) -> bool {
    match action {
        StartAction::EnsureDirs => true,
        StartAction::Doctor => true,
        StartAction::ClearArtifacts => true,
        StartAction::SecureRuntimeDir => true,
        StartAction::WaitDisplay => true,
        StartAction::CheckAssets => true,
        _ => false,
    }
}

proof fn lemma_start_gate(
    plan: StartPlan,
    run: Seq<(StartAction, StartEvent)>,
    gate: StartAction,
    n: int,
)
    requires
        is_start(plan, run),
        0 <= n < run.len(),
        is_start_gate(gate),
        start_place(gate) < start_place(run[n].0),
    ensures
        is_done(run, gate),
    decreases n,
{
    if n == 0 {
        assert(run[0].0 == StartAction::EnsureDirs);
    } else {
        let (action, event) = run[n - 1];
        assert(run[n].0 == start_step(plan, action, event));
        assert(start_answers(action, event));
        assert(start_answers(run[n].0, run[n].1));
        if start_place(gate) < start_place(action) {
            lemma_start_gate(plan, run, gate, n - 1);
        } else {
            assert(run[n - 1] == (gate, StartEvent::Done));
        }
    }
}

proof fn lemma_pid_is_written_before(
    plan: StartPlan,
    action: StartAction,
    event: StartEvent,
    component: Component,
)
    requires
        start_answers(action, event),
        start_place(action) <= start_place(StartAction::WritePid(component, 0)),
        start_place(StartAction::WritePid(component, 0)) < start_place(
            start_step(plan, action, event),
        ) < 20,
    ensures
        action is WritePid,
        action->WritePid_0 == component,
        event == StartEvent::Done,
{
}

proof fn lemma_recorded_just_before(
    plan: StartPlan,
    run: Seq<(StartAction, StartEvent)>,
    component: Component,
    n: int,
)
    requires
        is_start(plan, run),
        0 < n < run.len(),
        start_place(StartAction::WritePid(component, 0)) < start_place(run[n].0),
        start_place(run[n - 1].0) <= start_place(StartAction::WritePid(component, 0)),
    ensures
        is_recorded(run, component),
{
    let (action, event) = run[n - 1];
    assert(run[n].0 == start_step(plan, action, event));
    assert(start_answers(action, event));
    assert(start_answers(run[n].0, run[n].1));
    lemma_pid_is_written_before(plan, action, event, component);
    let pid = action->WritePid_1;
    law_pid_is_that_of_the_start(plan, run, n - 1, component, pid);
    assert(run[n - 1] == (StartAction::WritePid(component, pid), StartEvent::Done));
}

proof fn lemma_start_recorded(
    plan: StartPlan,
    run: Seq<(StartAction, StartEvent)>,
    component: Component,
    n: int,
)
    requires
        is_start(plan, run),
        0 <= n < run.len(),
        start_place(StartAction::WritePid(component, 0)) < start_place(run[n].0),
    ensures
        is_recorded(run, component),
    decreases n,
{
    if n == 0 {
        assert(run[0].0 == StartAction::EnsureDirs);
    } else if start_place(StartAction::WritePid(component, 0)) < start_place(run[n - 1].0) {
        lemma_start_recorded(plan, run, component, n - 1);
    } else {
        lemma_recorded_just_before(plan, run, component, n);
    }
}

/// A session that is reported ready was checked first, has an X display that
/// came up, has all its components started with their pids written down, has
/// the files of the noVNC client, and is itself written down.
pub proof fn law_started_means_complete(plan: StartPlan, run: Seq<(StartAction, StartEvent)>)
    requires
        is_start(plan, run),
        start_due(plan, run) == StartAction::Started,
    ensures
        plan.valid,
        is_done(run, StartAction::EnsureDirs),
        is_done(run, StartAction::Doctor),
        is_done(run, StartAction::ClearArtifacts),
        is_done(run, StartAction::SecureRuntimeDir),
        is_done(run, StartAction::WaitDisplay),
        is_done(run, StartAction::CheckAssets),
        forall|c: Component| is_recorded(run, c),
        run.last() == (StartAction::WriteState, StartEvent::Done),
{
    let n = run.len() - 1;
    assert(start_answers(run[n].0, run[n].1));
    if !plan.valid {
        law_bad_resolution_starts_nothing(plan, run);
    }
    lemma_start_gate(plan, run, StartAction::EnsureDirs, n);
    lemma_start_gate(plan, run, StartAction::Doctor, n);
    lemma_start_gate(plan, run, StartAction::ClearArtifacts, n);
    lemma_start_gate(plan, run, StartAction::SecureRuntimeDir, n);
    lemma_start_gate(plan, run, StartAction::WaitDisplay, n);
    lemma_start_gate(plan, run, StartAction::CheckAssets, n);
    assert forall|c: Component| is_recorded(run, c) by {
        lemma_start_recorded(plan, run, c, n);
    }
}

/// `event` says that as much time has passed as was given.
pub open spec fn time_was_up(event: StartEvent, budget_secs: u64) -> bool {
    match event {
        StartEvent::Elapsed(nanos) => clock::is_up(nanos as int, budget_secs as int),
        _ => false,
    }
}

/// Each fault that a start ends with was found in its last step; the resolution
/// is to blame exactly where it is not one.
pub proof fn law_start_faults_are_found(
    plan: StartPlan,
    run: Seq<(StartAction, StartEvent)>,
    fault: StartFault,
)
    requires
        is_start(plan, run),
        start_due(plan, run) == StartAction::Fail(fault),
    ensures
        match fault {
            StartFault::BadResolution => !plan.valid && run.last() == (
                StartAction::EnsureDirs,
                StartEvent::Done,
            ),
            StartFault::WebRootNotFound => plan.valid && run.last() == (
                StartAction::ProbeWebRoot,
                StartEvent::Exists(false),
            ),
            StartFault::TimedOut => plan.valid && run.last().0 == StartAction::ReadClock
                && time_was_up(run.last().1, plan.budget_secs),
        },
{
    let n = run.len() - 1;
    assert(start_answers(run[n].0, run[n].1));
    if !plan.valid {
        law_bad_resolution_starts_nothing(plan, run);
    }
}

/// A start never stands still: whatever comes of an action leads to another one.
pub proof fn law_start_moves_on(plan: StartPlan, action: StartAction, event: StartEvent)
    requires
        start_answers(action, event),
    ensures
        start_step(plan, action, event) != action,
{
}

/// Between two looks at the time a start takes at most four other steps.
pub proof fn law_start_minds_the_time(
    plan: StartPlan,
    run: Seq<(StartAction, StartEvent)>,
    i: int,
)
    requires
        is_start(plan, run),
        0 <= i < run.len() - 5,
        run[i].0 == StartAction::ReadClock,
    ensures
        exists|j: int| i < j <= i + 5 && (#[trigger] run[j]).0 == StartAction::ReadClock,
{
    assert(start_answers(run[i].0, run[i].1));
    assert(run[i + 1].0 == start_step(plan, run[i].0, run[i].1));
    assert(start_answers(run[i + 1].0, run[i + 1].1));
    assert(run[i + 2].0 == start_step(plan, run[i + 1].0, run[i + 1].1));
    assert(start_answers(run[i + 2].0, run[i + 2].1));
    assert(run[i + 3].0 == start_step(plan, run[i + 2].0, run[i + 2].1));
    assert(start_answers(run[i + 3].0, run[i + 3].1));
    assert(run[i + 4].0 == start_step(plan, run[i + 3].0, run[i + 3].1));
    assert(start_answers(run[i + 4].0, run[i + 4].1));
    assert(run[i + 5].0 == start_step(plan, run[i + 4].0, run[i + 4].1));
    assert(start_answers(run[i + 5].0, run[i + 5].1));
}

/// Nothing is started before the check has passed and the runtime directory of
/// the session is made.
pub proof fn law_nothing_starts_unchecked(
    plan: StartPlan,
    run: Seq<(StartAction, StartEvent)>,
    i: int,
)
    requires
        is_start(plan, run),
        0 <= i < run.len(),
        run[i].0 is Spawn || run[i].0 is SpawnDbus,
    ensures
        is_done(run.take(i), StartAction::Doctor),
        is_done(run.take(i), StartAction::SecureRuntimeDir),
{
    let before = run.take(i + 1);
    assert(is_start(plan, before)) by {
        assert forall|k: int| 0 <= k < before.len() implies start_answers(
            (#[trigger] before[k]).0,
            before[k].1,
        ) by {
            assert(before[k] == run[k]);
        }
        assert forall|k: int|
            #![trigger before[k]]
            0 < k < before.len() implies before[k].0 == start_step(
            plan,
            before[k - 1].0,
            before[k - 1].1,
        ) by {
            assert(before[k] == run[k]);
            assert(before[k - 1] == run[k - 1]);
        }
    }
    lemma_start_gate(plan, before, StartAction::Doctor, i);
    lemma_start_gate(plan, before, StartAction::SecureRuntimeDir, i);
    lemma_done_earlier(run, StartAction::Doctor, i);
    lemma_done_earlier(run, StartAction::SecureRuntimeDir, i);
}

proof fn lemma_done_earlier(run: Seq<(StartAction, StartEvent)>, action: StartAction, i: int)
    requires
        0 <= i < run.len(),
        is_done(run.take(i + 1), action),
        run[i].0 != action,
    ensures
        is_done(run.take(i), action),
{
    let k = choose|k: int|
        0 <= k < run.take(i + 1).len() && #[trigger] run.take(i + 1)[k] == (
            action,
            StartEvent::Done,
        );
    assert(run.take(i + 1)[k] == run[k]);
    assert(k != i);
    assert(run.take(i)[k] == run[k]);
}

/// An action that is only reached while there is time left.
pub open spec fn needs_time(action: StartAction) -> bool {
    match action {
        StartAction::ProbeNovnc => true,
        StartAction::ProbeVnc(_) => true,
        StartAction::ProbeDbus => true,
        StartAction::Pause => true,
        StartAction::WriteState => true,
        _ => false,
    }
}

proof fn lemma_no_time_step(plan: StartPlan, action: StartAction, event: StartEvent)
    requires
        plan.budget_secs == 0,
        start_answers(action, event),
        !needs_time(action),
    ensures
        !needs_time(start_step(plan, action, event)),
        start_step(plan, action, event) != StartAction::Started,
{
    if let StartEvent::Elapsed(nanos) = event {
        clock::law_no_time_is_up_at_once(nanos as nat);
    }
}

proof fn lemma_no_time_no_look(plan: StartPlan, run: Seq<(StartAction, StartEvent)>, i: int)
    requires
        is_start(plan, run),
        plan.budget_secs == 0,
        0 <= i < run.len(),
    ensures
        !needs_time(run[i].0),
    decreases i,
{
    if i == 0 {
        assert(run[0].0 == StartAction::EnsureDirs);
    } else {
        lemma_no_time_no_look(plan, run, i - 1);
        let (action, event) = run[i - 1];
        assert(start_answers(action, event));
        assert(run[i].0 == start_step(plan, action, event));
        lemma_no_time_step(plan, action, event);
    }
}

/// A start that is given no time looks at no port and no socket, writes no
/// session down, and does not succeed: the first look at the clock ends it.
pub proof fn law_no_time_starts_no_session(plan: StartPlan, run: Seq<(StartAction, StartEvent)>)
    requires
        is_start(plan, run),
        plan.budget_secs == 0,
    ensures
        forall|i: int| 0 <= i < run.len() ==> !needs_time((#[trigger] run[i]).0),
        start_due(plan, run) != StartAction::Started,
        run.len() > 0 && run.last().0 == StartAction::ReadClock ==> start_due(plan, run)
            == StartAction::Fail(StartFault::TimedOut),
{
    assert forall|i: int| 0 <= i < run.len() implies !needs_time((#[trigger] run[i]).0) by {
        lemma_no_time_no_look(plan, run, i);
    }
    if run.len() > 0 {
        let (action, event) = run[run.len() - 1];
        assert(start_answers(action, event));
        lemma_no_time_step(plan, action, event);
    }
}

/// Each round of looks begins with a look at the time, which was not up.
pub proof fn law_start_looks_while_there_is_time(
    plan: StartPlan,
    run: Seq<(StartAction, StartEvent)>,
    i: int,
)
    requires
        is_start(plan, run),
        0 <= i < run.len(),
        run[i].0 == StartAction::ProbeNovnc,
    ensures
        i >= 1,
        run[i - 1].0 == StartAction::ReadClock,
        !time_was_up(run[i - 1].1, plan.budget_secs),
{
    assert(run[i].0 == start_step(plan, run[i - 1].0, run[i - 1].1));
    assert(start_answers(run[i - 1].0, run[i - 1].1));
}

/// The pid that is written down for a component at its start is the one that a
/// teardown reads: from the same file, out of the same text.
pub proof fn law_teardown_finds_what_a_start_wrote(
    args: UpArgs,
    component: Component,
    pid: u32,
    display: Seq<char>,
)
    ensures
        match start_target_of(StartAction::WritePid(component, pid), args) {
            TargetView::File(path, contents) => {
                &&& teardown::down_target_of(DownAction::ReadPid(component), display) == TargetView::Path(
                    path,
                )
                &&& pidfile::pid_of_text(contents) == Ok::<Option<u32>, PidFileError>(Some(pid))
            },
            _ => false,
        },
{
    pidfile::law_pid_reads_back(seq![], pid, seq![]);
    assert(seq![] + text::decimal(pid as int) + seq![] == text::decimal(pid as int));
}

/// The check that a start makes asks for no running session: it comes to its end
/// without a look at one.
pub proof fn law_start_needs_no_session(
    args: UpArgs,
    check_ports: bool,
    run: Seq<(DoctorAction, DoctorEvent)>,
    i: int,
)
    requires
        start_target_of(StartAction::Doctor, args) == TargetView::Checkup(check_ports),
        doctor::is_checkup(check_ports, run),
        0 <= i < run.len(),
    ensures
        run[i].0 != DoctorAction::CheckSession,
{
    doctor::law_session_is_checked_where_asked(check_ports, run);
}

/// What a start writes down is the session that was asked for, at the place where a
/// teardown looks for it, and the programs that take part in it get its variables.
pub proof fn law_session_is_the_one_asked_for(
    args: UpArgs,
    state: SessionState,
    component: Component,
    display: Seq<char>,
)
    requires
        session::is_session_of(state, args),
    ensures
        match start_target_of(StartAction::WriteState, args) {
            TargetView::Session(path, session) => {
                &&& session == state@
                &&& teardown::down_target_of(DownAction::LoadState, display) == TargetView::Path(
                    path,
                )
            },
            _ => false,
        },
        match start_target_of(StartAction::Spawn(component), args) {
            TargetView::Program(_, _, _, joins, env) => joins ==> env == session::session_env(
                state,
            ),
            _ => false,
        },
{
}

/// The actions of a wait from its start.
pub open spec fn is_wait(
    display: Seq<char>,
    timeout_secs: u64,
    run: Seq<(WaitAction, WaitEvent)>,
) -> bool {
    &&& run.len() > 0 ==> run[0].0 == wait_first(display, timeout_secs)
    &&& forall|i: int, j: int|
        #![trigger run[i], run[j]]
        0 <= j < i < run.len() && i == j + 1 ==> run[i].0 == wait_step(run[j].0, run[j].1)
}

/// A wait keeps to the time that it was given at its start.
pub proof fn law_wait_keeps_its_timeout(
    display: Seq<char>,
    timeout_secs: u64,
    run: Seq<(WaitAction, WaitEvent)>,
    i: int,
)
    requires
        is_wait(display, timeout_secs, run),
        0 <= i < run.len(),
    ensures
        match run[i].0 {
            WaitAction::ReadClock(secs) => secs == timeout_secs,
            WaitAction::ProbeSocket(secs) => secs == timeout_secs,
            WaitAction::Pause(secs) => secs == timeout_secs,
            _ => true,
        },
    decreases i,
{
    if i > 0 {
        law_wait_keeps_its_timeout(display, timeout_secs, run, i - 1);
        assert(run[i].0 == wait_step(run[i - 1].0, run[i - 1].1));
    }
}

/// A wait that is given no time does not look at the socket, and so does not end
/// well.
pub proof fn law_no_time_means_no_look_at_the_display(
    display: Seq<char>,
    run: Seq<(WaitAction, WaitEvent)>,
    i: int,
)
    requires
        is_wait(display, 0, run),
        0 <= i < run.len(),
    ensures
        run[i].0 !is ProbeSocket,
        run[i].0 !is Pause,
        run[i].0 != WaitAction::Ready,
    decreases i,
{
    if i > 0 {
        law_no_time_means_no_look_at_the_display(display, run, i - 1);
        law_wait_keeps_its_timeout(display, 0, run, i - 1);
        assert(run[i].0 == wait_step(run[i - 1].0, run[i - 1].1));
    }
}

/// The wait for the X display ends well only where the socket was found to be there.
pub proof fn law_display_is_up(action: WaitAction, event: WaitEvent)
    requires
        action != WaitAction::Ready,
    ensures
        wait_step(action, event) == WaitAction::Ready <==> action is ProbeSocket && event
            == WaitEvent::Exists(true),
{
}

/// The time is looked at before the socket each time round, and a wait ends for
/// want of time exactly where as much has passed as was given.
pub proof fn law_wait_minds_the_time(action: WaitAction, event: WaitEvent, secs: u64, nanos: u128)
    ensures
        action !is ProbeSocket && wait_step(action, event) is ProbeSocket ==> action is ReadClock
            && event is Elapsed,
        wait_step(WaitAction::ReadClock(secs), WaitEvent::Elapsed(nanos)) == WaitAction::Fail(
            WaitFault::TimedOut,
        ) <==> clock::is_up(nanos as int, secs as int),
{
}

/// What came after the `i`th step of a run, or is due after it.
pub open spec fn start_after(
    plan: StartPlan,
    run: Seq<(StartAction, StartEvent)>,
    i: int,
) -> StartAction {
    if i + 1 < run.len() {
        run[i + 1].0
    } else {
        start_due(plan, run)
    }
}

proof fn lemma_start_after(plan: StartPlan, run: Seq<(StartAction, StartEvent)>, i: int)
    requires
        is_start(plan, run),
        0 <= i < run.len(),
    ensures
        start_answers(run[i].0, run[i].1),
        start_after(plan, run, i) == start_step(plan, run[i].0, run[i].1),
{
    if i + 1 < run.len() {
        assert(run[i + 1].0 == start_step(plan, run[i].0, run[i].1));
    }
}

/// The bridge is told to listen where a start looks for it, to lead to where a start looks
/// for the VNC server, and to serve the web root that a start checks: each as it was asked
/// for.
pub proof fn law_bridge_listens_where_it_is_looked_for(
    args: UpArgs,
    listening: bool,
    bridge: Target,
    novnc: Target,
    vnc: Target,
    root: Target,
    assets: Target,
)
    requires
        call_ensures(start_target, (StartAction::Spawn(Component::Websockify), &args), bridge),
        call_ensures(start_target, (StartAction::ProbeNovnc, &args), novnc),
        call_ensures(start_target, (StartAction::ProbeVnc(listening), &args), vnc),
        call_ensures(start_target, (StartAction::ProbeWebRoot, &args), root),
        call_ensures(start_target, (StartAction::CheckAssets, &args), assets),
    ensures
        match (bridge@, novnc@, vnc@, root@) {
            (
                TargetView::Program(_, _, words, _, _),
                TargetView::Port(host, port),
                TargetView::Port(vnc_host, vnc_port),
                TargetView::Path(web_root),
            ) => {
                &&& words.len() == 4
                &&& words[0] == "--web"@
                &&& words[1] == web_root
                &&& words[2] == host + seq![':'] + text::decimal(port as int)
                &&& words[3] == vnc_host + seq![':'] + text::decimal(vnc_port as int)
                &&& host == args.novnc_bind@ && port == args.novnc_port
                &&& vnc_host == args.vnc_bind@ && vnc_port == args.vnc_port
                &&& web_root == args.novnc_web_root@
            },
            _ => false,
        },
        assets@ == root@,
{
    session::law_host_and_port_show(args.novnc_bind@, args.novnc_port, args.novnc_port);
    session::law_host_and_port_show(args.vnc_bind@, args.vnc_port, args.vnc_port);
}

/// The VNC server is told the port that a start looks at, and shows the display that the X
/// server is started on and that a start waits for.
pub proof fn law_vnc_server_shows_the_display(
    args: UpArgs,
    listening: bool,
    server: Target,
    x: Target,
    wait: Target,
    vnc: Target,
)
    requires
        call_ensures(start_target, (StartAction::Spawn(Component::X11vnc), &args), server),
        call_ensures(start_target, (StartAction::Spawn(Component::Xvfb), &args), x),
        call_ensures(start_target, (StartAction::WaitDisplay, &args), wait),
        call_ensures(start_target, (StartAction::ProbeVnc(listening), &args), vnc),
    ensures
        match (server@, x@, wait@, vnc@) {
            (
                TargetView::Program(_, _, words, _, env),
                TargetView::Program(_, _, x_words, _, _),
                TargetView::Display(display, secs),
                TargetView::Port(_, port),
            ) => {
                &&& words.len() > 4
                &&& words[0] == "-display"@ && words[1] == display
                &&& words[2] == "-rfbport"@ && words[3] == text::decimal(port as int)
                &&& x_words.len() == 6 && x_words[0] == display
                &&& x_words[3] == args.res@ + seq!['x'] + text::decimal(args.depth as int)
                &&& display == args.display@
                &&& secs == 5
                &&& env.len() == 4 && env[0] == ("DISPLAY"@, display)
            },
            _ => false,
        },
{
    session::law_resolution_and_depth_show(args.res@, args.depth, args.depth);
}

/// The session bus is started at the socket that a start looks for, and the session that is
/// written down has it too.
pub proof fn law_bus_is_started_where_it_is_looked_for(
    args: UpArgs,
    bus: Target,
    socket: Target,
    written: Target,
)
    requires
        call_ensures(start_target, (StartAction::SpawnDbus, &args), bus),
        call_ensures(start_target, (StartAction::ProbeDbus, &args), socket),
        call_ensures(start_target, (StartAction::WriteState, &args), written),
    ensures
        match (bus@, socket@, written@) {
            (
                TargetView::Program(log, program, words, joins, env),
                TargetView::Path(path),
                TargetView::Session(file, session),
            ) => {
                &&& log == "dbus"@
                &&& program == "dbus-daemon"@
                &&& words == seq![
                    "--session"@,
                    "--fork"@,
                    "--address"@,
                    "unix:path="@ + path,
                    "--print-address"@,
                ]
                &&& !joins && env.len() == 0
                &&& path == "/run/qgui/dbus.sock"@
                &&& session.dbus_socket == path
                &&& session.dbus_addr == words[3]
                &&& file == "/run/qgui/session.json"@
            },
            _ => false,
        },
{
    paths::law_places();
}

/// The log of a program, its name, and whether it takes part in the session, for each
/// component.
pub proof fn law_programs_of_a_start(args: UpArgs, component: Component, r: Target)
    requires
        call_ensures(start_target, (StartAction::Spawn(component), &args), r),
    ensures
        match r@ {
            TargetView::Program(log, program, words, joins, env) => {
                &&& log == component.text()
                &&& program == doctor::binary_of(component).text()
                &&& joins <==> component == Component::Xfce || component == Component::X11vnc
                &&& !joins ==> env.len() == 0
                &&& joins ==> env == seq![
                    ("DISPLAY"@, args.display@),
                    ("DBUS_SESSION_BUS_ADDRESS"@, "unix:path="@ + "/run/qgui/dbus.sock"@),
                    ("XDG_RUNTIME_DIR"@, "/run/qgui/xdg-runtime"@),
                    ("QT_X11_NO_MITSHM"@, "1"@),
                ]
                &&& component == Component::Xfce ==> words.len() == 0
            },
            _ => false,
        },
{
    paths::law_places();
}

/// The session that is written down is the one that was asked for, and a look at it goes to
/// the very ports and the very socket that the start has looked at.
pub proof fn law_written_session_is_looked_at_alike(
    args: UpArgs,
    listening: bool,
    written: Target,
    state: SessionState,
    novnc: Target,
    vnc: Target,
    dbus: Target,
)
    requires
        call_ensures(start_target, (StartAction::WriteState, &args), written),
        written is Session,
        state == written->state,
        call_ensures(start_target, (StartAction::ProbeNovnc, &args), novnc),
        call_ensures(start_target, (StartAction::ProbeVnc(listening), &args), vnc),
        call_ensures(start_target, (StartAction::ProbeDbus, &args), dbus),
    ensures
        active::probe_target_of(SessionProbe::Novnc, state) == novnc@,
        active::probe_target_of(SessionProbe::Vnc, state) == vnc@,
        active::probe_target_of(SessionProbe::DbusSocket, state) == dbus@,
        state.display@ == args.display@,
        state.res@ == args.res@,
        state.depth == args.depth,
        state.novnc_web_root@ == args.novnc_web_root@,
{
}

/// The other files that a start is about: the directories that every command needs, what an
/// X server left behind on the display that was asked for, the runtime directory, and the
/// pid file of each component with the digits of its pid.
pub proof fn law_files_of_a_start(
    args: UpArgs,
    name: Seq<char>,
    component: Component,
    pid: u32,
    dirs: Target,
    check: Target,
    clear: Target,
    runtime: Target,
    file: Target,
    pause: Target,
)
    requires
        args.display@ == seq![':'] + name,
        call_ensures(start_target, (StartAction::EnsureDirs, &args), dirs),
        call_ensures(start_target, (StartAction::Doctor, &args), check),
        call_ensures(start_target, (StartAction::ClearArtifacts, &args), clear),
        call_ensures(start_target, (StartAction::SecureRuntimeDir, &args), runtime),
        call_ensures(start_target, (StartAction::WritePid(component, pid), &args), file),
        call_ensures(start_target, (StartAction::Pause, &args), pause),
    ensures
        dirs@ == TargetView::Dirs(
            seq!["/run/qgui"@, "/var/lib/qgui"@, "/var/lib/qgui/logs"@],
        ),
        check@ == TargetView::Checkup(false),
        clear@ == TargetView::Paths(
            seq!["/tmp/.X"@ + name + "-lock"@, "/tmp/.X11-unix/X"@ + name],
        ),
        runtime@ == TargetView::PrivateDir("/run/qgui/xdg-runtime"@, 0o700),
        file@ == TargetView::File(
            "/run/qgui/"@ + component.text() + ".pid"@,
            text::decimal(pid as int),
        ),
        pause@ == TargetView::Pause(200),
{
    paths::law_places();
    paths::law_files_of_a_display(name, seq![]);
    reveal_strlit("xvfb");
    reveal_strlit("xfce");
    reveal_strlit("x11vnc");
    reveal_strlit("websockify");
    assert(component.text()[0] != '/');
    paths::law_files_of_a_name(component.text());
}

/// A start on a display elsewhere removes nothing.
pub proof fn law_display_elsewhere_is_left_alone(args: UpArgs, clear: Target)
    requires
        args.display@.len() > 0 ==> args.display@[0] != ':',
        call_ensures(start_target, (StartAction::ClearArtifacts, &args), clear),
    ensures
        clear@ is Paths,
        clear@->Paths_0.len() == 0,
{
    paths::law_files_of_a_display(seq![], args.display@);
}

/// What a start goes by is what was asked for: its resolution counts as one exactly where it
/// is accepted, and it may take as long as was asked for.
pub proof fn law_plan_is_what_was_asked_for(
    args: UpArgs,
    res: &str,
    accepted: Result<(), BadResolution>,
)
    requires
        res@ == args.res@,
        call_ensures(validate_resolution, (res,), accepted),
    ensures
        plan_of(args).valid <==> accepted is Ok,
        plan_of(args).budget_secs == args.wait_ready_secs,
{
}

/// A start goes through its steps in one order: each one that succeeds leads to the next, and
/// the teardown of another session does so also where it fails.
pub proof fn law_start_goes_on(plan: StartPlan, run: Seq<(StartAction, StartEvent)>, i: int)
    requires
        is_start(plan, run),
        0 <= i < run.len(),
    ensures
        run[i] == (StartAction::EnsureDirs, StartEvent::Done) ==> start_after(plan, run, i)
            == if plan.valid {
            StartAction::Doctor
        } else {
            StartAction::Fail(StartFault::BadResolution)
        },
        run[i] == (StartAction::Doctor, StartEvent::Done) ==> start_after(plan, run, i)
            == StartAction::Down,
        run[i].0 == StartAction::Down ==> start_after(plan, run, i) == StartAction::ClearArtifacts,
        run[i].0 == StartAction::ClearArtifacts ==> start_after(plan, run, i)
            == StartAction::SecureRuntimeDir,
        run[i] == (StartAction::SecureRuntimeDir, StartEvent::Done) ==> start_after(plan, run, i)
            == StartAction::SpawnDbus,
        run[i].0 == StartAction::SpawnDbus && run[i].1 is Spawned ==> start_after(plan, run, i)
            == StartAction::Spawn(component::start_order()[0]),
        run[i] == (StartAction::WaitDisplay, StartEvent::Done) ==> start_after(plan, run, i)
            == StartAction::Spawn(component::start_order()[1]),
        run[i] == (StartAction::ProbeWebRoot, StartEvent::Exists(true)) ==> start_after(plan, run, i)
            == StartAction::CheckAssets,
        run[i] == (StartAction::ProbeWebRoot, StartEvent::Exists(false)) ==> start_after(
            plan,
            run,
            i,
        ) == StartAction::Fail(StartFault::WebRootNotFound),
        run[i] == (StartAction::CheckAssets, StartEvent::Done) ==> start_after(plan, run, i)
            == StartAction::Spawn(component::start_order()[3]),
        run[i] == (StartAction::WriteState, StartEvent::Done) ==> start_after(plan, run, i)
            == StartAction::Started,
{
    lemma_start_after(plan, run, i);
}

/// The pid that the start of a component gave is written down for it at once; behind that, a
/// start waits for the display after the X server, checks the web root after the VNC server,
/// and looks whether all is ready after the bridge.
pub proof fn law_pid_of_a_start_is_written_down(
    plan: StartPlan,
    run: Seq<(StartAction, StartEvent)>,
    i: int,
    component: Component,
    pid: u32,
)
    requires
        is_start(plan, run),
        0 <= i < run.len(),
    ensures
        run[i] == (StartAction::Spawn(component), StartEvent::Spawned(pid)) ==> start_after(
            plan,
            run,
            i,
        ) == StartAction::WritePid(component, pid),
        run[i] == (StartAction::WritePid(component, pid), StartEvent::Done) ==> start_after(
            plan,
            run,
            i,
        ) == match component {
            Component::Xvfb => StartAction::WaitDisplay,
            Component::Xfce => StartAction::Spawn(Component::X11vnc),
            Component::X11vnc => StartAction::ProbeWebRoot,
            Component::Websockify => StartAction::ReadClock,
        },
{
    lemma_start_after(plan, run, i);
}

/// While there is time, a start looks at noVNC, then at the VNC server, and where both listen
/// at the session bus. Where all is ready the session is written down, and otherwise the
/// start waits a moment and looks at the time again; it fails exactly where that is up.
pub proof fn law_start_waits_until_all_is_ready(
    plan: StartPlan,
    run: Seq<(StartAction, StartEvent)>,
    i: int,
    nanos: u128,
    novnc: bool,
    vnc: bool,
    dbus: bool,
)
    requires
        is_start(plan, run),
        0 <= i < run.len(),
    ensures
        run[i] == (StartAction::ReadClock, StartEvent::Elapsed(nanos)) ==> start_after(plan, run, i)
            == if nanos as int / 1_000_000_000 >= plan.budget_secs {
            StartAction::Fail(StartFault::TimedOut)
        } else {
            StartAction::ProbeNovnc
        },
        run[i] == (StartAction::ProbeNovnc, StartEvent::Listening(novnc)) ==> start_after(
            plan,
            run,
            i,
        ) == StartAction::ProbeVnc(novnc),
        run[i] == (StartAction::ProbeVnc(novnc), StartEvent::Listening(vnc)) ==> start_after(
            plan,
            run,
            i,
        ) == if novnc && vnc {
            StartAction::ProbeDbus
        } else {
            StartAction::Pause
        },
        run[i] == (StartAction::ProbeDbus, StartEvent::Exists(dbus)) ==> start_after(plan, run, i)
            == if dbus {
            StartAction::WriteState
        } else {
            StartAction::Pause
        },
        run[i].0 == StartAction::Pause ==> start_after(plan, run, i) == StartAction::ReadClock,
{
    lemma_start_after(plan, run, i);
}

/// The desktop, the VNC server and the bridge are started only once the display is up, and
/// the bridge only once the files that it serves are there; all of them after the session
/// bus.
pub proof fn law_programs_find_what_they_need(
    plan: StartPlan,
    run: Seq<(StartAction, StartEvent)>,
    i: int,
    component: Component,
)
    requires
        is_start(plan, run),
        0 <= i < run.len(),
        run[i].0 == StartAction::Spawn(component),
    ensures
        component != Component::Xvfb ==> is_done(run, StartAction::WaitDisplay),
        component == Component::Websockify ==> is_done(run, StartAction::CheckAssets),
        exists|k: int|
            0 <= k < i && (#[trigger] run[k]).0 == StartAction::SpawnDbus && run[k].1 is Spawned,
{
    if component != Component::Xvfb {
        lemma_start_gate(plan, run, StartAction::WaitDisplay, i);
    }
    if component == Component::Websockify {
        lemma_start_gate(plan, run, StartAction::CheckAssets, i);
    }
    lemma_bus_was_started(plan, run, i);
}

proof fn lemma_bus_was_started(plan: StartPlan, run: Seq<(StartAction, StartEvent)>, n: int)
    requires
        is_start(plan, run),
        0 <= n < run.len(),
        start_place(run[n].0) > 5,
    ensures
        exists|k: int|
            0 <= k < n && (#[trigger] run[k]).0 == StartAction::SpawnDbus && run[k].1 is Spawned,
    decreases n,
{
    if n == 0 {
        assert(run[0].0 == StartAction::EnsureDirs);
    } else {
        let (action, event) = run[n - 1];
        assert(run[n].0 == start_step(plan, action, event));
        assert(start_answers(action, event));
        assert(start_answers(run[n].0, run[n].1));
        if start_place(action) > 5 {
            lemma_bus_was_started(plan, run, n - 1);
        } else {
            assert(run[n - 1].0 == StartAction::SpawnDbus);
        }
    }
}

/// What can come of each step, and that nothing else moves a start.
pub proof fn law_what_moves_a_start(
    args: UpArgs,
    action: StartAction,
    event: StartEvent,
    pid: u32,
    yes: bool,
    nanos: u128,
    r: StartAction,
)
    requires
        call_ensures(start_next, (&args, action, event), r),
    ensures
        action is EnsureDirs || action is Doctor || action is Down || action is SecureRuntimeDir
            || action is WritePid || action is WaitDisplay || action is CheckAssets || action
            is WriteState ==> start_answers(action, StartEvent::Done) && start_answers(
            action,
            StartEvent::Failed,
        ) && (start_answers(action, event) ==> event is Done || event is Failed),
        action is SpawnDbus || action is Spawn ==> start_answers(action, StartEvent::Spawned(pid))
            && start_answers(action, StartEvent::Failed) && (start_answers(action, event) ==> event
            is Spawned || event is Failed),
        action is ClearArtifacts || action is Pause ==> start_answers(action, StartEvent::Done) && (
        start_answers(action, event) ==> event is Done),
        action is ProbeWebRoot || action is ProbeDbus ==> start_answers(
            action,
            StartEvent::Exists(yes),
        ) && (start_answers(action, event) ==> event is Exists),
        action is ProbeNovnc || action is ProbeVnc ==> start_answers(
            action,
            StartEvent::Listening(yes),
        ) && (start_answers(action, event) ==> event is Listening),
        action is ReadClock ==> start_answers(action, StartEvent::Elapsed(nanos)) && (
        start_answers(action, event) ==> event is Elapsed),
        action is Started || action is GiveUp || action is Fail ==> !start_answers(action, event),
        !start_answers(action, event) ==> r == action,
        r == start_step(plan_of(args), action, event),
{
}

/// Why a start failed is said in words: with the web root that was asked for, or with the
/// addresses and ports that were looked at.
pub proof fn law_words_of_a_start(
    args: UpArgs,
    listening: bool,
    bad: String,
    root: String,
    late: String,
    novnc: Target,
    vnc: Target,
    first: StartAction,
)
    requires
        call_ensures(StartFault::message, (StartFault::BadResolution, &args), bad),
        call_ensures(StartFault::message, (StartFault::WebRootNotFound, &args), root),
        call_ensures(StartFault::message, (StartFault::TimedOut, &args), late),
        call_ensures(start_target, (StartAction::ProbeNovnc, &args), novnc),
        call_ensures(start_target, (StartAction::ProbeVnc(listening), &args), vnc),
        call_ensures(start_begin, (), first),
    ensures
        bad@ == "resolution must be WIDTHxHEIGHT"@,
        root@ == "noVNC web root not found at "@ + args.novnc_web_root@ + " (expected vnc.html)"@,
        match (novnc@, vnc@) {
            (TargetView::Port(host, port), TargetView::Port(vnc_host, vnc_port)) => late@
                == "qgui up: timed out waiting for full GUI readiness on noVNC "@ + (host
                + seq![':'] + text::decimal(port as int)) + " and VNC "@ + (vnc_host + seq![':']
                + text::decimal(vnc_port as int)),
            _ => false,
        },
        first == StartAction::EnsureDirs,
{
    session::law_host_and_port_show(args.novnc_bind@, args.novnc_port, args.novnc_port);
    session::law_host_and_port_show(args.vnc_bind@, args.vnc_port, args.vnc_port);
}

/// A wait begins with a look at the time where the display is on this machine, and is
/// refused where it is not. Both the refusal and the end of the time name the display.
pub proof fn law_wait_begins(
    display: &str,
    timeout_secs: u64,
    r: WaitAction,
    invalid: String,
    late: String,
)
    requires
        call_ensures(wait_for_display_ready, (display, timeout_secs), r),
        call_ensures(WaitFault::message, (WaitFault::InvalidDisplay, display), invalid),
        call_ensures(WaitFault::message, (WaitFault::TimedOut, display), late),
    ensures
        display@.len() > 0 && display@[0] == ':' ==> r == WaitAction::ReadClock(timeout_secs),
        display@.len() == 0 || display@[0] != ':' ==> r == WaitAction::Fail(
            WaitFault::InvalidDisplay,
        ),
        invalid@ == "invalid X display '"@ + display@ + "'"@,
        late@ == "timed out waiting for X display "@ + display@ + " to become ready"@,
{
    paths::law_lock_and_socket_together(display@);
}

/// While there is time the socket is looked for; a display whose socket is there is up, and
/// otherwise the wait goes on after a moment. Nothing else moves a wait.
pub proof fn law_wait_goes_on(
    secs: u64,
    nanos: u128,
    there: bool,
    action: WaitAction,
    event: WaitEvent,
    clock: WaitAction,
    socket: WaitAction,
    pause: WaitAction,
    other: WaitAction,
)
    requires
        call_ensures(wait_next, (WaitAction::ReadClock(secs), WaitEvent::Elapsed(nanos)), clock),
        call_ensures(wait_next, (WaitAction::ProbeSocket(secs), WaitEvent::Exists(there)), socket),
        call_ensures(wait_next, (WaitAction::Pause(secs), WaitEvent::Done), pause),
        call_ensures(wait_next, (action, event), other),
    ensures
        nanos as int / 1_000_000_000 >= secs <==> clock == WaitAction::Fail(WaitFault::TimedOut),
        nanos as int / 1_000_000_000 < secs <==> clock == WaitAction::ProbeSocket(secs),
        there ==> socket == WaitAction::Ready,
        !there ==> socket == WaitAction::Pause(secs),
        pause == WaitAction::ReadClock(secs),
        !(action is ReadClock && event is Elapsed) && !(action is ProbeSocket && event is Exists)
            && !(action is Pause && event is Done) ==> other == action,
{
}

/// A wait looks for the socket that a teardown of the same display looks for, every fifth of
/// a second.
pub proof fn law_wait_looks_for_the_socket(
    display: &str,
    name: Seq<char>,
    secs: u64,
    socket: Target,
    pause: Target,
)
    requires
        display@ == seq![':'] + name,
        call_ensures(wait_target, (WaitAction::ProbeSocket(secs), display), socket),
        call_ensures(wait_target, (WaitAction::Pause(secs), display), pause),
    ensures
        socket@ == TargetView::Path("/tmp/.X11-unix/X"@ + name),
        socket@ == teardown::down_target_of(DownAction::ProbeSocket, display@),
        pause@ == TargetView::Pause(200),
        CONNECT_MILLIS == 200,
{
    paths::law_files_of_a_display(name, seq![]);
}

/// What each action is about is known from the action and what was asked for, and the
/// actions of the other sequences are told what they are about in the same way.
pub proof fn law_actions_are_told_what_they_are_about(
    args: UpArgs,
    display: &str,
    web_root: &str,
    start: StartAction,
    wait: WaitAction,
    down: DownAction,
    check: DoctorAction,
    of_start: Target,
    of_wait: Target,
    of_down: Target,
    of_check: Target,
    nothing: Target,
)
    requires
        call_ensures(start_target, (start, &args), of_start),
        call_ensures(wait_target, (wait, display), of_wait),
        call_ensures(down_target, (down, display), of_down),
        call_ensures(doctor_target, (check, web_root), of_check),
        call_ensures(wait_target, (WaitAction::ProbeSocket(0), display), nothing),
    ensures
        of_start@ == start_target_of(start, args),
        of_wait@ == wait_target_of(wait, display@),
        of_down@ == teardown::down_target_of(down, display@),
        of_check@ == doctor::doctor_target_of(check, web_root@),
        nothing@ == teardown::down_target_of(DownAction::ProbeSocket, display@),
        start is Down || start is ReadClock || start is Started || start is GiveUp || start is Fail
            ==> of_start@ is Nothing,
        wait is ReadClock || wait is Ready || wait is Fail ==> of_wait@ is Nothing,
        down is Stopped || down is GiveUp ==> of_down@ is Nothing,
        check is ReadFdLimit || check is CheckSession || check is Passed || check is GiveUp
            || check is Fail ==> of_check@ is Nothing,
{
}

} // verus!
