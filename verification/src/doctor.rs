//! What has to be in place before a session can start, and how that is checked.
//!
//! A check is a sequence of actions. Each action is performed outside, and what
//! came of it is handed to [`doctor_next`], which names the next one.

use vstd::prelude::*;

use crate::command;
use crate::component::Component;
use crate::paths;
use crate::paths::{
    base_dirs, display_lock_path, display_socket_path, xdg_runtime_path, RUNTIME_DIR_MODE, RUN_DIR,
};
use crate::session;
use crate::session::{UpArgs, DEFAULT_DISPLAY, DEFAULT_NOVNC_WEB_ROOT};
use crate::target::{Target, TargetView};
use crate::text;
use crate::text::decimal_text;

verus! {

/// How many files a process has to be allowed to open.
pub const MIN_FD_LIMIT: u64 = 4096;

/// A program that has to be there.
#[derive(Clone, Copy, Debug, PartialEq, Eq, Structural)]
pub enum Binary {
    /// The X server.
    Xvfb,
    /// The desktop.
    Xfce4Session,
    /// The VNC server.
    X11vnc,
    /// The bridge between the browser and the VNC server.
    Websockify,
    /// The session bus.
    DbusDaemon,
    /// The database of X resources.
    Xrdb,
    /// The keys to X displays.
    Xauth,
    /// The background of the screen.
    Xsetroot,
}

/// The programs in the order in which they are looked for.
pub open spec fn binaries() -> Seq<Binary> {
    seq![
        Binary::Xvfb,
        Binary::Xfce4Session,
        Binary::X11vnc,
        Binary::Websockify,
        Binary::DbusDaemon,
        Binary::Xrdb,
        Binary::Xauth,
        Binary::Xsetroot,
    ]
}

impl Binary {
    /// What the program is called.
    pub open spec fn text(self) -> Seq<char> {
        match self {
            Binary::Xvfb => "Xvfb"@,
            Binary::Xfce4Session => "xfce4-session"@,
            Binary::X11vnc => "x11vnc"@,
            Binary::Websockify => "websockify"@,
            Binary::DbusDaemon => "dbus-daemon"@,
            Binary::Xrdb => "xrdb"@,
            Binary::Xauth => "xauth"@,
            Binary::Xsetroot => "xsetroot"@,
        }
    }

    /// What the program is called.
    pub fn name(self) -> (r: &'static str)
        ensures
            r@ == self.text(),
    {
        match self {
            Binary::Xvfb => "Xvfb",
            Binary::Xfce4Session => "xfce4-session",
            Binary::X11vnc => "x11vnc",
            Binary::Websockify => "websockify",
            Binary::DbusDaemon => "dbus-daemon",
            Binary::Xrdb => "xrdb",
            Binary::Xauth => "xauth",
            Binary::Xsetroot => "xsetroot",
        }
    }

    /// The place of the program in the order of the search.
    pub open spec fn place(self) -> int {
        match self {
            Binary::Xvfb => 0,
            Binary::Xfce4Session => 1,
            Binary::X11vnc => 2,
            Binary::Websockify => 3,
            Binary::DbusDaemon => 4,
            Binary::Xrdb => 5,
            Binary::Xauth => 6,
            Binary::Xsetroot => 7,
        }
    }

    /// The program that is looked for after this one.
    fn following(self) -> (r: Option<Binary>)
        ensures
            r == binary_after(self),
    {
        match self {
            Binary::Xvfb => Some(Binary::Xfce4Session),
            Binary::Xfce4Session => Some(Binary::X11vnc),
            Binary::X11vnc => Some(Binary::Websockify),
            Binary::Websockify => Some(Binary::DbusDaemon),
            Binary::DbusDaemon => Some(Binary::Xrdb),
            Binary::Xrdb => Some(Binary::Xauth),
            Binary::Xauth => Some(Binary::Xsetroot),
            Binary::Xsetroot => None,
        }
    }
}

/// The program that is looked for after `binary`.
pub open spec fn binary_after(binary: Binary) -> Option<Binary> {
    if binary.place() + 1 < binaries().len() {
        Some(binaries()[binary.place() + 1])
    } else {
        None
    }
}

/// A step of the check.
#[derive(Clone, Copy, Debug, PartialEq, Eq, Structural)]
pub enum DoctorAction {
    /// Make the directories that every command needs.
    EnsureDirs,
    /// Look for a program.
    FindBinary(Binary),
    /// Read how many files may be open.
    ReadFdLimit,
    /// Make the run directory one that only its owner may use.
    SecureRunDir,
    /// Make the runtime directory of the session one that only its owner may use.
    SecureRuntimeDir,
    /// Check the files of the noVNC client in their usual place.
    CheckAssets,
    /// See whether the lock of the usual display is there.
    ProbeLock,
    /// See whether the socket of the usual display is there.
    ProbeSocket,
    /// Check that a session runs and can be used.
    CheckSession,
    /// See whether the web root of the session is there.
    ProbeWebRoot,
    /// All is in place.
    Passed,
    /// Give up with the error of the step before.
    GiveUp,
    /// Give up with this error.
    Fail(DoctorFault),
}

/// What is not in place.
#[derive(Clone, Copy, Debug, PartialEq, Eq, Structural)]
pub enum DoctorFault {
    /// A program was not found.
    MissingBinary(Binary),
    /// Too few files may be open.
    LowFdLimit(u64),
    /// The lock of the usual display is there, and its socket is not.
    StaleLock,
    /// The web root of the session is not there.
    WebRootMissing,
}

/// What came of a step.
#[derive(Clone, Copy, Debug, PartialEq, Eq, Structural)]
pub enum DoctorEvent {
    /// It was done.
    Done,
    /// It could not be done.
    Failed,
    /// How many files may be open.
    FdLimit(u64),
    /// Whether the file is there.
    Exists(bool),
}

/// `event` is something that can come of `action`.
pub open spec fn doctor_answers(action: DoctorAction, event: DoctorEvent) -> bool {
    match action {
        DoctorAction::EnsureDirs => event is Done || event is Failed,
        DoctorAction::FindBinary(_) => event is Done || event is Failed,
        DoctorAction::ReadFdLimit => event is FdLimit || event is Failed,
        DoctorAction::SecureRunDir => event is Done || event is Failed,
        DoctorAction::SecureRuntimeDir => event is Done || event is Failed,
        DoctorAction::CheckAssets => event is Done || event is Failed,
        DoctorAction::ProbeLock => event is Exists,
        DoctorAction::ProbeSocket => event is Exists,
        DoctorAction::CheckSession => event is Done || event is Failed,
        DoctorAction::ProbeWebRoot => event is Exists,
        DoctorAction::Passed => false,
        DoctorAction::GiveUp => false,
        DoctorAction::Fail(_) => false,
    }
}

/// What follows once no stale lock is in the way.
pub open spec fn after_lock(check_ports: bool) -> DoctorAction {
    if check_ports {
        DoctorAction::CheckSession
    } else {
        DoctorAction::Passed
    }
}

/// What follows an action, given what came of it; `check_ports` says whether a
/// running session is checked too. An event that cannot come of the action
/// leaves it pending.
pub open spec fn doctor_step(
    check_ports: bool,
    action: DoctorAction,
    event: DoctorEvent,
) -> DoctorAction {
    if !doctor_answers(action, event) {
        action
    } else {
        match action {
            DoctorAction::FindBinary(b) => if event is Failed {
                DoctorAction::Fail(DoctorFault::MissingBinary(b))
            } else {
                match binary_after(b) {
                    Some(next) => DoctorAction::FindBinary(next),
                    None => DoctorAction::ReadFdLimit,
                }
            },
            DoctorAction::ProbeLock => if event == DoctorEvent::Exists(true) {
                DoctorAction::ProbeSocket
            } else {
                after_lock(check_ports)
            },
            DoctorAction::ProbeSocket => if event == DoctorEvent::Exists(false) {
                DoctorAction::Fail(DoctorFault::StaleLock)
            } else {
                after_lock(check_ports)
            },
            DoctorAction::ProbeWebRoot => if event == DoctorEvent::Exists(false) {
                DoctorAction::Fail(DoctorFault::WebRootMissing)
            } else {
                DoctorAction::Passed
            },
            _ => match event {
                DoctorEvent::Failed => DoctorAction::GiveUp,
                DoctorEvent::FdLimit(limit) => if limit < MIN_FD_LIMIT {
                    DoctorAction::Fail(DoctorFault::LowFdLimit(limit))
                } else {
                    DoctorAction::SecureRunDir
                },
                _ => match action {
                    DoctorAction::EnsureDirs => DoctorAction::FindBinary(Binary::Xvfb),
                    DoctorAction::SecureRunDir => DoctorAction::SecureRuntimeDir,
                    DoctorAction::SecureRuntimeDir => DoctorAction::CheckAssets,
                    DoctorAction::CheckAssets => DoctorAction::ProbeLock,
                    DoctorAction::CheckSession => DoctorAction::ProbeWebRoot,
                    _ => action,
                },
            },
        }
    }
}

/// The first action of the check.
pub fn doctor_begin() -> (r: DoctorAction)
    ensures
        r == DoctorAction::EnsureDirs,
{
    DoctorAction::EnsureDirs
}

fn after_lock_exec(check_ports: bool) -> (r: DoctorAction)
    ensures
        r == after_lock(check_ports),
{
    if check_ports {
        DoctorAction::CheckSession
    } else {
        DoctorAction::Passed
    }
}

/// The action that follows `action`, given what came of it.
pub fn doctor_next(check_ports: bool, action: DoctorAction, event: DoctorEvent) -> (r: DoctorAction)
    ensures
        r == doctor_step(check_ports, action, event),
{
    match (action, event) {
        (DoctorAction::EnsureDirs, DoctorEvent::Done) => DoctorAction::FindBinary(Binary::Xvfb),
        (DoctorAction::FindBinary(b), DoctorEvent::Done) => match b.following() {
            Some(next) => DoctorAction::FindBinary(next),
            None => DoctorAction::ReadFdLimit,
        },
        (DoctorAction::FindBinary(b), DoctorEvent::Failed) => DoctorAction::Fail(
            DoctorFault::MissingBinary(b),
        ),
        (DoctorAction::ReadFdLimit, DoctorEvent::FdLimit(limit)) => if limit < MIN_FD_LIMIT {
            DoctorAction::Fail(DoctorFault::LowFdLimit(limit))
        } else {
            DoctorAction::SecureRunDir
        },
        (DoctorAction::SecureRunDir, DoctorEvent::Done) => DoctorAction::SecureRuntimeDir,
        (DoctorAction::SecureRuntimeDir, DoctorEvent::Done) => DoctorAction::CheckAssets,
        (DoctorAction::CheckAssets, DoctorEvent::Done) => DoctorAction::ProbeLock,
        (DoctorAction::ProbeLock, DoctorEvent::Exists(exists)) => if exists {
            DoctorAction::ProbeSocket
        } else {
            after_lock_exec(check_ports)
        },
        (DoctorAction::ProbeSocket, DoctorEvent::Exists(exists)) => if exists {
            after_lock_exec(check_ports)
        } else {
            DoctorAction::Fail(DoctorFault::StaleLock)
        },
        (DoctorAction::CheckSession, DoctorEvent::Done) => DoctorAction::ProbeWebRoot,
        (DoctorAction::ProbeWebRoot, DoctorEvent::Exists(exists)) => if exists {
            DoctorAction::Passed
        } else {
            DoctorAction::Fail(DoctorFault::WebRootMissing)
        },
        (
            DoctorAction::EnsureDirs
            | DoctorAction::ReadFdLimit
            | DoctorAction::SecureRunDir
            | DoctorAction::SecureRuntimeDir
            | DoctorAction::CheckAssets
            | DoctorAction::CheckSession,
            DoctorEvent::Failed,
        ) => DoctorAction::GiveUp,
        _ => action,
    }
}

/// The lock of the usual display.
pub open spec fn default_lock_text() -> Seq<char> {
    match paths::lock_path_text(DEFAULT_DISPLAY@) {
        Some(path) => path,
        None => seq![],
    }
}

/// The lock of the usual display.
pub fn default_lock_path() -> (r: String)
    ensures
        r@ == default_lock_text(),
{
    match display_lock_path(DEFAULT_DISPLAY) {
        Some(path) => path,
        None => String::new(),
    }
}

/// The socket of the usual display.
pub open spec fn default_socket_text() -> Seq<char> {
    match paths::socket_path_text(DEFAULT_DISPLAY@) {
        Some(path) => path,
        None => seq![],
    }
}

/// The socket of the usual display.
pub fn default_socket_path() -> (r: String)
    ensures
        r@ == default_socket_text(),
{
    match display_socket_path(DEFAULT_DISPLAY) {
        Some(path) => path,
        None => String::new(),
    }
}

/// What an action is about; `web_root` is that of the session.
pub open spec fn doctor_target_of(action: DoctorAction, web_root: Seq<char>) -> TargetView {
    match action {
        DoctorAction::EnsureDirs => TargetView::Dirs(paths::base_dir_texts()),
        DoctorAction::FindBinary(b) => TargetView::Search(b.text()),
        DoctorAction::ReadFdLimit => TargetView::Nothing,
        DoctorAction::SecureRunDir => TargetView::PrivateDir(paths::RUN_DIR@, RUNTIME_DIR_MODE),
        DoctorAction::SecureRuntimeDir => TargetView::PrivateDir(
            paths::xdg_runtime_text(),
            RUNTIME_DIR_MODE,
        ),
        DoctorAction::CheckAssets => TargetView::Path(DEFAULT_NOVNC_WEB_ROOT@),
        DoctorAction::ProbeLock => TargetView::Path(default_lock_text()),
        DoctorAction::ProbeSocket => TargetView::Path(default_socket_text()),
        DoctorAction::CheckSession => TargetView::Nothing,
        DoctorAction::ProbeWebRoot => TargetView::Path(web_root),
        DoctorAction::Passed => TargetView::Nothing,
        DoctorAction::GiveUp => TargetView::Nothing,
        DoctorAction::Fail(_) => TargetView::Nothing,
    }
}

/// What an action is about; `web_root` is that of the session.
pub fn doctor_target(action: DoctorAction, web_root: &str) -> (r: Target)
    ensures
        r@ == doctor_target_of(action, web_root@),
{
    match action {
        DoctorAction::EnsureDirs => Target::Dirs(base_dirs()),
        DoctorAction::FindBinary(b) => Target::Search(b.name()),
        DoctorAction::ReadFdLimit => Target::Nothing,
        DoctorAction::SecureRunDir => Target::PrivateDir {
            path: RUN_DIR.to_string(),
            mode: RUNTIME_DIR_MODE,
        },
        DoctorAction::SecureRuntimeDir => Target::PrivateDir {
            path: xdg_runtime_path(),
            mode: RUNTIME_DIR_MODE,
        },
        DoctorAction::CheckAssets => Target::Path(DEFAULT_NOVNC_WEB_ROOT.to_string()),
        DoctorAction::ProbeLock => Target::Path(default_lock_path()),
        DoctorAction::ProbeSocket => Target::Path(default_socket_path()),
        DoctorAction::CheckSession => Target::Nothing,
        DoctorAction::ProbeWebRoot => Target::Path(web_root.to_string()),
        DoctorAction::Passed => Target::Nothing,
        DoctorAction::GiveUp => Target::Nothing,
        DoctorAction::Fail(_) => Target::Nothing,
    }
}

impl DoctorFault {
    /// The fault in words; `web_root` is that of the session.
    pub open spec fn text(self, web_root: Seq<char>) -> Seq<char> {
        match self {
            DoctorFault::MissingBinary(b) => "missing required binary: "@ + b.text(),
            DoctorFault::LowFdLimit(limit) => "RLIMIT_NOFILE is too low for GUI workloads: "@
                + text::decimal(limit as int) + " (need >= 4096)"@,
            DoctorFault::StaleLock => "stale X lock detected at "@ + default_lock_text()
                + " without a matching X socket; run `qgui down` or remove it"@,
            DoctorFault::WebRootMissing => "noVNC web root missing at "@ + web_root,
        }
    }

    /// The fault in words; `web_root` is that of the session.
    pub fn message(self, web_root: &str) -> (m: String)
        ensures
            m@ == self.text(web_root@),
    {
        match self {
            DoctorFault::MissingBinary(b) => "missing required binary: ".to_string().concat(
                b.name(),
            ),
            DoctorFault::LowFdLimit(limit) => {
                "RLIMIT_NOFILE is too low for GUI workloads: ".to_string().concat(
                    decimal_text(limit).as_str(),
                ).concat(" (need >= 4096)")
            },
            DoctorFault::StaleLock => {
                "stale X lock detected at ".to_string().concat(default_lock_path().as_str()).concat(
                " without a matching X socket; run `qgui down` or remove it")
            },
            DoctorFault::WebRootMissing => "noVNC web root missing at ".to_string().concat(
                web_root,
            ),
        }
    }
}

/// Whether a check that is asked for by itself looks at the running session too.
pub const CHECK_PORTS: bool = true;

/// What is printed where all is in place.
pub fn doctor_ok_message() -> (m: &'static str)
    ensures
        m@ == "qgui: doctor ok"@,
{
    "qgui: doctor ok"
}

// ---------------------------------------------------------------------------
// Laws
// ---------------------------------------------------------------------------

/// The actions of a check from its start, each with what came of it.
pub open spec fn is_checkup(check_ports: bool, run: Seq<(DoctorAction, DoctorEvent)>) -> bool {
    &&& run.len() > 0 ==> run[0].0 == DoctorAction::EnsureDirs
    &&& forall|i: int| 0 <= i < run.len() ==> doctor_answers((#[trigger] run[i]).0, run[i].1)
    &&& forall|i: int, j: int|
        #![trigger run[i], run[j]]
        0 <= j < i < run.len() && i == j + 1 ==> run[i].0 == doctor_step(check_ports, run[j].0, run[j].1)
}

/// The action that is due after a run.
pub open spec fn doctor_due(
    check_ports: bool,
    run: Seq<(DoctorAction, DoctorEvent)>,
) -> DoctorAction {
    if run.len() == 0 {
        DoctorAction::EnsureDirs
    } else {
        doctor_step(check_ports, run.last().0, run.last().1)
    }
}

/// The place of an action in a check.
pub open spec fn doctor_place(action: DoctorAction) -> int {
    match action {
        DoctorAction::EnsureDirs => 0,
        DoctorAction::FindBinary(b) => 1 + b.place(),
        DoctorAction::ReadFdLimit => 9,
        DoctorAction::SecureRunDir => 10,
        DoctorAction::SecureRuntimeDir => 11,
        DoctorAction::CheckAssets => 12,
        DoctorAction::ProbeLock => 13,
        DoctorAction::ProbeSocket => 14,
        DoctorAction::CheckSession => 15,
        DoctorAction::ProbeWebRoot => 16,
        DoctorAction::Passed => 17,
        DoctorAction::GiveUp => 17,
        DoctorAction::Fail(_) => 17,
    }
}

/// The place of a program is the one it has in the order of the search.
pub proof fn law_binary_place(binary: Binary)
    ensures
        0 <= binary.place() < binaries().len(),
        binaries()[binary.place()] == binary,
{
}

/// Each step of a check leads forward.
proof fn lemma_doctor_forward(check_ports: bool, action: DoctorAction, event: DoctorEvent)
    requires
        doctor_answers(action, event),
    ensures
        doctor_place(action) < doctor_place(doctor_step(check_ports, action, event)) <= 17,
{
    if let DoctorAction::FindBinary(b) = action {
        law_binary_place(b);
        if binary_after(b) is Some {
            assert(binaries()[b.place() + 1].place() == b.place() + 1);
        }
    }
}

/// A check ends after at most seventeen steps.
pub proof fn law_checkup_ends(check_ports: bool, run: Seq<(DoctorAction, DoctorEvent)>)
    requires
        is_checkup(check_ports, run),
    ensures
        run.len() <= 17,
{
    if run.len() > 0 {
        let n = run.len() - 1;
        lemma_doctor_place_grows(check_ports, run, n);
        assert(doctor_answers(run[n].0, run[n].1));
        lemma_doctor_forward(check_ports, run[n].0, run[n].1);
    }
}

proof fn lemma_doctor_place_grows(
    check_ports: bool,
    run: Seq<(DoctorAction, DoctorEvent)>,
    i: int,
)
    requires
        is_checkup(check_ports, run),
        0 <= i < run.len(),
    ensures
        doctor_place(run[i].0) >= i,
    decreases i,
{
    if i > 0 {
        lemma_doctor_place_grows(check_ports, run, i - 1);
        assert(doctor_answers(run[i - 1].0, run[i - 1].1));
        lemma_doctor_forward(check_ports, run[i - 1].0, run[i - 1].1);
        assert(run[i].0 == doctor_step(check_ports, run[i - 1].0, run[i - 1].1));
    }
}

/// `action` came out as `event` in a run.
pub open spec fn came_out(
    run: Seq<(DoctorAction, DoctorEvent)>,
    action: DoctorAction,
    event: DoctorEvent,
) -> bool {
    exists|i: int| 0 <= i < run.len() && #[trigger] run[i] == (action, event)
}

/// Enough files may be open, as a run has found.
pub open spec fn enough_files(run: Seq<(DoctorAction, DoctorEvent)>) -> bool {
    exists|i: int|
        0 <= i < run.len() && (#[trigger] run[i]).0 == DoctorAction::ReadFdLimit && (
        run[i].1 matches DoctorEvent::FdLimit(limit) && limit >= MIN_FD_LIMIT)
}

/// A step that a check cannot go past without success.
pub open spec fn is_gate(action: DoctorAction) -> bool {
    match action {
        DoctorAction::EnsureDirs => true,
        DoctorAction::FindBinary(_) => true,
        DoctorAction::SecureRunDir => true,
        DoctorAction::SecureRuntimeDir => true,
        DoctorAction::CheckAssets => true,
        _ => false,
    }
}

proof fn lemma_gate_was_passed(
    check_ports: bool,
    run: Seq<(DoctorAction, DoctorEvent)>,
    gate: DoctorAction,
    n: int,
)
    requires
        is_checkup(check_ports, run),
        0 <= n < run.len(),
        is_gate(gate),
        doctor_place(gate) < doctor_place(run[n].0),
    ensures
        came_out(run, gate, DoctorEvent::Done),
    decreases n,
{
    if n == 0 {
        assert(run[0].0 == DoctorAction::EnsureDirs);
        if let DoctorAction::FindBinary(b) = gate {
            law_binary_place(b);
        }
    } else {
        let (action, event) = run[n - 1];
        assert(run[n].0 == doctor_step(check_ports, action, event));
        assert(doctor_answers(action, event));
        assert(doctor_answers(run[n].0, run[n].1));
        if doctor_place(gate) < doctor_place(action) {
            lemma_gate_was_passed(check_ports, run, gate, n - 1);
        } else {
            if let DoctorAction::FindBinary(b) = action {
                law_binary_place(b);
                if let Some(next) = binary_after(b) {
                    assert(next.place() == b.place() + 1);
                }
            }
            if let DoctorAction::FindBinary(g) = gate {
                law_binary_place(g);
            }
            assert(action == gate);
            assert(run[n - 1] == (gate, DoctorEvent::Done));
        }
    }
}

proof fn lemma_enough_files(
    check_ports: bool,
    run: Seq<(DoctorAction, DoctorEvent)>,
    n: int,
)
    requires
        is_checkup(check_ports, run),
        0 <= n < run.len(),
        9 < doctor_place(run[n].0),
    ensures
        enough_files(run),
    decreases n,
{
    if n == 0 {
        assert(run[0].0 == DoctorAction::EnsureDirs);
    } else {
        let (action, event) = run[n - 1];
        assert(run[n].0 == doctor_step(check_ports, action, event));
        assert(doctor_answers(action, event));
        assert(doctor_answers(run[n].0, run[n].1));
        if 9 < doctor_place(action) {
            lemma_enough_files(check_ports, run, n - 1);
        } else {
            if let DoctorAction::FindBinary(b) = action {
                law_binary_place(b);
                if let Some(next) = binary_after(b) {
                    law_binary_place(next);
                }
            }
            assert(action == DoctorAction::ReadFdLimit);
            assert(run[n - 1].0 == DoctorAction::ReadFdLimit);
        }
    }
}

/// A check that passes has made the directories, found every program, found
/// that enough files may be open, and found the files of the noVNC client.
pub proof fn law_passed_means_in_place(
    check_ports: bool,
    run: Seq<(DoctorAction, DoctorEvent)>,
)
    requires
        is_checkup(check_ports, run),
        doctor_due(check_ports, run) == DoctorAction::Passed,
    ensures
        came_out(run, DoctorAction::EnsureDirs, DoctorEvent::Done),
        forall|b: Binary| came_out(run, DoctorAction::FindBinary(b), DoctorEvent::Done),
        enough_files(run),
        came_out(run, DoctorAction::SecureRunDir, DoctorEvent::Done),
        came_out(run, DoctorAction::SecureRuntimeDir, DoctorEvent::Done),
        came_out(run, DoctorAction::CheckAssets, DoctorEvent::Done),
{
    let n = run.len() - 1;
    assert(doctor_answers(run[n].0, run[n].1));
    assert(doctor_place(run[n].0) >= 13);
    lemma_gate_was_passed(check_ports, run, DoctorAction::EnsureDirs, n);
    lemma_gate_was_passed(check_ports, run, DoctorAction::SecureRunDir, n);
    lemma_gate_was_passed(check_ports, run, DoctorAction::SecureRuntimeDir, n);
    lemma_gate_was_passed(check_ports, run, DoctorAction::CheckAssets, n);
    lemma_enough_files(check_ports, run, n);
    assert forall|b: Binary| came_out(run, DoctorAction::FindBinary(b), DoctorEvent::Done) by {
        law_binary_place(b);
        lemma_gate_was_passed(check_ports, run, DoctorAction::FindBinary(b), n);
    }
}

/// A check that passes has found no stale lock: the lock of the usual display
/// is not there, or its socket is.
pub proof fn law_passed_means_no_stale_lock(
    check_ports: bool,
    run: Seq<(DoctorAction, DoctorEvent)>,
)
    requires
        is_checkup(check_ports, run),
        doctor_due(check_ports, run) == DoctorAction::Passed,
    ensures
        came_out(run, DoctorAction::ProbeLock, DoctorEvent::Exists(false)) || came_out(
            run,
            DoctorAction::ProbeSocket,
            DoctorEvent::Exists(true),
        ),
{
    let n = run.len() - 1;
    assert(doctor_answers(run[n].0, run[n].1));
    if run[n].0 == DoctorAction::ProbeLock || run[n].0 == DoctorAction::ProbeSocket {
        assert(run[n] == (run[n].0, run[n].1));
    } else {
        assert(run[n].0 == DoctorAction::ProbeWebRoot);
        assert(run[n].0 == doctor_step(check_ports, run[n - 1].0, run[n - 1].1));
        assert(run[n - 1].0 == DoctorAction::CheckSession);
        assert(run[n - 1].0 == doctor_step(check_ports, run[n - 2].0, run[n - 2].1));
        assert(doctor_answers(run[n - 2].0, run[n - 2].1));
        assert(run[n - 2] == (run[n - 2].0, run[n - 2].1));
    }
}

/// A check of a running session that passes has found it usable, and its web
/// root in place; a check before a start looks at no session.
pub proof fn law_session_is_checked_where_asked(
    check_ports: bool,
    run: Seq<(DoctorAction, DoctorEvent)>,
)
    requires
        is_checkup(check_ports, run),
    ensures
        check_ports && doctor_due(check_ports, run) == DoctorAction::Passed ==> came_out(
            run,
            DoctorAction::CheckSession,
            DoctorEvent::Done,
        ) && came_out(run, DoctorAction::ProbeWebRoot, DoctorEvent::Exists(true)),
        !check_ports ==> forall|i: int|
            0 <= i < run.len() ==> (#[trigger] run[i]).0 != DoctorAction::CheckSession,
{
    if check_ports && doctor_due(check_ports, run) == DoctorAction::Passed {
        let n = run.len() - 1;
        assert(doctor_answers(run[n].0, run[n].1));
        assert(run[n] == (DoctorAction::ProbeWebRoot, DoctorEvent::Exists(true)));
        assert(run[n].0 == doctor_step(check_ports, run[n - 1].0, run[n - 1].1));
        assert(doctor_answers(run[n - 1].0, run[n - 1].1));
        assert(run[n - 1] == (DoctorAction::CheckSession, DoctorEvent::Done));
    }
    if !check_ports {
        assert forall|i: int| 0 <= i < run.len() implies (#[trigger] run[i]).0
            != DoctorAction::CheckSession by {
            if i > 0 {
                assert(run[i].0 == doctor_step(check_ports, run[i - 1].0, run[i - 1].1));
                assert(doctor_answers(run[i - 1].0, run[i - 1].1));
            }
        }
    }
}

/// `event` says of what `action` looks at that it is in place.
pub open spec fn is_in_place(action: DoctorAction, event: DoctorEvent) -> bool {
    match action {
        DoctorAction::ReadFdLimit => event matches DoctorEvent::FdLimit(limit) && limit
            >= MIN_FD_LIMIT,
        DoctorAction::ProbeLock => event is Exists,
        DoctorAction::ProbeSocket => event == DoctorEvent::Exists(true),
        DoctorAction::ProbeWebRoot => event == DoctorEvent::Exists(true),
        _ => event is Done,
    }
}

/// A check that finds all in place does not fail, so that it passes once it has no
/// step left.
pub proof fn law_in_place_means_passed(
    check_ports: bool,
    run: Seq<(DoctorAction, DoctorEvent)>,
)
    requires
        is_checkup(check_ports, run),
        forall|i: int| 0 <= i < run.len() ==> is_in_place((#[trigger] run[i]).0, run[i].1),
    ensures
        !(doctor_due(check_ports, run) is GiveUp),
        !(doctor_due(check_ports, run) is Fail),
        (forall|e: DoctorEvent| !doctor_answers(doctor_due(check_ports, run), e)) ==> doctor_due(
            check_ports,
            run,
        ) == DoctorAction::Passed,
{
    if run.len() > 0 {
        let (action, event) = run[run.len() - 1];
        assert(doctor_answers(action, event));
        assert(is_in_place(action, event));
    }
    let due = doctor_due(check_ports, run);
    if forall|e: DoctorEvent| !doctor_answers(due, e) {
        assert(!doctor_answers(due, DoctorEvent::Done));
        assert(!doctor_answers(due, DoctorEvent::Failed));
        assert(!doctor_answers(due, DoctorEvent::Exists(true)));
    }
}

/// Each fault that a check ends with was found in its last steps.
pub proof fn law_faults_are_found(
    check_ports: bool,
    run: Seq<(DoctorAction, DoctorEvent)>,
    fault: DoctorFault,
)
    requires
        is_checkup(check_ports, run),
        doctor_due(check_ports, run) == DoctorAction::Fail(fault),
    ensures
        match fault {
            DoctorFault::MissingBinary(b) => run.last() == (
                DoctorAction::FindBinary(b),
                DoctorEvent::Failed,
            ),
            DoctorFault::LowFdLimit(limit) => limit < MIN_FD_LIMIT && run.last() == (
                DoctorAction::ReadFdLimit,
                DoctorEvent::FdLimit(limit),
            ),
            DoctorFault::StaleLock => run.len() >= 2 && run.last() == (
                DoctorAction::ProbeSocket,
                DoctorEvent::Exists(false),
            ) && run[run.len() - 2] == (DoctorAction::ProbeLock, DoctorEvent::Exists(true)),
            DoctorFault::WebRootMissing => check_ports && run.last() == (
                DoctorAction::ProbeWebRoot,
                DoctorEvent::Exists(false),
            ),
        },
{
    let n = run.len() - 1;
    assert(doctor_answers(run[n].0, run[n].1));
    if n > 0 {
        assert(run[n].0 == doctor_step(check_ports, run[n - 1].0, run[n - 1].1));
        assert(doctor_answers(run[n - 1].0, run[n - 1].1));
    }
    if fault == DoctorFault::WebRootMissing {
        assert(run[n - 1].0 == DoctorAction::CheckSession);
        law_session_is_checked_where_asked(check_ports, run);
    }
}

/// The lock that the check may find stale is the first thing that a teardown
/// clears where no session is written down.
pub proof fn law_down_clears_a_stale_lock()
    ensures
        paths::artifact_texts(session::down_display_text(None)).len() > 0,
        paths::artifact_texts(session::down_display_text(None))[0] == default_lock_text(),
{
    reveal_strlit(":1");
}

/// What came after the `i`th step of a run, or is due after it.
pub open spec fn doctor_after(
    check_ports: bool,
    run: Seq<(DoctorAction, DoctorEvent)>,
    i: int,
) -> DoctorAction {
    if i + 1 < run.len() {
        run[i + 1].0
    } else {
        doctor_due(check_ports, run)
    }
}

proof fn lemma_doctor_after(check_ports: bool, run: Seq<(DoctorAction, DoctorEvent)>, i: int)
    requires
        is_checkup(check_ports, run),
        0 <= i < run.len(),
    ensures
        doctor_answers(run[i].0, run[i].1),
        doctor_after(check_ports, run, i) == doctor_step(check_ports, run[i].0, run[i].1),
{
    if i + 1 < run.len() {
        assert(run[i + 1].0 == doctor_step(check_ports, run[i].0, run[i].1));
    }
}

/// Different programs have different names.
pub proof fn law_program_names_are_distinct(a: Binary, b: Binary)
    requires
        a.text() == b.text(),
    ensures
        a == b,
{
    reveal_strlit("Xvfb");
    reveal_strlit("xfce4-session");
    reveal_strlit("x11vnc");
    reveal_strlit("websockify");
    reveal_strlit("dbus-daemon");
    reveal_strlit("xrdb");
    reveal_strlit("xauth");
    reveal_strlit("xsetroot");
    assert("Xvfb"@.len() == 4 && "xrdb"@.len() == 4 && "Xvfb"@[0] == 'X' && "xrdb"@[0] == 'x');
    assert("xfce4-session"@.len() == 13 && "x11vnc"@.len() == 6 && "websockify"@.len() == 10);
    assert("dbus-daemon"@.len() == 11 && "xauth"@.len() == 5 && "xsetroot"@.len() == 8);
}

/// The programs that are looked for, by name, in their order.
pub proof fn law_programs_by_name()
    ensures
        binaries().map_values(|b: Binary| b.text()) == seq![
            "Xvfb"@,
            "xfce4-session"@,
            "x11vnc"@,
            "websockify"@,
            "dbus-daemon"@,
            "xrdb"@,
            "xauth"@,
            "xsetroot"@,
        ],
{
}

/// Each program is looked for by its own name, so that the search for one is never the
/// search for another; and where it is not found, that very name is given.
pub proof fn law_program_is_looked_for_by_its_name(
    check_ports: bool,
    run: Seq<(DoctorAction, DoctorEvent)>,
    i: int,
    binary: Binary,
    other: Binary,
    web_root: &str,
    m: String,
)
    requires
        is_checkup(check_ports, run),
        0 <= i < run.len(),
        run[i] == (DoctorAction::FindBinary(binary), DoctorEvent::Failed),
        call_ensures(
            DoctorFault::message,
            (DoctorFault::MissingBinary(binary), web_root),
            m,
        ),
    ensures
        doctor_after(check_ports, run, i) == DoctorAction::Fail(DoctorFault::MissingBinary(binary)),
        doctor_target_of(DoctorAction::FindBinary(binary), web_root@) == TargetView::Search(
            binary.text(),
        ),
        doctor_target_of(DoctorAction::FindBinary(binary), web_root@) == doctor_target_of(
            DoctorAction::FindBinary(other),
            web_root@,
        ) ==> binary == other,
        match doctor_target_of(run[i].0, web_root@) {
            TargetView::Search(name) => m@ == "missing required binary: "@ + name,
            _ => false,
        },
{
    lemma_doctor_after(check_ports, run, i);
    let a = doctor_target_of(DoctorAction::FindBinary(binary), web_root@);
    let b = doctor_target_of(DoctorAction::FindBinary(other), web_root@);
    assert(a == TargetView::Search(binary.text()) && b == TargetView::Search(other.text()));
    if a == b {
        assert(a->Search_0 == b->Search_0);
        law_program_names_are_distinct(binary, other);
    }
}

/// A check that passes has searched for every program that a start runs, under the name
/// that the start runs it by, and has found it.
pub proof fn law_programs_of_a_start_were_found(
    check_ports: bool,
    run: Seq<(DoctorAction, DoctorEvent)>,
    component: Component,
    web_root: Seq<char>,
)
    requires
        is_checkup(check_ports, run),
        doctor_due(check_ports, run) == DoctorAction::Passed,
    ensures
        was_found(run, command::component_program(component), web_root),
        was_found(run, "dbus-daemon"@, web_root),
        was_found(run, "xrdb"@, web_root),
        was_found(run, "xauth"@, web_root),
        was_found(run, "xsetroot"@, web_root),
{
    law_passed_means_in_place(check_ports, run);
    lemma_was_found(run, binary_of(component), web_root);
    lemma_was_found(run, Binary::DbusDaemon, web_root);
    lemma_was_found(run, Binary::Xrdb, web_root);
    lemma_was_found(run, Binary::Xauth, web_root);
    lemma_was_found(run, Binary::Xsetroot, web_root);
}

/// A search for `name` in a run came out well.
pub open spec fn was_found(
    run: Seq<(DoctorAction, DoctorEvent)>,
    name: Seq<char>,
    web_root: Seq<char>,
) -> bool {
    exists|i: int|
        0 <= i < run.len() && doctor_target_of((#[trigger] run[i]).0, web_root)
            == TargetView::Search(name) && run[i].1 is Done
}

/// The program that a component runs.
pub open spec fn binary_of(component: Component) -> Binary {
    match component {
        Component::Xvfb => Binary::Xvfb,
        Component::Xfce => Binary::Xfce4Session,
        Component::X11vnc => Binary::X11vnc,
        Component::Websockify => Binary::Websockify,
    }
}

proof fn lemma_was_found(
    run: Seq<(DoctorAction, DoctorEvent)>,
    binary: Binary,
    web_root: Seq<char>,
)
    requires
        came_out(run, DoctorAction::FindBinary(binary), DoctorEvent::Done),
    ensures
        was_found(run, binary.text(), web_root),
{
    let i = choose|i: int|
        0 <= i < run.len() && #[trigger] run[i] == (
            DoctorAction::FindBinary(binary),
            DoctorEvent::Done,
        );
    assert(doctor_target_of(run[i].0, web_root) == TargetView::Search(binary.text()));
}

/// Too few open files are what is wrong exactly where fewer than 4096 are allowed, and the
/// number is given.
pub proof fn law_too_few_open_files(
    check_ports: bool,
    run: Seq<(DoctorAction, DoctorEvent)>,
    i: int,
    limit: u64,
    web_root: &str,
    m: String,
)
    requires
        is_checkup(check_ports, run),
        0 <= i < run.len(),
        run[i] == (DoctorAction::ReadFdLimit, DoctorEvent::FdLimit(limit)),
        call_ensures(DoctorFault::message, (DoctorFault::LowFdLimit(limit), web_root), m),
    ensures
        doctor_after(check_ports, run, i) == DoctorAction::Fail(DoctorFault::LowFdLimit(limit))
            <==> limit < 4096,
        limit >= 4096 ==> doctor_after(check_ports, run, i) == DoctorAction::SecureRunDir,
        m@ == "RLIMIT_NOFILE is too low for GUI workloads: "@ + text::decimal(limit as int)
            + " (need >= 4096)"@,
{
    lemma_doctor_after(check_ports, run, i);
}

/// A check goes through its steps in one order: each one that succeeds leads to the next.
pub proof fn law_check_goes_on(
    check_ports: bool,
    run: Seq<(DoctorAction, DoctorEvent)>,
    i: int,
    k: int,
)
    requires
        is_checkup(check_ports, run),
        0 <= i < run.len(),
        run[i].1 is Done,
        0 <= k < 8,
    ensures
        run[i].0 == DoctorAction::EnsureDirs ==> doctor_after(check_ports, run, i)
            == DoctorAction::FindBinary(binaries()[0]),
        run[i].0 == DoctorAction::FindBinary(binaries()[k]) ==> doctor_after(check_ports, run, i)
            == if k < 7 {
            DoctorAction::FindBinary(binaries()[k + 1])
        } else {
            DoctorAction::ReadFdLimit
        },
        run[i].0 == DoctorAction::SecureRunDir ==> doctor_after(check_ports, run, i)
            == DoctorAction::SecureRuntimeDir,
        run[i].0 == DoctorAction::SecureRuntimeDir ==> doctor_after(check_ports, run, i)
            == DoctorAction::CheckAssets,
        run[i].0 == DoctorAction::CheckAssets ==> doctor_after(check_ports, run, i)
            == DoctorAction::ProbeLock,
        run[i].0 == DoctorAction::CheckSession ==> doctor_after(check_ports, run, i)
            == DoctorAction::ProbeWebRoot,
{
    lemma_doctor_after(check_ports, run, i);
    law_binary_place(binaries()[k]);
}

/// A lock is stale exactly where it is there and its socket is not; where it is not stale,
/// the session is checked if that was asked for, and the check has passed if it was not.
pub proof fn law_what_the_lock_says(
    check_ports: bool,
    run: Seq<(DoctorAction, DoctorEvent)>,
    i: int,
    there: bool,
)
    requires
        is_checkup(check_ports, run),
        0 <= i < run.len(),
    ensures
        run[i] == (DoctorAction::ProbeLock, DoctorEvent::Exists(true)) ==> doctor_after(
            check_ports,
            run,
            i,
        ) == DoctorAction::ProbeSocket,
        run[i] == (DoctorAction::ProbeSocket, DoctorEvent::Exists(false)) ==> doctor_after(
            check_ports,
            run,
            i,
        ) == DoctorAction::Fail(DoctorFault::StaleLock),
        run[i] == (DoctorAction::ProbeLock, DoctorEvent::Exists(false)) || run[i] == (
            DoctorAction::ProbeSocket,
            DoctorEvent::Exists(true),
        ) ==> doctor_after(check_ports, run, i) == if check_ports {
            DoctorAction::CheckSession
        } else {
            DoctorAction::Passed
        },
        run[i] == (DoctorAction::ProbeWebRoot, DoctorEvent::Exists(there)) ==> doctor_after(
            check_ports,
            run,
            i,
        ) == if there {
            DoctorAction::Passed
        } else {
            DoctorAction::Fail(DoctorFault::WebRootMissing)
        },
{
    lemma_doctor_after(check_ports, run, i);
}

/// A step that fails ends the check with its error, but for the search for a program, which
/// has words of its own.
pub proof fn law_failure_ends_a_check(
    check_ports: bool,
    run: Seq<(DoctorAction, DoctorEvent)>,
    i: int,
)
    requires
        is_checkup(check_ports, run),
        0 <= i < run.len(),
        run[i].1 is Failed,
        !(run[i].0 is FindBinary),
    ensures
        doctor_after(check_ports, run, i) == DoctorAction::GiveUp,
{
    lemma_doctor_after(check_ports, run, i);
}

/// What can come of each step, and that nothing else moves a check.
pub proof fn law_what_moves_a_check(
    check_ports: bool,
    action: DoctorAction,
    event: DoctorEvent,
    limit: u64,
    there: bool,
    r: DoctorAction,
)
    requires
        call_ensures(doctor_next, (check_ports, action, event), r),
    ensures
        action is EnsureDirs || action is FindBinary || action is SecureRunDir || action
            is SecureRuntimeDir || action is CheckAssets || action is CheckSession
            ==> doctor_answers(action, DoctorEvent::Done) && doctor_answers(
            action,
            DoctorEvent::Failed,
        ) && (doctor_answers(action, event) ==> event is Done || event is Failed),
        action is ReadFdLimit ==> doctor_answers(action, DoctorEvent::FdLimit(limit))
            && doctor_answers(action, DoctorEvent::Failed) && (doctor_answers(action, event)
            ==> event is FdLimit || event is Failed),
        action is ProbeLock || action is ProbeSocket || action is ProbeWebRoot ==> doctor_answers(
            action,
            DoctorEvent::Exists(there),
        ) && (doctor_answers(action, event) ==> event is Exists),
        action is Passed || action is GiveUp || action is Fail ==> !doctor_answers(action, event),
        !doctor_answers(action, event) ==> r == action,
        r == doctor_step(check_ports, action, event),
{
}

/// The files that a check is about. The lock and the socket are those of the display that a
/// session has where nothing is asked for, and the web root of the noVNC client is the one
/// that such a session has.
pub proof fn law_files_of_a_check(web_root: Seq<char>, usual: UpArgs)
    requires
        call_ensures(<UpArgs as Default>::default, (), usual),
    ensures
        doctor_target_of(DoctorAction::EnsureDirs, web_root) == TargetView::Dirs(
            seq!["/run/qgui"@, "/var/lib/qgui"@, "/var/lib/qgui/logs"@],
        ),
        doctor_target_of(DoctorAction::SecureRunDir, web_root) == TargetView::PrivateDir(
            "/run/qgui"@,
            0o700,
        ),
        doctor_target_of(DoctorAction::SecureRuntimeDir, web_root) == TargetView::PrivateDir(
            "/run/qgui/xdg-runtime"@,
            0o700,
        ),
        doctor_target_of(DoctorAction::CheckAssets, web_root) == TargetView::Path(
            usual.novnc_web_root@,
        ),
        doctor_target_of(DoctorAction::ProbeWebRoot, web_root) == TargetView::Path(web_root),
        match (
            doctor_target_of(DoctorAction::ProbeLock, web_root),
            doctor_target_of(DoctorAction::ProbeSocket, web_root),
        ) {
            (TargetView::Path(lock), TargetView::Path(socket)) => {
                &&& paths::artifact_texts(usual.display@) == seq![lock, socket]
                &&& lock == "/tmp/.X1-lock"@
                &&& socket == "/tmp/.X11-unix/X1"@
            },
            _ => false,
        },
{
    paths::law_places();
    reveal_strlit(":1");
    reveal_strlit("/tmp/.X");
    reveal_strlit("-lock");
    reveal_strlit("/tmp/.X11-unix/X");
    reveal_strlit("/tmp/.X1-lock");
    reveal_strlit("/tmp/.X11-unix/X1");
    paths::law_files_of_a_display(seq!['1'], seq![]);
    assert(":1"@ =~= seq![':'] + seq!['1']);
    assert("/tmp/.X1-lock"@ =~= "/tmp/.X"@ + seq!['1'] + "-lock"@);
    assert("/tmp/.X11-unix/X1"@ =~= "/tmp/.X11-unix/X"@ + seq!['1']);
}

/// A stale lock and a missing web root are named with their places.
pub proof fn law_words_of_a_check(
    web_root: &str,
    stale: String,
    missing: String,
    first: DoctorAction,
)
    requires
        call_ensures(DoctorFault::message, (DoctorFault::StaleLock, web_root), stale),
        call_ensures(DoctorFault::message, (DoctorFault::WebRootMissing, web_root), missing),
        call_ensures(doctor_begin, (), first),
    ensures
        match doctor_target_of(DoctorAction::ProbeLock, web_root@) {
            TargetView::Path(lock) => stale@ == "stale X lock detected at "@ + lock
                + " without a matching X socket; run `qgui down` or remove it"@,
            _ => false,
        },
        missing@ == "noVNC web root missing at "@ + web_root@,
        first == DoctorAction::EnsureDirs,
        CHECK_PORTS,
{
}

} // verus!
