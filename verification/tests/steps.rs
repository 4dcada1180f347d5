use qgui::clock::time_is_up;
use qgui::component::{first_failed_component, Component, ComponentProbe};
use qgui::doctor::{
    default_lock_path, doctor_begin, doctor_next, doctor_ok_message, doctor_target, Binary,
    DoctorAction, DoctorEvent, DoctorFault, CHECK_PORTS,
};
use qgui::pidfile::{read_pid, PidFile};
use qgui::session::{session_env_pairs, session_state, UpArgs};
use qgui::startup::{
    start_begin, start_next, start_target, wait_for_display_ready, wait_next, wait_target,
    StartAction, StartEvent, StartFault, WaitAction, WaitEvent, WaitFault,
};
use qgui::supervise::{
    components_event, exited_message, up_begin, up_next, up_target, UpAction, UpEvent,
};
use qgui::target::Target;
use qgui::teardown::{
    down_begin, down_next, down_target, pid_event, stopped_message, DownAction, DownEvent,
};

const SECOND: u128 = 1_000_000_000;

fn path(target: Target) -> String {
    match target {
        Target::Path(path) => path,
        other => panic!("{:?}", other),
    }
}

fn paths(target: Target) -> Vec<String> {
    match target {
        Target::Paths(paths) | Target::Dirs(paths) => paths,
        other => panic!("{:?}", other),
    }
}

fn private_dir(target: Target) -> (String, u32) {
    match target {
        Target::PrivateDir { path, mode } => (path, mode),
        other => panic!("{:?}", other),
    }
}

fn port(target: Target) -> (String, u16) {
    match target {
        Target::Port { host, port } => (host, port),
        other => panic!("{:?}", other),
    }
}

fn pause(target: Target) -> u64 {
    match target {
        Target::Pause { millis } => millis,
        other => panic!("{:?}", other),
    }
}

fn signal(target: Target) -> (i32, i32) {
    match target {
        Target::Signal { pid, signal } => (pid, signal),
        other => panic!("{:?}", other),
    }
}

fn run_down(events: &[DownEvent]) -> Vec<DownAction> {
    let mut action = down_begin();
    let mut actions = vec![action];
    for event in events {
        action = down_next(action, *event);
        actions.push(action);
    }
    actions
}

#[test]
fn teardown_without_a_session() {
    let none = DownEvent::Pid(None);
    let done = DownEvent::Done;
    assert_eq!(
        run_down(&[done, done, none, none, none, none, done, done, DownEvent::Socket(Some(true))]),
        vec![
            DownAction::EnsureDirs,
            DownAction::LoadState,
            DownAction::ReadPid(Component::Websockify),
            DownAction::ReadPid(Component::X11vnc),
            DownAction::ReadPid(Component::Xfce),
            DownAction::ReadPid(Component::Xvfb),
            DownAction::RemoveDbusSocket,
            DownAction::RemoveState,
            DownAction::ProbeSocket,
            DownAction::Stopped,
        ]
    );
    assert_eq!(stopped_message(), "qgui: stopped");
}

#[test]
fn teardown_kills_what_does_not_end() {
    let c = Component::Websockify;
    assert_eq!(
        run_down(&[
            DownEvent::Done,
            DownEvent::Done,
            DownEvent::Pid(Some(42)),
            DownEvent::Alive(true),
            DownEvent::Failed,
            DownEvent::Done,
            DownEvent::Alive(true),
            DownEvent::Failed,
            DownEvent::Failed,
        ])[2..],
        [
            DownAction::ReadPid(c),
            DownAction::ProbeBefore(c, 42),
            DownAction::Terminate(c, 42),
            DownAction::Grace(c, 42),
            DownAction::ProbeAfter(c, 42),
            DownAction::Kill(c, 42),
            DownAction::RemovePidFile(c),
            DownAction::ReadPid(Component::X11vnc),
        ]
    );
}

#[test]
fn teardown_spares_the_dead_and_the_obedient() {
    let c = Component::Xvfb;
    assert_eq!(
        down_next(DownAction::ProbeBefore(c, 1), DownEvent::Alive(false)),
        DownAction::RemovePidFile(c)
    );
    assert_eq!(
        down_next(DownAction::ProbeAfter(c, 1), DownEvent::Alive(false)),
        DownAction::RemovePidFile(c)
    );
    assert_eq!(
        down_next(DownAction::RemovePidFile(c), DownEvent::Done),
        DownAction::RemoveDbusSocket
    );
}

#[test]
fn teardown_clears_a_display_without_a_socket() {
    let probe = DownAction::ProbeSocket;
    assert_eq!(
        down_next(probe, DownEvent::Socket(Some(false))),
        DownAction::ClearArtifacts
    );
    assert_eq!(down_next(probe, DownEvent::Socket(None)), DownAction::Stopped);
    assert_eq!(
        down_next(DownAction::ClearArtifacts, DownEvent::Done),
        DownAction::Stopped
    );
}

#[test]
fn teardown_gives_up_where_it_must() {
    assert_eq!(down_next(DownAction::EnsureDirs, DownEvent::Failed), DownAction::GiveUp);
    assert_eq!(
        down_next(DownAction::ReadPid(Component::Xfce), DownEvent::Failed),
        DownAction::GiveUp
    );
    assert_eq!(
        down_next(DownAction::RemoveState, DownEvent::Failed),
        DownAction::ProbeSocket
    );
    assert_eq!(down_next(DownAction::Stopped, DownEvent::Done), DownAction::Stopped);
}

fn run_doctor(check_ports: bool, lock: bool, socket: bool) -> Vec<DoctorAction> {
    let mut action = doctor_begin();
    let mut actions = vec![action];
    loop {
        let event = match action {
            DoctorAction::ReadFdLimit => DoctorEvent::FdLimit(4096),
            DoctorAction::ProbeLock => DoctorEvent::Exists(lock),
            DoctorAction::ProbeSocket => DoctorEvent::Exists(socket),
            DoctorAction::ProbeWebRoot => DoctorEvent::Exists(true),
            DoctorAction::Passed | DoctorAction::GiveUp | DoctorAction::Fail(_) => return actions,
            _ => DoctorEvent::Done,
        };
        action = doctor_next(check_ports, action, event);
        actions.push(action);
    }
}

#[test]
fn doctor_goes_through_every_check() {
    let actions = run_doctor(true, true, true);
    assert_eq!(
        actions,
        vec![
            DoctorAction::EnsureDirs,
            DoctorAction::FindBinary(Binary::Xvfb),
            DoctorAction::FindBinary(Binary::Xfce4Session),
            DoctorAction::FindBinary(Binary::X11vnc),
            DoctorAction::FindBinary(Binary::Websockify),
            DoctorAction::FindBinary(Binary::DbusDaemon),
            DoctorAction::FindBinary(Binary::Xrdb),
            DoctorAction::FindBinary(Binary::Xauth),
            DoctorAction::FindBinary(Binary::Xsetroot),
            DoctorAction::ReadFdLimit,
            DoctorAction::SecureRunDir,
            DoctorAction::SecureRuntimeDir,
            DoctorAction::CheckAssets,
            DoctorAction::ProbeLock,
            DoctorAction::ProbeSocket,
            DoctorAction::CheckSession,
            DoctorAction::ProbeWebRoot,
            DoctorAction::Passed,
        ]
    );
    assert_eq!(doctor_ok_message(), "qgui: doctor ok");
}

#[test]
fn doctor_before_a_start_needs_no_session() {
    let actions = run_doctor(false, false, false);
    assert_eq!(
        actions[13..],
        [DoctorAction::ProbeLock, DoctorAction::Passed]
    );
}

#[test]
fn doctor_finds_a_stale_lock() {
    let actions = run_doctor(false, true, false);
    let fault = DoctorFault::StaleLock;
    assert_eq!(actions.last(), Some(&DoctorAction::Fail(fault)));
    assert_eq!(default_lock_path(), "/tmp/.X1-lock");
    assert_eq!(
        fault.message(""),
        "stale X lock detected at /tmp/.X1-lock without a matching X socket; \
         run `qgui down` or remove it"
    );
}

#[test]
fn doctor_faults_in_words() {
    let missing = doctor_next(
        false,
        DoctorAction::FindBinary(Binary::Xfce4Session),
        DoctorEvent::Failed,
    );
    assert_eq!(
        missing,
        DoctorAction::Fail(DoctorFault::MissingBinary(Binary::Xfce4Session))
    );
    assert_eq!(
        DoctorFault::MissingBinary(Binary::Xfce4Session).message(""),
        "missing required binary: xfce4-session"
    );
    let low = doctor_next(false, DoctorAction::ReadFdLimit, DoctorEvent::FdLimit(4095));
    assert_eq!(low, DoctorAction::Fail(DoctorFault::LowFdLimit(4095)));
    assert_eq!(
        DoctorFault::LowFdLimit(1024).message(""),
        "RLIMIT_NOFILE is too low for GUI workloads: 1024 (need >= 4096)"
    );
    let gone = doctor_next(true, DoctorAction::ProbeWebRoot, DoctorEvent::Exists(false));
    assert_eq!(gone, DoctorAction::Fail(DoctorFault::WebRootMissing));
    assert_eq!(
        DoctorFault::WebRootMissing.message("/w"),
        "noVNC web root missing at /w"
    );
    assert_eq!(
        doctor_next(true, DoctorAction::CheckSession, DoctorEvent::Failed),
        DoctorAction::GiveUp
    );
}

fn answer(action: StartAction, pid: u32) -> StartEvent {
    match action {
        StartAction::SpawnDbus | StartAction::Spawn(_) => StartEvent::Spawned(pid),
        StartAction::ProbeWebRoot | StartAction::ProbeDbus => StartEvent::Exists(true),
        StartAction::ProbeNovnc | StartAction::ProbeVnc(_) => StartEvent::Listening(true),
        StartAction::ReadClock => StartEvent::Elapsed(0),
        _ => StartEvent::Done,
    }
}

#[test]
fn start_goes_through_every_step() {
    let args = UpArgs::default();
    let mut action = start_begin();
    let mut actions = vec![action];
    while action != StartAction::Started {
        action = start_next(&args, action, answer(action, 100 + actions.len() as u32));
        actions.push(action);
    }
    assert_eq!(
        actions,
        vec![
            StartAction::EnsureDirs,
            StartAction::Doctor,
            StartAction::Down,
            StartAction::ClearArtifacts,
            StartAction::SecureRuntimeDir,
            StartAction::SpawnDbus,
            StartAction::Spawn(Component::Xvfb),
            StartAction::WritePid(Component::Xvfb, 107),
            StartAction::WaitDisplay,
            StartAction::Spawn(Component::Xfce),
            StartAction::WritePid(Component::Xfce, 110),
            StartAction::Spawn(Component::X11vnc),
            StartAction::WritePid(Component::X11vnc, 112),
            StartAction::ProbeWebRoot,
            StartAction::CheckAssets,
            StartAction::Spawn(Component::Websockify),
            StartAction::WritePid(Component::Websockify, 116),
            StartAction::ReadClock,
            StartAction::ProbeNovnc,
            StartAction::ProbeVnc(true),
            StartAction::ProbeDbus,
            StartAction::WriteState,
            StartAction::Started,
        ]
    );
}

#[test]
fn start_refuses_a_bad_resolution() {
    let args = UpArgs { res: "1920".to_string(), ..UpArgs::default() };
    let fault = StartFault::BadResolution;
    assert_eq!(
        start_next(&args, StartAction::EnsureDirs, StartEvent::Done),
        StartAction::Fail(fault)
    );
    assert_eq!(fault.message(&args), "resolution must be WIDTHxHEIGHT");
}

#[test]
fn start_waits_until_all_is_ready() {
    let args = UpArgs::default();
    let next = |action, event| start_next(&args, action, event);
    assert_eq!(
        next(StartAction::ProbeNovnc, StartEvent::Listening(false)),
        StartAction::ProbeVnc(false)
    );
    assert_eq!(
        next(StartAction::ProbeVnc(false), StartEvent::Listening(true)),
        StartAction::Pause
    );
    assert_eq!(
        next(StartAction::ProbeVnc(true), StartEvent::Listening(false)),
        StartAction::Pause
    );
    assert_eq!(
        next(StartAction::ProbeDbus, StartEvent::Exists(false)),
        StartAction::Pause
    );
    assert_eq!(next(StartAction::Pause, StartEvent::Done), StartAction::ReadClock);
    let fault = StartFault::TimedOut;
    assert_eq!(
        next(StartAction::ReadClock, StartEvent::Elapsed(10 * SECOND - 1)),
        StartAction::ProbeNovnc
    );
    assert_eq!(
        next(StartAction::ReadClock, StartEvent::Elapsed(10 * SECOND)),
        StartAction::Fail(fault)
    );
    assert_eq!(
        fault.message(&args),
        "qgui up: timed out waiting for full GUI readiness on noVNC 0.0.0.0:6080 \
         and VNC 127.0.0.1:5901"
    );
}

#[test]
fn start_stops_at_failures() {
    let args = UpArgs::default();
    let next = |action, event| start_next(&args, action, event);
    let failed = StartEvent::Failed;
    assert_eq!(next(StartAction::Doctor, failed), StartAction::GiveUp);
    assert_eq!(next(StartAction::Down, failed), StartAction::ClearArtifacts);
    assert_eq!(next(StartAction::Spawn(Component::Xfce), failed), StartAction::GiveUp);
    assert_eq!(next(StartAction::WriteState, failed), StartAction::GiveUp);
    let fault = StartFault::WebRootNotFound;
    assert_eq!(
        next(StartAction::ProbeWebRoot, StartEvent::Exists(false)),
        StartAction::Fail(fault)
    );
    assert_eq!(
        fault.message(&args),
        "noVNC web root not found at /usr/share/novnc (expected vnc.html)"
    );
}

#[test]
fn time_runs_out() {
    assert!(time_is_up(0, 0));
    assert!(!time_is_up(0, 1));
    assert!(!time_is_up(SECOND - 1, 1));
    assert!(time_is_up(SECOND, 1));
    assert!(!time_is_up(u64::MAX as u128 * SECOND - 1, u64::MAX));
    assert!(time_is_up(u64::MAX as u128 * SECOND, u64::MAX));
    assert!(time_is_up(u128::MAX, u64::MAX));
}

#[test]
fn start_without_time_makes_no_look() {
    let args = UpArgs { wait_ready_secs: 0, ..UpArgs::default() };
    let mut action = start_begin();
    let mut last = action;
    while !matches!(action, StartAction::Started | StartAction::GiveUp | StartAction::Fail(_)) {
        assert!(!matches!(
            action,
            StartAction::ProbeNovnc | StartAction::ProbeVnc(_) | StartAction::ProbeDbus
        ));
        last = action;
        action = start_next(&args, action, answer(action, 1));
    }
    assert_eq!(last, StartAction::ReadClock);
    assert_eq!(action, StartAction::Fail(StartFault::TimedOut));
}

#[test]
fn wait_for_a_display() {
    let first = wait_for_display_ready(":1", 5);
    assert_eq!(first, WaitAction::ReadClock(5));
    let probe = wait_next(first, WaitEvent::Elapsed(5 * SECOND - 1));
    assert_eq!(probe, WaitAction::ProbeSocket(5));
    let pause = wait_next(probe, WaitEvent::Exists(false));
    assert_eq!(pause, WaitAction::Pause(5));
    assert_eq!(wait_next(pause, WaitEvent::Done), WaitAction::ReadClock(5));
    assert_eq!(wait_next(probe, WaitEvent::Exists(true)), WaitAction::Ready);
    assert_eq!(
        wait_next(first, WaitEvent::Elapsed(5 * SECOND)),
        WaitAction::Fail(WaitFault::TimedOut)
    );
    assert_eq!(
        WaitFault::TimedOut.message(":1"),
        "timed out waiting for X display :1 to become ready"
    );
}

#[test]
fn wait_without_time_makes_no_look() {
    assert_eq!(
        wait_next(wait_for_display_ready(":1", 0), WaitEvent::Elapsed(0)),
        WaitAction::Fail(WaitFault::TimedOut)
    );
}

#[test]
fn wait_refuses_a_display_elsewhere() {
    assert_eq!(
        wait_for_display_ready("host:0", 5),
        WaitAction::Fail(WaitFault::InvalidDisplay)
    );
    assert_eq!(
        WaitFault::InvalidDisplay.message("host:0"),
        "invalid X display 'host:0'"
    );
}

#[test]
fn watch_ends_with_a_signal() {
    let mut action = up_begin();
    for _ in 0..3 {
        action = up_next(action, UpEvent::Done);
    }
    assert!(matches!(action, UpAction::CheckComponents));
    action = up_next(action, UpEvent::FirstFailed(None));
    assert!(matches!(action, UpAction::Wait));
    action = up_next(action, UpEvent::Tick);
    assert!(matches!(action, UpAction::CheckComponents));
    action = up_next(action, UpEvent::FirstFailed(None));
    action = up_next(action, UpEvent::Signal);
    assert!(matches!(action, UpAction::Down));
    assert!(matches!(up_next(action, UpEvent::Failed), UpAction::GiveUp));
    assert!(matches!(up_next(action, UpEvent::Done), UpAction::Stopped));
}

#[test]
fn watch_ends_with_a_component() {
    let action = up_next(UpAction::CheckComponents, UpEvent::FirstFailed(Some("xfce")));
    assert!(matches!(action, UpAction::DownAfterExit("xfce")));
    assert!(matches!(up_next(action, UpEvent::Failed), UpAction::Exited("xfce")));
    assert!(matches!(up_next(action, UpEvent::Done), UpAction::Exited("xfce")));
    assert_eq!(exited_message("xfce"), "qgui up: component 'xfce' exited");
    assert!(matches!(
        up_next(UpAction::CheckComponents, UpEvent::Failed),
        UpAction::GiveUp
    ));
    assert!(matches!(up_next(UpAction::Start, UpEvent::Failed), UpAction::GiveUp));
}

#[test]
fn steps_ignore_what_cannot_come_of_them() {
    let args = UpArgs::default();
    assert_eq!(
        down_next(DownAction::ReadPid(Component::Xvfb), DownEvent::Alive(true)),
        DownAction::ReadPid(Component::Xvfb)
    );
    assert_eq!(
        doctor_next(true, DoctorAction::ProbeLock, DoctorEvent::Done),
        DoctorAction::ProbeLock
    );
    assert_eq!(
        start_next(&args, StartAction::Started, StartEvent::Failed),
        StartAction::Started
    );
    assert_eq!(wait_next(WaitAction::Ready, WaitEvent::Done), WaitAction::Ready);
    assert!(matches!(up_next(UpAction::Wait, UpEvent::Done), UpAction::Wait));
}

#[test]
fn start_comes_back_to_the_clock() {
    let args = UpArgs::default();
    let mut action = StartAction::ReadClock;
    let mut steps = 0;
    loop {
        let event = match action {
            StartAction::ProbeDbus => StartEvent::Exists(false),
            _ => answer(action, 1),
        };
        action = start_next(&args, action, event);
        steps += 1;
        if action == StartAction::ReadClock {
            break;
        }
    }
    assert_eq!(steps, 5);
}

#[test]
fn teardown_is_about_these_files_and_processes() {
    let c = Component::Xfce;
    let target = |action| down_target(action, ":7");
    assert_eq!(
        paths(target(DownAction::EnsureDirs)),
        vec!["/run/qgui", "/var/lib/qgui", "/var/lib/qgui/logs"]
    );
    assert_eq!(path(target(DownAction::LoadState)), "/run/qgui/session.json");
    assert_eq!(path(target(DownAction::ReadPid(c))), "/run/qgui/xfce.pid");
    assert_eq!(path(target(DownAction::ProbeBefore(c, 42))), "/proc/42");
    assert_eq!(signal(target(DownAction::Terminate(c, 42))), (42, 15));
    assert_eq!(pause(target(DownAction::Grace(c, 42))), 300);
    assert_eq!(path(target(DownAction::ProbeAfter(c, 42))), "/proc/42");
    assert_eq!(signal(target(DownAction::Kill(c, 4294967295))), (-1, 9));
    assert_eq!(path(target(DownAction::RemovePidFile(c))), "/run/qgui/xfce.pid");
    assert_eq!(path(target(DownAction::RemoveDbusSocket)), "/run/qgui/dbus.sock");
    assert_eq!(path(target(DownAction::RemoveState)), "/run/qgui/session.json");
    assert_eq!(path(target(DownAction::ProbeSocket)), "/tmp/.X11-unix/X7");
    assert_eq!(
        paths(target(DownAction::ClearArtifacts)),
        vec!["/tmp/.X7-lock", "/tmp/.X11-unix/X7"]
    );
    assert!(matches!(target(DownAction::Stopped), Target::Nothing));
    assert!(matches!(target(DownAction::GiveUp), Target::Nothing));
    assert!(matches!(down_target(DownAction::ProbeSocket, "host:7"), Target::Nothing));
}

#[test]
fn teardown_reads_pid_files() {
    assert_eq!(pid_event(&PidFile::Absent), DownEvent::Pid(None));
    assert_eq!(pid_event(&PidFile::Text("42\n".to_string())), DownEvent::Pid(Some(42)));
    assert_eq!(pid_event(&PidFile::Text("abc".to_string())), DownEvent::Failed);
    assert_eq!(pid_event(&PidFile::Unreadable), DownEvent::Failed);
}

#[test]
fn checkup_is_about_these_files() {
    let target = |action| doctor_target(action, "/w");
    assert_eq!(paths(target(DoctorAction::EnsureDirs)).len(), 3);
    match target(DoctorAction::FindBinary(Binary::Xauth)) {
        Target::Search(name) => assert_eq!(name, "xauth"),
        other => panic!("{:?}", other),
    }
    assert_eq!(
        private_dir(target(DoctorAction::SecureRunDir)),
        ("/run/qgui".to_string(), 0o700)
    );
    assert_eq!(
        private_dir(target(DoctorAction::SecureRuntimeDir)),
        ("/run/qgui/xdg-runtime".to_string(), 0o700)
    );
    assert_eq!(path(target(DoctorAction::CheckAssets)), "/usr/share/novnc");
    assert_eq!(path(target(DoctorAction::ProbeLock)), "/tmp/.X1-lock");
    assert_eq!(path(target(DoctorAction::ProbeSocket)), "/tmp/.X11-unix/X1");
    assert_eq!(path(target(DoctorAction::ProbeWebRoot)), "/w");
    assert!(matches!(target(DoctorAction::ReadFdLimit), Target::Nothing));
}

#[test]
fn start_is_about_these_files_and_programs() {
    let args = UpArgs {
        display: ":7".to_string(),
        novnc_web_root: "/w".to_string(),
        ..UpArgs::default()
    };
    let target = |action| start_target(action, &args);
    assert_eq!(
        paths(target(StartAction::ClearArtifacts)),
        vec!["/tmp/.X7-lock", "/tmp/.X11-unix/X7"]
    );
    assert_eq!(
        private_dir(target(StartAction::SecureRuntimeDir)),
        ("/run/qgui/xdg-runtime".to_string(), 0o700)
    );
    match target(StartAction::SpawnDbus) {
        Target::Program { log, command, env } => {
            assert_eq!((log, command.program), ("dbus", "dbus-daemon"));
            assert_eq!(command.args.len(), 5);
            assert!(env.is_empty());
        }
        other => panic!("{:?}", other),
    }
    match target(StartAction::Spawn(Component::Xvfb)) {
        Target::Program { log, command, env } => {
            assert_eq!((log, command.program), ("xvfb", "Xvfb"));
            assert_eq!(command.args[0], ":7");
            assert!(env.is_empty());
        }
        other => panic!("{:?}", other),
    }
    match target(StartAction::WaitDisplay) {
        Target::Display { display, secs } => assert_eq!((display.as_str(), secs), (":7", 5)),
        other => panic!("{:?}", other),
    }
    assert_eq!(path(target(StartAction::ProbeWebRoot)), "/w");
    assert_eq!(path(target(StartAction::CheckAssets)), "/w");
    assert_eq!(port(target(StartAction::ProbeNovnc)), ("0.0.0.0".to_string(), 6080));
    assert_eq!(port(target(StartAction::ProbeVnc(false))), ("127.0.0.1".to_string(), 5901));
    assert_eq!(path(target(StartAction::ProbeDbus)), "/run/qgui/dbus.sock");
    assert_eq!(pause(target(StartAction::Pause)), 200);
    match target(StartAction::Doctor) {
        Target::Checkup { check_ports } => assert!(!check_ports),
        other => panic!("{:?}", other),
    }
    assert!(matches!(target(StartAction::ReadClock), Target::Nothing));
}

#[test]
fn teardown_finds_what_a_start_wrote() {
    let args = UpArgs::default();
    for c in [Component::Xvfb, Component::Xfce, Component::X11vnc, Component::Websockify] {
        match start_target(StartAction::WritePid(c, 4711), &args) {
            Target::File { path: file, contents } => {
                assert_eq!(path(down_target(DownAction::ReadPid(c), ":1")), file);
                assert_eq!(read_pid(&PidFile::Text(contents)), Ok(Some(4711)));
            }
            other => panic!("{:?}", other),
        }
    }
}

#[test]
fn waits_are_about_the_socket_and_a_moment() {
    assert_eq!(path(wait_target(WaitAction::ProbeSocket(5), ":7")), "/tmp/.X11-unix/X7");
    assert_eq!(pause(wait_target(WaitAction::Pause(5), ":7")), 200);
    assert!(matches!(wait_target(WaitAction::Ready, ":7"), Target::Nothing));
    assert_eq!(pause(up_target(UpAction::Wait)), 500);
    assert!(matches!(up_target(UpAction::Start), Target::Nothing));
}

#[test]
fn watch_gives_up_at_a_bad_pid_file() {
    let absent = ComponentProbe { file: PidFile::Absent, alive: false };
    let bad = ComponentProbe { file: PidFile::Text("abc".to_string()), alive: false };
    let probes = [absent.clone(), absent.clone(), absent.clone(), bad];
    let event = components_event(&first_failed_component(&probes));
    assert!(matches!(event, UpEvent::Failed));
    assert!(matches!(up_next(UpAction::CheckComponents, event), UpAction::GiveUp));
    let probes = [absent.clone(), absent.clone(), absent.clone(), absent];
    let event = components_event(&first_failed_component(&probes));
    assert!(matches!(event, UpEvent::FirstFailed(Some("xvfb"))));
}

#[test]
fn start_writes_down_the_session_asked_for() {
    let args = UpArgs {
        display: ":7".to_string(),
        res: "800x600".to_string(),
        depth: 16,
        vnc_bind: "10.0.0.5".to_string(),
        vnc_port: 1,
        novnc_bind: "10.0.0.6".to_string(),
        novnc_port: 2,
        novnc_web_root: "/w".to_string(),
        ..UpArgs::default()
    };
    match start_target(StartAction::WriteState, &args) {
        Target::Session { path: file, state } => {
            assert_eq!(file, "/run/qgui/session.json");
            assert_eq!(path(down_target(DownAction::LoadState, ":1")), file);
            assert_eq!((state.display.as_str(), state.res.as_str()), (":7", "800x600"));
            assert_eq!(state.depth, 16);
            assert_eq!((state.vnc_bind.as_str(), state.vnc_port), ("10.0.0.5", 1));
            assert_eq!((state.novnc_bind.as_str(), state.novnc_port), ("10.0.0.6", 2));
            assert_eq!(state.novnc_web_root, "/w");
            assert_eq!(state.dbus_addr, "unix:path=/run/qgui/dbus.sock");
            assert_eq!(state.dbus_socket, "/run/qgui/dbus.sock");
            assert_eq!(state.xdg_runtime_dir, "/run/qgui/xdg-runtime");
        }
        other => panic!("{:?}", other),
    }
}

#[test]
fn programs_of_the_session_get_its_variables() {
    let args = UpArgs { display: ":7".to_string(), ..UpArgs::default() };
    let state = session_state(&args);
    for (component, joins) in [
        (Component::Xvfb, false),
        (Component::Xfce, true),
        (Component::X11vnc, true),
        (Component::Websockify, false),
    ] {
        match start_target(StartAction::Spawn(component), &args) {
            Target::Program { env, .. } => {
                let found: Vec<(&str, &str)> = env.iter().map(|v| (v.0, v.1.as_str())).collect();
                if joins {
                    assert_eq!(found, session_env_pairs(&state));
                    assert_eq!(found[0], ("DISPLAY", ":7"));
                } else {
                    assert!(found.is_empty());
                }
            }
            other => panic!("{:?}", other),
        }
    }
}

#[test]
fn check_by_itself_looks_at_the_session() {
    assert!(run_doctor(CHECK_PORTS, false, false).contains(&DoctorAction::CheckSession));
    assert!(!run_doctor(false, false, false).contains(&DoctorAction::CheckSession));
}

#[test]
fn second_teardown_signals_nobody() {
    let mut files = [Some(1), Some(2), None, Some(4)];
    let mut signals = vec![];
    for _ in 0..2 {
        let mut count = 0;
        let mut action = down_begin();
        while action != DownAction::Stopped {
            if let Target::Signal { .. } = down_target(action, ":1") {
                count += 1;
            }
            let event = match action {
                DownAction::ReadPid(c) => DownEvent::Pid(files[c as usize]),
                DownAction::ProbeBefore(_, _) | DownAction::ProbeAfter(_, _) => {
                    DownEvent::Alive(true)
                }
                DownAction::RemovePidFile(c) => {
                    files[c as usize] = None;
                    DownEvent::Done
                }
                DownAction::ProbeSocket => DownEvent::Socket(Some(true)),
                _ => DownEvent::Done,
            };
            action = down_next(action, event);
        }
        signals.push(count);
    }
    assert_eq!(signals, vec![6, 0]);
}
