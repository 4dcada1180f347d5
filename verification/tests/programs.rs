use qgui::command::{component_command, dbus_command, split_command, MissingCommand};
use qgui::component::{component_reports, Component, ComponentProbe};
use qgui::doctor::Binary;
use qgui::exit::{exit_with_status, ExitDecision};
use qgui::pidfile::PidFile;
use qgui::session::{session_env_pairs, session_state, UpArgs};
use qgui::status::{
    component_status_lines, log_banner, log_not_found_message, log_tail, session_status_lines,
    started_lines, status, DEFAULT_LOG_COMPONENT, DEFAULT_TAIL_BYTES,
};

#[test]
fn session_bus_command() {
    let command = dbus_command();
    assert_eq!(command.program, "dbus-daemon");
    assert_eq!(
        command.args,
        vec![
            "--session",
            "--fork",
            "--address",
            "unix:path=/run/qgui/dbus.sock",
            "--print-address",
        ]
    );
    assert!(!command.session_env);
}

#[test]
fn xvfb_command_line() {
    let command = component_command(Component::Xvfb, &UpArgs::default());
    assert_eq!(command.program, "Xvfb");
    assert_eq!(
        command.args,
        vec![":1", "-screen", "0", "1920x1080x24", "-nolisten", "tcp"]
    );
    assert!(!command.session_env);
}

#[test]
fn xfce_command_line() {
    let command = component_command(Component::Xfce, &UpArgs::default());
    assert_eq!(command.program, "xfce4-session");
    assert!(command.args.is_empty());
    assert!(command.session_env);
}

#[test]
fn x11vnc_stays_local_by_default() {
    let command = component_command(Component::X11vnc, &UpArgs::default());
    assert_eq!(command.program, "x11vnc");
    assert_eq!(
        command.args,
        vec![
            "-display",
            ":1",
            "-rfbport",
            "5901",
            "-nopw",
            "-forever",
            "-shared",
            "-loop",
            "-repeat",
            "-noxdamage",
            "-localhost",
        ]
    );
    assert!(command.session_env);
    let args = UpArgs { vnc_bind: "localhost".to_string(), ..UpArgs::default() };
    let command = component_command(Component::X11vnc, &args);
    assert_eq!(command.args.last().map(|s| s.as_str()), Some("-localhost"));
}

#[test]
fn x11vnc_listens_where_told() {
    let args = UpArgs { vnc_bind: "10.0.0.5".to_string(), vnc_port: 7, ..UpArgs::default() };
    let command = component_command(Component::X11vnc, &args);
    assert_eq!(command.args[3], "7");
    assert_eq!(command.args[10..], ["-listen", "10.0.0.5"]);
    assert_eq!(command.args.len(), 12);
}

#[test]
fn websockify_bridges_to_the_vnc_server() {
    let command = component_command(Component::Websockify, &UpArgs::default());
    assert_eq!(command.program, "websockify");
    assert_eq!(
        command.args,
        vec!["--web", "/usr/share/novnc", "0.0.0.0:6080", "127.0.0.1:5901"]
    );
    assert!(!command.session_env);
}

#[test]
fn command_is_parted() {
    assert_eq!(split_command(vec!["xeyes"]), Ok(("xeyes", vec![])));
    assert_eq!(split_command(vec![1, 2, 3]), Ok((1, vec![2, 3])));
    assert_eq!(split_command(Vec::<String>::new()), Err(MissingCommand));
    assert_eq!(
        MissingCommand.message(),
        "missing command; usage: qgui run -- <command...>"
    );
}

#[test]
fn exit_codes() {
    assert_eq!(exit_with_status(true, Some(0), None), ExitDecision::Success);
    assert_eq!(exit_with_status(false, Some(3), None), ExitDecision::Exit(3));
    assert_eq!(exit_with_status(false, None, Some(9)), ExitDecision::Exit(137));
    assert_eq!(exit_with_status(false, None, None), ExitDecision::Failed);
}

#[test]
fn ready_session_is_announced() {
    assert_eq!(
        started_lines(&session_state(&UpArgs::default())),
        vec![
            "qgui: display        :1",
            "qgui: resolution     1920x1080x24",
            "qgui: vnc            127.0.0.1:5901  (loopback-only, proxy auth)",
            "qgui: novnc          0.0.0.0:6080  (enabled)",
            "qgui: dbus           /run/qgui/dbus.sock",
            "qgui: xdg_runtime    /run/qgui/xdg-runtime",
            "qgui: ready",
        ]
    );
}

#[test]
fn status_of_a_session() {
    let state = session_state(&UpArgs::default());
    assert_eq!(
        session_status_lines(Some(&state), true, false),
        vec![
            "qgui: display=:1 resolution=1920x1080 depth=24",
            "qgui: dbus_socket=/run/qgui/dbus.sock",
            "qgui: xdg_runtime_dir=/run/qgui/xdg-runtime",
            "qgui: novnc_web_root=/usr/share/novnc",
            "qgui: vnc=127.0.0.1:5901 reachable=true",
            "qgui: novnc=0.0.0.0:6080 reachable=false",
        ]
    );
    assert_eq!(session_status_lines(None, false, false), vec!["qgui: session=missing"]);
}

fn found(text: &str, alive: bool) -> ComponentProbe {
    ComponentProbe { file: PidFile::Text(text.to_string()), alive }
}

fn absent() -> ComponentProbe {
    ComponentProbe { file: PidFile::Absent, alive: false }
}

#[test]
fn status_of_components() {
    let probes = [found("5", true), found("6", false), absent(), absent()];
    let reports = component_reports(&probes).unwrap();
    assert_eq!(
        component_status_lines(&reports),
        vec![
            "qgui: component=xvfb pid=5 status=running",
            "qgui: component=xfce pid=6 status=dead",
            "qgui: component=x11vnc status=missing",
            "qgui: component=websockify status=missing",
        ]
    );
}

#[test]
fn status_of_a_session_with_its_components() {
    let probes = [found("5", true), found("6", false), absent(), found("7", true)];
    let found = status(None, false, false, &component_reports(&probes));
    assert_eq!(
        found.lines,
        vec![
            "qgui: session=missing",
            "qgui: component=xvfb pid=5 status=running",
            "qgui: component=xfce pid=6 status=dead",
            "qgui: component=x11vnc status=missing",
            "qgui: component=websockify pid=7 status=running",
        ]
    );
    assert!(found.error.is_none());
}

#[test]
fn session_lines_come_in_spite_of_a_bad_pid_file() {
    let state = session_state(&UpArgs::default());
    let probes = [found("5", true), absent(), absent(), found("abc", false)];
    let found = status(Some(&state), true, true, &component_reports(&probes));
    assert_eq!(found.lines, session_status_lines(Some(&state), true, true));
    assert_eq!(found.lines.len(), 6);
    let error = found.error.unwrap();
    assert_eq!(error.component, Component::Websockify);
    assert_eq!(error.message(), "parse pid");
}

#[test]
fn end_of_a_log() {
    assert_eq!(log_tail(b"abcdef", 2), b"ef");
    assert_eq!(log_tail(b"abcdef", 6), b"abcdef");
    assert_eq!(log_tail(b"abcdef", 100), b"abcdef");
    assert_eq!(log_tail(b"abcdef", 0), b"");
    assert_eq!(log_tail(b"", DEFAULT_TAIL_BYTES), b"");
    assert_eq!(DEFAULT_LOG_COMPONENT, "websockify");
}

#[test]
fn log_texts() {
    assert_eq!(log_banner("xvfb", "noon"), "\n== xvfb: starting at noon ==\n\n");
    assert_eq!(
        log_not_found_message("dbus"),
        "log file not found: /var/lib/qgui/logs/dbus.log"
    );
}

#[test]
fn programs_share_the_session() {
    let args = UpArgs { display: ":5".to_string(), ..UpArgs::default() };
    let state = session_state(&args);
    let env = session_env_pairs(&state);
    assert_eq!(component_command(Component::Xvfb, &args).args[0], env[0].1);
    assert_eq!(component_command(Component::X11vnc, &args).args[1], env[0].1);
    assert_eq!(dbus_command().args[3], env[1].1);
    assert_eq!(env[1].1, format!("unix:path={}", state.dbus_socket));
}

#[test]
fn programs_are_looked_for() {
    let args = UpArgs::default();
    let wanted = [
        (Component::Xvfb, Binary::Xvfb),
        (Component::Xfce, Binary::Xfce4Session),
        (Component::X11vnc, Binary::X11vnc),
        (Component::Websockify, Binary::Websockify),
    ];
    for (component, binary) in wanted {
        assert_eq!(component_command(component, &args).program, binary.name());
    }
    assert_eq!(dbus_command().program, Binary::DbusDaemon.name());
    assert_eq!(Binary::Xrdb.name(), "xrdb");
    assert_eq!(Binary::Xauth.name(), "xauth");
    assert_eq!(Binary::Xsetroot.name(), "xsetroot");
}
