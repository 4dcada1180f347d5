use qgui::active::{
    probe_target, require_active_session_state, Reports, SessionCheck, SessionFacts, SessionFault,
    SessionProbe,
};
use qgui::component::{
    component_reports, components, first_failed_component, first_failed_report, Component,
    ComponentProbe, HealthState, ReportError,
};
use qgui::env::{env_json, env_json_output, env_output, env_shell, EnvError, EnvFormat};
use qgui::pidfile::{PidFile, PidFileError};
use qgui::session::{
    down_display, host_port, screen, session_env_pairs, session_state, SessionState, UpArgs,
};
use qgui::shell::shell_escape;
use qgui::target::Target;
use qgui::text::NumberError;

fn test_state() -> SessionState {
    SessionState {
        display: ":1".to_string(),
        res: "1920x1080".to_string(),
        depth: 24,
        vnc_bind: "127.0.0.1".to_string(),
        vnc_port: 5901,
        novnc_bind: "0.0.0.0".to_string(),
        novnc_port: 6080,
        novnc_web_root: "/usr/share/novnc".to_string(),
        dbus_addr: "unix:path=/run/qgui/dbus.sock".to_string(),
        dbus_socket: "/run/qgui/dbus.sock".to_string(),
        xdg_runtime_dir: "/run/qgui/xdg-runtime".to_string(),
    }
}

fn found(text: &str, alive: bool) -> ComponentProbe {
    ComponentProbe { file: PidFile::Text(text.to_string()), alive }
}

fn absent() -> ComponentProbe {
    ComponentProbe { file: PidFile::Absent, alive: false }
}

fn running() -> [ComponentProbe; 4] {
    [found("11", true), found("12\n", true), found("13", true), found("14", true)]
}

#[test]
fn session_env_contains_gui_contract() {
    let state = test_state();
    let envs = session_env_pairs(&state);
    assert_eq!(envs[0], ("DISPLAY", ":1"));
    assert_eq!(
        envs[1],
        ("DBUS_SESSION_BUS_ADDRESS", "unix:path=/run/qgui/dbus.sock")
    );
    assert_eq!(envs[2], ("XDG_RUNTIME_DIR", "/run/qgui/xdg-runtime"));
    assert_eq!(envs[3], ("QT_X11_NO_MITSHM", "1"));
}

#[test]
fn shell_escape_quotes_when_needed() {
    assert_eq!(shell_escape("/run/qgui/dbus.sock"), "/run/qgui/dbus.sock");
    assert_eq!(shell_escape("hello world"), "'hello world'");
}

#[test]
fn shell_escape_keeps_plain_characters() {
    assert_eq!(shell_escape(""), "");
    assert_eq!(shell_escape("AZaz09_/:.-"), "AZaz09_/:.-");
}

#[test]
fn shell_escape_parts_single_quotes() {
    assert_eq!(shell_escape("it's"), "'it'\"'\"'s'");
    assert_eq!(shell_escape("'"), "''\"'\"''");
    assert_eq!(shell_escape("$HOME\n`x`"), "'$HOME\n`x`'");
    assert_eq!(shell_escape("\u{e9}"), "'\u{e9}'");
    assert_eq!(shell_escape("unix:path=/run"), "'unix:path=/run'");
}

#[test]
fn defaults_are_the_documented_ones() {
    let args = UpArgs::default();
    assert_eq!(args.display, ":1");
    assert_eq!(screen(&args.res, args.depth), "1920x1080x24");
    assert_eq!(host_port(&args.vnc_bind, args.vnc_port), "127.0.0.1:5901");
    assert_eq!(host_port(&args.novnc_bind, args.novnc_port), "0.0.0.0:6080");
    assert_eq!(args.novnc_web_root, "/usr/share/novnc");
    assert_eq!(args.wait_ready_secs, 10);
}

#[test]
fn session_follows_the_arguments() {
    let state = session_state(&UpArgs::default());
    let expected = test_state();
    assert_eq!(state.display, expected.display);
    assert_eq!(state.res, expected.res);
    assert_eq!(state.depth, expected.depth);
    assert_eq!(state.vnc_bind, expected.vnc_bind);
    assert_eq!(state.vnc_port, expected.vnc_port);
    assert_eq!(state.novnc_bind, expected.novnc_bind);
    assert_eq!(state.novnc_port, expected.novnc_port);
    assert_eq!(state.novnc_web_root, expected.novnc_web_root);
    assert_eq!(state.dbus_addr, expected.dbus_addr);
    assert_eq!(state.dbus_socket, expected.dbus_socket);
    assert_eq!(state.xdg_runtime_dir, expected.xdg_runtime_dir);
}

#[test]
fn env_for_a_shell() {
    assert_eq!(
        env_shell(&test_state()),
        "export DISPLAY=:1\n\
         export DBUS_SESSION_BUS_ADDRESS='unix:path=/run/qgui/dbus.sock'\n\
         export XDG_RUNTIME_DIR=/run/qgui/xdg-runtime\n\
         export QT_X11_NO_MITSHM=1\n"
    );
    assert_eq!(
        env_output(&test_state(), EnvFormat::Shell),
        Ok(env_shell(&test_state()))
    );
}

#[test]
fn env_as_json() {
    let text = "{\n  \"DBUS_SESSION_BUS_ADDRESS\": \"unix:path=/run/qgui/dbus.sock\",\n  \
                \"DISPLAY\": \":1\",\n  \"QT_X11_NO_MITSHM\": \"1\",\n  \
                \"XDG_RUNTIME_DIR\": \"/run/qgui/xdg-runtime\"\n}";
    assert_eq!(env_json(&test_state()), Some(text.to_string()));
    assert_eq!(
        env_output(&test_state(), EnvFormat::Json),
        Ok(format!("{}\n", text))
    );
}

#[test]
fn env_as_json_is_read_back() {
    let mut state = test_state();
    state.display = "a \"b\" \\ c".to_string();
    let text = env_json(&state).unwrap();
    let value: serde_json::Value = serde_json::from_str(&text).unwrap();
    for (key, expected) in session_env_pairs(&state) {
        assert_eq!(value.get(key).and_then(|v| v.as_str()), Some(expected));
    }
    assert_eq!(value.as_object().map(|o| o.len()), Some(4));
}

#[test]
fn env_json_output_for_each_outcome() {
    assert_eq!(env_json_output(Some("{}".to_string())), Ok("{}\n".to_string()));
    assert_eq!(env_json_output(None), Err(EnvError::Serialize));
    assert_eq!(EnvError::Serialize.message(), "serialize qgui env");
}

#[test]
fn reports_name_the_health_of_each_component() {
    let mut probes = running();
    probes[1].alive = false;
    probes[3] = absent();
    let reports = component_reports(&probes).unwrap();
    let found: Vec<(&str, Option<u32>, &str)> =
        reports.iter().map(|r| (r.name, r.pid, r.state.as_str())).collect();
    assert_eq!(
        found,
        vec![
            ("xvfb", Some(11), "running"),
            ("xfce", Some(12), "dead"),
            ("x11vnc", Some(13), "running"),
            ("websockify", None, "missing"),
        ]
    );
    assert_eq!(first_failed_report(&reports).map(|r| r.name), Some("xfce"));
    assert_eq!(first_failed_component(&probes), Ok(Some("xfce")));
}

#[test]
fn nothing_failed_where_all_run() {
    assert_eq!(first_failed_component(&running()), Ok(None));
    assert!(first_failed_report(&Vec::new()).is_none());
}

#[test]
fn one_bad_pid_file_is_in_the_way_of_all_reports() {
    let probes = [absent(), absent(), absent(), found("abc", false)];
    let error = ReportError {
        component: Component::Websockify,
        cause: PidFileError::Malformed(NumberError::InvalidDigit),
    };
    assert_eq!(component_reports(&probes).unwrap_err(), error);
    assert_eq!(first_failed_component(&probes), Err(error));
    assert_eq!(error.message(), "parse pid");
}

#[test]
fn first_bad_pid_file_is_reported() {
    let unreadable = ComponentProbe { file: PidFile::Unreadable, alive: true };
    let probes = [found("11", false), unreadable, found("", true), absent()];
    let error = component_reports(&probes).unwrap_err();
    assert_eq!(error.component, Component::Xfce);
    assert_eq!(error.cause, PidFileError::Unreadable);
    assert_eq!(error.message(), "read pid file");
}

#[test]
fn components_come_in_their_order() {
    assert_eq!(
        components(),
        [Component::Xvfb, Component::Xfce, Component::X11vnc, Component::Websockify]
    );
    assert_eq!(Component::X11vnc.name(), "x11vnc");
}

fn looked(probes: [ComponentProbe; 4]) -> Reports {
    Some(component_reports(&probes))
}

#[test]
fn active_session_needs_every_part() {
    let state = test_state();
    let none: Reports = None;
    let mut facts = SessionFacts::none();
    assert!(matches!(
        require_active_session_state(Some(&state), &none, facts),
        SessionCheck::LookAtComponents
    ));
    let reports = looked(running());
    assert!(matches!(
        require_active_session_state(Some(&state), &reports, facts),
        SessionCheck::Probe(SessionProbe::DbusSocket)
    ));
    facts = facts.with(SessionProbe::DbusSocket, true);
    assert!(matches!(
        require_active_session_state(Some(&state), &reports, facts),
        SessionCheck::Probe(SessionProbe::Vnc)
    ));
    facts = facts.with(SessionProbe::Vnc, true);
    assert!(matches!(
        require_active_session_state(Some(&state), &reports, facts),
        SessionCheck::Probe(SessionProbe::Novnc)
    ));
    facts = facts.with(SessionProbe::Novnc, true);
    assert!(matches!(
        require_active_session_state(Some(&state), &reports, facts),
        SessionCheck::Usable
    ));
}

fn fault(reports: &Reports, facts: SessionFacts) -> String {
    match require_active_session_state(Some(&test_state()), reports, facts) {
        SessionCheck::Unusable(fault) => fault.message(),
        other => panic!("{:?}", other),
    }
}

#[test]
fn each_fault_of_a_session_is_named() {
    let reports = looked(running());
    let mut probes = running();
    probes[2].alive = false;
    let none = SessionFacts::none();
    assert_eq!(
        fault(&looked(probes), none),
        "qgui session is not usable: component 'x11vnc' is dead"
    );
    let facts = none.with(SessionProbe::DbusSocket, false);
    assert_eq!(
        fault(&reports, facts),
        "qgui session is not usable: dbus session socket missing at /run/qgui/dbus.sock"
    );
    let facts = none.with(SessionProbe::DbusSocket, true).with(SessionProbe::Vnc, false);
    assert_eq!(
        fault(&reports, facts),
        "qgui session is not usable: VNC is not listening on 127.0.0.1:5901"
    );
    let facts = none
        .with(SessionProbe::DbusSocket, true)
        .with(SessionProbe::Vnc, true)
        .with(SessionProbe::Novnc, false);
    assert_eq!(
        fault(&reports, facts),
        "qgui session is not usable: noVNC/websockify is not listening on 0.0.0.0:6080"
    );
}

#[test]
fn missing_session_comes_before_all_else() {
    let mut probes = running();
    probes[0] = found("abc", false);
    for reports in [None, looked(running()), looked(probes)] {
        match require_active_session_state(None, &reports, SessionFacts::none()) {
            SessionCheck::Unusable(fault) => {
                assert_eq!(fault.message(), "no active qgui session; run `qgui up` first");
            }
            other => panic!("{:?}", other),
        }
    }
}

#[test]
fn bad_pid_file_comes_before_the_components() {
    let mut probes = running();
    probes[0] = absent();
    probes[3] = found("4294967296", true);
    let reports = looked(probes);
    match require_active_session_state(Some(&test_state()), &reports, SessionFacts::none()) {
        SessionCheck::Unusable(SessionFault::NoReports(error)) => {
            assert_eq!(error.component, Component::Websockify);
            assert_eq!(error.cause, PidFileError::Malformed(NumberError::PosOverflow));
        }
        other => panic!("{:?}", other),
    }
    assert_eq!(fault(&reports, SessionFacts::none()), "parse pid");
}

#[test]
fn missing_component_is_a_fault() {
    let mut probes = running();
    probes[0] = absent();
    let reports = looked(probes);
    match require_active_session_state(Some(&test_state()), &reports, SessionFacts::none()) {
        SessionCheck::Unusable(SessionFault::ComponentDown { name, state }) => {
            assert_eq!(name, "xvfb");
            assert_eq!(state, HealthState::Missing);
        }
        other => panic!("{:?}", other),
    }
}

#[test]
fn session_is_looked_at_where_it_says() {
    let mut state = test_state();
    state.dbus_socket = "/elsewhere".to_string();
    match probe_target(SessionProbe::DbusSocket, &state) {
        Target::Path(path) => assert_eq!(path, "/elsewhere"),
        other => panic!("{:?}", other),
    }
    match probe_target(SessionProbe::Vnc, &state) {
        Target::Port { host, port } => assert_eq!((host.as_str(), port), ("127.0.0.1", 5901)),
        other => panic!("{:?}", other),
    }
    match probe_target(SessionProbe::Novnc, &state) {
        Target::Port { host, port } => assert_eq!((host.as_str(), port), ("0.0.0.0", 6080)),
        other => panic!("{:?}", other),
    }
}

#[test]
fn teardown_falls_back_to_the_usual_display() {
    let mut state = test_state();
    state.display = ":7".to_string();
    assert_eq!(down_display(Some(state)), ":7");
    assert_eq!(down_display(None), ":1");
}
