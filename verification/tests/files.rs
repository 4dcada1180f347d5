use qgui::paths::{
    base_dirs, dbus_socket_path, display_artifacts, display_lock_path, display_socket_path,
    join_path, log_path, no_vnc_assets, no_vnc_root_checks, pid_path, state_path, xdg_runtime_path,
};
use qgui::pidfile::{pid_text, process_path, raw_pid, read_pid, PidFile, PidFileError};
use qgui::resolution::validate_resolution;
use qgui::text::NumberError;

fn read(text: &str) -> Result<Option<u32>, PidFileError> {
    read_pid(&PidFile::Text(text.to_string()))
}

#[test]
fn paths_of_a_session() {
    assert_eq!(state_path(), "/run/qgui/session.json");
    assert_eq!(pid_path("xvfb"), "/run/qgui/xvfb.pid");
    assert_eq!(log_path("websockify"), "/var/lib/qgui/logs/websockify.log");
    assert_eq!(dbus_socket_path(), "/run/qgui/dbus.sock");
    assert_eq!(xdg_runtime_path(), "/run/qgui/xdg-runtime");
    assert_eq!(base_dirs(), vec!["/run/qgui", "/var/lib/qgui", "/var/lib/qgui/logs"]);
}

#[test]
fn absolute_names_stand_for_themselves() {
    assert_eq!(log_path("/tmp/other"), "/tmp/other.log");
    assert_eq!(pid_path("/x"), "/x.pid");
}

#[test]
fn join_is_that_of_std() {
    for base in ["", "/", "a", "a/", "/run/qgui", "/run/qgui/"] {
        for rest in ["", "b", "/b", "b/c", "../b"] {
            let expected = std::path::Path::new(base).join(rest);
            assert_eq!(join_path(base, rest), expected.display().to_string());
        }
    }
}

#[test]
fn display_files() {
    assert_eq!(display_lock_path(":1").as_deref(), Some("/tmp/.X1-lock"));
    assert_eq!(display_socket_path(":1").as_deref(), Some("/tmp/.X11-unix/X1"));
    assert_eq!(display_lock_path(":").as_deref(), Some("/tmp/.X-lock"));
    assert_eq!(display_lock_path("host:1"), None);
    assert_eq!(display_socket_path(""), None);
    assert_eq!(display_artifacts(":12"), vec!["/tmp/.X12-lock", "/tmp/.X11-unix/X12"]);
    assert!(display_artifacts("1").is_empty());
}

#[test]
fn no_vnc_assets_are_checked_in_order() {
    assert_eq!(
        no_vnc_assets("/usr/share/novnc"),
        [
            "/usr/share/novnc/vnc.html",
            "/usr/share/novnc/app/ui.js",
            "/usr/share/novnc/app/images",
        ]
    );
    assert!(no_vnc_root_checks("/w", [true, true, true]).is_ok());
    let first = no_vnc_root_checks("/w", [false, true, false]).unwrap_err();
    assert_eq!(first.message(), "missing noVNC asset: /w/vnc.html");
    let second = no_vnc_root_checks("/w", [true, false, false]).unwrap_err();
    assert_eq!(second.message(), "missing noVNC asset: /w/app/ui.js");
    let third = no_vnc_root_checks("/w/", [true, true, false]).unwrap_err();
    assert_eq!(third.path, "/w/app/images");
}

#[test]
fn pid_is_read_back() {
    for pid in [0, 7, 10, 99, 100, 32768, 4294967295u32] {
        assert_eq!(pid_text(pid), pid.to_string());
        assert_eq!(read(&pid_text(pid)), Ok(Some(pid)));
        assert_eq!(read(&format!(" \t{}\r\n", pid)), Ok(Some(pid)));
        assert_eq!(read(&format!("\u{3000}{}\u{a0}\u{2028}", pid)), Ok(Some(pid)));
    }
    assert_eq!(read_pid(&PidFile::Absent), Ok(None));
}

#[test]
fn pid_errors() {
    assert_eq!(read(""), Err(PidFileError::Malformed(NumberError::Empty)));
    assert_eq!(read(" \n"), Err(PidFileError::Malformed(NumberError::Empty)));
    assert_eq!(read("12a"), Err(PidFileError::Malformed(NumberError::InvalidDigit)));
    assert_eq!(read("-1"), Err(PidFileError::Malformed(NumberError::InvalidDigit)));
    assert_eq!(read("4294967296"), Err(PidFileError::Malformed(NumberError::PosOverflow)));
    assert_eq!(read_pid(&PidFile::Unreadable), Err(PidFileError::Unreadable));
    assert_eq!(PidFileError::Unreadable.message(), "read pid file");
    assert_eq!(PidFileError::Malformed(NumberError::Empty).message(), "parse pid");
}

#[test]
fn numbers_are_read_as_std_reads_them() {
    let texts = [
        "", "+", "-", "+1", "++1", "-0", "+-1", "00012", "0", "1_0", "1 2", "99999999999x",
        "9999999999", "429496729x", "4294967295", "4294967296", "42949672950", "+4294967295",
        "0000000000000042", "x99999999999", "\u{0661}", "4294967295x",
    ];
    for text in texts {
        match (read(text), text.parse::<u32>()) {
            (Ok(found), Ok(expected)) => assert_eq!(found, Some(expected)),
            (Err(PidFileError::Malformed(found)), Err(expected)) => {
                assert_eq!(found.message(), format!("{}", expected), "{:?}", text)
            }
            (found, expected) => panic!("{:?}: {:?} {:?}", text, found, expected),
        }
    }
}

#[test]
fn white_space_is_that_of_std() {
    for n in 0..0x3100u32 {
        if let Some(c) = char::from_u32(n) {
            if c.is_ascii_digit() || c == '+' {
                continue;
            }
            let text = format!("{}5{}", c, c);
            assert_eq!(read(&text).is_ok(), c.is_whitespace(), "{:?}", c);
        }
    }
}

#[test]
fn process_entries() {
    assert_eq!(process_path(1), "/proc/1");
    assert_eq!(process_path(4294967295), "/proc/4294967295");
}

#[test]
fn pids_are_signed_for_signals() {
    assert_eq!(raw_pid(0), 0);
    assert_eq!(raw_pid(2147483647), 2147483647);
    assert_eq!(raw_pid(2147483648), -2147483648);
    assert_eq!(raw_pid(4294967295), -1);
}

#[test]
fn resolutions() {
    for good in ["1920x1080", "0x0", "+1x+2", "4294967295x1", "007x08"] {
        assert!(validate_resolution(good).is_ok(), "{}", good);
    }
    for bad in [
        "", "x", "1920", "1920x", "x1080", "1920x1080x24", "1920X1080", "1920 x1080", "-1x5",
        "4294967296x1", "axb", "1xx2",
    ] {
        assert!(validate_resolution(bad).is_err(), "{}", bad);
    }
    assert_eq!(
        validate_resolution("big").unwrap_err().message(),
        "resolution must be WIDTHxHEIGHT"
    );
}
