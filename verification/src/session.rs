//! The session: what it is asked to be, what it is, and the variables that
//! programs need to take part in it.

use vstd::prelude::*;

use crate::paths;
use crate::paths::{dbus_socket_path, xdg_runtime_path};
use crate::text;
use crate::text::decimal_text;

verus! {

/// The X display of a session, unless another one is asked for.
pub const DEFAULT_DISPLAY: &'static str = ":1";

/// The resolution of the screen, unless another one is asked for.
pub const DEFAULT_RES: &'static str = "1920x1080";

/// The bits per pixel, unless others are asked for.
pub const DEFAULT_DEPTH: u16 = 24;

/// Where the VNC server listens, unless told otherwise.
pub const DEFAULT_VNC_BIND: &'static str = "127.0.0.1";

/// The port of the VNC server, unless another one is asked for.
pub const DEFAULT_VNC_PORT: u16 = 5901;

/// Where noVNC listens, unless told otherwise.
pub const DEFAULT_NOVNC_BIND: &'static str = "0.0.0.0";

/// The port of noVNC, unless another one is asked for.
pub const DEFAULT_NOVNC_PORT: u16 = 6080;

/// Where the files of the noVNC client are, unless told otherwise.
pub const DEFAULT_NOVNC_WEB_ROOT: &'static str = "/usr/share/novnc";

/// How long a start may take, unless told otherwise.
pub const DEFAULT_WAIT_READY_SECS: u64 = 10;

/// What a session is asked to be.
#[derive(Clone, Debug)]
pub struct UpArgs {
    /// The X display.
    pub display: String,
    /// The resolution of the screen.
    pub res: String,
    /// The bits per pixel.
    pub depth: u16,
    /// Where the VNC server listens.
    pub vnc_bind: String,
    /// The port of the VNC server.
    pub vnc_port: u16,
    /// Where noVNC listens.
    pub novnc_bind: String,
    /// The port of noVNC.
    pub novnc_port: u16,
    /// Where the files of the noVNC client are.
    pub novnc_web_root: String,
    /// How long the last step of a start may take.
    pub wait_ready_secs: u64,
}

impl Default for UpArgs {
    fn default() -> (r: UpArgs)
        ensures
            r.display@ == DEFAULT_DISPLAY@,
            r.res@ == DEFAULT_RES@,
            r.depth == DEFAULT_DEPTH,
            r.vnc_bind@ == DEFAULT_VNC_BIND@,
            r.vnc_port == DEFAULT_VNC_PORT,
            r.novnc_bind@ == DEFAULT_NOVNC_BIND@,
            r.novnc_port == DEFAULT_NOVNC_PORT,
            r.novnc_web_root@ == DEFAULT_NOVNC_WEB_ROOT@,
            r.wait_ready_secs == DEFAULT_WAIT_READY_SECS,
    {
        UpArgs {
            display: DEFAULT_DISPLAY.to_string(),
            res: DEFAULT_RES.to_string(),
            depth: DEFAULT_DEPTH,
            vnc_bind: DEFAULT_VNC_BIND.to_string(),
            vnc_port: DEFAULT_VNC_PORT,
            novnc_bind: DEFAULT_NOVNC_BIND.to_string(),
            novnc_port: DEFAULT_NOVNC_PORT,
            novnc_web_root: DEFAULT_NOVNC_WEB_ROOT.to_string(),
            wait_ready_secs: DEFAULT_WAIT_READY_SECS,
        }
    }
}

/// What is written down of a session while it runs.
#[derive(Clone, Debug)]
pub struct SessionState {
    /// The X display.
    pub display: String,
    /// The resolution of the screen.
    pub res: String,
    /// The bits per pixel.
    pub depth: u16,
    /// Where the VNC server listens.
    pub vnc_bind: String,
    /// The port of the VNC server.
    pub vnc_port: u16,
    /// Where noVNC listens.
    pub novnc_bind: String,
    /// The port of noVNC.
    pub novnc_port: u16,
    /// Where the files of the noVNC client are.
    pub novnc_web_root: String,
    /// The address of the session bus.
    pub dbus_addr: String,
    /// The socket of the session bus.
    pub dbus_socket: String,
    /// The runtime directory of the session.
    pub xdg_runtime_dir: String,
}

/// The address under which the socket of the session bus is known.
pub open spec fn dbus_address_text() -> Seq<char> {
    "unix:path="@ + paths::dbus_socket_text()
}

/// What a [`SessionState`] holds.
pub struct SessionView {
    /// The X display.
    pub display: Seq<char>,
    /// The resolution of the screen.
    pub res: Seq<char>,
    /// The bits per pixel.
    pub depth: u16,
    /// Where the VNC server listens.
    pub vnc_bind: Seq<char>,
    /// The port of the VNC server.
    pub vnc_port: u16,
    /// Where noVNC listens.
    pub novnc_bind: Seq<char>,
    /// The port of noVNC.
    pub novnc_port: u16,
    /// Where the files of the noVNC client are.
    pub novnc_web_root: Seq<char>,
    /// The address of the session bus.
    pub dbus_addr: Seq<char>,
    /// The socket of the session bus.
    pub dbus_socket: Seq<char>,
    /// The runtime directory of the session.
    pub xdg_runtime_dir: Seq<char>,
}

impl View for SessionState {
    type V = SessionView;

    open spec fn view(&self) -> SessionView {
        SessionView {
            display: self.display@,
            res: self.res@,
            depth: self.depth,
            vnc_bind: self.vnc_bind@,
            vnc_port: self.vnc_port,
            novnc_bind: self.novnc_bind@,
            novnc_port: self.novnc_port,
            novnc_web_root: self.novnc_web_root@,
            dbus_addr: self.dbus_addr@,
            dbus_socket: self.dbus_socket@,
            xdg_runtime_dir: self.xdg_runtime_dir@,
        }
    }
}

/// The session that `args` ask for.
pub open spec fn session_of(args: UpArgs) -> SessionView {
    SessionView {
        display: args.display@,
        res: args.res@,
        depth: args.depth,
        vnc_bind: args.vnc_bind@,
        vnc_port: args.vnc_port,
        novnc_bind: args.novnc_bind@,
        novnc_port: args.novnc_port,
        novnc_web_root: args.novnc_web_root@,
        dbus_addr: dbus_address_text(),
        dbus_socket: paths::dbus_socket_text(),
        xdg_runtime_dir: paths::xdg_runtime_text(),
    }
}

/// `state` is the session that `args` ask for.
pub open spec fn is_session_of(state: SessionState, args: UpArgs) -> bool {
    state@ == session_of(args)
}

/// The address of the session bus.
pub fn dbus_address() -> (r: String)
    ensures
        r@ == dbus_address_text(),
{
    "unix:path=".to_string().concat(dbus_socket_path().as_str())
}

/// The session that `args` ask for.
pub fn session_state(args: &UpArgs) -> (r: SessionState)
    ensures
        is_session_of(r, *args),
{
    SessionState {
        display: args.display.clone(),
        res: args.res.clone(),
        depth: args.depth,
        vnc_bind: args.vnc_bind.clone(),
        vnc_port: args.vnc_port,
        novnc_bind: args.novnc_bind.clone(),
        novnc_port: args.novnc_port,
        novnc_web_root: args.novnc_web_root.clone(),
        dbus_addr: dbus_address(),
        dbus_socket: dbus_socket_path(),
        xdg_runtime_dir: xdg_runtime_path(),
    }
}

/// The variables that a program of a session gets.
pub open spec fn variables(session: SessionView) -> Seq<(Seq<char>, Seq<char>)> {
    seq![
        ("DISPLAY"@, session.display),
        ("DBUS_SESSION_BUS_ADDRESS"@, session.dbus_addr),
        ("XDG_RUNTIME_DIR"@, session.xdg_runtime_dir),
        ("QT_X11_NO_MITSHM"@, "1"@),
    ]
}

/// The variables that a program of the session gets.
pub open spec fn session_env(state: SessionState) -> Seq<(Seq<char>, Seq<char>)> {
    variables(state@)
}

/// The names and values of the variables that a program of the session gets.
pub fn session_env_pairs(state: &SessionState) -> (r: [(&'static str, &str); 4])
    ensures
        forall|i: int|
            0 <= i < 4 ==> (#[trigger] r@[i]).0@ == session_env(*state)[i].0 && r@[i].1@
                == session_env(*state)[i].1,
{
    [
        ("DISPLAY", state.display.as_str()),
        ("DBUS_SESSION_BUS_ADDRESS", state.dbus_addr.as_str()),
        ("XDG_RUNTIME_DIR", state.xdg_runtime_dir.as_str()),
        ("QT_X11_NO_MITSHM", "1"),
    ]
}

/// No variable is given twice.
pub proof fn law_variables_are_distinct(state: SessionState, i: int, j: int)
    requires
        0 <= i < 4,
        0 <= j < 4,
        session_env(state)[i].0 == session_env(state)[j].0,
    ensures
        i == j,
{
    reveal_strlit("DISPLAY");
    reveal_strlit("DBUS_SESSION_BUS_ADDRESS");
    reveal_strlit("XDG_RUNTIME_DIR");
    reveal_strlit("QT_X11_NO_MITSHM");
    assert(session_env(state)[0].0.len() == 7);
    assert(session_env(state)[1].0.len() == 24);
    assert(session_env(state)[2].0.len() == 15);
    assert(session_env(state)[3].0.len() == 16);
}

/// An address and a port.
pub open spec fn host_port_text(host: Seq<char>, port: u16) -> Seq<char> {
    host + ":"@ + text::decimal(port as int)
}

/// An address and a port, with a colon between them.
pub fn host_port(host: &str, port: u16) -> (r: String)
    ensures
        r@ == host_port_text(host@, port),
{
    host.to_string().concat(":").concat(decimal_text(port as u64).as_str())
}

/// The resolution with the bits per pixel behind it.
pub open spec fn screen_text(res: Seq<char>, depth: u16) -> Seq<char> {
    res + "x"@ + text::decimal(depth as int)
}

/// The resolution with the bits per pixel behind it.
pub fn screen(res: &str, depth: u16) -> (r: String)
    ensures
        r@ == screen_text(res@, depth),
{
    res.to_string().concat("x").concat(decimal_text(depth as u64).as_str())
}

/// The display that a teardown clears: that of the session, or the usual one
/// where no session is written down.
pub open spec fn down_display_text(state: Option<SessionState>) -> Seq<char> {
    match state {
        Some(s) => s.display@,
        None => DEFAULT_DISPLAY@,
    }
}

/// The display that a teardown clears.
pub fn down_display(state: Option<SessionState>) -> (r: String)
    ensures
        r@ == down_display_text(state),
{
    match state {
        Some(s) => s.display,
        None => DEFAULT_DISPLAY.to_string(),
    }
}

/// A session keeps what it was asked to be, and has its bus and its runtime directory
/// where every session has them.
pub proof fn law_session_keeps_the_arguments(args: UpArgs, state: SessionState)
    requires
        call_ensures(session_state, (&args,), state),
    ensures
        state.display@ == args.display@,
        state.res@ == args.res@,
        state.depth == args.depth,
        state.vnc_bind@ == args.vnc_bind@,
        state.vnc_port == args.vnc_port,
        state.novnc_bind@ == args.novnc_bind@,
        state.novnc_port == args.novnc_port,
        state.novnc_web_root@ == args.novnc_web_root@,
        state.dbus_addr@ == "unix:path="@ + state.dbus_socket@,
        state.dbus_socket@ == "/run/qgui/dbus.sock"@,
        state.xdg_runtime_dir@ == "/run/qgui/xdg-runtime"@,
{
    paths::law_places();
}

/// What is known of two sessions is the same only where all of it is.
pub proof fn law_session_view_leaves_nothing_out(a: SessionState, b: SessionState)
    requires
        a@ == b@,
    ensures
        a.display@ == b.display@,
        a.res@ == b.res@,
        a.depth == b.depth,
        a.vnc_bind@ == b.vnc_bind@,
        a.vnc_port == b.vnc_port,
        a.novnc_bind@ == b.novnc_bind@,
        a.novnc_port == b.novnc_port,
        a.novnc_web_root@ == b.novnc_web_root@,
        a.dbus_addr@ == b.dbus_addr@,
        a.dbus_socket@ == b.dbus_socket@,
        a.xdg_runtime_dir@ == b.xdg_runtime_dir@,
{
}

/// The variables of a session say which display, which bus and which runtime
/// directory it has, and that images are not shared with the X server through memory;
/// there are no others.
pub proof fn law_variables_say_what_the_session_is(
    state: SessionState,
    r: [(&'static str, &str); 4],
)
    requires
        call_ensures(session_env_pairs, (&state,), r),
    ensures
        r@[0].0@ == "DISPLAY"@ && r@[0].1@ == state.display@,
        r@[1].0@ == "DBUS_SESSION_BUS_ADDRESS"@ && r@[1].1@ == state.dbus_addr@,
        r@[2].0@ == "XDG_RUNTIME_DIR"@ && r@[2].1@ == state.xdg_runtime_dir@,
        r@[3].0@ == "QT_X11_NO_MITSHM"@ && r@[3].1@ == "1"@,
        session_env(state).len() == 4,
{
    assert(r@[0].0@ == session_env(state)[0].0 && r@[1].0@ == session_env(state)[1].0);
    assert(r@[2].0@ == session_env(state)[2].0 && r@[3].0@ == session_env(state)[3].0);
}

/// An address with a port begins with the address and ends with the digits of the
/// port, with a colon between them, so that different ports show.
pub proof fn law_host_and_port_show(host: Seq<char>, a: u16, b: u16)
    ensures
        host_port_text(host, a) == host + seq![':'] + text::decimal(a as int),
        host_port_text(host, a) == host_port_text(host, b) ==> a == b,
{
    reveal_strlit(":");
    assert(":"@ =~= seq![':']);
    let ta = host_port_text(host, a);
    let tb = host_port_text(host, b);
    assert(ta.skip(host.len() as int + 1) =~= text::decimal(a as int));
    assert(tb.skip(host.len() as int + 1) =~= text::decimal(b as int));
    text::lemma_decimal(a as int);
    text::lemma_decimal(b as int);
}

/// A screen begins with the resolution and ends with the digits of its depth, with an
/// `x` between them, so that different depths show.
pub proof fn law_resolution_and_depth_show(res: Seq<char>, a: u16, b: u16)
    ensures
        screen_text(res, a) == res + seq!['x'] + text::decimal(a as int),
        screen_text(res, a) == screen_text(res, b) ==> a == b,
{
    reveal_strlit("x");
    assert("x"@ =~= seq!['x']);
    let ta = screen_text(res, a);
    let tb = screen_text(res, b);
    assert(ta.skip(res.len() as int + 1) =~= text::decimal(a as int));
    assert(tb.skip(res.len() as int + 1) =~= text::decimal(b as int));
    text::lemma_decimal(a as int);
    text::lemma_decimal(b as int);
}

/// A teardown clears the display of the session that is written down, whichever it
/// is, and that of a session with nothing else asked for where none is.
pub proof fn law_display_that_is_cleared(
    state: SessionState,
    of_session: String,
    without: String,
    usual: UpArgs,
)
    requires
        call_ensures(down_display, (Some(state),), of_session),
        call_ensures(down_display, (None::<SessionState>,), without),
        call_ensures(<UpArgs as Default>::default, (), usual),
    ensures
        of_session@ == state.display@,
        without@ == usual.display@,
{
}

/// What a session is where nothing is asked for.
pub proof fn law_defaults(usual: UpArgs)
    requires
        call_ensures(<UpArgs as Default>::default, (), usual),
    ensures
        usual.display@ == ":1"@,
        usual.res@ == "1920x1080"@,
        usual.depth == 24,
        usual.vnc_bind@ == "127.0.0.1"@,
        usual.vnc_port == 5901,
        usual.novnc_bind@ == "0.0.0.0"@,
        usual.novnc_port == 6080,
        usual.novnc_web_root@ == "/usr/share/novnc"@,
        usual.wait_ready_secs == 10,
{
}

/// An address with a port, a resolution with a depth, and the address of the bus, as they
/// are written.
pub proof fn law_written_forms(
    host: &str,
    port: u16,
    res: &str,
    depth: u16,
    at: String,
    on: String,
    bus: String,
)
    requires
        call_ensures(host_port, (host, port), at),
        call_ensures(screen, (res, depth), on),
        call_ensures(dbus_address, (), bus),
    ensures
        at@ == host@ + seq![':'] + text::decimal(port as int),
        on@ == res@ + seq!['x'] + text::decimal(depth as int),
        bus@ == "unix:path="@ + "/run/qgui/dbus.sock"@,
{
    law_host_and_port_show(host@, port, port);
    law_resolution_and_depth_show(res@, depth, depth);
    paths::law_places();
}

} // verus!
