//! The programs that a session runs, with their arguments.

use vstd::prelude::*;

use crate::component::Component;
use crate::doctor::Binary;
use crate::session;
use crate::session::{
    dbus_address, host_port, screen, session_env_pairs, session_state, SessionState, SessionView,
    UpArgs,
};
use crate::text;
use crate::text::decimal_text;

verus! {

/// What the session bus is called in logs.
pub const DBUS_NAME: &'static str = "dbus";

/// A program to run.
#[derive(Debug)]
pub struct CommandLine {
    /// What the program is called.
    pub program: &'static str,
    /// Its arguments.
    pub args: Vec<String>,
    /// It gets the variables of the session.
    pub session_env: bool,
}

/// `command` runs `program` with `args`, with the variables of the session or not.
pub open spec fn runs(
    command: CommandLine,
    program: Seq<char>,
    args: Seq<Seq<char>>,
    session_env: bool,
) -> bool {
    &&& command.program@ == program
    &&& text::texts(command.args@) == args
    &&& command.session_env == session_env
}

/// The arguments of the session bus.
pub open spec fn dbus_args() -> Seq<Seq<char>> {
    seq![
        "--session"@,
        "--fork"@,
        "--address"@,
        session::dbus_address_text(),
        "--print-address"@,
    ]
}

/// The arguments of the X server.
pub open spec fn xvfb_args(args: UpArgs) -> Seq<Seq<char>> {
    seq![
        args.display@,
        "-screen"@,
        "0"@,
        session::screen_text(args.res@, args.depth),
        "-nolisten"@,
        "tcp"@,
    ]
}

/// `bind` stands for this machine only.
pub open spec fn is_loopback(bind: Seq<char>) -> bool {
    bind == "127.0.0.1"@ || bind == "localhost"@
}

/// The arguments that say where the VNC server listens.
pub open spec fn listen_args(bind: Seq<char>) -> Seq<Seq<char>> {
    if is_loopback(bind) {
        seq!["-localhost"@]
    } else {
        seq!["-listen"@, bind]
    }
}

/// The arguments of the VNC server.
pub open spec fn x11vnc_args(args: UpArgs) -> Seq<Seq<char>> {
    seq![
        "-display"@,
        args.display@,
        "-rfbport"@,
        text::decimal(args.vnc_port as int),
        "-nopw"@,
        "-forever"@,
        "-shared"@,
        "-loop"@,
        "-repeat"@,
        "-noxdamage"@,
    ] + listen_args(args.vnc_bind@)
}

/// The arguments of the bridge between the browser and the VNC server.
pub open spec fn websockify_args(args: UpArgs) -> Seq<Seq<char>> {
    seq![
        "--web"@,
        args.novnc_web_root@,
        session::host_port_text(args.novnc_bind@, args.novnc_port),
        session::host_port_text(args.vnc_bind@, args.vnc_port),
    ]
}

/// The arguments of a component.
pub open spec fn component_args(component: Component, args: UpArgs) -> Seq<Seq<char>> {
    match component {
        Component::Xvfb => xvfb_args(args),
        Component::Xfce => seq![],
        Component::X11vnc => x11vnc_args(args),
        Component::Websockify => websockify_args(args),
    }
}

/// The program of a component.
pub open spec fn component_program(component: Component) -> Seq<char> {
    match component {
        Component::Xvfb => "Xvfb"@,
        Component::Xfce => "xfce4-session"@,
        Component::X11vnc => "x11vnc"@,
        Component::Websockify => "websockify"@,
    }
}

/// The component takes part in the X session, so that it gets its variables.
pub open spec fn joins_session(component: Component) -> bool {
    component == Component::Xfce || component == Component::X11vnc
}

fn args_of<const N: usize>(words: [&str; N]) -> (r: Vec<String>)
    ensures
        r@.len() == N,
        forall|i: int| 0 <= i < N ==> (#[trigger] r@[i])@ == words@[i]@,
{
    let mut r: Vec<String> = Vec::new();
    let mut i: usize = 0;
    while i < N
        invariant
            i <= N,
            r@.len() == i,
            forall|j: int| 0 <= j < i ==> (#[trigger] r@[j])@ == words@[j]@,
        decreases N - i,
    {
        r.push(words[i].to_string());
        i += 1;
    }
    r
}

/// How the session bus is started.
pub fn dbus_command() -> (r: CommandLine)
    ensures
        runs(r, "dbus-daemon"@, dbus_args(), false),
{
    let address = dbus_address();
    let args = args_of(["--session", "--fork", "--address", address.as_str(), "--print-address"]);
    assert(text::texts(args@) == dbus_args());
    CommandLine { program: "dbus-daemon", args, session_env: false }
}

fn xvfb_command(args: &UpArgs) -> (r: CommandLine)
    ensures
        runs(r, "Xvfb"@, xvfb_args(*args), false),
{
    let screen = screen(args.res.as_str(), args.depth);
    let list = args_of(
        [args.display.as_str(), "-screen", "0", screen.as_str(), "-nolisten", "tcp"],
    );
    assert(text::texts(list@) == xvfb_args(*args));
    CommandLine { program: "Xvfb", args: list, session_env: false }
}

fn xfce_command() -> (r: CommandLine)
    ensures
        runs(r, "xfce4-session"@, seq![], true),
{
    let args: Vec<String> = Vec::new();
    assert(text::texts(args@) == Seq::<Seq<char>>::empty());
    CommandLine { program: "xfce4-session", args, session_env: true }
}

fn loopback(bind: &String) -> (r: bool)
    ensures
        r == is_loopback(bind@),
{
    *bind == "127.0.0.1".to_string() || *bind == "localhost".to_string()
}

fn x11vnc_command(args: &UpArgs) -> (r: CommandLine)
    ensures
        runs(r, "x11vnc"@, x11vnc_args(*args), true),
{
    let port = decimal_text(args.vnc_port as u64);
    let mut list = args_of(
        [
            "-display",
            args.display.as_str(),
            "-rfbport",
            port.as_str(),
            "-nopw",
            "-forever",
            "-shared",
            "-loop",
            "-repeat",
            "-noxdamage",
        ],
    );
    if loopback(&args.vnc_bind) {
        list.push("-localhost".to_string());
    } else {
        list.push("-listen".to_string());
        list.push(args.vnc_bind.clone());
    }
    assert(text::texts(list@) == x11vnc_args(*args));
    CommandLine { program: "x11vnc", args: list, session_env: true }
}

fn websockify_command(args: &UpArgs) -> (r: CommandLine)
    ensures
        runs(r, "websockify"@, websockify_args(*args), false),
{
    let source = host_port(args.novnc_bind.as_str(), args.novnc_port);
    let target = host_port(args.vnc_bind.as_str(), args.vnc_port);
    let list = args_of(
        ["--web", args.novnc_web_root.as_str(), source.as_str(), target.as_str()],
    );
    assert(text::texts(list@) == websockify_args(*args));
    CommandLine { program: "websockify", args: list, session_env: false }
}

/// How a component of the session that `args` ask for is started.
pub fn component_command(component: Component, args: &UpArgs) -> (r: CommandLine)
    ensures
        runs(
            r,
            component_program(component),
            component_args(component, *args),
            joins_session(component),
        ),
{
    match component {
        Component::Xvfb => xvfb_command(args),
        Component::Xfce => xfce_command(),
        Component::X11vnc => x11vnc_command(args),
        Component::Websockify => websockify_command(args),
    }
}

/// The names and values of variables.
pub open spec fn variable_texts(
    list: Seq<(&'static str, String)>,
) -> Seq<(Seq<char>, Seq<char>)> {
    list.map_values(|v: (&'static str, String)| (v.0@, v.1@))
}

/// The variables that a program gets on top of those that are there already: those
/// of the session where it takes part in it, and none otherwise.
pub open spec fn added_variables(
    session_env: bool,
    session: SessionView,
) -> Seq<(Seq<char>, Seq<char>)> {
    if session_env {
        session::variables(session)
    } else {
        seq![]
    }
}

/// The variables that `command` gets in the session `state`, on top of those that
/// are there already.
pub fn command_env(command: &CommandLine, state: &SessionState) -> (r: Vec<
    (&'static str, String),
>)
    ensures
        variable_texts(r@) == added_variables(command.session_env, state@),
{
    let mut list: Vec<(&'static str, String)> = Vec::new();
    if command.session_env {
        let pairs = session_env_pairs(state);
        let mut i: usize = 0;
        while i < 4
            invariant
                i <= 4,
                list@.len() == i,
                forall|j: int|
                    0 <= j < 4 ==> (#[trigger] pairs@[j]).0@ == session::session_env(*state)[j].0
                        && pairs@[j].1@ == session::session_env(*state)[j].1,
                forall|j: int|
                    0 <= j < i ==> (#[trigger] list@[j]).0@ == session::session_env(*state)[j].0
                        && list@[j].1@ == session::session_env(*state)[j].1,
            decreases 4 - i,
        {
            let (name, value) = pairs[i];
            assert(pairs@[i as int] == (name, value));
            list.push((name, value.to_string()));
            i += 1;
        }
    }
    assert(variable_texts(list@) == added_variables(command.session_env, state@));
    list
}

/// The command to run is empty.
#[derive(Clone, Copy, Debug, PartialEq, Eq, Structural)]
pub struct MissingCommand;

impl MissingCommand {
    /// The error in words.
    pub fn message(self) -> (m: &'static str)
        ensures
            m@ == "missing command; usage: qgui run -- <command...>"@,
    {
        "missing command; usage: qgui run -- <command...>"
    }
}

/// Parts a command into the program and its arguments.
pub fn split_command<T>(command: Vec<T>) -> (r: Result<(T, Vec<T>), MissingCommand>)
    ensures
        match r {
            Ok((program, args)) => command@.len() > 0 && program == command@[0] && args@
                == command@.drop_first(),
            Err(_) => command@.len() == 0,
        },
{
    let mut rest = command;
    if rest.len() == 0 {
        return Err(MissingCommand);
    }
    let program = rest.remove(0);
    assert(rest@ == command@.drop_first());
    Ok((program, rest))
}

// ---------------------------------------------------------------------------
// Laws
// ---------------------------------------------------------------------------

/// The VNC server is told to stay on this machine exactly where its address
/// stands for this machine only; everywhere else it listens on that address.
pub proof fn law_vnc_stays_local(args: UpArgs)
    ensures
        is_loopback(args.vnc_bind@) ==> x11vnc_args(args).last() == "-localhost"@,
        !is_loopback(args.vnc_bind@) ==> x11vnc_args(args).last() == args.vnc_bind@
            && x11vnc_args(args)[x11vnc_args(args).len() - 2] == "-listen"@,
{
}

/// The address that the VNC server has unless told otherwise stands for this
/// machine only.
pub proof fn law_default_vnc_is_local()
    ensures
        is_loopback(session::DEFAULT_VNC_BIND@),
{
}

/// Whatever a session is asked to be, its X server takes no connections over TCP,
/// and its VNC server asks for no password.
pub proof fn law_fixed_options(args: UpArgs)
    ensures
        xvfb_args(args).subrange(4, 6) == seq!["-nolisten"@, "tcp"@],
        x11vnc_args(args).contains("-nopw"@),
{
    assert(x11vnc_args(args)[4] == "-nopw"@);
}

/// The browser is bridged to the address and the port of the VNC server.
pub proof fn law_bridge_leads_to_vnc(args: UpArgs)
    ensures
        websockify_args(args).last() == args.vnc_bind@ + ":"@ + x11vnc_args(args)[3],
{
}

/// The programs of a session are told the same of it as its variables say: the
/// X server and the VNC server get its display, and the session bus its address,
/// which is that of its socket.
pub proof fn law_programs_share_the_session(args: UpArgs, state: SessionState)
    requires
        session::is_session_of(state, args),
    ensures
        xvfb_args(args)[0] == session::session_env(state)[0].1,
        x11vnc_args(args)[1] == session::session_env(state)[0].1,
        dbus_args()[3] == session::session_env(state)[1].1,
        session::session_env(state)[1].1 == "unix:path="@ + state.dbus_socket@,
{
}

/// Every program that a session starts is one that the check looks for.
pub proof fn law_programs_are_looked_for(component: Component)
    ensures
        exists|b: Binary| (#[trigger] b.text()) == component_program(component),
        exists|b: Binary| (#[trigger] b.text()) == "dbus-daemon"@,
{
    assert(Binary::DbusDaemon.text() == "dbus-daemon"@);
    assert(Binary::Xvfb.text() == "Xvfb"@);
    assert(Binary::Xfce4Session.text() == "xfce4-session"@);
    assert(Binary::X11vnc.text() == "x11vnc"@);
    assert(Binary::Websockify.text() == "websockify"@);
}

/// The X server runs on the display that was asked for, with one screen of the
/// resolution and the depth that were asked for, and does not listen on a network.
pub proof fn law_x_server_is_the_one_asked_for(args: UpArgs, command: CommandLine)
    requires
        call_ensures(component_command, (Component::Xvfb, &args), command),
    ensures
        text::texts(command.args@).len() == 6,
        text::texts(command.args@)[0] == args.display@,
        text::texts(command.args@).subrange(1, 3) == seq!["-screen"@, "0"@],
        text::texts(command.args@)[3] == args.res@ + seq!['x'] + text::decimal(args.depth as int),
        text::texts(command.args@).subrange(4, 6) == seq!["-nolisten"@, "tcp"@],
        command.program@ == Binary::Xvfb.text(),
        !command.session_env,
{
    session::law_resolution_and_depth_show(args.res@, args.depth, args.depth);
}

/// The desktop is started without arguments, in the session.
pub proof fn law_desktop_joins_the_session(args: UpArgs, command: CommandLine)
    requires
        call_ensures(component_command, (Component::Xfce, &args), command),
    ensures
        text::texts(command.args@).len() == 0,
        command.program@ == Binary::Xfce4Session.text(),
        command.session_env,
{
}

/// The VNC server shows the display that was asked for, on the port that was asked
/// for, to any number of viewers and for as long as the session lasts. Where its
/// address stands for this machine only, it is told so, and otherwise it is told the
/// address.
pub proof fn law_vnc_server_is_the_one_asked_for(args: UpArgs, command: CommandLine)
    requires
        call_ensures(component_command, (Component::X11vnc, &args), command),
    ensures
        text::texts(command.args@).len() >= 11,
        text::texts(command.args@).take(10) == seq![
            "-display"@,
            args.display@,
            "-rfbport"@,
            text::decimal(args.vnc_port as int),
            "-nopw"@,
            "-forever"@,
            "-shared"@,
            "-loop"@,
            "-repeat"@,
            "-noxdamage"@,
        ],
        args.vnc_bind@ == "127.0.0.1"@ || args.vnc_bind@ == "localhost"@ ==> text::texts(
            command.args@,
        ).skip(10) == seq!["-localhost"@],
        args.vnc_bind@ != "127.0.0.1"@ && args.vnc_bind@ != "localhost"@ ==> text::texts(
            command.args@,
        ).skip(10) == seq!["-listen"@, args.vnc_bind@],
        command.program@ == Binary::X11vnc.text(),
        command.session_env,
{
}

/// The bridge serves the web root that was asked for on the address and port that were
/// asked for, and leads to the VNC server on its address and port.
pub proof fn law_bridge_is_the_one_asked_for(args: UpArgs, command: CommandLine)
    requires
        call_ensures(component_command, (Component::Websockify, &args), command),
    ensures
        text::texts(command.args@).len() == 4,
        text::texts(command.args@)[0] == "--web"@,
        text::texts(command.args@)[1] == args.novnc_web_root@,
        text::texts(command.args@)[2] == args.novnc_bind@ + seq![':'] + text::decimal(
            args.novnc_port as int,
        ),
        text::texts(command.args@)[3] == args.vnc_bind@ + seq![':'] + text::decimal(
            args.vnc_port as int,
        ),
        command.program@ == Binary::Websockify.text(),
        !command.session_env,
{
    session::law_host_and_port_show(args.novnc_bind@, args.novnc_port, args.novnc_port);
    session::law_host_and_port_show(args.vnc_bind@, args.vnc_port, args.vnc_port);
}

/// The session bus goes to the background, and takes the address that the programs of
/// every session are told.
pub proof fn law_bus_has_the_address_of_the_session(
    command: CommandLine,
    args: UpArgs,
    state: SessionState,
)
    requires
        call_ensures(dbus_command, (), command),
        call_ensures(session_state, (&args,), state),
    ensures
        text::texts(command.args@) == seq![
            "--session"@,
            "--fork"@,
            "--address"@,
            state.dbus_addr@,
            "--print-address"@,
        ],
        command.program@ == Binary::DbusDaemon.text(),
        !command.session_env,
{
}

/// A program that takes part in a session gets the four variables of that session, and
/// one that does not gets none.
pub proof fn law_variables_of_a_program(
    command: CommandLine,
    state: SessionState,
    r: Vec<(&'static str, String)>,
)
    requires
        call_ensures(command_env, (&command, &state), r),
    ensures
        !command.session_env ==> r@.len() == 0,
        command.session_env ==> {
            &&& r@.len() == 4
            &&& r@[0].0@ == "DISPLAY"@ && r@[0].1@ == state.display@
            &&& r@[1].0@ == "DBUS_SESSION_BUS_ADDRESS"@ && r@[1].1@ == state.dbus_addr@
            &&& r@[2].0@ == "XDG_RUNTIME_DIR"@ && r@[2].1@ == state.xdg_runtime_dir@
            &&& r@[3].0@ == "QT_X11_NO_MITSHM"@ && r@[3].1@ == "1"@
        },
{
    let all = variable_texts(r@);
    assert(all.len() == r@.len());
    if command.session_env {
        assert(all.len() == 4);
        assert(all[0] == (r@[0].0@, r@[0].1@) && all[1] == (r@[1].0@, r@[1].1@));
        assert(all[2] == (r@[2].0@, r@[2].1@) && all[3] == (r@[3].0@, r@[3].1@));
    }
}

/// A command that is parted and put together again is what it was; only one that is
/// empty cannot be parted.
pub proof fn law_command_is_parted<T>(
    command: Vec<T>,
    r: Result<(T, Vec<T>), MissingCommand>,
)
    requires
        call_ensures(split_command::<T>, (command,), r),
    ensures
        match r {
            Ok((program, args)) => seq![program] + args@ == command@,
            Err(_) => command@.len() == 0,
        },
{
    if let Ok((program, args)) = r {
        assert(seq![program] + args@ =~= command@);
    }
}

} // verus!
