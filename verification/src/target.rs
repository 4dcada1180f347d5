//! What an action is about: the files, ports, processes and programs.

use vstd::prelude::*;

use crate::command;
use crate::command::CommandLine;
use crate::paths;
use crate::session::{SessionState, SessionView};
use crate::text;

verus! {

/// What an action is about.
#[derive(Debug)]
pub enum Target {
    /// Nothing beyond the action itself.
    Nothing,
    /// Directories to make, in this order.
    Dirs(Vec<String>),
    /// A directory to make, with its permissions.
    PrivateDir {
        /// Where it is.
        path: String,
        /// The permissions.
        mode: u32,
    },
    /// A file or a directory to look at, read or remove.
    Path(String),
    /// Files to remove, in this order.
    Paths(Vec<String>),
    /// A file to write.
    File {
        /// Where it is.
        path: String,
        /// What it is to hold.
        contents: String,
    },
    /// A session to write down.
    Session {
        /// Where it is written.
        path: String,
        /// The session.
        state: SessionState,
    },
    /// A check to make.
    Checkup {
        /// A running session is checked too.
        check_ports: bool,
    },
    /// A port to connect to.
    Port {
        /// The address.
        host: String,
        /// The port.
        port: u16,
    },
    /// A program to look for.
    Search(&'static str),
    /// A program to start.
    Program {
        /// The name of its log.
        log: &'static str,
        /// The program, with its arguments.
        command: CommandLine,
        /// The variables that it gets on top of those that are there already.
        env: Vec<(&'static str, String)>,
    },
    /// A signal to send.
    Signal {
        /// The process.
        pid: i32,
        /// The number of the signal.
        signal: i32,
    },
    /// A display to wait for.
    Display {
        /// The display.
        display: String,
        /// How many seconds it may take.
        secs: u64,
    },
    /// A time to wait.
    Pause {
        /// How long.
        millis: u64,
    },
}

/// What a [`Target`] holds.
pub enum TargetView {
    /// Nothing beyond the action itself.
    Nothing,
    /// Directories to make, in this order.
    Dirs(Seq<Seq<char>>),
    /// A directory to make, with its permissions.
    PrivateDir(Seq<char>, u32),
    /// A file or a directory to look at, read or remove.
    Path(Seq<char>),
    /// Files to remove, in this order.
    Paths(Seq<Seq<char>>),
    /// A file to write, and what it is to hold.
    File(Seq<char>, Seq<char>),
    /// Where a session is written, and the session.
    Session(Seq<char>, SessionView),
    /// A check, and whether a running session is checked too.
    Checkup(bool),
    /// An address and a port to connect to.
    Port(Seq<char>, u16),
    /// A program to look for.
    Search(Seq<char>),
    /// A program to start: the name of its log, its own name, its arguments,
    /// whether it takes part in the session, and the variables that it gets.
    Program(Seq<char>, Seq<char>, Seq<Seq<char>>, bool, Seq<(Seq<char>, Seq<char>)>),
    /// A process, and the number of the signal to send to it.
    Signal(int, int),
    /// A display to wait for, and how many seconds it may take.
    Display(Seq<char>, u64),
    /// How many milliseconds to wait.
    Pause(u64),
}

impl View for Target {
    type V = TargetView;

    open spec fn view(&self) -> TargetView {
        match *self {
            Target::Nothing => TargetView::Nothing,
            Target::Dirs(paths) => TargetView::Dirs(text::texts(paths@)),
            Target::PrivateDir { path, mode } => TargetView::PrivateDir(path@, mode),
            Target::Path(path) => TargetView::Path(path@),
            Target::Paths(paths) => TargetView::Paths(text::texts(paths@)),
            Target::File { path, contents } => TargetView::File(path@, contents@),
            Target::Session { path, state } => TargetView::Session(path@, state@),
            Target::Checkup { check_ports } => TargetView::Checkup(check_ports),
            Target::Port { host, port } => TargetView::Port(host@, port),
            Target::Search(name) => TargetView::Search(name@),
            Target::Program { log, command, env } => TargetView::Program(
                log@,
                command.program@,
                text::texts(command.args@),
                command.session_env,
                command::variable_texts(env@),
            ),
            Target::Signal { pid, signal } => TargetView::Signal(pid as int, signal as int),
            Target::Display { display, secs } => TargetView::Display(display@, secs),
            Target::Pause { millis } => TargetView::Pause(millis),
        }
    }
}

/// A path where there is one.
pub open spec fn path_or_nothing(path: Option<Seq<char>>) -> TargetView {
    match path {
        Some(p) => TargetView::Path(p),
        None => TargetView::Nothing,
    }
}

/// A path where there is one.
pub fn maybe_path(path: Option<String>) -> (r: Target)
    ensures
        r@ == path_or_nothing(paths::opt_text(path)),
{
    match path {
        Some(p) => Target::Path(p),
        None => Target::Nothing,
    }
}

/// What is known of a target is all that it holds.
pub proof fn law_target_view_leaves_nothing_out(t: Target)
    ensures
        t@ is Nothing <==> t is Nothing,
        match t@ {
            TargetView::Nothing => true,
            TargetView::Dirs(list) => t is Dirs && list == text::texts(t->Dirs_0@),
            TargetView::PrivateDir(path, mode) => t is PrivateDir && t->PrivateDir_path@ == path
                && t->mode == mode,
            TargetView::Path(path) => t is Path && t->Path_0@ == path,
            TargetView::Paths(list) => t is Paths && list == text::texts(t->Paths_0@),
            TargetView::File(path, contents) => t is File && t->File_path@ == path && t->contents@
                == contents,
            TargetView::Session(path, session) => t is Session && t->Session_path@ == path
                && t->state@ == session,
            TargetView::Checkup(check_ports) => t is Checkup && t->check_ports == check_ports,
            TargetView::Port(host, port) => t is Port && t->host@ == host && t->port == port,
            TargetView::Search(name) => t is Search && t->Search_0@ == name,
            TargetView::Program(log, program, args, joins, env) => {
                &&& t is Program
                &&& t->log@ == log
                &&& t->command.program@ == program
                &&& text::texts(t->command.args@) == args
                &&& t->command.session_env == joins
                &&& env.len() == t->env@.len()
                &&& forall|i: int|
                    0 <= i < env.len() ==> #[trigger] env[i] == (t->env@[i].0@, t->env@[i].1@)
            },
            TargetView::Signal(pid, signal) => t is Signal && t->pid == pid && t->signal == signal,
            TargetView::Display(display, secs) => t is Display && t->display@ == display && t->secs
                == secs,
            TargetView::Pause(millis) => t is Pause && t->millis == millis,
        },
{
}

/// A path is given where there is one, and nothing otherwise.
pub proof fn law_path_or_nothing(path: String, some: Target, none: Target)
    requires
        call_ensures(maybe_path, (Some(path),), some),
        call_ensures(maybe_path, (None::<String>,), none),
    ensures
        some@ == TargetView::Path(path@),
        none@ == TargetView::Nothing,
{
}

} // verus!
