//! Where the files of a session are.

use vstd::prelude::*;

use crate::text;
use crate::text::{chars_of, string_of};

verus! {

/// Where the files of the running session are.
pub const RUN_DIR: &'static str = "/run/qgui";

/// Where files that outlive a session are.
pub const DATA_DIR: &'static str = "/var/lib/qgui";

/// The permissions of a directory that only its owner may use.
pub const RUNTIME_DIR_MODE: u32 = 0o700;

/// `rest` below `base`, as `Path::join` gives it on Unix: an absolute `rest`
/// stands for itself, and a separator is put where `base` does not end in one.
pub open spec fn join(base: Seq<char>, rest: Seq<char>) -> Seq<char> {
    if rest.len() > 0 && rest[0] == '/' {
        rest
    } else if base.len() == 0 || base.last() == '/' {
        base + rest
    } else {
        base + "/"@ + rest
    }
}

/// The path `rest` below `base`.
pub fn join_path(base: &str, rest: &str) -> (r: String)
    ensures
        r@ == join(base@, rest@),
{
    let tail = chars_of(rest);
    if tail.len() > 0 && tail[0] == '/' {
        return rest.to_string();
    }
    let head = chars_of(base);
    if head.len() == 0 || head[head.len() - 1] == '/' {
        base.to_string().concat(rest)
    } else {
        base.to_string().concat("/").concat(rest)
    }
}

/// Where the session is written down.
pub open spec fn state_path_text() -> Seq<char> {
    join(RUN_DIR@, "session.json"@)
}

/// Where the pid of `name` is written down.
pub open spec fn pid_path_text(name: Seq<char>) -> Seq<char> {
    join(RUN_DIR@, name + ".pid"@)
}

/// The directory of the logs.
pub open spec fn log_dir_text() -> Seq<char> {
    join(DATA_DIR@, "logs"@)
}

/// Where the output of `name` goes.
pub open spec fn log_path_text(name: Seq<char>) -> Seq<char> {
    join(log_dir_text(), name + ".log"@)
}

/// The socket of the session bus.
pub open spec fn dbus_socket_text() -> Seq<char> {
    join(RUN_DIR@, "dbus.sock"@)
}

/// The runtime directory of the session.
pub open spec fn xdg_runtime_text() -> Seq<char> {
    join(RUN_DIR@, "xdg-runtime"@)
}

/// Where the session is written down.
pub fn state_path() -> (r: String)
    ensures
        r@ == state_path_text(),
{
    join_path(RUN_DIR, "session.json")
}

/// Where the pid of `name` is written down.
pub fn pid_path(name: &str) -> (r: String)
    ensures
        r@ == pid_path_text(name@),
{
    join_path(RUN_DIR, name.to_string().concat(".pid").as_str())
}

/// The directory of the logs.
pub fn log_dir() -> (r: String)
    ensures
        r@ == log_dir_text(),
{
    join_path(DATA_DIR, "logs")
}

/// Where the output of `name` goes.
pub fn log_path(name: &str) -> (r: String)
    ensures
        r@ == log_path_text(name@),
{
    join_path(log_dir().as_str(), name.to_string().concat(".log").as_str())
}

/// The socket of the session bus.
pub fn dbus_socket_path() -> (r: String)
    ensures
        r@ == dbus_socket_text(),
{
    join_path(RUN_DIR, "dbus.sock")
}

/// The runtime directory of the session.
pub fn xdg_runtime_path() -> (r: String)
    ensures
        r@ == xdg_runtime_text(),
{
    join_path(RUN_DIR, "xdg-runtime")
}

/// The directories that every command needs, in the order in which they are made.
pub open spec fn base_dir_texts() -> Seq<Seq<char>> {
    seq![RUN_DIR@, DATA_DIR@, log_dir_text()]
}

/// The directories that every command needs, in the order in which they are made.
pub fn base_dirs() -> (r: Vec<String>)
    ensures
        text::texts(r@) == base_dir_texts(),
{
    let mut r: Vec<String> = Vec::new();
    r.push(RUN_DIR.to_string());
    r.push(DATA_DIR.to_string());
    r.push(log_dir());
    r
}

/// The name of a display on this machine: what follows the colon.
pub open spec fn local_display(display: Seq<char>) -> Option<Seq<char>> {
    if display.len() > 0 && display[0] == ':' {
        Some(display.drop_first())
    } else {
        None
    }
}

/// The lock of an X display.
pub open spec fn lock_path_text(display: Seq<char>) -> Option<Seq<char>> {
    match local_display(display) {
        Some(name) => Some(join("/tmp"@, ".X"@ + name + "-lock"@)),
        None => None,
    }
}

/// The socket of an X display.
pub open spec fn socket_path_text(display: Seq<char>) -> Option<Seq<char>> {
    match local_display(display) {
        Some(name) => Some(join("/tmp/.X11-unix"@, "X"@ + name)),
        None => None,
    }
}

/// What a string holds, where there is one.
pub open spec fn opt_text(s: Option<String>) -> Option<Seq<char>> {
    match s {
        Some(s) => Some(s@),
        None => None,
    }
}

fn local_display_name(display: &str) -> (r: Option<String>)
    ensures
        opt_text(r) == local_display(display@),
{
    let chars = chars_of(display);
    if chars.len() > 0 && chars[0] == ':' {
        assert(chars@.subrange(1, chars@.len() as int) == display@.drop_first());
        Some(string_of(&chars, 1, chars.len()))
    } else {
        None
    }
}

/// The lock of an X display; a display on another machine has none.
pub fn display_lock_path(display: &str) -> (r: Option<String>)
    ensures
        opt_text(r) == lock_path_text(display@),
{
    match local_display_name(display) {
        Some(name) => {
            let file = ".X".to_string().concat(name.as_str()).concat("-lock");
            Some(join_path("/tmp", file.as_str()))
        },
        None => None,
    }
}

/// The socket of an X display; a display on another machine has none.
pub fn display_socket_path(display: &str) -> (r: Option<String>)
    ensures
        opt_text(r) == socket_path_text(display@),
{
    match local_display_name(display) {
        Some(name) => {
            let file = "X".to_string().concat(name.as_str());
            Some(join_path("/tmp/.X11-unix", file.as_str()))
        },
        None => None,
    }
}

/// The files that an X server leaves behind: the lock, then the socket.
pub open spec fn artifact_texts(display: Seq<char>) -> Seq<Seq<char>> {
    match (lock_path_text(display), socket_path_text(display)) {
        (Some(lock), Some(socket)) => seq![lock, socket],
        (Some(lock), None) => seq![lock],
        (None, Some(socket)) => seq![socket],
        (None, None) => seq![],
    }
}

/// The files to remove before an X server starts on `display`, or once it is gone.
pub fn display_artifacts(display: &str) -> (r: Vec<String>)
    ensures
        text::texts(r@) == artifact_texts(display@),
{
    let mut r: Vec<String> = Vec::new();
    if let Some(lock) = display_lock_path(display) {
        r.push(lock);
    }
    if let Some(socket) = display_socket_path(display) {
        r.push(socket);
    }
    r
}

// ---------------------------------------------------------------------------
// The files of the noVNC client
// ---------------------------------------------------------------------------

/// What a noVNC web root has to hold.
pub open spec fn asset_texts(web_root: Seq<char>) -> Seq<Seq<char>> {
    seq![
        join(web_root, "vnc.html"@),
        join(web_root, "app/ui.js"@),
        join(web_root, "app/images"@),
    ]
}

/// The paths that have to be there below `web_root`, in the order of the checks.
pub fn no_vnc_assets(web_root: &str) -> (r: [String; 3])
    ensures
        r@[0]@ == asset_texts(web_root@)[0],
        r@[1]@ == asset_texts(web_root@)[1],
        r@[2]@ == asset_texts(web_root@)[2],
{
    [
        join_path(web_root, "vnc.html"),
        join_path(web_root, "app/ui.js"),
        join_path(web_root, "app/images"),
    ]
}

/// A path that a noVNC web root has to hold is not there.
#[derive(Debug)]
pub struct MissingAsset {
    /// The path.
    pub path: String,
}

impl MissingAsset {
    /// The error in words.
    pub fn message(&self) -> (m: String)
        ensures
            m@ == "missing noVNC asset: "@ + self.path@,
    {
        "missing noVNC asset: ".to_string().concat(self.path.as_str())
    }
}

/// Accepts a web root below which all assets are there. `present` says of each
/// path of `no_vnc_assets` whether it exists.
pub fn no_vnc_root_checks(web_root: &str, present: [bool; 3]) -> (r: Result<(), MissingAsset>)
    ensures
        r is Ok <==> present@[0] && present@[1] && present@[2],
        match r {
            Ok(_) => true,
            Err(e) => exists|i: int|
                0 <= i < 3 && !present@[i] && (forall|j: int| 0 <= j < i ==> present@[j])
                    && e.path@ == #[trigger] asset_texts(web_root@)[i],
        },
{
    if !present[0] {
        let path = join_path(web_root, "vnc.html");
        assert(path@ == asset_texts(web_root@)[0]);
        return Err(MissingAsset { path });
    }
    if !present[1] {
        let path = join_path(web_root, "app/ui.js");
        assert(path@ == asset_texts(web_root@)[1]);
        return Err(MissingAsset { path });
    }
    if !present[2] {
        let path = join_path(web_root, "app/images");
        assert(path@ == asset_texts(web_root@)[2]);
        return Err(MissingAsset { path });
    }
    Ok(())
}

// ---------------------------------------------------------------------------
// Laws
// ---------------------------------------------------------------------------

/// A display has a lock exactly where it has a socket: both are there for a
/// display on this machine.
pub proof fn law_lock_and_socket_together(display: Seq<char>)
    ensures
        lock_path_text(display) is Some <==> socket_path_text(display) is Some,
        lock_path_text(display) is Some <==> display.len() > 0 && display[0] == ':',
{
}

/// Different displays have different locks and different sockets.
pub proof fn law_displays_do_not_share(a: Seq<char>, b: Seq<char>)
    requires
        local_display(a) is Some,
        local_display(b) is Some,
        lock_path_text(a) == lock_path_text(b) || socket_path_text(a) == socket_path_text(b),
    ensures
        a == b,
{
    reveal_strlit("/tmp");
    reveal_strlit(".X");
    reveal_strlit("-lock");
    reveal_strlit("/tmp/.X11-unix");
    reveal_strlit("X");
    reveal_strlit("/");
    let na = a.drop_first();
    let nb = b.drop_first();
    if lock_path_text(a) == lock_path_text(b) {
        let la = "/tmp"@ + "/"@ + (".X"@ + na + "-lock"@);
        let lb = "/tmp"@ + "/"@ + (".X"@ + nb + "-lock"@);
        assert(la == lock_path_text(a)->0);
        assert(lb == lock_path_text(b)->0);
        assert(na == la.subrange(7, la.len() - 5));
        assert(nb == lb.subrange(7, lb.len() - 5));
    } else {
        let sa = "/tmp/.X11-unix"@ + "/"@ + ("X"@ + na);
        let sb = "/tmp/.X11-unix"@ + "/"@ + ("X"@ + nb);
        assert(sa == socket_path_text(a)->0);
        assert(sb == socket_path_text(b)->0);
        assert(na == sa.skip(16));
        assert(nb == sb.skip(16));
    }
    assert(a == seq![':'] + na);
    assert(b == seq![':'] + nb);
}

/// Names that are not absolute paths have pid files of their own, directly
/// below the run directory.
pub proof fn law_pid_files_are_distinct(a: Seq<char>, b: Seq<char>)
    requires
        a.len() > 0 ==> a[0] != '/',
        b.len() > 0 ==> b[0] != '/',
    ensures
        pid_path_text(a) == RUN_DIR@ + "/"@ + (a + ".pid"@),
        pid_path_text(a) == pid_path_text(b) ==> a == b,
{
    reveal_strlit("/run/qgui");
    reveal_strlit("/");
    reveal_strlit(".pid");
    let pa = RUN_DIR@ + "/"@ + (a + ".pid"@);
    let pb = RUN_DIR@ + "/"@ + (b + ".pid"@);
    assert((a + ".pid"@)[0] != '/' && (b + ".pid"@)[0] != '/');
    assert(pa == pid_path_text(a));
    assert(pb == pid_path_text(b));
    assert(a == pa.subrange(10, pa.len() - 4));
    assert(b == pb.subrange(10, pb.len() - 4));
}

/// The log of a name that is not an absolute path is below the log directory.
pub proof fn law_log_is_below_log_dir(name: Seq<char>)
    requires
        name.len() > 0 ==> name[0] != '/',
    ensures
        log_path_text(name) == log_dir_text() + "/"@ + (name + ".log"@),
{
    reveal_strlit("/var/lib/qgui");
    reveal_strlit("logs");
    reveal_strlit("/");
    reveal_strlit(".log");
    assert((name + ".log"@)[0] != '/');
    assert(log_dir_text() == "/var/lib/qgui"@ + "/"@ + "logs"@);
    assert(log_dir_text().last() == 's');
}

/// A path below another one begins with it and ends with what is below, with one
/// separator between them where the first does not end in one itself; an absolute
/// path stands for itself.
pub proof fn law_join(base: Seq<char>, rest: Seq<char>)
    ensures
        rest.len() > 0 && rest[0] == '/' ==> join(base, rest) == rest,
        rest.len() == 0 || rest[0] != '/' ==> {
            let between = join(base, rest).len() - base.len() - rest.len();
            &&& join(base, rest).take(base.len() as int) == base
            &&& join(base, rest).skip(base.len() + between) == rest
            &&& between == if base.len() > 0 && base.last() != '/' {
                1int
            } else {
                0int
            }
            &&& between == 1 ==> join(base, rest)[base.len() as int] == '/'
        },
{
    reveal_strlit("/");
    if rest.len() == 0 || rest[0] != '/' {
        let whole = join(base, rest);
        let between = whole.len() - base.len() - rest.len();
        assert(whole.take(base.len() as int) == base);
        assert(whole.skip(base.len() + between) == rest);
    }
}

/// Where the files of a session are.
pub proof fn law_places()
    ensures
        state_path_text() == "/run/qgui/session.json"@,
        dbus_socket_text() == "/run/qgui/dbus.sock"@,
        xdg_runtime_text() == "/run/qgui/xdg-runtime"@,
        log_dir_text() == "/var/lib/qgui/logs"@,
        base_dir_texts() == seq!["/run/qgui"@, "/var/lib/qgui"@, "/var/lib/qgui/logs"@],
        RUNTIME_DIR_MODE == 7 * 64,
{
    reveal_strlit("/");
    reveal_strlit("/run/qgui");
    reveal_strlit("/var/lib/qgui");
    reveal_strlit("session.json");
    reveal_strlit("dbus.sock");
    reveal_strlit("xdg-runtime");
    reveal_strlit("logs");
    reveal_strlit("/run/qgui/session.json");
    reveal_strlit("/run/qgui/dbus.sock");
    reveal_strlit("/run/qgui/xdg-runtime");
    reveal_strlit("/var/lib/qgui/logs");
    assert(state_path_text() =~= "/run/qgui/session.json"@);
    assert(dbus_socket_text() =~= "/run/qgui/dbus.sock"@);
    assert(xdg_runtime_text() =~= "/run/qgui/xdg-runtime"@);
    assert(log_dir_text() =~= "/var/lib/qgui/logs"@);
}

/// A component has its pid and its log under its own name.
pub proof fn law_files_of_a_name(name: Seq<char>)
    requires
        name.len() > 0 ==> name[0] != '/',
    ensures
        pid_path_text(name) == "/run/qgui/"@ + name + ".pid"@,
        log_path_text(name) == "/var/lib/qgui/logs/"@ + name + ".log"@,
{
    reveal_strlit("/");
    reveal_strlit("/run/qgui");
    reveal_strlit("/run/qgui/");
    reveal_strlit("/var/lib/qgui/logs");
    reveal_strlit("/var/lib/qgui/logs/");
    law_places();
    law_pid_files_are_distinct(name, name);
    law_log_is_below_log_dir(name);
    assert("/run/qgui/"@ =~= "/run/qgui"@ + "/"@);
    assert("/var/lib/qgui/logs/"@ =~= "/var/lib/qgui/logs"@ + "/"@);
    assert(pid_path_text(name) =~= "/run/qgui/"@ + name + ".pid"@);
    assert(log_path_text(name) =~= "/var/lib/qgui/logs/"@ + name + ".log"@);
}

/// The lock and the socket of a display on this machine carry its name, and are what
/// an X server on it leaves behind; a display elsewhere has neither.
pub proof fn law_files_of_a_display(name: Seq<char>, elsewhere: Seq<char>)
    requires
        elsewhere.len() > 0 ==> elsewhere[0] != ':',
    ensures
        lock_path_text(seq![':'] + name) == Some("/tmp/.X"@ + name + "-lock"@),
        socket_path_text(seq![':'] + name) == Some("/tmp/.X11-unix/X"@ + name),
        artifact_texts(seq![':'] + name) == seq![
            "/tmp/.X"@ + name + "-lock"@,
            "/tmp/.X11-unix/X"@ + name,
        ],
        lock_path_text(elsewhere) is None,
        socket_path_text(elsewhere) is None,
        artifact_texts(elsewhere).len() == 0,
{
    reveal_strlit("/");
    reveal_strlit("/tmp");
    reveal_strlit(".X");
    reveal_strlit("-lock");
    reveal_strlit("/tmp/.X11-unix");
    reveal_strlit("X");
    reveal_strlit("/tmp/.X");
    reveal_strlit("/tmp/.X11-unix/X");
    let display = seq![':'] + name;
    assert(display.drop_first() == name);
    assert(lock_path_text(display)->0 =~= "/tmp/.X"@ + name + "-lock"@);
    assert(socket_path_text(display)->0 =~= "/tmp/.X11-unix/X"@ + name);
}

/// The files of the noVNC client are looked for below the web root, wherever it is.
pub proof fn law_assets(web_root: Seq<char>)
    requires
        web_root.len() > 0,
    ensures
        asset_texts(web_root).len() == 3,
        web_root.last() != '/' ==> asset_texts(web_root) == seq![
            web_root + "/vnc.html"@,
            web_root + "/app/ui.js"@,
            web_root + "/app/images"@,
        ],
        web_root.last() == '/' ==> asset_texts(web_root) == asset_texts(web_root.drop_last())
            || web_root.len() == 1 || web_root[web_root.len() - 2] == '/',
{
    reveal_strlit("/");
    reveal_strlit("vnc.html");
    reveal_strlit("app/ui.js");
    reveal_strlit("app/images");
    reveal_strlit("/vnc.html");
    reveal_strlit("/app/ui.js");
    reveal_strlit("/app/images");
    let all = asset_texts(web_root);
    if web_root.last() != '/' {
        assert(all[0] =~= web_root + "/vnc.html"@);
        assert(all[1] =~= web_root + "/app/ui.js"@);
        assert(all[2] =~= web_root + "/app/images"@);
    } else if web_root.len() > 1 && web_root[web_root.len() - 2] != '/' {
        let root = web_root.drop_last();
        assert(web_root =~= root + "/"@);
        assert(all[0] =~= asset_texts(root)[0]);
        assert(all[1] =~= asset_texts(root)[1]);
        assert(all[2] =~= asset_texts(root)[2]);
    }
}

/// A web root is refused exactly where one of the paths that are looked at is
/// missing, and the first of those is the one that is named.
pub proof fn law_first_missing_asset_is_named(
    web_root: &str,
    present: [bool; 3],
    looked_at: [String; 3],
    r: Result<(), MissingAsset>,
)
    requires
        call_ensures(no_vnc_assets, (web_root,), looked_at),
        call_ensures(no_vnc_root_checks, (web_root, present), r),
    ensures
        !present@[0] ==> r is Err && r->Err_0.path@ == looked_at@[0]@,
        present@[0] && !present@[1] ==> r is Err && r->Err_0.path@ == looked_at@[1]@,
        present@[0] && present@[1] && !present@[2] ==> r is Err && r->Err_0.path@
            == looked_at@[2]@,
        present@[0] && present@[1] && present@[2] ==> r is Ok,
{
    if let Err(e) = r {
        let i = choose|i: int|
            0 <= i < 3 && !present@[i] && (forall|j: int| 0 <= j < i ==> present@[j]) && e.path@
                == #[trigger] asset_texts(web_root@)[i];
        assert(i == 0 || i == 1 || i == 2);
        if i >= 1 {
            assert(present@[0]);
        }
        if i == 2 {
            assert(present@[1]);
        }
    }
}

/// The error on a missing path names it.
pub proof fn law_missing_asset_message(e: MissingAsset, m: String)
    requires
        call_ensures(MissingAsset::message, (&e,), m),
    ensures
        m@ == "missing noVNC asset: "@ + e.path@,
{
}

/// The files of the noVNC client that have to be there, below any web root.
pub proof fn law_assets_by_name(web_root: &str, r: [String; 3])
    requires
        call_ensures(no_vnc_assets, (web_root,), r),
    ensures
        r@[0]@ == join(web_root@, "vnc.html"@),
        r@[1]@ == join(web_root@, "app/ui.js"@),
        r@[2]@ == join(web_root@, "app/images"@),
{
}

/// The files of a name are those that it is told to have: below the run directory and the
/// log directory, or where it says itself.
pub proof fn law_name_leads_to_its_files(
    name: &str,
    pid: String,
    log: String,
    base: &str,
    rest: &str,
    joined: String,
)
    requires
        call_ensures(pid_path, (name,), pid),
        call_ensures(log_path, (name,), log),
        call_ensures(join_path, (base, rest), joined),
    ensures
        name@.len() == 0 || name@[0] != '/' ==> pid@ == "/run/qgui/"@ + name@ + ".pid"@ && log@
            == "/var/lib/qgui/logs/"@ + name@ + ".log"@,
        name@.len() > 0 && name@[0] == '/' ==> pid@ == name@ + ".pid"@ && log@ == name@ + ".log"@,
        joined@ == join(base@, rest@),
{
    if name@.len() == 0 || name@[0] != '/' {
        law_files_of_a_name(name@);
    } else {
        assert((name@ + ".pid"@)[0] == '/');
        assert((name@ + ".log"@)[0] == '/');
    }
}

/// A display leads to its lock and its socket, and to both of them as what is left behind.
pub proof fn law_display_leads_to_its_files(
    display: &str,
    name: Seq<char>,
    lock: Option<String>,
    socket: Option<String>,
    left: Vec<String>,
)
    requires
        call_ensures(display_lock_path, (display,), lock),
        call_ensures(display_socket_path, (display,), socket),
        call_ensures(display_artifacts, (display,), left),
    ensures
        display@ == seq![':'] + name ==> {
            &&& lock is Some && lock->0@ == "/tmp/.X"@ + name + "-lock"@
            &&& socket is Some && socket->0@ == "/tmp/.X11-unix/X"@ + name
            &&& text::texts(left@) == seq![lock->0@, socket->0@]
        },
        display@.len() == 0 || display@[0] != ':' ==> lock is None && socket is None && left@.len()
            == 0,
{
    if display@.len() == 0 || display@[0] != ':' {
        law_files_of_a_display(name, display@);
        assert(text::texts(left@).len() == left@.len());
    } else {
        law_files_of_a_display(name, seq![]);
    }
}

} // verus!
