//! The variables of the session, written out for a shell or as JSON.

use vstd::prelude::*;

use crate::json;
use crate::json::{json_insert, json_object, json_to_string_pretty};
use crate::session;
use crate::session::{session_env_pairs, SessionState};
use crate::shell;
use crate::shell::shell_escape;

verus! {

/// How the variables are written.
#[derive(Clone, Copy, Debug, PartialEq, Eq, Structural)]
pub enum EnvFormat {
    /// As commands of a shell.
    Shell,
    /// As a JSON object.
    Json,
}

/// Why the variables could not be written.
#[derive(Clone, Copy, Debug, PartialEq, Eq, Structural)]
pub enum EnvError {
    /// There is no JSON text for them.
    Serialize,
}

impl EnvError {
    /// The error in words.
    pub fn message(self) -> (m: &'static str)
        ensures
            m@ == "serialize qgui env"@,
    {
        "serialize qgui env"
    }
}

/// The command that gives a variable its value.
pub open spec fn export_line(name: Seq<char>, value: Seq<char>) -> Seq<char> {
    "export "@ + name + "="@ + shell::escaped(value) + "\n"@
}

/// The commands that give variables their values, one on a line.
pub open spec fn export_text(pairs: Seq<(Seq<char>, Seq<char>)>) -> Seq<char>
    decreases pairs.len(),
{
    if pairs.len() == 0 {
        seq![]
    } else {
        export_line(pairs[0].0, pairs[0].1) + export_text(pairs.drop_first())
    }
}

/// The entries that stand for variables; the last value of a name counts.
pub open spec fn env_map(pairs: Seq<(Seq<char>, Seq<char>)>) -> Map<Seq<char>, Seq<char>>
    decreases pairs.len(),
{
    if pairs.len() == 0 {
        Map::empty()
    } else {
        env_map(pairs.drop_last()).insert(pairs.last().0, pairs.last().1)
    }
}

/// The variables as commands of a shell.
pub fn env_shell(state: &SessionState) -> (r: String)
    ensures
        r@ == export_text(session::session_env(*state)),
{
    let pairs = session_env_pairs(state);
    let ghost env = session::session_env(*state);
    let mut out = String::new();
    let mut i: usize = 0;
    assert(env.skip(0) == env);
    assert(Seq::<char>::empty() + export_text(env) == export_text(env));
    while i < 4
        invariant
            i <= 4,
            env == session::session_env(*state),
            forall|j: int|
                0 <= j < 4 ==> (#[trigger] pairs@[j]).0@ == env[j].0 && pairs@[j].1@ == env[j].1,
            out@ + export_text(env.skip(i as int)) == export_text(env),
        decreases 4 - i,
    {
        let (key, value) = pairs[i];
        let line = "export ".to_string().concat(key).concat("=").concat(
            shell_escape(value).as_str(),
        ).concat("\n");
        let ghost before = out@;
        out.append(line.as_str());
        proof {
            assert(env.skip(i as int)[0] == env[i as int]);
            assert(env.skip(i as int).drop_first() == env.skip(i + 1));
            assert(line@ == export_line(env[i as int].0, env[i as int].1));
            assert(before + (line@ + export_text(env.skip(i + 1))) == before + line@ + export_text(
                env.skip(i + 1),
            ));
        }
        i += 1;
    }
    assert(env.skip(4).len() == 0);
    out
}

/// The variables as a JSON object. There always is one: `None` stands for a
/// failure that does not come.
pub fn env_json(state: &SessionState) -> (r: Option<String>)
    ensures
        r is Some,
        r->0@ == json::json_pretty(env_map(session::session_env(*state))),
{
    let pairs = session_env_pairs(state);
    let ghost env = session::session_env(*state);
    let mut object = json_object();
    let mut i: usize = 0;
    while i < 4
        invariant
            i <= 4,
            env == session::session_env(*state),
            forall|j: int|
                0 <= j < 4 ==> (#[trigger] pairs@[j]).0@ == env[j].0 && pairs@[j].1@ == env[j].1,
            json::json_entries(object) == env_map(env.take(i as int)),
            json::json_holds_strings(object),
        decreases 4 - i,
    {
        let (key, value) = pairs[i];
        json_insert(&mut object, key, value);
        assert(env.take(i + 1).drop_last() == env.take(i as int));
        assert(env.take(i + 1).last() == env[i as int]);
        i += 1;
    }
    assert(env.take(4) == env);
    match json_to_string_pretty(object) {
        Ok(s) => Some(s),
        Err(_) => None,
    }
}

/// What is printed for the variables as JSON, given the text of the object.
pub fn env_json_output(rendered: Option<String>) -> (r: Result<String, EnvError>)
    ensures
        match rendered {
            Some(s) => r is Ok && r->Ok_0@ == s@ + "\n"@,
            None => r == Err::<String, EnvError>(EnvError::Serialize),
        },
{
    match rendered {
        Some(s) => Ok(s.concat("\n")),
        None => Err(EnvError::Serialize),
    }
}

/// What is printed for the variables of a session.
pub fn env_output(state: &SessionState, format: EnvFormat) -> (r: Result<String, EnvError>)
    ensures
        match format {
            EnvFormat::Shell => r is Ok && r->Ok_0@ == export_text(session::session_env(*state)),
            EnvFormat::Json => r is Ok && r->Ok_0@ == json::json_pretty(
                env_map(session::session_env(*state)),
            ) + "\n"@,
        },
{
    match format {
        EnvFormat::Shell => Ok(env_shell(state)),
        EnvFormat::Json => env_json_output(env_json(state)),
    }
}

// ---------------------------------------------------------------------------
// Laws
// ---------------------------------------------------------------------------

/// The JSON object has the variables of the session, each with its value, and
/// nothing else.
pub proof fn law_json_has_the_variables(state: SessionState)
    ensures
        forall|i: int|
            0 <= i < 4 ==> env_map(session::session_env(state)).contains_pair(
                (#[trigger] session::session_env(state)[i]).0,
                session::session_env(state)[i].1,
            ),
        env_map(session::session_env(state)).dom() == set![
            "DISPLAY"@,
            "DBUS_SESSION_BUS_ADDRESS"@,
            "XDG_RUNTIME_DIR"@,
            "QT_X11_NO_MITSHM"@,
        ],
{
    let env = session::session_env(state);
    let e3 = env.drop_last();
    let e2 = e3.drop_last();
    let e1 = e2.drop_last();
    let e0 = e1.drop_last();
    assert(e0.len() == 0);
    assert(env_map(e0) == Map::<Seq<char>, Seq<char>>::empty());
    assert(e1.last() == env[0] && e2.last() == env[1] && e3.last() == env[2] && env.last()
        == env[3]);
    assert(env_map(e1) == env_map(e0).insert(env[0].0, env[0].1));
    assert(env_map(e2) == env_map(e1).insert(env[1].0, env[1].1));
    assert(env_map(e3) == env_map(e2).insert(env[2].0, env[2].1));
    assert(env_map(env) == env_map(e3).insert(env[3].0, env[3].1));
    assert forall|i: int, j: int| 0 <= i < 4 && 0 <= j < 4 && i != j implies (
    #[trigger] env[i]).0 != (#[trigger] env[j]).0 by {
        if env[i].0 == env[j].0 {
            session::law_variables_are_distinct(state, i, j);
        }
    }
    assert(env[0].0 != env[1].0 && env[0].0 != env[2].0 && env[0].0 != env[3].0);
    assert(env[1].0 != env[2].0 && env[1].0 != env[3].0 && env[2].0 != env[3].0);
}

/// Where the first equals sign of `s` is, or its length.
pub open spec fn equals_sign(s: Seq<char>) -> int
    decreases s.len(),
{
    if s.len() == 0 || s[0] == '=' {
        0
    } else {
        1 + equals_sign(s.drop_first())
    }
}

/// The variables that a shell sets when it reads lines of the form
/// `export NAME=WORD`, or nothing where a line has another form.
pub open spec fn shell_exports(s: Seq<char>) -> Option<Seq<(Seq<char>, Seq<char>)>>
    decreases s.len(),
{
    if s.len() == 0 {
        Some(seq![])
    } else if s.len() < 7 || s.take(7) != "export "@ {
        None
    } else {
        let line = s.skip(7);
        let at = equals_sign(line);
        if at < 0 || at >= line.len() {
            None
        } else {
            match shell::shell_line(line.skip(at + 1), shell::Quoting::Bare) {
                Some((value, rest)) => if rest.len() < s.len() {
                    match shell_exports(rest) {
                        Some(more) => Some(seq![(line.take(at), value)] + more),
                        None => None,
                    }
                } else {
                    None
                },
                None => None,
            }
        }
    }
}

/// `name` holds no equals sign.
pub open spec fn is_name(name: Seq<char>) -> bool {
    forall|i: int| 0 <= i < name.len() ==> name[i] != '='
}

proof fn lemma_equals_sign(name: Seq<char>, rest: Seq<char>)
    requires
        is_name(name),
    ensures
        equals_sign(name + seq!['='] + rest) == name.len(),
    decreases name.len(),
{
    let s = name + seq!['='] + rest;
    if name.len() == 0 {
        assert(s[0] == '=');
    } else {
        assert(s[0] == name[0]);
        assert(s.drop_first() == name.drop_first() + seq!['='] + rest);
        lemma_equals_sign(name.drop_first(), rest);
    }
}

/// The parts of a line that sets a variable.
proof fn lemma_export_line(name: Seq<char>, value: Seq<char>, more: Seq<char>)
    ensures
        ({
            let s = export_line(name, value) + more;
            let after = shell::escaped(value) + seq!['\n'] + more;
            &&& s.len() >= 7
            &&& s.take(7) == "export "@
            &&& s.skip(7) == name + seq!['='] + after
            &&& s.skip(7).take(name.len() as int) == name
            &&& s.skip(7).skip(name.len() as int + 1) == after
            &&& more.len() < s.len()
        }),
{
    reveal_strlit("export ");
    reveal_strlit("=");
    reveal_strlit("\n");
    assert("="@ == seq!['=']);
    assert("\n"@ == seq!['\n']);
    let s = export_line(name, value) + more;
    let after = shell::escaped(value) + seq!['\n'] + more;
    assert(s == "export "@ + (name + seq!['='] + after));
    assert(s.take(7) == "export "@);
    assert(s.skip(7) == name + seq!['='] + after);
    assert((name + seq!['='] + after).take(name.len() as int) == name);
    assert((name + seq!['='] + after).skip(name.len() as int + 1) == after);
}

proof fn lemma_export_reads_back(name: Seq<char>, value: Seq<char>, more: Seq<char>)
    requires
        is_name(name),
        shell_exports(more) is Some,
    ensures
        shell_exports(export_line(name, value) + more) == Some(
            seq![(name, value)] + shell_exports(more)->0,
        ),
{
    let word = shell::escaped(value);
    lemma_export_line(name, value, more);
    lemma_equals_sign(name, word + seq!['\n'] + more);
    shell::law_shell_reads_back(value, more);
}

proof fn lemma_exports_read_back(pairs: Seq<(Seq<char>, Seq<char>)>)
    requires
        forall|i: int| 0 <= i < pairs.len() ==> is_name((#[trigger] pairs[i]).0),
    ensures
        shell_exports(export_text(pairs)) == Some(pairs),
    decreases pairs.len(),
{
    if pairs.len() == 0 {
        assert(pairs == Seq::<(Seq<char>, Seq<char>)>::empty());
    } else {
        let tail = pairs.drop_first();
        assert forall|i: int| 0 <= i < tail.len() implies is_name((#[trigger] tail[i]).0) by {
            assert(tail[i] == pairs[i + 1]);
        }
        lemma_exports_read_back(tail);
        lemma_export_reads_back(pairs[0].0, pairs[0].1, export_text(tail));
        assert(seq![(pairs[0].0, pairs[0].1)] + tail == pairs);
    }
}

/// A shell that reads what is printed for it sets exactly the variables of the
/// session, in their order, each to its value, whatever the values hold.
pub proof fn law_shell_sets_the_variables(state: SessionState)
    ensures
        shell_exports(export_text(session::session_env(state))) == Some(
            session::session_env(state),
        ),
{
    reveal_strlit("DISPLAY");
    reveal_strlit("DBUS_SESSION_BUS_ADDRESS");
    reveal_strlit("XDG_RUNTIME_DIR");
    reveal_strlit("QT_X11_NO_MITSHM");
    lemma_exports_read_back(session::session_env(state));
}

/// A line sets a variable, and lines follow one another.
pub proof fn law_one_line_for_each_variable(
    name: Seq<char>,
    value: Seq<char>,
    more: Seq<(Seq<char>, Seq<char>)>,
)
    ensures
        export_text(seq![]) == Seq::<char>::empty(),
        export_text(seq![(name, value)] + more) == "export "@ + name + "="@ + shell::escaped(value)
            + "\n"@ + export_text(more),
{
    let all = seq![(name, value)] + more;
    assert(all.drop_first() =~= more);
    assert(all[0] == (name, value));
}

/// The object has each of the variables of the session with its value.
pub proof fn law_json_says_what_the_session_is(state: SessionState)
    ensures
        env_map(session::session_env(state)) == map![
            "DISPLAY"@ => state.display@,
            "DBUS_SESSION_BUS_ADDRESS"@ => state.dbus_addr@,
            "XDG_RUNTIME_DIR"@ => state.xdg_runtime_dir@,
            "QT_X11_NO_MITSHM"@ => "1"@,
        ],
{
    law_json_has_the_variables(state);
    let env = session::session_env(state);
    let found = env_map(env);
    let wanted = map![
        "DISPLAY"@ => state.display@,
        "DBUS_SESSION_BUS_ADDRESS"@ => state.dbus_addr@,
        "XDG_RUNTIME_DIR"@ => state.xdg_runtime_dir@,
        "QT_X11_NO_MITSHM"@ => "1"@,
    ];
    assert(found.contains_pair(env[0].0, env[0].1));
    assert(found.contains_pair(env[1].0, env[1].1));
    assert(found.contains_pair(env[2].0, env[2].1));
    assert(found.contains_pair(env[3].0, env[3].1));
    reveal_strlit("DISPLAY");
    reveal_strlit("DBUS_SESSION_BUS_ADDRESS");
    reveal_strlit("XDG_RUNTIME_DIR");
    reveal_strlit("QT_X11_NO_MITSHM");
    assert("DISPLAY"@.len() == 7 && "DBUS_SESSION_BUS_ADDRESS"@.len() == 24);
    assert("XDG_RUNTIME_DIR"@.len() == 15 && "QT_X11_NO_MITSHM"@.len() == 16);
    assert(found.dom() =~= wanted.dom());
    assert(found =~= wanted);
}

/// What `qgui env` prints. A shell that reads it sets the display, the bus, the runtime
/// directory and the switch of the session, and nothing else; as JSON it is one object
/// with the same four entries, and a line end.
pub proof fn law_env_says_what_the_session_is(
    state: SessionState,
    shell: Result<String, EnvError>,
    json: Result<String, EnvError>,
)
    requires
        call_ensures(env_output, (&state, EnvFormat::Shell), shell),
        call_ensures(env_output, (&state, EnvFormat::Json), json),
    ensures
        shell is Ok,
        shell_exports(shell->Ok_0@) == Some(
            seq![
                ("DISPLAY"@, state.display@),
                ("DBUS_SESSION_BUS_ADDRESS"@, state.dbus_addr@),
                ("XDG_RUNTIME_DIR"@, state.xdg_runtime_dir@),
                ("QT_X11_NO_MITSHM"@, "1"@),
            ],
        ),
        json is Ok,
        json->Ok_0@ == json::json_pretty(
            map![
                "DISPLAY"@ => state.display@,
                "DBUS_SESSION_BUS_ADDRESS"@ => state.dbus_addr@,
                "XDG_RUNTIME_DIR"@ => state.xdg_runtime_dir@,
                "QT_X11_NO_MITSHM"@ => "1"@,
            ],
        ) + "\n"@,
{
    law_shell_sets_the_variables(state);
    law_json_says_what_the_session_is(state);
    assert(session::session_env(state) =~= seq![
        ("DISPLAY"@, state.display@),
        ("DBUS_SESSION_BUS_ADDRESS"@, state.dbus_addr@),
        ("XDG_RUNTIME_DIR"@, state.xdg_runtime_dir@),
        ("QT_X11_NO_MITSHM"@, "1"@),
    ]);
}

/// The text of an object is printed with a line end behind it; that there is none is
/// an error.
pub proof fn law_json_output(
    text: String,
    r: Result<String, EnvError>,
    none: Result<String, EnvError>,
)
    requires
        call_ensures(env_json_output, (Some(text),), r),
        call_ensures(env_json_output, (None::<String>,), none),
    ensures
        r is Ok,
        r->Ok_0@ == text@.push('\n'),
        none is Err,
{
    reveal_strlit("\n");
    assert("\n"@ =~= seq!['\n']);
    assert(text@ + "\n"@ =~= text@.push('\n'));
}

/// What is printed for a shell is the same whichever way it is asked for, and the text of
/// the object is what is printed as JSON without its line end.
pub proof fn law_forms_agree(
    state: SessionState,
    shell: String,
    printed_shell: Result<String, EnvError>,
    json: Option<String>,
    printed_json: Result<String, EnvError>,
)
    requires
        call_ensures(env_shell, (&state,), shell),
        call_ensures(env_output, (&state, EnvFormat::Shell), printed_shell),
        call_ensures(env_json, (&state,), json),
        call_ensures(env_output, (&state, EnvFormat::Json), printed_json),
    ensures
        printed_shell is Ok && printed_shell->Ok_0@ == shell@,
        json is Some,
        printed_json is Ok && printed_json->Ok_0@ == json->0@ + "\n"@,
{
}

} // verus!
