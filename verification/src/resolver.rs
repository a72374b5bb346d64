//! Deciding which command starts the bridge.

use vstd::prelude::*;
use crate::command::{Command, CommandView};

verus! {

/// Absolute path of the interpreter that runs the bridge script.
pub const INTERPRETER: &'static str = "/usr/bin/python3";

/// Home directory assumed when the environment names none.
pub const FALLBACK_HOME: &'static str = "/home/sam";

/// Where the bridge script lives, relative to the home directory.
pub const BRIDGE_SCRIPT_SUFFIX: &'static str = "/.local/bin/commonlisp-bridge.py";

/// The value of the home-directory variable as a plain sequence of
/// characters, or `None` where the variable is not set.
pub open spec fn home_value(env_home: Option<&str>) -> Option<Seq<char>> {
    match env_home {
        Some(h) => Some(h@),
        None => None,
    }
}

/// The home directory to build on: the one the environment gives, unless it
/// is missing or empty, in which case the fallback stands in.
pub open spec fn effective_home(env_home: Option<Seq<char>>) -> Seq<char> {
    match env_home {
        Some(h) => if h.len() > 0 { h } else { FALLBACK_HOME@ },
        None => FALLBACK_HOME@,
    }
}

/// The bridge script's path below `home`.
pub open spec fn script_path(home: Seq<char>) -> Seq<char> {
    home + BRIDGE_SCRIPT_SUFFIX@
}

/// The command that starts the bridge, given what the environment says about
/// the home directory.
pub open spec fn resolved_command(env_home: Option<Seq<char>>) -> CommandView {
    CommandView {
        executable: INTERPRETER@,
        args: seq![script_path(effective_home(env_home))],
        env: Seq::empty(),
    }
}

/// Picks the home directory: `env_home` where it is present and non-empty,
/// the fallback otherwise.
pub fn home_directory(env_home: Option<&str>) -> (home: String)
    ensures
        home@ == effective_home(home_value(env_home)),
{
    match env_home {
        Some(h) => {
            if h.is_empty() {
                FALLBACK_HOME.to_owned()
            } else {
                h.to_owned()
            }
        },
        None => FALLBACK_HOME.to_owned(),
    }
}

/// Appends the bridge script's relative path to `home`.
pub fn bridge_script_path(home: &str) -> (path: String)
    ensures
        path@ == script_path(home@),
{
    home.to_owned().concat(BRIDGE_SCRIPT_SUFFIX)
}

/// Computes the command that starts the bridge for one request of the editor.
///
/// `server_id` and `worktree` are the editor's own handles; they are accepted
/// and never looked into. `env_home` is the value of the home-directory
/// variable, `None` where it is not set. The result is new on every call.
pub fn resolve<S, W>(server_id: &S, worktree: &W, env_home: Option<&str>) -> (cmd: Command)
    ensures
        cmd@ == resolved_command(home_value(env_home)),
        cmd.wf(),
        cmd@.executable == INTERPRETER@,
        cmd@.args.len() == 1,
        env_home matches Some(h) ==> h@.len() > 0 ==> cmd@.args[0] == h@ + BRIDGE_SCRIPT_SUFFIX@,
        env_home matches Some(h) ==> h@.len() == 0 ==> cmd@.args[0] == FALLBACK_HOME@
            + BRIDGE_SCRIPT_SUFFIX@,
        env_home is None ==> cmd@.args[0] == FALLBACK_HOME@ + BRIDGE_SCRIPT_SUFFIX@,
        cmd@.env_map() == Map::<Seq<char>, Seq<char>>::empty(),
{
    let home = home_directory(env_home);
    let script = bridge_script_path(home.as_str());
    let mut args: Vec<String> = Vec::new();
    args.push(script);
    let cmd = Command { executable: INTERPRETER.to_owned(), args, env: Vec::new() };
    proof {
        reveal_strlit("/usr/bin/python3");
        reveal_strlit("/.local/bin/commonlisp-bridge.py");
        assert(cmd@.args =~= resolved_command(home_value(env_home)).args);
        assert(cmd@.env =~= Seq::<(Seq<char>, Seq<char>)>::empty());
    }
    cmd
}

/// The extension as the editor registers it. It keeps no state between
/// requests.
pub struct CommonLispExtension;

impl CommonLispExtension {
    /// A new instance of the extension.
    pub fn new() -> (extension: Self)
        ensures
            extension == CommonLispExtension,
    {
        CommonLispExtension
    }

    /// Answers the editor's request for the command that starts the language
    /// server: always with success, and with the command that [`resolve`]
    /// computes from `env_home`. The extension itself is left as it was.
    pub fn language_server_command<S, W>(
        &mut self,
        language_server_id: &S,
        worktree: &W,
        env_home: Option<&str>,
    ) -> (result: Result<Command, String>)
        ensures
            *final(self) == *old(self),
            result matches Ok(cmd) && cmd@ == resolved_command(home_value(env_home)) && cmd.wf(),
    {
        Ok(resolve(language_server_id, worktree, env_home))
    }
}

/// Resolution is deterministic: two commands resolved under the same value of
/// the home-directory variable are the same command, text for text, whatever
/// handles the editor passed along with each request.
pub proof fn resolution_is_deterministic(
    first: Command,
    second: Command,
    env_home: Option<Seq<char>>,
)
    requires
        first@ == resolved_command(env_home),
        second@ == resolved_command(env_home),
    ensures
        first@ == second@,
{
}

} // verus!
