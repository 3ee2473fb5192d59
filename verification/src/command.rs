//! Command descriptors and the multiplexer's argument conventions.
//!
//! A `Command` is one external invocation: a program name and an ordered
//! argument list.  The spec functions here give the exact argument lists
//! the engine uses, so every contract can pin a command down to its
//! characters.

use vstd::prelude::*;

use crate::digits::decimal;
use crate::digits::fmt_u64;

verus! {

/// One external invocation: a program name and its ordered argument list.
pub struct Command {
    pub program: String,
    pub args: Vec<String>,
}

/// Mathematical model of a `Command`: program and arguments as character
/// sequences.
#[verifier::ext_equal]
pub ghost struct CommandModel {
    pub program: Seq<char>,
    pub args: Seq<Seq<char>>,
}

impl View for Command {
    type V = CommandModel;

    open spec fn view(&self) -> CommandModel {
        CommandModel { program: self.program@, args: self.args.deep_view() }
    }
}

impl DeepView for Command {
    type V = CommandModel;

    open spec fn deep_view(&self) -> CommandModel {
        self.view()
    }
}

/// The multiplexer binary every command invokes.
pub open spec fn multiplexer() -> Seq<char> {
    "tmux"@
}

/// The address of window `index` of the session: `session:index`.
pub open spec fn window_target(session: Seq<char>, index: nat) -> Seq<char> {
    session + ":"@ + decimal(index)
}

/// The address of the first pane of window `index`: `session:index.0`.
pub open spec fn pane_target(session: Seq<char>, index: nat) -> Seq<char> {
    window_target(session, index) + ".0"@
}

/// The probe that asks whether the session exists.
pub open spec fn probe_model(session: Seq<char>) -> CommandModel {
    CommandModel { program: multiplexer(), args: seq!["has-session"@, "-t="@ + session] }
}

/// The final attach to the session.
pub open spec fn attach_model(session: Seq<char>) -> CommandModel {
    CommandModel { program: multiplexer(), args: seq!["attach"@, "-t"@, session] }
}

/// Detached session creation; the first window is always named "Server".
pub open spec fn new_session_model(session: Seq<char>) -> CommandModel {
    CommandModel {
        program: multiplexer(),
        args: seq!["new-session"@, "-s"@, session, "-n"@, "Server"@, "-d"@],
    }
}

/// Creation of window `index`, named `name`, targeted at `session:index`.
pub open spec fn new_window_model(session: Seq<char>, index: nat, name: Seq<char>) -> CommandModel {
    CommandModel {
        program: multiplexer(),
        args: seq!["new-window"@, "-t"@, window_target(session, index), "-n"@, name],
    }
}

/// Typing `line` followed by a carriage return into pane `session:index.0`.
pub open spec fn send_keys_model(session: Seq<char>, index: nat, line: Seq<char>) -> CommandModel {
    CommandModel {
        program: multiplexer(),
        args: seq!["send-keys"@, "-t"@, pane_target(session, index), line, "C-m"@],
    }
}

/// The shell line that changes into the window's working directory.
pub open spec fn cd_line(pwd: Seq<char>) -> Seq<char> {
    "cd "@ + pwd
}

/// Selection of the window owning pane `session:index.0`.
pub open spec fn select_window_model(session: Seq<char>, index: nat) -> CommandModel {
    CommandModel {
        program: multiplexer(),
        args: seq!["select-window"@, "-t"@, pane_target(session, index)],
    }
}

/// The multiplexer's program name, as a fresh string.
fn multiplexer_str() -> (r: String)
    ensures
        r@ == multiplexer(),
{
    String::from_str("tmux")
}

/// Builds the window address `session:index`.
fn window_target_str(session: &str, index: u64) -> (r: String)
    ensures
        r@ == window_target(session@, index as nat),
{
    let mut r = session.to_owned();
    r.append(":");
    let digits = fmt_u64(index);
    r.append(digits.as_str());
    r
}

/// Builds the pane address `session:index.0`.
fn pane_target_str(session: &str, index: u64) -> (r: String)
    ensures
        r@ == pane_target(session@, index as nat),
{
    let mut r = window_target_str(session, index);
    r.append(".0");
    r
}

impl Command {
    /// The probe `has-session -t=<session>`.
    pub fn probe(session: &str) -> (c: Command)
        ensures
            c@ == probe_model(session@),
    {
        let mut target = String::from_str("-t=");
        target.append(session);
        let mut args: Vec<String> = Vec::new();
        args.push(String::from_str("has-session"));
        args.push(target);
        let c = Command { program: multiplexer_str(), args };
        proof {
            assert(c@.args =~= probe_model(session@).args);
        }
        c
    }

    /// The final `attach -t <session>`.
    pub fn attach(session: &str) -> (c: Command)
        ensures
            c@ == attach_model(session@),
    {
        let mut args: Vec<String> = Vec::new();
        args.push(String::from_str("attach"));
        args.push(String::from_str("-t"));
        args.push(session.to_owned());
        let c = Command { program: multiplexer_str(), args };
        proof {
            assert(c@.args =~= attach_model(session@).args);
        }
        c
    }

    /// Detached creation of the session, first window named "Server".
    pub fn new_session(session: &str) -> (c: Command)
        ensures
            c@ == new_session_model(session@),
    {
        let mut args: Vec<String> = Vec::new();
        args.push(String::from_str("new-session"));
        args.push(String::from_str("-s"));
        args.push(session.to_owned());
        args.push(String::from_str("-n"));
        args.push(String::from_str("Server"));
        args.push(String::from_str("-d"));
        let c = Command { program: multiplexer_str(), args };
        proof {
            assert(c@.args =~= new_session_model(session@).args);
        }
        c
    }

    /// Creation of window `index` named `name`.
    pub fn new_window(session: &str, index: u64, name: &str) -> (c: Command)
        ensures
            c@ == new_window_model(session@, index as nat, name@),
    {
        let mut args: Vec<String> = Vec::new();
        args.push(String::from_str("new-window"));
        args.push(String::from_str("-t"));
        args.push(window_target_str(session, index));
        args.push(String::from_str("-n"));
        args.push(name.to_owned());
        let c = Command { program: multiplexer_str(), args };
        proof {
            assert(c@.args =~= new_window_model(session@, index as nat, name@).args);
        }
        c
    }

    /// Typing `line` plus a carriage return into pane `session:index.0`.
    pub fn send_keys(session: &str, index: u64, line: &str) -> (c: Command)
        ensures
            c@ == send_keys_model(session@, index as nat, line@),
    {
        let mut args: Vec<String> = Vec::new();
        args.push(String::from_str("send-keys"));
        args.push(String::from_str("-t"));
        args.push(pane_target_str(session, index));
        args.push(line.to_owned());
        args.push(String::from_str("C-m"));
        let c = Command { program: multiplexer_str(), args };
        proof {
            assert(c@.args =~= send_keys_model(session@, index as nat, line@).args);
        }
        c
    }

    /// Selection of the window owning pane `session:index.0`.
    pub fn select_window(session: &str, index: u64) -> (c: Command)
        ensures
            c@ == select_window_model(session@, index as nat),
    {
        let mut args: Vec<String> = Vec::new();
        args.push(String::from_str("select-window"));
        args.push(String::from_str("-t"));
        args.push(pane_target_str(session, index));
        let c = Command { program: multiplexer_str(), args };
        proof {
            assert(c@.args =~= select_window_model(session@, index as nat).args);
        }
        c
    }
}

} // verus!
