//! Classification of one trimmed input line into a command, in a fixed
//! priority order: the exit directive, `pwd`, `cd`, `type`, `echo`, then the
//! general external case (or nothing, for a blank line).

use vstd::prelude::*;
use crate::text::{starts_with, str_eq, str_skip, str_starts_with, tokenize, tokens};

verus! {

/// One classified input line.
pub enum Command {
    /// The exit directive: terminate the shell with exit code 0.
    Exit,
    /// Print the current working directory.
    Pwd,
    /// Change the working directory to `target`.
    ChangeDir { target: String },
    /// Report what kind of command `name` is.
    TypeQuery { name: String },
    /// Print `payload` verbatim, followed by a newline.
    Echo { payload: String },
    /// Run an external program `name` with arguments `args`.
    External { name: String, args: Vec<String> },
    /// A blank line: do nothing.
    Empty,
}

/// The line that terminates the shell.
pub open spec fn is_exit_line(l: Seq<char>) -> bool {
    l == "exit 0"@
}

/// The line that prints the working directory.
pub open spec fn is_pwd_line(l: Seq<char>) -> bool {
    l == "pwd"@
}

/// A change-directory line.
pub open spec fn is_cd_line(l: Seq<char>) -> bool {
    starts_with(l, "cd "@)
}

/// A type-query line.
pub open spec fn is_type_line(l: Seq<char>) -> bool {
    starts_with(l, "type "@)
}

/// An echo line: the bare word, or the word followed by a payload.
pub open spec fn is_echo_line(l: Seq<char>) -> bool {
    l == "echo"@ || starts_with(l, "echo "@)
}

/// The target of a change-directory line: what follows the `cd ` prefix.
pub open spec fn cd_target_of(l: Seq<char>) -> Seq<char> {
    l.skip("cd "@.len() as int)
}

/// The name queried by a type line: what follows the `type ` prefix.
pub open spec fn type_name_of(l: Seq<char>) -> Seq<char> {
    l.skip("type "@.len() as int)
}

/// The payload of an echo line: what follows the `echo ` prefix, verbatim,
/// or nothing for the bare word.
pub open spec fn echo_payload_of(l: Seq<char>) -> Seq<char> {
    if l == "echo"@ {
        Seq::empty()
    } else {
        l.skip("echo "@.len() as int)
    }
}

/// What `classify` must return for the line `l`: the first matching rule
/// wins, in the order written here.
pub open spec fn classified(l: Seq<char>, c: Command) -> bool {
    if is_exit_line(l) {
        c is Exit
    } else if is_pwd_line(l) {
        c is Pwd
    } else if is_cd_line(l) {
        c matches Command::ChangeDir { target } && target@ == cd_target_of(l)
    } else if is_type_line(l) {
        c matches Command::TypeQuery { name } && name@ == type_name_of(l)
    } else if is_echo_line(l) {
        c matches Command::Echo { payload } && payload@ == echo_payload_of(l)
    } else if tokens(l).len() == 0 {
        c is Empty
    } else {
        c matches Command::External { name, args } && name@ == tokens(l)[0] && args@.len()
            == tokens(l).len() - 1 && (forall|j: int|
            0 <= j < args@.len() ==> args@[j]@ == tokens(l)[j + 1])
    }
}

/// Classifies one trimmed input line.
pub fn classify(line: &str) -> (c: Command)
    ensures
        classified(line@, c),
{
    if str_eq(line, "exit 0") {
        Command::Exit
    } else if str_eq(line, "pwd") {
        Command::Pwd
    } else if str_starts_with(line, "cd ") {
        proof {
            reveal_strlit("cd ");
        }
        let target = str_skip(line, 3);
        Command::ChangeDir { target }
    } else if str_starts_with(line, "type ") {
        proof {
            reveal_strlit("type ");
        }
        let name = str_skip(line, 5);
        Command::TypeQuery { name }
    } else if str_starts_with(line, "echo ") {
        proof {
            reveal_strlit("echo ");
            reveal_strlit("echo");
        }
        let payload = str_skip(line, 5);
        Command::Echo { payload }
    } else if str_eq(line, "echo") {
        let payload = String::new();
        Command::Echo { payload }
    } else {
        let mut toks = tokenize(line);
        if toks.len() == 0 {
            Command::Empty
        } else {
            let name = toks.remove(0);
            Command::External { name, args: toks }
        }
    }
}

/// The exit directive is classified as the exit command whatever else the
/// shell has done: classification is a pure function of the line alone, and
/// on this line its highest-priority rule always fires.
pub proof fn lemma_exit_directive_classifies_as_exit(c: Command)
    requires
        classified("exit 0"@, c),
    ensures
        c is Exit,
{
}

/// The closed set of builtin command names.
pub open spec fn is_builtin_name(l: Seq<char>) -> bool {
    l == "exit"@ || l == "echo"@ || l == "type"@ || l == "pwd"@ || l == "cd"@
}

/// Membership in the builtin set, by exact name match.
pub fn is_builtin(name: &str) -> (r: bool)
    ensures
        r == is_builtin_name(name@),
{
    str_eq(name, "exit") || str_eq(name, "echo") || str_eq(name, "type") || str_eq(name, "pwd")
        || str_eq(name, "cd")
}

} // verus!
