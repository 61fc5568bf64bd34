//! The exact texts of every message the shell prints, as functions of the
//! values they mention.

use vstd::prelude::*;
use vstd::string::*;
use crate::command::is_builtin_name;

verus! {

/// The message of a type query for a builtin name.
pub open spec fn builtin_message_spec(name: Seq<char>) -> Seq<char> {
    name + " is a shell builtin"@
}

/// The message of a type query whose name resolved to `path`.
pub open spec fn located_message_spec(name: Seq<char>, path: Seq<char>) -> Seq<char> {
    name + " is "@ + path
}

/// The message of a type query whose name did not resolve.
pub open spec fn type_not_found_message_spec(name: Seq<char>) -> Seq<char> {
    name + ": not found"@
}

/// What a type query for `name` prints, given the outcome `resolved` of
/// searching the path: a builtin name is always reported as a builtin,
/// whatever the search found.
pub open spec fn type_message_spec(name: Seq<char>, resolved: Option<Seq<char>>) -> Seq<char> {
    if is_builtin_name(name) {
        builtin_message_spec(name)
    } else {
        match resolved {
            Some(path) => located_message_spec(name, path),
            None => type_not_found_message_spec(name),
        }
    }
}

/// A builtin name shadows any same-named executable on the search path: the
/// type query reports it as a builtin whether or not resolution found a path.
pub proof fn lemma_builtin_shadows_search(name: Seq<char>, resolved: Option<Seq<char>>)
    requires
        is_builtin_name(name),
    ensures
        type_message_spec(name, resolved) == builtin_message_spec(name),
{
}

/// Builds the message of a type query, from the name and the search outcome.
pub fn type_message(name: &str, resolved: Option<&String>) -> (r: String)
    ensures
        resolved matches Some(path) ==> r@ == type_message_spec(name@, Some(path@)),
        resolved is None ==> r@ == type_message_spec(name@, None),
{
    if crate::command::is_builtin(name) {
        let mut r = name.to_owned();
        r.append(" is a shell builtin");
        r
    } else {
        match resolved {
            Some(path) => {
                let mut r = name.to_owned();
                r.append(" is ");
                r.append(path.as_str());
                r
            },
            None => {
                let mut r = name.to_owned();
                r.append(": not found");
                r
            },
        }
    }
}

/// The message for a command name that did not resolve.
pub open spec fn command_not_found_spec(name: Seq<char>) -> Seq<char> {
    name + ": command not found"@
}

/// Builds the message for a command name that did not resolve.
pub fn command_not_found_message(name: &str) -> (r: String)
    ensures
        r@ == command_not_found_spec(name@),
{
    let mut r = name.to_owned();
    r.append(": command not found");
    r
}

/// The message for a failed directory change, echoing the path as the user
/// typed it, not the candidate the check was made on.
pub open spec fn cd_error_spec(path: Seq<char>) -> Seq<char> {
    "cd: "@ + path + ": No such file or directory"@
}

/// Builds the message for a failed directory change.
pub fn cd_error_message(path: &str) -> (r: String)
    ensures
        r@ == cd_error_spec(path@),
{
    let mut r = String::from_str("cd: ");
    r.append(path);
    r.append(": No such file or directory");
    r
}

/// The message for a launch failure, wrapping the system's error text.
pub open spec fn run_error_spec(err: Seq<char>) -> Seq<char> {
    "Error running command: "@ + err
}

/// Builds the message for a launch failure.
pub fn run_error_message(err: &str) -> (r: String)
    ensures
        r@ == run_error_spec(err@),
{
    let mut r = String::from_str("Error running command: ");
    r.append(err);
    r
}

/// Builds the message printed when the working directory cannot be read.
pub fn pwd_error_message() -> (r: String)
    ensures
        r@ == "Error retrieving current directory"@,
{
    String::from_str("Error retrieving current directory")
}

} // verus!
