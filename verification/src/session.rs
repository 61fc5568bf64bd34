//! The shell session: the working directory it tracks, and the
//! change-directory algorithm.
//!
//! The session owns the working-directory value; the surrounding program
//! mirrors a successful change onto the process and checks the filesystem
//! for the candidate the session computes.

use vstd::prelude::*;
use vstd::string::*;
use crate::messages::{cd_error_message, cd_error_spec};
use crate::text::{starts_with, str_eq, str_starts_with};

verus! {

/// An absolute path: one that begins with `/`.
pub open spec fn is_absolute(path: Seq<char>) -> bool {
    starts_with(path, "/"@)
}

/// A base directory and a relative path joined with a separator; no
/// separator is doubled when the base already ends with one.
pub open spec fn join_spec(base: Seq<char>, rel: Seq<char>) -> Seq<char> {
    if base.len() > 0 && base[base.len() - 1] == '/' {
        base + rel
    } else {
        base + "/"@ + rel
    }
}

/// The candidate directory a change to `path` must be checked against:
/// `path` itself when absolute, the home directory for a bare `~` (or the
/// home lookup's error when that failed), else `path` resolved against the
/// working directory `cwd`.
pub open spec fn cd_candidate_spec(
    path: Seq<char>,
    home: Result<Seq<char>, Seq<char>>,
    cwd: Seq<char>,
) -> Result<Seq<char>, Seq<char>> {
    if is_absolute(path) {
        Ok(path)
    } else if path == "~"@ {
        home
    } else {
        Ok(join_spec(cwd, path))
    }
}

/// Joins a base directory and a relative path.
pub fn join_path(base: &str, rel: &str) -> (r: String)
    ensures
        r@ == join_spec(base@, rel@),
{
    let n = base.unicode_len();
    let mut r = base.to_owned();
    if n > 0 && base.get_char(n - 1) == '/' {
        r.append(rel);
    } else {
        r.append("/");
        r.append(rel);
    }
    r
}

/// Computes the candidate directory for a change to `path`. `home` is the
/// home variable's value, or the lookup error's text when it has none.
pub fn cd_candidate(path: &str, home: &Result<String, String>, cwd: &str) -> (r: Result<
    String,
    String,
>)
    ensures
        match r {
            Ok(c) => cd_candidate_spec(
                path@,
                match home {
                    Ok(h) => Ok::<Seq<char>, Seq<char>>(h@),
                    Err(e) => Err(e@),
                },
                cwd@,
            ) matches Ok(cs) && c@ == cs,
            Err(m) => cd_candidate_spec(
                path@,
                match home {
                    Ok(h) => Ok::<Seq<char>, Seq<char>>(h@),
                    Err(e) => Err(e@),
                },
                cwd@,
            ) matches Err(ms) && m@ == ms,
        },
{
    if str_starts_with(path, "/") {
        Ok(path.to_owned())
    } else if str_eq(path, "~") {
        match home {
            Ok(h) => Ok(h.clone()),
            Err(e) => Err(e.clone()),
        }
    } else {
        Ok(join_path(cwd, path))
    }
}

/// One shell session: the working directory the builtins read and change.
pub struct Session {
    /// The current working directory, as an absolute path.
    pub cwd: String,
}

impl Session {
    /// Opens a session in the directory `cwd`.
    pub fn new(cwd: String) -> (s: Session)
        ensures
            s.cwd@ == cwd@,
    {
        Session { cwd }
    }

    /// The directory the `pwd` builtin prints.
    pub fn pwd(&self) -> (r: &String)
        ensures
            r@ == self.cwd@,
    {
        &self.cwd
    }

    /// Applies a directory change whose candidate has been checked against
    /// the filesystem. When the candidate is an existing directory the
    /// session moves there; otherwise the session stays where it was and the
    /// error echoes the path as the user typed it.
    pub fn apply_cd(&mut self, path: &str, candidate: String, is_existing_dir: bool) -> (r: Result<
        (),
        String,
    >)
        ensures
            is_existing_dir ==> r is Ok && final(self).cwd@ == candidate@,
            !is_existing_dir ==> (r matches Err(m) && m@ == cd_error_spec(path@)
                && final(self).cwd@ == old(self).cwd@),
    {
        if is_existing_dir {
            self.cwd = candidate;
            Ok(())
        } else {
            Err(cd_error_message(path))
        }
    }
}

} // verus!
