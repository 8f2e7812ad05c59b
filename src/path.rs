//! The working directory as the prompt shows it, and the whole prompt line.

use vstd::prelude::*;
use vstd::string::StringExecFns;
use crate::render::{ansi_text, paint, plain, Colour};

verus! {

/// Relies on std's `str::strip_prefix`: what follows `prefix` in `s`, when
/// `s` starts with it.
#[verifier::external_body]
fn strip_prefix<'a>(s: &'a str, prefix: &str) -> (r: Option<&'a str>)
    ensures
        r is Some <==> prefix@.is_prefix_of(s@),
        r matches Some(rest) ==> rest@ == s@.skip(prefix@.len() as int),
{
    s.strip_prefix(prefix)
}

/// `cwd` with a leading `home` replaced by `~`; empty when the home
/// directory is unknown.
pub open spec fn shortened(cwd: Seq<char>, home: Option<Seq<char>>) -> Seq<char> {
    match home {
        None => Seq::empty(),
        Some(h) => if h.is_prefix_of(cwd) {
            "~"@ + cwd.skip(h.len() as int)
        } else {
            cwd
        },
    }
}

/// Shortens a working directory for display: a leading home directory
/// becomes `~`, once, by a literal prefix match.
pub fn shorten_path(cwd: &str, home: Option<&str>) -> (r: String)
    ensures
        r@ == shortened(cwd@, match home { Some(h) => Some(h@), None => None }),
{
    match home {
        None => String::new(),
        Some(h) => match strip_prefix(cwd, h) {
            Some(rest) => String::from_str("~").concat(rest),
            None => String::from_str(cwd),
        },
    }
}

/// The prompt line: the shortened path in blue, a space, and the repository
/// summary (empty without one) in green.
pub open spec fn prompt_line_spec(path: Seq<char>, summary: Seq<char>) -> Seq<char> {
    ansi_text(seq![(plain(Colour::Blue), path)]) + " "@ + ansi_text(seq![(plain(Colour::Green), summary)])
}

/// Assembles the prompt line from the working directory, the home directory
/// and the repository summary, if there is one.
pub fn prompt_line(cwd: &str, home: Option<&str>, summary: Option<String>) -> (r: String)
    ensures
        r@ == prompt_line_spec(
            shortened(cwd@, match home { Some(h) => Some(h@), None => None }),
            match summary { Some(s) => s@, None => Seq::empty() },
        ),
{
    let path = shorten_path(cwd, home);
    let summary = match summary {
        Some(s) => s,
        None => String::new(),
    };
    let left = paint(Colour::Blue, path.as_str());
    let right = paint(Colour::Green, summary.as_str());
    left.concat(" ").concat(right.as_str())
}

} // verus!
