//! The words a player types for each command.
use crate::types::Command;
use vstd::prelude::*;

verus! {

/// The command that a (trimmed) line names, case-sensitive:
/// `w`/`up`, `a`/`left`, `s`/`down`, `d`/`right`, a single space/`skip`.
pub open spec fn command_named(s: Seq<char>) -> Option<Command> {
    if s == "w"@ || s == "up"@ {
        Some(Command::Up)
    } else if s == "a"@ || s == "left"@ {
        Some(Command::Left)
    } else if s == "s"@ || s == "down"@ {
        Some(Command::Down)
    } else if s == "d"@ || s == "right"@ {
        Some(Command::Right)
    } else if s == " "@ || s == "skip"@ {
        Some(Command::Skip)
    } else {
        None
    }
}

/// What `str::trim` returns: the text without leading and trailing whitespace.
pub uninterp spec fn trimmed(s: Seq<char>) -> Seq<char>;

/// Relies on `str::trim`, which drops leading and trailing whitespace; its
/// result depends on the characters alone.
#[verifier::external_body]
fn trim_text(s: &str) -> (r: &str)
    ensures
        r@ == trimmed(s@),
{
    s.trim()
}

/// Whether two texts hold the same characters.
fn same_text(a: &str, b: &str) -> (r: bool)
    ensures
        r == (a@ == b@),
{
    let n = a.unicode_len();
    if n != b.unicode_len() {
        return false;
    }
    let mut i: usize = 0;
    while i < n
        invariant
            n == a@.len(),
            n == b@.len(),
            0 <= i <= n,
            forall|k: int| 0 <= k < i ==> a@[k] == b@[k],
        decreases n - i,
    {
        if a.get_char(i) != b.get_char(i) {
            return false;
        }
        i = i + 1;
    }
    assert(a@ =~= b@);
    true
}

/// The command that `text` names exactly, or `None` for any other text.
pub fn command_from_text(text: &str) -> (r: Option<Command>)
    ensures
        r == command_named(text@),
{
    if same_text(text, "w") || same_text(text, "up") {
        Some(Command::Up)
    } else if same_text(text, "a") || same_text(text, "left") {
        Some(Command::Left)
    } else if same_text(text, "s") || same_text(text, "down") {
        Some(Command::Down)
    } else if same_text(text, "d") || same_text(text, "right") {
        Some(Command::Right)
    } else if same_text(text, " ") || same_text(text, "skip") {
        Some(Command::Skip)
    } else {
        None
    }
}

/// The command that an input line names once surrounding whitespace is
/// trimmed, or `None`.
pub fn command_from_line(line: &str) -> (r: Option<Command>)
    ensures
        r == command_named(trimmed(line@)),
{
    command_from_text(trim_text(line))
}

} // verus!
