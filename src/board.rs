//! The textual form of a board: one line per row, one character per cell.
use crate::types::{BoardError, BoardTile};
use vstd::prelude::*;

verus! {

/// The tile that a board character stands for, if any.
pub open spec fn tile_of(c: char) -> Option<BoardTile> {
    if c == ' ' {
        Some(BoardTile::Empty)
    } else if c == 'X' {
        Some(BoardTile::Wall)
    } else if c == 'M' {
        Some(BoardTile::Minotaur)
    } else if c == 'T' {
        Some(BoardTile::Theseus)
    } else if c == 'G' {
        Some(BoardTile::Goal)
    } else {
        None
    }
}

/// The character at `i` is a carriage return that, with the line feed after
/// it, ends a row.
pub open spec fn is_cr_before_lf(s: Seq<char>, i: int) -> bool {
    0 <= i && i + 1 < s.len() && s[i] == '\r' && s[i + 1] == '\n'
}

/// The character at `i` stands for a cell: it belongs to no line ending.
pub open spec fn is_cell(s: Seq<char>, i: int) -> bool {
    s[i] != '\n' && !is_cr_before_lf(s, i)
}

/// The character at `i` belongs to no line ending and stands for no tile.
pub open spec fn invalid_at(s: Seq<char>, i: int) -> bool {
    is_cell(s, i) && tile_of(s[i]) is None
}

/// The (row, column) at which the character with index `i` stands. A line
/// ending is `\n` or `\r\n`.
pub open spec fn cell_at(s: Seq<char>, i: int) -> (int, int)
    decreases i,
{
    if i <= 0 {
        (0, 0)
    } else {
        let p = cell_at(s, i - 1);
        if s[i - 1] == '\n' {
            (p.0 + 1, 0)
        } else if is_cr_before_lf(s, i - 1) {
            p
        } else {
            (p.0, p.1 + 1)
        }
    }
}

/// The first invalid character at index `i` or later.
pub open spec fn first_invalid_from(s: Seq<char>, i: int) -> Option<char>
    decreases s.len() - i,
{
    if i < 0 || i >= s.len() {
        None
    } else if invalid_at(s, i) {
        Some(s[i])
    } else {
        first_invalid_from(s, i + 1)
    }
}

/// The index of the first line feed at index `i` or later, or the length.
pub open spec fn first_break_from(s: Seq<char>, i: int) -> int
    decreases s.len() - i,
{
    if i < 0 || i >= s.len() {
        s.len() as int
    } else if s[i] == '\n' {
        i
    } else {
        first_break_from(s, i + 1)
    }
}

/// How often `c` occurs among the first `n` characters.
pub open spec fn occurrences(s: Seq<char>, c: char, n: int) -> nat
    decreases n,
{
    if n <= 0 {
        0
    } else {
        occurrences(s, c, n - 1) + if s[n - 1] == c { 1nat } else { 0nat }
    }
}

/// How often `c` occurs in the text.
pub open spec fn count_of(s: Seq<char>, c: char) -> nat {
    occurrences(s, c, s.len() as int)
}

/// Index `k` ends a row: a line feed, or the end of a text whose last line
/// has no line ending.
pub open spec fn ends_row(s: Seq<char>, k: int) -> bool {
    (0 <= k < s.len() && s[k] == '\n') || (k == s.len() && s.len() > 0 && s[s.len() - 1]
        != '\n')
}

/// The length of the first row.
pub open spec fn board_width(s: Seq<char>) -> int {
    cell_at(s, first_break_from(s, 0)).1
}

/// The number of rows: a final line ending opens no new row.
pub open spec fn board_height(s: Seq<char>) -> int {
    if s.len() == 0 {
        0
    } else if s[s.len() - 1] == '\n' {
        cell_at(s, s.len() as int).0
    } else {
        cell_at(s, s.len() as int).0 + 1
    }
}

/// The text has at least one row, and every row is as long as the first.
pub open spec fn is_rectangular(s: Seq<char>) -> bool {
    &&& s.len() > 0
    &&& forall|k: int| #[trigger] ends_row(s, k) ==> cell_at(s, k).1 == board_width(s)
}

/// The error for a marker that must occur exactly once.
pub open spec fn marker_error(n: nat, none: BoardError, many: BoardError) -> Option<BoardError> {
    if n == 0 {
        Some(none)
    } else if n > 1 {
        Some(many)
    } else {
        None
    }
}

/// Why a board text is refused, if it is. The checks come in a fixed order:
/// the first invalid character in reading order, then the shape, then the
/// Minotaur, Theseus and goal markers in that order.
pub open spec fn board_error(s: Seq<char>) -> Option<BoardError> {
    if first_invalid_from(s, 0) is Some {
        Some(BoardError::InvalidCharacter(first_invalid_from(s, 0)->0))
    } else if !is_rectangular(s) {
        Some(BoardError::InvalidSize)
    } else if marker_error(count_of(s, 'M'), BoardError::NoMinotaur, BoardError::MultipleMinotaur) is Some {
        marker_error(count_of(s, 'M'), BoardError::NoMinotaur, BoardError::MultipleMinotaur)
    } else if marker_error(count_of(s, 'T'), BoardError::NoTheseus, BoardError::MultipleTheseus) is Some {
        marker_error(count_of(s, 'T'), BoardError::NoTheseus, BoardError::MultipleTheseus)
    } else {
        marker_error(count_of(s, 'G'), BoardError::NoGoal, BoardError::MultipleGoal)
    }
}

/// The tile for a board character; `None` for a character that is no cell.
pub fn tile_from_char(c: char) -> (r: Option<BoardTile>)
    ensures
        r == tile_of(c),
{
    match c {
        ' ' => Some(BoardTile::Empty),
        'X' => Some(BoardTile::Wall),
        'M' => Some(BoardTile::Minotaur),
        'T' => Some(BoardTile::Theseus),
        'G' => Some(BoardTile::Goal),
        _ => None,
    }
}

} // verus!
