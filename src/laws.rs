//! Facts about the board reader, movement, the chase and the status.
use crate::board::{
    board_error, cell_at, count_of, first_invalid_from, invalid_at, is_rectangular, occurrences,
};
use crate::game::{command_delta, step, GameView};
use crate::types::{BoardError, BoardTile, Command, GameStatus};
use vstd::prelude::*;

verus! {

/// With no invalid character from index `i` on, the scan from `i` finds none.
proof fn lemma_no_invalid_from(s: Seq<char>, i: int)
    requires
        0 <= i <= s.len(),
        forall|k: int| i <= k < s.len() ==> !#[trigger] invalid_at(s, k),
    ensures
        first_invalid_from(s, i) is None,
    decreases s.len() - i,
{
    if i < s.len() {
        lemma_no_invalid_from(s, i + 1);
    }
}

/// The scan from any index up to `k` stops at the invalid character at `k`.
proof fn lemma_first_invalid_at(s: Seq<char>, j: int, k: int)
    requires
        0 <= j <= k < s.len(),
        invalid_at(s, k),
        forall|m: int| j <= m < k ==> !#[trigger] invalid_at(s, m),
    ensures
        first_invalid_from(s, j) == Some(s[k]),
    decreases k - j,
{
    if j < k {
        lemma_first_invalid_at(s, j + 1, k);
    }
}

/// A rectangular board of cells and line breaks holding exactly one Theseus,
/// one Minotaur and one goal is accepted.
pub proof fn lemma_plain_board_accepted(s: Seq<char>)
    requires
        forall|k: int| 0 <= k < s.len() ==> !#[trigger] invalid_at(s, k),
        is_rectangular(s),
        count_of(s, 'T') == 1,
        count_of(s, 'M') == 1,
        count_of(s, 'G') == 1,
    ensures
        board_error(s) is None,
{
    lemma_no_invalid_from(s, 0);
}

/// A board with an invalid character is refused with the first such
/// character in reading order.
pub proof fn lemma_invalid_character_reported(s: Seq<char>, k: int)
    requires
        0 <= k < s.len(),
        invalid_at(s, k),
        forall|m: int| 0 <= m < k ==> !#[trigger] invalid_at(s, m),
    ensures
        board_error(s) == Some(BoardError::InvalidCharacter(s[k])),
{
    lemma_first_invalid_at(s, 0, k);
}

/// On a rectangular board of valid characters, a missing or repeated marker
/// is reported, the Minotaur checked first, then Theseus, then the goal.
pub proof fn lemma_marker_errors(s: Seq<char>)
    requires
        forall|k: int| 0 <= k < s.len() ==> !#[trigger] invalid_at(s, k),
        is_rectangular(s),
    ensures
        count_of(s, 'M') == 0 ==> board_error(s) == Some(BoardError::NoMinotaur),
        count_of(s, 'M') > 1 ==> board_error(s) == Some(BoardError::MultipleMinotaur),
        count_of(s, 'M') == 1 && count_of(s, 'T') == 0 ==> board_error(s) == Some(
            BoardError::NoTheseus,
        ),
        count_of(s, 'M') == 1 && count_of(s, 'T') > 1 ==> board_error(s) == Some(
            BoardError::MultipleTheseus,
        ),
        count_of(s, 'M') == 1 && count_of(s, 'T') == 1 && count_of(s, 'G') == 0 ==> board_error(s)
            == Some(BoardError::NoGoal),
        count_of(s, 'M') == 1 && count_of(s, 'T') == 1 && count_of(s, 'G') > 1 ==> board_error(s)
            == Some(BoardError::MultipleGoal),
{
    lemma_no_invalid_from(s, 0);
}

/// A character counted at least once among the first `n` occurs there.
proof fn lemma_occurs(s: Seq<char>, c: char, n: int)
    requires
        0 <= n <= s.len(),
        occurrences(s, c, n) > 0,
    ensures
        exists|k: int| 0 <= k < n && s[k] == c,
    decreases n,
{
    if s[n - 1] == c {
        assert(0 <= n - 1 < n && s[n - 1] == c);
    } else {
        lemma_occurs(s, c, n - 1);
    }
}

/// A state read from an accepted board holds Theseus's and the Minotaur's
/// markers exactly at their coordinates.
pub proof fn lemma_parsed_markers_placed(s: Seq<char>, v: GameView)
    requires
        board_error(s) is None,
        v.read_from(s),
    ensures
        v.markers_placed(),
{
    lemma_occurs(s, 'T', s.len() as int);
    let t = choose|k: int| 0 <= k < s.len() && s[k] == 'T';
    assert(v.tile_at(cell_at(s, t)) == Some(BoardTile::Theseus));
    lemma_occurs(s, 'M', s.len() as int);
    let m = choose|k: int| 0 <= k < s.len() && s[k] == 'M';
    assert(v.tile_at(cell_at(s, m)) == Some(BoardTile::Minotaur));
}

/// Every move keeps each marker at its mover's coordinate, as long as
/// Theseus and the Minotaur end up apart.
pub proof fn lemma_moves_keep_markers(v: GameView, d: (int, int), c: Command)
    requires
        v.wf(),
        v.markers_placed(),
    ensures
        v.theseus_stepped(d).theseus != v.minotaur ==> v.theseus_stepped(d).markers_placed(),
        v.minotaur_stepped(d).minotaur != v.theseus ==> v.minotaur_stepped(d).markers_placed(),
        v.commanded(c).theseus != v.minotaur ==> v.commanded(c).markers_placed(),
        v.chased().minotaur != v.theseus ==> v.chased().markers_placed(),
{
    if let Some(e) = command_delta(c) {
        assert(v.commanded(c) == v.theseus_stepped(e));
    }
    if let Some(e) = v.chase_delta() {
        assert(v.chased() == v.minotaur_stepped(e));
    }
}

/// A step into a wall changes nothing, for Theseus and for the Minotaur; and
/// `Skip` changes nothing.
pub proof fn lemma_wall_blocks(v: GameView, d: (int, int))
    ensures
        v.tile_at(step(v.theseus, d)) == Some(BoardTile::Wall) ==> v.theseus_stepped(d) == v,
        v.tile_at(step(v.minotaur, d)) == Some(BoardTile::Wall) ==> v.minotaur_stepped(d) == v,
        v.commanded(Command::Skip) == v,
{
}

/// A step into an open cell moves the mover by exactly that step and leaves
/// the other coordinates as they were.
pub proof fn lemma_open_step_moves_mover(v: GameView, d: (int, int))
    ensures
        v.is_open(step(v.theseus, d)) ==> {
            let w = v.theseus_stepped(d);
            &&& w.theseus == step(v.theseus, d)
            &&& w.minotaur == v.minotaur
            &&& w.goal == v.goal
        },
        v.is_open(step(v.minotaur, d)) ==> {
            let w = v.minotaur_stepped(d);
            &&& w.minotaur == step(v.minotaur, d)
            &&& w.theseus == v.theseus
            &&& w.goal == v.goal
        },
{
}

/// The chase depends only on the grid and the two movers' positions.
pub proof fn lemma_chase_deterministic(a: GameView, b: GameView)
    requires
        a.grid == b.grid,
        a.theseus == b.theseus,
        a.minotaur == b.minotaur,
    ensures
        a.chased().minotaur == b.chased().minotaur,
        a.chased().grid == b.chased().grid,
{
}

/// Capture is reported as a loss even on the goal.
pub proof fn lemma_capture_before_goal(v: GameView)
    requires
        v.minotaur == v.theseus,
    ensures
        v.status() == GameStatus::Lose,
{
}

/// A step off the grid is refused as a wall is: the state stays as it was.
pub proof fn lemma_edge_blocks(v: GameView, d: (int, int))
    ensures
        !v.in_bounds(step(v.minotaur, d)) ==> v.minotaur_stepped(d) == v,
        !v.in_bounds(step(v.theseus, d)) ==> v.theseus_stepped(d) == v,
{
}

} // verus!
