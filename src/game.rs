//! The game state: the grid and where Theseus, the Minotaur and the goal are.
use crate::board::{
    board_error, board_height, board_width, cell_at, ends_row, first_break_from, first_invalid_from,
    is_cell, occurrences, tile_from_char, tile_of,
};
use crate::types::{BoardError, BoardTile, Command, GameStatus};
use vstd::prelude::*;

verus! {

/// The grid and the three coordinates, as (row, column) pairs.
pub struct GameView {
    pub grid: Seq<Seq<BoardTile>>,
    pub theseus: (int, int),
    pub minotaur: (int, int),
    pub goal: (int, int),
}

/// The cell one step of `d` away from `p`.
pub open spec fn step(p: (int, int), d: (int, int)) -> (int, int) {
    (p.0 + d.0, p.1 + d.1)
}

/// The grid with the cell at `p` set to `t`.
pub open spec fn set_tile(grid: Seq<Seq<BoardTile>>, p: (int, int), t: BoardTile) -> Seq<
    Seq<BoardTile>,
> {
    grid.update(p.0, grid[p.0].update(p.1, t))
}

/// The grid after a marker `t` left `from` for `to`.
pub open spec fn relocate(
    grid: Seq<Seq<BoardTile>>,
    from: (int, int),
    to: (int, int),
    t: BoardTile,
) -> Seq<Seq<BoardTile>> {
    set_tile(set_tile(grid, from, BoardTile::Empty), to, t)
}

/// The step that a command asks for; `Skip` asks for none.
pub open spec fn command_delta(c: Command) -> Option<(int, int)> {
    match c {
        Command::Up => Some((-1, 0)),
        Command::Down => Some((1, 0)),
        Command::Left => Some((0, -1)),
        Command::Right => Some((0, 1)),
        Command::Skip => None,
    }
}

impl GameView {
    pub open spec fn in_bounds(self, p: (int, int)) -> bool {
        0 <= p.0 < self.grid.len() && 0 <= p.1 < self.grid[p.0].len()
    }

    /// The tile at `p`, or `None` off the grid.
    pub open spec fn tile_at(self, p: (int, int)) -> Option<BoardTile> {
        if self.in_bounds(p) {
            Some(self.grid[p.0][p.1])
        } else {
            None
        }
    }

    /// A cell that a mover may enter: on the grid and not a wall.
    pub open spec fn is_open(self, p: (int, int)) -> bool {
        self.in_bounds(p) && self.grid[p.0][p.1] != BoardTile::Wall
    }

    /// A non-empty rectangular grid, both movers on open cells, the goal on the grid.
    pub open spec fn wf(self) -> bool {
        &&& self.grid.len() > 0
        &&& forall|r: int| 0 <= r < self.grid.len() ==> #[trigger] self.grid[r].len() == self.grid[0].len()
        &&& self.is_open(self.theseus)
        &&& self.is_open(self.minotaur)
        &&& self.in_bounds(self.goal)
    }

    /// Each mover's marker is the tile at its coordinate.
    pub open spec fn markers_placed(self) -> bool {
        &&& self.tile_at(self.theseus) == Some(BoardTile::Theseus)
        &&& self.tile_at(self.minotaur) == Some(BoardTile::Minotaur)
    }

    /// The state after Theseus tries a step of `d`: blocked cells leave it as it was.
    pub open spec fn theseus_stepped(self, d: (int, int)) -> GameView {
        let q = step(self.theseus, d);
        if self.is_open(q) {
            GameView {
                grid: relocate(self.grid, self.theseus, q, BoardTile::Theseus),
                theseus: q,
                ..self
            }
        } else {
            self
        }
    }

    /// The state after the Minotaur tries a step of `d`: blocked cells leave it as it was.
    pub open spec fn minotaur_stepped(self, d: (int, int)) -> GameView {
        let q = step(self.minotaur, d);
        if self.is_open(q) {
            GameView {
                grid: relocate(self.grid, self.minotaur, q, BoardTile::Minotaur),
                minotaur: q,
                ..self
            }
        } else {
            self
        }
    }

    /// The state after Theseus follows command `c`.
    pub open spec fn commanded(self, c: Command) -> GameView {
        match command_delta(c) {
            Some(d) => self.theseus_stepped(d),
            None => self,
        }
    }

    /// The horizontal step that closes the column gap, if there is a gap.
    pub open spec fn chase_horizontal(self) -> Option<(int, int)> {
        if self.minotaur.1 < self.theseus.1 {
            Some((0, 1))
        } else if self.minotaur.1 > self.theseus.1 {
            Some((0, -1))
        } else {
            None
        }
    }

    /// The vertical step that closes the row gap, if there is a gap.
    pub open spec fn chase_vertical(self) -> Option<(int, int)> {
        if self.minotaur.0 < self.theseus.0 {
            Some((1, 0))
        } else if self.minotaur.0 > self.theseus.0 {
            Some((-1, 0))
        } else {
            None
        }
    }

    /// The step the Minotaur takes: the column gap first, then the row gap,
    /// each only where the cell is open; none if both are blocked.
    pub open spec fn chase_delta(self) -> Option<(int, int)> {
        if self.chase_horizontal() is Some && self.is_open(
            step(self.minotaur, self.chase_horizontal()->0),
        ) {
            self.chase_horizontal()
        } else if self.chase_vertical() is Some && self.is_open(
            step(self.minotaur, self.chase_vertical()->0),
        ) {
            self.chase_vertical()
        } else {
            None
        }
    }

    /// The state after the Minotaur's turn.
    pub open spec fn chased(self) -> GameView {
        match self.chase_delta() {
            Some(d) => self.minotaur_stepped(d),
            None => self,
        }
    }

    /// Capture comes before reaching the goal.
    pub open spec fn status(self) -> GameStatus {
        if self.minotaur == self.theseus {
            GameStatus::Lose
        } else if self.theseus == self.goal {
            GameStatus::Win
        } else {
            GameStatus::Continue
        }
    }
}

/// The marker `c` last seen before index `i` stands at `idx`; while it has
/// been seen once, every occurrence is that one.
spec fn marker_tracked(s: Seq<char>, c: char, i: int, idx: int) -> bool {
    &&& occurrences(s, c, i) > 0 ==> 0 <= idx < i && s[idx] == c
    &&& forall|k: int|
        0 <= k < i && #[trigger] s[k] == c ==> occurrences(s, c, i) >= 1 && (occurrences(
            s,
            c,
            i,
        ) == 1 ==> k == idx)
}

impl GameView {
    /// The state holds the board that text `s` describes: its shape, the tile
    /// of every cell character, and the position of each marker.
    pub open spec fn read_from(self, s: Seq<char>) -> bool {
        &&& self.grid.len() == board_height(s)
        &&& forall|r: int| 0 <= r < self.grid.len() ==> #[trigger] self.grid[r].len() == board_width(s)
        &&& forall|k: int|
            0 <= k < s.len() && is_cell(s, k) ==> self.tile_at(#[trigger] cell_at(s, k)) == tile_of(s[k])
        &&& forall|r: int, c: int|
            #[trigger] self.in_bounds((r, c)) ==> exists|k: int|
                0 <= k < s.len() && is_cell(s, k) && #[trigger] cell_at(s, k) == (r, c)
        &&& forall|k: int| 0 <= k < s.len() && #[trigger] s[k] == 'T' ==> self.theseus == cell_at(s, k)
        &&& forall|k: int| 0 <= k < s.len() && #[trigger] s[k] == 'M' ==> self.minotaur == cell_at(s, k)
        &&& forall|k: int| 0 <= k < s.len() && #[trigger] s[k] == 'G' ==> self.goal == cell_at(s, k)
    }
}

/// A game in progress.
pub struct Game {
    grid: Vec<Vec<BoardTile>>,
    theseus_coordinate: (usize, usize),
    minotaur_coordinate: (usize, usize),
    goal_coordinate: (usize, usize),
}

impl View for Game {
    type V = GameView;

    closed spec fn view(&self) -> GameView {
        GameView {
            grid: self.grid@.map_values(|r: Vec<BoardTile>| r@),
            theseus: (self.theseus_coordinate.0 as int, self.theseus_coordinate.1 as int),
            minotaur: (self.minotaur_coordinate.0 as int, self.minotaur_coordinate.1 as int),
            goal: (self.goal_coordinate.0 as int, self.goal_coordinate.1 as int),
        }
    }
}

impl Clone for Game {
    fn clone(&self) -> (r: Self)
        ensures
            r@ == self@,
    {
        let mut grid: Vec<Vec<BoardTile>> = Vec::new();
        let mut i: usize = 0;
        while i < self.grid.len()
            invariant
                0 <= i <= self.grid.len(),
                grid@.len() == i,
                forall|r: int| 0 <= r < i ==> #[trigger] grid@[r]@ == self.grid@[r]@,
            decreases self.grid.len() - i,
        {
            let row = self.grid[i].clone();
            assert(row@ =~= self.grid@[i as int]@);
            grid.push(row);
            i = i + 1;
        }
        let r = Game {
            grid,
            theseus_coordinate: self.theseus_coordinate,
            minotaur_coordinate: self.minotaur_coordinate,
            goal_coordinate: self.goal_coordinate,
        };
        assert(r@.grid =~= self@.grid);
        r
    }
}

impl Game {
    /// Reads a board: `' '` empty, `X` wall, `M` Minotaur, `T` Theseus, `G`
    /// goal, one line per row, each line ended by `\n` or `\r\n`. Refused as
    /// `board_error` says: the first invalid character, then an empty or
    /// ragged board, then a missing or repeated marker, Minotaur before
    /// Theseus before goal.
    pub fn from_board(board: &str) -> (r: Result<Game, BoardError>)
        ensures
            match r {
                Ok(g) => board_error(board@) is None && g@.wf() && g@.read_from(board@),
                Err(e) => board_error(board@) == Some(e),
            },
    {
        let ghost s = board@;
        let n = board.unicode_len();
        let mut grid: Vec<Vec<BoardTile>> = Vec::new();
        let mut row: Vec<BoardTile> = Vec::new();
        let mut theseus: (usize, usize) = (0, 0);
        let mut minotaur: (usize, usize) = (0, 0);
        let mut goal: (usize, usize) = (0, 0);
        let mut n_theseus: usize = 0;
        let mut n_minotaur: usize = 0;
        let mut n_goal: usize = 0;
        let ghost mut t_idx: int = 0;
        let ghost mut m_idx: int = 0;
        let ghost mut g_idx: int = 0;
        let mut width: usize = 0;
        let mut width_known = false;
        let mut ragged = false;
        let ghost mut bad: int = 0;
        let ghost mut origin: Seq<Seq<int>> = Seq::empty();
        let ghost mut origin_row: Seq<int> = Seq::empty();
        let mut i: usize = 0;
        while i < n
            invariant
                s == board@,
                n == s.len(),
                0 <= i <= n,
                first_invalid_from(s, 0) == first_invalid_from(s, i as int),
                cell_at(s, i as int) == (grid.len() as int, row.len() as int),
                grid.len() <= i,
                row.len() <= i,
                forall|k: int|
                    0 <= k < i && is_cell(s, k) ==> {
                        let p = #[trigger] cell_at(s, k);
                        &&& 0 <= p.0 <= grid.len()
                        &&& 0 <= p.1
                        &&& p.0 < grid.len() ==> p.1 < grid@[p.0]@.len() && Some(grid@[p.0]@[p.1])
                            == tile_of(s[k])
                        &&& p.0 == grid.len() ==> p.1 < row@.len() && Some(row@[p.1]) == tile_of(s[k])
                    },
                origin.len() == grid.len(),
                origin_row.len() == row.len(),
                forall|r: int|
                    0 <= r < grid.len() ==> #[trigger] origin[r].len() == grid@[r]@.len(),
                forall|r: int, c: int|
                    0 <= r < grid.len() && 0 <= c < origin[r].len() ==> {
                        let k = #[trigger] origin[r][c];
                        0 <= k < i && is_cell(s, k) && cell_at(s, k) == (r, c)
                    },
                forall|c: int|
                    0 <= c < row.len() ==> {
                        let k = #[trigger] origin_row[c];
                        0 <= k < i && is_cell(s, k) && cell_at(s, k) == (grid.len() as int, c)
                    },
                n_theseus as int == occurrences(s, 'T', i as int),
                n_minotaur as int == occurrences(s, 'M', i as int),
                n_goal as int == occurrences(s, 'G', i as int),
                n_theseus <= i,
                n_minotaur <= i,
                n_goal <= i,
                marker_tracked(s, 'T', i as int, t_idx),
                marker_tracked(s, 'M', i as int, m_idx),
                marker_tracked(s, 'G', i as int, g_idx),
                n_theseus > 0 ==> cell_at(s, t_idx) == (theseus.0 as int, theseus.1 as int),
                n_minotaur > 0 ==> cell_at(s, m_idx) == (minotaur.0 as int, minotaur.1 as int),
                n_goal > 0 ==> cell_at(s, g_idx) == (goal.0 as int, goal.1 as int),
                !width_known ==> grid.len() == 0,
                !width_known ==> forall|k: int| 0 <= k < i ==> s[k] != '\n',
                !width_known ==> first_break_from(s, 0) == first_break_from(s, i as int),
                width_known ==> width as int == board_width(s),
                !ragged ==> forall|k: int|
                    0 <= k < i && #[trigger] ends_row(s, k) ==> cell_at(s, k).1 == width as int,
                !ragged ==> forall|r: int| 0 <= r < grid.len() ==> #[trigger] grid@[r]@.len() == width,
                ragged ==> ends_row(s, bad) && cell_at(s, bad).1 != board_width(s),
            decreases n - i,
        {
            let c = board.get_char(i);
            if c == '\n' {
                if !width_known {
                    width = row.len();
                    width_known = true;
                } else if row.len() != width && !ragged {
                    ragged = true;
                    proof {
                        bad = i as int;
                    }
                }
                grid.push(row);
                row = Vec::new();
                proof {
                    origin = origin.push(origin_row);
                    origin_row = Seq::empty();
                }
            } else if c == '\r' && i + 1 < n && board.get_char(i + 1) == '\n' {
                // the carriage return of a `\r\n` line ending: no cell
            } else {
                match tile_from_char(c) {
                    None => {
                        return Err(BoardError::InvalidCharacter(c));
                    },
                    Some(t) => {
                        if c == 'T' {
                            theseus = (grid.len(), row.len());
                            n_theseus = n_theseus + 1;
                            proof {
                                t_idx = i as int;
                            }
                        } else if c == 'M' {
                            minotaur = (grid.len(), row.len());
                            n_minotaur = n_minotaur + 1;
                            proof {
                                m_idx = i as int;
                            }
                        } else if c == 'G' {
                            goal = (grid.len(), row.len());
                            n_goal = n_goal + 1;
                            proof {
                                g_idx = i as int;
                            }
                        }
                        row.push(t);
                        proof {
                            origin_row = origin_row.push(i as int);
                        }
                    },
                }
            }
            i = i + 1;
        }
        if n > 0 && board.get_char(n - 1) != '\n' {
            if !width_known {
                width = row.len();
                width_known = true;
            } else if row.len() != width && !ragged {
                ragged = true;
                proof {
                    bad = n as int;
                }
            }
            grid.push(row);
            proof {
                origin = origin.push(origin_row);
            }
        }
        if n == 0 || ragged {
            proof {
                if ragged {
                    assert(ends_row(s, bad));
                }
            }
            return Err(BoardError::InvalidSize);
        }
        if n_minotaur == 0 {
            return Err(BoardError::NoMinotaur);
        } else if n_minotaur > 1 {
            return Err(BoardError::MultipleMinotaur);
        }
        if n_theseus == 0 {
            return Err(BoardError::NoTheseus);
        } else if n_theseus > 1 {
            return Err(BoardError::MultipleTheseus);
        }
        if n_goal == 0 {
            return Err(BoardError::NoGoal);
        } else if n_goal > 1 {
            return Err(BoardError::MultipleGoal);
        }
        let game = Game {
            grid,
            theseus_coordinate: theseus,
            minotaur_coordinate: minotaur,
            goal_coordinate: goal,
        };
        proof {
            assert forall|r: int, c: int| #[trigger] game@.in_bounds((r, c)) implies exists|k: int|
                    0 <= k < s.len() && is_cell(s, k) && #[trigger] cell_at(s, k) == (r, c) by {
                let k = origin[r][c];
                assert(cell_at(s, k) == (r, c));
            }
        }
        Ok(game)
    }
}

impl Game {
    /// The tile at (row, col), or `None` off the grid.
    pub fn return_boardtile(&self, row: usize, col: usize) -> (r: Option<BoardTile>)
        ensures
            r == self@.tile_at((row as int, col as int)),
    {
        if row < self.grid.len() && col < self.grid[row].len() {
            Some(self.grid[row][col])
        } else {
            None
        }
    }

    /// Returns true if the given position is Theseus
    pub fn is_theseus(&self, row: usize, col: usize) -> (r: bool)
        ensures
            r == (self@.tile_at((row as int, col as int)) == Some(BoardTile::Theseus)),
    {
        match self.return_boardtile(row, col) {
            Some(BoardTile::Theseus) => true,
            _ => false,
        }
    }

    /// Returns true if the given position is Minotaur
    pub fn is_minotaur(&self, row: usize, col: usize) -> (r: bool)
        ensures
            r == (self@.tile_at((row as int, col as int)) == Some(BoardTile::Minotaur)),
    {
        match self.return_boardtile(row, col) {
            Some(BoardTile::Minotaur) => true,
            _ => false,
        }
    }

    /// Returns true if the given position is a wall
    pub fn is_wall(&self, row: usize, col: usize) -> (r: bool)
        ensures
            r == (self@.tile_at((row as int, col as int)) == Some(BoardTile::Wall)),
    {
        match self.return_boardtile(row, col) {
            Some(BoardTile::Wall) => true,
            _ => false,
        }
    }

    /// Returns true if the given position is the goal, whoever stands on it
    pub fn is_goal(&self, row: usize, col: usize) -> (r: bool)
        ensures
            r == (self@.goal == (row as int, col as int)),
    {
        self.goal_coordinate.0 == row && self.goal_coordinate.1 == col
    }

    /// Returns true if the given position is empty
    pub fn is_empty(&self, row: usize, col: usize) -> (r: bool)
        ensures
            r == (self@.tile_at((row as int, col as int)) == Some(BoardTile::Empty)),
    {
        match self.return_boardtile(row, col) {
            Some(BoardTile::Empty) => true,
            _ => false,
        }
    }

    /// Where Theseus stands.
    pub fn theseus_position(&self) -> (r: (usize, usize))
        ensures
            (r.0 as int, r.1 as int) == self@.theseus,
    {
        self.theseus_coordinate
    }

    /// Where the Minotaur stands.
    pub fn minotaur_position(&self) -> (r: (usize, usize))
        ensures
            (r.0 as int, r.1 as int) == self@.minotaur,
    {
        self.minotaur_coordinate
    }

    /// Where the goal is.
    pub fn goal_position(&self) -> (r: (usize, usize))
        ensures
            (r.0 as int, r.1 as int) == self@.goal,
    {
        self.goal_coordinate
    }

    /// The open cell one step of (row, col) away from `p`, if there is one.
    fn open_target(&self, p: (usize, usize), row: isize, col: isize) -> (r: Option<(usize, usize)>)
        ensures
            r is Some <==> self@.is_open(step((p.0 as int, p.1 as int), (row as int, col as int))),
            r is Some ==> ((r->0).0 as int, (r->0).1 as int) == step(
                (p.0 as int, p.1 as int),
                (row as int, col as int),
            ),
    {
        let new_row: i128 = p.0 as i128 + row as i128;
        let new_col: i128 = p.1 as i128 + col as i128;
        if new_row < 0 || new_col < 0 || new_row >= self.grid.len() as i128 {
            return None;
        }
        let r = new_row as usize;
        if new_col >= self.grid[r].len() as i128 {
            return None;
        }
        let c = new_col as usize;
        if self.is_wall(r, c) {
            None
        } else {
            Some((r, c))
        }
    }

    /// Moves the marker `t` from `from` to `to`, leaving `from` empty.
    fn relocate_marker(&mut self, from: (usize, usize), to: (usize, usize), t: BoardTile)
        requires
            old(self)@.in_bounds((from.0 as int, from.1 as int)),
            old(self)@.in_bounds((to.0 as int, to.1 as int)),
        ensures
            final(self)@.grid == relocate(
                old(self)@.grid,
                (from.0 as int, from.1 as int),
                (to.0 as int, to.1 as int),
                t,
            ),
            final(self).theseus_coordinate == old(self).theseus_coordinate,
            final(self).minotaur_coordinate == old(self).minotaur_coordinate,
            final(self).goal_coordinate == old(self).goal_coordinate,
    {
        self.grid[from.0][from.1] = BoardTile::Empty;
        self.grid[to.0][to.1] = t;
        assert(self@.grid =~= relocate(
            old(self)@.grid,
            (from.0 as int, from.1 as int),
            (to.0 as int, to.1 as int),
            t,
        ));
    }

    /// Tries to move the Minotaur by (row, col); off the grid and walls block.
    /// Returns whether it moved.
    pub fn move_minotaur(&mut self, row: isize, col: isize) -> (moved: bool)
        requires
            old(self)@.wf(),
        ensures
            moved == old(self)@.is_open(step(old(self)@.minotaur, (row as int, col as int))),
            final(self)@ == old(self)@.minotaur_stepped((row as int, col as int)),
            final(self)@.wf(),
    {
        match self.open_target(self.minotaur_coordinate, row, col) {
            Some(q) => {
                self.relocate_marker(self.minotaur_coordinate, q, BoardTile::Minotaur);
                self.minotaur_coordinate = q;
                true
            },
            None => false,
        }
    }

    /// Tries to move Theseus by (row, col); off the grid and walls block.
    pub fn move_theseus(&mut self, row: isize, col: isize)
        requires
            old(self)@.wf(),
        ensures
            final(self)@ == old(self)@.theseus_stepped((row as int, col as int)),
            final(self)@.wf(),
    {
        match self.open_target(self.theseus_coordinate, row, col) {
            Some(q) => {
                self.relocate_marker(self.theseus_coordinate, q, BoardTile::Theseus);
                self.theseus_coordinate = q;
            },
            None => {},
        }
    }

    /// Applies the player's command to Theseus.
    pub fn theseus_move(&mut self, command: Command)
        requires
            old(self)@.wf(),
        ensures
            final(self)@ == old(self)@.commanded(command),
            final(self)@.wf(),
    {
        match command {
            Command::Up => self.move_theseus(-1, 0),
            Command::Down => self.move_theseus(1, 0),
            Command::Left => self.move_theseus(0, -1),
            Command::Right => self.move_theseus(0, 1),
            Command::Skip => {},
        }
    }

    /// The Minotaur's turn: one step closing the column gap if that cell is
    /// open, else one step closing the row gap if that cell is open, else none.
    pub fn minotaur_move(&mut self)
        requires
            old(self)@.wf(),
        ensures
            final(self)@ == old(self)@.chased(),
            final(self)@.wf(),
    {
        let m_row = self.minotaur_coordinate.0;
        let m_col = self.minotaur_coordinate.1;
        let t_row = self.theseus_coordinate.0;
        let t_col = self.theseus_coordinate.1;
        if m_col < t_col {
            if self.move_minotaur(0, 1) {
                return;
            }
        } else if m_col > t_col {
            if self.move_minotaur(0, -1) {
                return;
            }
        }
        if m_row < t_row {
            if self.move_minotaur(1, 0) {
                return;
            }
        } else if m_row > t_row {
            if self.move_minotaur(-1, 0) {
                return;
            }
        }
    }

    /// Lose when the Minotaur has caught Theseus, else Win when Theseus is on
    /// the goal, else Continue.
    pub fn status(&self) -> (r: GameStatus)
        ensures
            r == self@.status(),
    {
        if self.minotaur_coordinate.0 == self.theseus_coordinate.0
            && self.minotaur_coordinate.1 == self.theseus_coordinate.1 {
            return GameStatus::Lose;
        }
        if self.is_goal(self.theseus_coordinate.0, self.theseus_coordinate.1) {
            return GameStatus::Win;
        }
        GameStatus::Continue
    }
}

} // verus!
