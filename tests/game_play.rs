use minotaur::{Command, Game, GameStatus};

const MAZE: &str = "XXXXX\nXT  X\nX  MX\nX  GX\nXXXXX";

fn game(text: &str) -> Game {
    match Game::from_board(text) {
        Ok(g) => g,
        Err(e) => panic!("board refused: {:?}", e),
    }
}


#[test]
fn example_maze_positions() {
    let g = game(MAZE);
    assert_eq!(g.theseus_position(), (1, 1));
    assert_eq!(g.minotaur_position(), (2, 3));
    assert_eq!(g.goal_position(), (3, 3));
    assert_eq!(g.status(), GameStatus::Continue);
}

#[test]
fn example_maze_first_turn() {
    let mut g = game(MAZE);
    g.theseus_move(Command::Down);
    assert_eq!(g.theseus_position(), (2, 1));
    g.minotaur_move();
    assert_eq!(g.minotaur_position(), (2, 2));
    assert_eq!(g.status(), GameStatus::Continue);
}

#[test]
fn example_maze_win() {
    let mut g = game(MAZE);
    for c in [Command::Down, Command::Down, Command::Right, Command::Right] {
        assert_eq!(g.status(), GameStatus::Continue);
        g.theseus_move(c);
        g.minotaur_move();
    }
    assert_eq!(g.theseus_position(), (3, 3));
    assert_eq!(g.minotaur_position(), (2, 3));
    assert_eq!(g.status(), GameStatus::Win);
}

#[test]
fn example_maze_lose() {
    let mut g = game(MAZE);
    for _ in 0..2 {
        g.theseus_move(Command::Skip);
        g.minotaur_move();
        assert_eq!(g.status(), GameStatus::Continue);
    }
    assert_eq!(g.minotaur_position(), (2, 1));
    g.theseus_move(Command::Skip);
    g.minotaur_move();
    assert_eq!(g.minotaur_position(), (1, 1));
    assert_eq!(g.status(), GameStatus::Lose);
}

#[test]
fn capture_on_goal_is_lose() {
    let mut g = game("XXXX\nXTGX\nXXMX\nXXXX");
    g.theseus_move(Command::Right);
    assert_eq!(g.theseus_position(), (1, 2));
    assert_eq!(g.status(), GameStatus::Win);
    g.minotaur_move();
    assert_eq!(g.minotaur_position(), (1, 2));
    assert!(g.is_goal(1, 2));
    assert_eq!(g.status(), GameStatus::Lose);
}

#[test]
fn theseus_blocked_by_wall() {
    let mut g = game(MAZE);
    g.theseus_move(Command::Up);
    assert_eq!(g.theseus_position(), (1, 1));
    g.theseus_move(Command::Left);
    assert_eq!(g.theseus_position(), (1, 1));
    assert!(g.is_theseus(1, 1));
    assert!(g.is_wall(0, 1));
}

#[test]
fn skip_changes_nothing() {
    let mut g = game(MAZE);
    g.theseus_move(Command::Skip);
    assert_eq!(g.theseus_position(), (1, 1));
    assert_eq!(g.minotaur_position(), (2, 3));
    assert!(g.is_theseus(1, 1));
}

#[test]
fn open_step_moves_only_mover() {
    let mut g = game(MAZE);
    g.theseus_move(Command::Right);
    assert_eq!(g.theseus_position(), (1, 2));
    assert_eq!(g.minotaur_position(), (2, 3));
    assert_eq!(g.goal_position(), (3, 3));
    assert!(g.is_empty(1, 1));
    assert!(g.is_theseus(1, 2));
    assert!(g.move_minotaur(1, 0));
    assert_eq!(g.minotaur_position(), (3, 3));
    assert_eq!(g.theseus_position(), (1, 2));
    assert!(g.is_empty(2, 3));
    assert!(g.is_minotaur(3, 3));
    assert!(g.is_goal(3, 3));
}

#[test]
fn minotaur_blocked_by_wall() {
    let mut g = game(MAZE);
    assert!(!g.move_minotaur(0, 1));
    assert_eq!(g.minotaur_position(), (2, 3));
    assert!(g.is_minotaur(2, 3));
}

#[test]
fn minotaur_at_edge_stays() {
    let mut g = game("M  \n T \n  G");
    assert!(!g.move_minotaur(-1, 0));
    assert!(!g.move_minotaur(0, -1));
    assert_eq!(g.minotaur_position(), (0, 0));
    let mut h = game("  G\nT  \n  M");
    assert!(!h.move_minotaur(1, 0));
    assert!(!h.move_minotaur(0, 1));
    assert_eq!(h.minotaur_position(), (2, 2));
}

#[test]
fn theseus_at_edge_stays() {
    let mut g = game("T  \n M \n  G");
    g.theseus_move(Command::Up);
    g.theseus_move(Command::Left);
    assert_eq!(g.theseus_position(), (0, 0));
}

#[test]
fn chase_closes_column_gap_first() {
    let mut g = game("T   \n    \n   M\nG   ");
    g.minotaur_move();
    assert_eq!(g.minotaur_position(), (2, 2));
}

#[test]
fn chase_falls_back_to_rows_when_column_blocked() {
    let mut g = game("T  \n   \nXM \nG  ");
    g.minotaur_move();
    assert_eq!(g.minotaur_position(), (1, 1));
}

#[test]
fn chase_blocked_everywhere_stays() {
    let mut g = game("T X\n XX\nXM \nG  ");
    g.minotaur_move();
    assert_eq!(g.minotaur_position(), (2, 1));
}

#[test]
fn chase_is_deterministic() {
    let mut a = game(MAZE);
    let mut b = game(MAZE);
    a.minotaur_move();
    b.minotaur_move();
    assert_eq!(a.minotaur_position(), b.minotaur_position());
    let mut c = a.clone();
    a.minotaur_move();
    c.minotaur_move();
    assert_eq!(a.minotaur_position(), c.minotaur_position());
}

#[test]
fn markers_follow_their_movers() {
    let mut g = game(MAZE);
    let check = |g: &Game| {
        let (tr, tc) = g.theseus_position();
        let (mr, mc) = g.minotaur_position();
        assert!(g.is_theseus(tr, tc));
        assert!(g.is_minotaur(mr, mc));
    };
    check(&g);
    for c in [Command::Right, Command::Left] {
        g.theseus_move(c);
        check(&g);
        g.minotaur_move();
        check(&g);
    }
    assert_eq!(g.theseus_position(), (1, 1));
    assert_eq!(g.minotaur_position(), (2, 1));
}
