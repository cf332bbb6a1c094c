use minotaur::{tile_from_char, BoardError, BoardTile, Game};

fn err(text: &str) -> BoardError {
    match Game::from_board(text) {
        Ok(_) => panic!("board accepted"),
        Err(e) => e,
    }
}

#[test]
fn plain_board_round_trip() {
    let g = Game::from_board("X G\nM  \n XT").unwrap();
    assert_eq!(g.goal_position(), (0, 2));
    assert_eq!(g.minotaur_position(), (1, 0));
    assert_eq!(g.theseus_position(), (2, 2));
    assert!(g.is_wall(0, 0));
    assert!(g.is_empty(0, 1));
    assert_eq!(g.return_boardtile(0, 2), Some(BoardTile::Goal));
    assert!(g.is_minotaur(1, 0));
    assert!(g.is_theseus(2, 2));
    assert!(g.is_wall(2, 1));
    assert_eq!(g.return_boardtile(3, 0), None);
    assert_eq!(g.return_boardtile(0, 3), None);
}

#[test]
fn trailing_newline_opens_no_row() {
    let g = Game::from_board("TMG\n").unwrap();
    assert_eq!(g.theseus_position(), (0, 0));
    assert_eq!(g.goal_position(), (0, 2));
    assert_eq!(g.return_boardtile(1, 0), None);
}

#[test]
fn out_of_range_queries_are_false() {
    let g = Game::from_board("TMG").unwrap();
    assert!(!g.is_wall(5, 5));
    assert!(!g.is_empty(0, 3));
    assert!(!g.is_theseus(1, 0));
    assert!(!g.is_minotaur(usize::MAX, 0));
    assert!(!g.is_goal(9, 9));
}

#[test]
fn invalid_character_reported() {
    assert_eq!(err("TMG\nXaX"), BoardError::InvalidCharacter('a'));
}

#[test]
fn first_invalid_character_wins() {
    assert_eq!(err("T?G\nM!X"), BoardError::InvalidCharacter('?'));
    assert_eq!(err("TG\n\tM"), BoardError::InvalidCharacter('\t'));
}

#[test]
fn invalid_character_before_size_and_markers() {
    assert_eq!(err("X\nXX#"), BoardError::InvalidCharacter('#'));
}

#[test]
fn empty_board_is_invalid_size() {
    assert_eq!(err(""), BoardError::InvalidSize);
}

#[test]
fn ragged_board_is_invalid_size() {
    assert_eq!(err("TMG\nXX"), BoardError::InvalidSize);
    assert_eq!(err("TM\nGXX"), BoardError::InvalidSize);
    assert_eq!(err("TMG\n\n"), BoardError::InvalidSize);
}

#[test]
fn size_checked_before_markers() {
    assert_eq!(err("X\nXX"), BoardError::InvalidSize);
}

#[test]
fn missing_minotaur() {
    assert_eq!(err("T G"), BoardError::NoMinotaur);
}

#[test]
fn repeated_minotaur() {
    assert_eq!(err("TMMG"), BoardError::MultipleMinotaur);
}

#[test]
fn missing_theseus() {
    assert_eq!(err(" MG"), BoardError::NoTheseus);
}

#[test]
fn repeated_theseus() {
    assert_eq!(err("TMT\nG  "), BoardError::MultipleTheseus);
}

#[test]
fn missing_goal() {
    assert_eq!(err("TM "), BoardError::NoGoal);
}

#[test]
fn repeated_goal() {
    assert_eq!(err("TMGG"), BoardError::MultipleGoal);
}

#[test]
fn marker_errors_in_fixed_order() {
    assert_eq!(err("XXX"), BoardError::NoMinotaur);
    assert_eq!(err("MMXX"), BoardError::MultipleMinotaur);
    assert_eq!(err("MGGX"), BoardError::NoTheseus);
    assert_eq!(err("MTXX"), BoardError::NoGoal);
}

#[test]
fn tiles_from_characters() {
    assert_eq!(tile_from_char(' '), Some(BoardTile::Empty));
    assert_eq!(tile_from_char('X'), Some(BoardTile::Wall));
    assert_eq!(tile_from_char('M'), Some(BoardTile::Minotaur));
    assert_eq!(tile_from_char('T'), Some(BoardTile::Theseus));
    assert_eq!(tile_from_char('G'), Some(BoardTile::Goal));
    assert_eq!(tile_from_char('x'), None);
}

#[test]
fn crlf_line_endings_end_rows() {
    let g = Game::from_board("X G\r\nM  \r\n XT\r\n").unwrap();
    assert_eq!(g.goal_position(), (0, 2));
    assert_eq!(g.minotaur_position(), (1, 0));
    assert_eq!(g.theseus_position(), (2, 2));
    assert!(g.is_wall(0, 0));
    assert!(g.is_empty(1, 2));
    assert!(g.is_wall(2, 1));
    assert_eq!(g.return_boardtile(0, 3), None);
    assert_eq!(g.return_boardtile(3, 0), None);
    let h = Game::from_board("TMG\r\n").unwrap();
    assert_eq!(h.theseus_position(), (0, 0));
    assert_eq!(h.minotaur_position(), (0, 1));
    assert_eq!(h.goal_position(), (0, 2));
}

#[test]
fn crlf_boards_report_errors() {
    assert_eq!(err("TMG\r\nXaX"), BoardError::InvalidCharacter('a'));
    assert_eq!(err("T G\r\n"), BoardError::NoMinotaur);
    assert_eq!(err("M G\r\n"), BoardError::NoTheseus);
    assert_eq!(err("TM \r\n"), BoardError::NoGoal);
    assert_eq!(err("TMM\r\n"), BoardError::MultipleMinotaur);
    assert_eq!(err("TMG\r\nXX"), BoardError::InvalidSize);
}

#[test]
fn lone_carriage_return_is_invalid() {
    assert_eq!(err("TMG\r"), BoardError::InvalidCharacter('\r'));
    assert_eq!(err("T\rMG"), BoardError::InvalidCharacter('\r'));
}
