use onitama_core::Color;
use onitama_core::Pawn;
use onitama_core::PawnType;
use onitama_core::Square;
use onitama_core::generate_start_board;

fn pawn(color: Color, pawn_type: PawnType) -> Square {
    Square::Pawn(Pawn { color, pawn_type })
}

#[test]
fn start_board_layout() {
    let board = generate_start_board();
    assert_eq!(board.len(), 5);
    for row in &board {
        assert_eq!(row.len(), 5);
    }
    assert_eq!(
        board[0],
        vec![
            pawn(Color::Blue, PawnType::Student),
            pawn(Color::Blue, PawnType::Student),
            pawn(Color::Blue, PawnType::Master),
            pawn(Color::Blue, PawnType::Student),
            pawn(Color::Blue, PawnType::Student),
        ]
    );
    for r in 1..4 {
        for c in 0..5 {
            assert_eq!(board[r][c], Square::Empty);
        }
    }
    assert_eq!(
        board[4],
        vec![
            pawn(Color::Red, PawnType::Student),
            pawn(Color::Red, PawnType::Student),
            pawn(Color::Red, PawnType::Master),
            pawn(Color::Red, PawnType::Student),
            pawn(Color::Red, PawnType::Student),
        ]
    );
}

#[test]
fn start_boards_are_equal_and_independent() {
    let mut first = generate_start_board();
    let second = generate_start_board();
    assert_eq!(first, second);

    first[2][2] = pawn(Color::Blue, PawnType::Master);
    assert_eq!(second[2][2], Square::Empty);
    assert_ne!(first, second);

    let fresh = generate_start_board();
    assert_eq!(second, fresh);
}
