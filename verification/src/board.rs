//! The board model: pawns, squares, and the canonical starting layout
//! of the 5x5 grid.

use vstd::prelude::*;

verus! {

/// A player side.
#[derive(Clone, Copy, Debug, PartialEq, Eq, Structural)]
pub enum Color {
    Blue,
    Red,
}

/// The rank of a pawn. Each side fields one Master and four Students.
#[derive(Clone, Copy, Debug, PartialEq, Eq, Structural)]
pub enum PawnType {
    Master,
    Student,
}

/// A piece on the board, owned by exactly one square at a time.
#[derive(Clone, Copy, Debug, PartialEq, Eq, Structural)]
pub struct Pawn {
    pub color: Color,
    pub pawn_type: PawnType,
}

/// One cell of the 5x5 grid: empty, or holding exactly one pawn.
#[derive(Clone, Copy, Debug, PartialEq, Eq, Structural)]
pub enum Square {
    Pawn(Pawn),
    Empty,
}

/// The square the starting layout puts at row `r`, column `c`: Blue's
/// pawns fill row 0 and Red's fill row 4, the Master of each side at
/// column 2, and every other cell is empty.
pub open spec fn spec_start_square(r: int, c: int) -> Square {
    if r == 0 || r == 4 {
        Square::Pawn(
            Pawn {
                color: if r == 0 {
                    Color::Blue
                } else {
                    Color::Red
                },
                pawn_type: if c == 2 {
                    PawnType::Master
                } else {
                    PawnType::Student
                },
            },
        )
    } else {
        Square::Empty
    }
}

/// The view of a board as a sequence of rows of squares.
pub open spec fn board_view(b: Vec<Vec<Square>>) -> Seq<Seq<Square>> {
    b@.map_values(|row: Vec<Square>| row@)
}

/// A 5x5 grid holding exactly the canonical starting layout.
pub open spec fn is_start_board(b: Seq<Seq<Square>>) -> bool {
    &&& b.len() == 5
    &&& forall|r: int| 0 <= r < 5 ==> (#[trigger] b[r]).len() == 5
    &&& forall|r: int, c: int|
        0 <= r < 5 && 0 <= c < 5 ==> #[trigger] b[r][c] == spec_start_square(r, c)
}

/// The pawn, if any, that the starting layout puts at the given cell.
fn start_square(r: usize, c: usize) -> (s: Square)
    requires
        r < 5,
        c < 5,
    ensures
        s == spec_start_square(r as int, c as int),
{
    if r == 0 || r == 4 {
        Square::Pawn(
            Pawn {
                color: if r == 0 {
                    Color::Blue
                } else {
                    Color::Red
                },
                pawn_type: if c == 2 {
                    PawnType::Master
                } else {
                    PawnType::Student
                },
            },
        )
    } else {
        Square::Empty
    }
}

/// Builds the starting board: a fresh, independently owned 5x5 grid
/// with Blue's row of pawns at row 0, Red's at row 4, each Master at
/// column 2, and the fifteen remaining cells empty.
pub fn generate_start_board() -> (board: Vec<Vec<Square>>)
    ensures
        is_start_board(board_view(board)),
{
    let mut board: Vec<Vec<Square>> = Vec::new();
    let mut r: usize = 0;
    while r < 5
        invariant
            r <= 5,
            board@.len() == r,
            forall|i: int| 0 <= i < r ==> (#[trigger] board@[i])@.len() == 5,
            forall|i: int, j: int|
                0 <= i < r && 0 <= j < 5 ==> #[trigger] board@[i]@[j] == spec_start_square(i, j),
        decreases 5 - r,
    {
        let mut row: Vec<Square> = Vec::new();
        let mut c: usize = 0;
        while c < 5
            invariant
                r < 5,
                c <= 5,
                row@.len() == c,
                forall|j: int| 0 <= j < c ==> #[trigger] row@[j] == spec_start_square(r as int, j),
            decreases 5 - c,
        {
            row.push(start_square(r, c));
            c += 1;
        }
        board.push(row);
        r += 1;
    }
    proof {
        assert forall|i: int, j: int| 0 <= i < 5 && 0 <= j < 5 implies #[trigger] board_view(
            board,
        )[i][j] == spec_start_square(i, j) by {
            assert(board_view(board)[i] == board@[i]@);
        }
        assert forall|i: int| 0 <= i < 5 implies (#[trigger] board_view(board)[i]).len() == 5 by {
            assert(board_view(board)[i] == board@[i]@);
        }
    }
    board
}

/// The starting layout is one fixed grid: any two boards that carry it
/// are structurally equal, cell for cell.
pub proof fn lemma_start_board_unique(a: Seq<Seq<Square>>, b: Seq<Seq<Square>>)
    requires
        is_start_board(a),
        is_start_board(b),
    ensures
        a == b,
{
    assert forall|r: int| 0 <= r < 5 implies a[r] == b[r] by {
        assert forall|c: int| 0 <= c < 5 implies a[r][c] == b[r][c] by {
            assert(a[r][c] == spec_start_square(r, c));
            assert(b[r][c] == spec_start_square(r, c));
        }
        assert(a[r] =~= b[r]);
    }
    assert(a =~= b);
}

} // verus!
