//! The card catalog: the sixteen movement cards and the exact
//! displacements each one grants.

use vstd::prelude::*;

verus! {

/// One of the sixteen movement cards of the game.
#[derive(Clone, Copy, Debug, PartialEq, Eq, Structural)]
pub enum Card {
    Tiger,
    Crab,
    Monkey,
    Crane,
    Dragon,
    Elephant,
    Mantis,
    Boar,
    Frog,
    Goose,
    Horse,
    Eel,
    Rabbit,
    Rooster,
    Ox,
    Cobra,
}

/// A symbolic relative displacement on the board, seen from the Blue side:
/// negative row deltas move toward Red, positive column deltas move rightward.
#[derive(Clone, Copy, Debug, PartialEq, Eq, Structural)]
pub enum Move {
    Left,
    Up,
    Right,
    Down,

    UpLeft,
    UpRight,
    DownLeft,
    DownRight,

    DragonLeft,
    DragonRight,

    LeftTwo,
    UpTwo,
    RightTwo,
}

/// The (row delta, column delta) a move stands for, with positive rows
/// toward Red's side and positive columns rightward. A consumer applying
/// a move for the Red side must negate the row delta.
pub open spec fn spec_delta(m: Move) -> (int, int) {
    match m {
        Move::Left => (0, -1),
        Move::Up => (-1, 0),
        Move::Right => (0, 1),
        Move::Down => (1, 0),
        Move::UpLeft => (-1, -1),
        Move::UpRight => (-1, 1),
        Move::DownLeft => (1, -1),
        Move::DownRight => (1, 1),
        Move::DragonLeft => (-1, -2),
        Move::DragonRight => (-1, 2),
        Move::LeftTwo => (0, -2),
        Move::UpTwo => (-2, 0),
        Move::RightTwo => (0, 2),
    }
}

/// The fixed, ordered move list of each card: the published ruleset table.
pub open spec fn spec_moves(c: Card) -> Seq<Move> {
    match c {
        Card::Tiger => seq![Move::UpTwo, Move::Down],
        Card::Crab => seq![Move::Up, Move::LeftTwo, Move::RightTwo],
        Card::Monkey => seq![Move::UpLeft, Move::UpRight, Move::DownLeft, Move::DownRight],
        Card::Crane => seq![Move::Up, Move::DownLeft, Move::DownRight],
        Card::Dragon => seq![Move::DragonLeft, Move::DragonRight, Move::DownLeft, Move::DownRight],
        Card::Elephant => seq![Move::UpLeft, Move::UpRight, Move::Left, Move::Right],
        Card::Mantis => seq![Move::UpLeft, Move::UpRight, Move::Down],
        Card::Boar => seq![Move::Up, Move::Left, Move::Right],
        Card::Frog => seq![Move::UpLeft, Move::LeftTwo, Move::DownRight],
        Card::Goose => seq![Move::UpLeft, Move::Left, Move::Right, Move::DownRight],
        Card::Horse => seq![Move::Up, Move::Left, Move::Down],
        Card::Eel => seq![Move::UpLeft, Move::Right, Move::DownLeft],
        Card::Rabbit => seq![Move::UpRight, Move::RightTwo, Move::DownLeft],
        Card::Rooster => seq![Move::UpRight, Move::Left, Move::Right, Move::DownLeft],
        Card::Ox => seq![Move::Up, Move::Right, Move::Down],
        Card::Cobra => seq![Move::UpRight, Move::Left, Move::DownRight],
    }
}

/// The full deck in catalog order: each of the sixteen cards exactly once.
pub open spec fn full_deck() -> Seq<Card> {
    seq![
        Card::Tiger,
        Card::Crab,
        Card::Monkey,
        Card::Crane,
        Card::Dragon,
        Card::Elephant,
        Card::Mantis,
        Card::Boar,
        Card::Frog,
        Card::Goose,
        Card::Horse,
        Card::Eel,
        Card::Rabbit,
        Card::Rooster,
        Card::Ox,
        Card::Cobra,
    ]
}

/// The position of a card in the catalog order of the deck.
pub open spec fn card_id(c: Card) -> int {
    match c {
        Card::Tiger => 0,
        Card::Crab => 1,
        Card::Monkey => 2,
        Card::Crane => 3,
        Card::Dragon => 4,
        Card::Elephant => 5,
        Card::Mantis => 6,
        Card::Boar => 7,
        Card::Frog => 8,
        Card::Goose => 9,
        Card::Horse => 10,
        Card::Eel => 11,
        Card::Rabbit => 12,
        Card::Rooster => 13,
        Card::Ox => 14,
        Card::Cobra => 15,
    }
}

/// The deck holds each card at the position `card_id` gives it, so no
/// card appears twice.
pub proof fn lemma_full_deck_distinct()
    ensures
        forall|a: int| 0 <= a < 16 ==> card_id(#[trigger] full_deck()[a]) == a,
        forall|a: int, b: int|
            0 <= a < 16 && 0 <= b < 16 && a != b ==> full_deck()[a] != full_deck()[b],
{
    assert(forall|a: int| 0 <= a < 16 ==> card_id(#[trigger] full_deck()[a]) == a);
}

/// Builds the full deck of all sixteen cards, in catalog order.
pub fn all_cards() -> (deck: Vec<Card>)
    ensures
        deck@ == full_deck(),
{
    let deck: Vec<Card> = vec![
        Card::Tiger,
        Card::Crab,
        Card::Monkey,
        Card::Crane,
        Card::Dragon,
        Card::Elephant,
        Card::Mantis,
        Card::Boar,
        Card::Frog,
        Card::Goose,
        Card::Horse,
        Card::Eel,
        Card::Rabbit,
        Card::Rooster,
        Card::Ox,
        Card::Cobra,
    ];
    proof {
        assert(deck@ =~= full_deck());
    }
    deck
}

impl Move {
    /// The numeric offset this move applies to a (row, column) position.
    pub fn delta(&self) -> (d: (i8, i8))
        ensures
            (d.0 as int, d.1 as int) == spec_delta(*self),
    {
        match self {
            Move::Left => (0, -1),
            Move::Up => (-1, 0),
            Move::Right => (0, 1),
            Move::Down => (1, 0),
            Move::UpLeft => (-1, -1),
            Move::UpRight => (-1, 1),
            Move::DownLeft => (1, -1),
            Move::DownRight => (1, 1),
            Move::DragonLeft => (-1, -2),
            Move::DragonRight => (-1, 2),
            Move::LeftTwo => (0, -2),
            Move::UpTwo => (-2, 0),
            Move::RightTwo => (0, 2),
        }
    }
}

impl Card {
    /// The ordered move list this card grants, exactly as the ruleset
    /// table defines it.
    pub fn get_movement(&self) -> (moves: Vec<Move>)
        ensures
            moves@ == spec_moves(*self),
    {
        let moves: Vec<Move> = match self {
            Card::Tiger => vec![Move::UpTwo, Move::Down],
            Card::Crab => vec![Move::Up, Move::LeftTwo, Move::RightTwo],
            Card::Monkey => vec![Move::UpLeft, Move::UpRight, Move::DownLeft, Move::DownRight],
            Card::Crane => vec![Move::Up, Move::DownLeft, Move::DownRight],
            Card::Dragon => vec![
                Move::DragonLeft,
                Move::DragonRight,
                Move::DownLeft,
                Move::DownRight,
            ],
            Card::Elephant => vec![Move::UpLeft, Move::UpRight, Move::Left, Move::Right],
            Card::Mantis => vec![Move::UpLeft, Move::UpRight, Move::Down],
            Card::Boar => vec![Move::Up, Move::Left, Move::Right],
            Card::Frog => vec![Move::UpLeft, Move::LeftTwo, Move::DownRight],
            Card::Goose => vec![Move::UpLeft, Move::Left, Move::Right, Move::DownRight],
            Card::Horse => vec![Move::Up, Move::Left, Move::Down],
            Card::Eel => vec![Move::UpLeft, Move::Right, Move::DownLeft],
            Card::Rabbit => vec![Move::UpRight, Move::RightTwo, Move::DownLeft],
            Card::Rooster => vec![Move::UpRight, Move::Left, Move::Right, Move::DownLeft],
            Card::Ox => vec![Move::Up, Move::Right, Move::Down],
            Card::Cobra => vec![Move::UpRight, Move::Left, Move::DownRight],
        };
        proof {
            assert(moves@ =~= spec_moves(*self));
        }
        moves
    }
}

/// Every card grants at least two and at most four moves: no card's
/// move list is empty.
pub proof fn lemma_moves_nonempty(c: Card)
    ensures
        2 <= spec_moves(c).len() <= 4,
{
}

} // verus!
