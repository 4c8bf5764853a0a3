//! Rules core of a two-player abstract strategy game on a 5x5 grid with
//! asymmetric movement cards: the card catalog with its move-offset table,
//! the starting board layout, and the dealing of a random hand of cards.

pub mod board;
pub mod cards;
pub mod dealer;

pub use board::Color;
pub use board::Pawn;
pub use board::PawnType;
pub use board::Square;
pub use board::generate_start_board;
pub use cards::Card;
pub use cards::Move;
pub use cards::all_cards;
pub use dealer::deal_five_cards;
