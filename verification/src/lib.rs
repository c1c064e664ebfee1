//! Scoring of a completed Riichi Mahjong hand: tile-group notation, hand
//! assembly, yaku detection, fu itemization and han/fu payment tables.
pub mod calc;
pub mod cli;
pub mod decimal;
pub mod error;
pub mod fu;
pub mod hand;
pub mod limit;
pub mod tile;
pub mod yaku;

pub use cli::parse_calculator;
pub use cli::parse_hand;
pub use cli::Args;
pub use error::HandErr;
pub use fu::calculate_total_fu_value;
pub use fu::Fu;
pub use hand::Hand;
pub use hand::WinConditions;
pub use limit::LimitHands;
pub use tile::GroupType;
pub use tile::Suit;
pub use tile::TileGroup;
