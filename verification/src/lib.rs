//! A turn-based card-game rules engine.
//!
//! Given the current game state and a player's hand, the legality resolver
//! computes the exact ordered set of legal next actions, and the state
//! transition applier turns a chosen action into the next game state.

pub mod game_executor;
pub mod game_state;
