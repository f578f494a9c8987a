//! A Pokémon TCG Pocket battle library: the cards and their database, the
//! sample decks and the deck rules, the board state, the effects that
//! attacks, abilities and Trainer cards carry out, which of them may be
//! played, and what the players see and weigh when they choose.
use vstd::prelude::*;

pub mod text;
pub mod types;
pub mod constants;
pub mod actions;
pub mod rng;
pub mod state;
pub mod card;
pub mod card_load;
pub mod decks;
pub mod menu;
pub mod agents;
pub mod batch;
pub mod effects;

verus! {
}
