//! Rule constants.
use vstd::prelude::*;
use crate::types::Element;

verus! {

/// Points a player needs to win.
pub const POINTS_TO_WIN: u8 = 3;

/// Extra damage dealt to a Pokémon weak to the attacker's type.
pub const WEAKNESS_BONUS: i16 = 20;

/// Number of bench slots per player.
pub const BENCH_SIZE: usize = 3;

/// A Pokémon with `weakness` is weak to an attacker of type `attacker`.
pub open spec fn weak_to(weakness: Option<Element>, attacker: Option<Element>) -> bool {
    weakness is Some && weakness == attacker
}

pub fn is_weak_to(weakness: Option<Element>, attacker: Option<Element>) -> (r: bool)
    ensures
        r == weak_to(weakness, attacker),
{
    match (weakness, attacker) {
        (Some(w), Some(a)) => w == a,
        _ => false,
    }
}

}
