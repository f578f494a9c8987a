# ptcgp

A verified library for a Pokémon TCG Pocket battle simulator, written in
Verus: every function of `src/` carries a contract that Verus proves.

- `src/types.rs`, `src/constants.rs`, `src/actions.rs`: elements, stages,
  conditions, the rule constants and the actions a player can take.
- `src/state.rs`: the board (Pokémon slots, hands, decks, discard piles) and
  its mathematical picture, with the laws that moving or reordering cards
  keeps every card.
- `src/card.rs`, `src/card_load.rs`: the card database and how card records
  become cards.
- `src/decks.rs`: the sample decks and the deck-building rules.
- `src/effects/`: the effects of attacks, abilities and Trainer cards, how
  they are named in the card data, when a card may be played, and the
  damage an attack deals.
- `src/agents.rs`, `src/menu.rs`: what the computer players weigh and the
  menus of the player at the terminal.
- `src/batch.rs`: the counts of a batch of finished games.
- `src/rng.rs`, `src/text.rs`: the random generator and the text routines
  the rest is built on.

`app/` reads the card files, talks to the terminal and holds the scores
that are floating-point numbers; `tests/` runs the library on concrete
positions.
