//! Integrated game runtime: applies a chosen action to the game state, keeps
//! the acting player's hand in step, and steps the turn to the next player.

use vstd::prelude::*;

use crate::game_state::{Action, Card, GameState};

verus! {

/// One participant, owning the cards in their hand.
pub struct Player {
    pub deck: Vec<Card>,
}

/// The whole table: the players and their hands, the pile cards are drawn
/// from, whose turn it is, and the engine's game state.
pub struct GameRuntime {
    pub current_player_idx: usize,
    pub players: Vec<Player>,
    pub drawing_deck: Vec<Card>,
    pub game_state: GameState,
}

impl GameRuntime {
    /// A runtime is usable while the turn index points at one of the players.
    pub open spec fn wf(self) -> bool {
        self.players.len() > 0 && self.current_player_idx < self.players.len()
    }

    /// Plays the card at `card_idx` of the acting player's hand: the game
    /// state records the play, exactly that card leaves the hand, and the
    /// turn moves to the next player, wrapping around at the end of the
    /// table. Taking the card by position rather than by value keeps the
    /// removal unambiguous when the hand holds duplicates.
    pub fn play_card_at(&mut self, card_idx: usize)
        requires
            old(self).wf(),
            card_idx < old(self).players@[old(self).current_player_idx as int].deck.len(),
        ensures
            final(self).game_state == old(self).game_state.spec_apply(
                Action::Play {
                    card: old(self).players@[old(self).current_player_idx as int].deck@[
                        card_idx as int
                    ],
                },
            ),
            final(self).current_player_idx == (old(self).current_player_idx + 1) % (
            old(self).players.len() as int),
            final(self).players.len() == old(self).players.len(),
            final(self).players@[old(self).current_player_idx as int].deck@ == old(self).players@[
                old(self).current_player_idx as int
            ].deck@.remove(card_idx as int),
            forall|p: int|
                0 <= p < old(self).players.len() && p != old(self).current_player_idx
                    ==> final(self).players@[p].deck@ == old(self).players@[p].deck@,
            final(self).drawing_deck == old(self).drawing_deck,
            final(self).wf(),
    {
        let pi = self.current_player_idx;
        let card = self.players[pi].deck[card_idx];
        self.game_state = self.game_state.apply(Action::Play { card });
        self.players[pi].deck.remove(card_idx);
        self.current_player_idx = (pi + 1) % self.players.len();
    }

    /// Carries out a chosen action: the game state records it and the turn
    /// moves on, wrapping around at the end of the table. A play additionally
    /// removes the first card of the played value from the acting player's
    /// hand, which must hold such a card; every other action leaves all hands
    /// alone.
    pub fn execute_action(&mut self, action: Action)
        requires
            old(self).wf(),
            action matches Action::Play { card } ==> old(self).players@[
                old(self).current_player_idx as int
            ].deck@.contains(card),
        ensures
            final(self).game_state == old(self).game_state.spec_apply(action),
            final(self).current_player_idx == (old(self).current_player_idx + 1) % (
            old(self).players.len() as int),
            final(self).players.len() == old(self).players.len(),
            final(self).drawing_deck == old(self).drawing_deck,
            final(self).wf(),
            match action {
                Action::Play { card } => {
                    let d = old(self).players@[old(self).current_player_idx as int].deck@;
                    &&& final(self).players@[old(self).current_player_idx as int].deck@
                        == d.remove(d.index_of_first(card)->Some_0)
                    &&& forall|p: int|
                        0 <= p < old(self).players.len() && p != old(self).current_player_idx
                            ==> final(self).players@[p].deck@ == old(self).players@[p].deck@
                },
                _ => final(self).players@ == old(self).players@,
            },
    {
        match action {
            Action::Play { card } => {
                let pi = self.current_player_idx;
                let ghost d = self.players@[pi as int].deck@;
                let n = self.players[pi].deck.len();
                let mut card_idx: usize = 0;
                while card_idx < n && self.players[pi].deck[card_idx] != card
                    invariant
                        pi == self.current_player_idx,
                        pi < self.players.len(),
                        self.players@[pi as int].deck@ == d,
                        n == d.len(),
                        card_idx <= n,
                        d.contains(card),
                        forall|k: int| 0 <= k < card_idx ==> d[k] != card,
                    decreases n - card_idx,
                {
                    card_idx = card_idx + 1;
                }
                proof {
                    assert(card_idx < d.len() && d[card_idx as int] == card);
                    d.index_of_first_ensures(card);
                    assert(d.index_of_first(card)->Some_0 == card_idx as int);
                }
                self.play_card_at(card_idx);
            },
            _ => {
                self.game_state = self.game_state.apply(action);
                self.current_player_idx = (self.current_player_idx + 1) % self.players.len();
            },
        }
    }
}

} // verus!
