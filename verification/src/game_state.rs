//! Data model and legality resolver: which actions a player may take next,
//! given the game state and the cards at their disposal.

use vstd::prelude::*;

verus! {

/// The rank of a normal card, ordered 0 through 9.
#[derive(PartialEq, Eq, Structural, Clone, Copy, Debug)]
pub enum Numeric {
    Zero,
    One,
    Two,
    Three,
    Four,
    Five,
    Six,
    Seven,
    Eight,
    Nine,
}

/// The kind of a normal card; only numeric ranks exist in this core.
#[derive(PartialEq, Eq, Structural, Clone, Copy, Debug)]
pub enum CardKind {
    Numeric(Numeric),
}

/// The color of a normal card. Wild cards have no color of their own.
#[derive(PartialEq, Eq, Structural, Clone, Copy, Debug)]
pub enum CardColor {
    Blue,
    Green,
    Yellow,
    Red,
}

/// The kind of a wild card: a forced four-card draw or a plain color choice.
#[derive(PartialEq, Eq, Structural, Clone, Copy, Debug)]
pub enum WildCardKind {
    DrawFour,
    ColorChooser,
}

/// A card with a rank and a color.
#[derive(PartialEq, Eq, Structural, Clone, Copy, Debug)]
pub struct NormalCard {
    pub kind: CardKind,
    pub color: CardColor,
}

/// A wild card: it carries no color, so the player declares one when playing it.
#[derive(PartialEq, Eq, Structural, Clone, Copy, Debug)]
pub struct WildCard {
    pub kind: WildCardKind,
}

/// A playing card: either a normal ranked, colored card or a wild card.
#[derive(PartialEq, Eq, Structural, Clone, Copy, Debug)]
pub enum Card {
    Normal(NormalCard),
    Special(WildCard),
}

/// How many cards a draw action forces.
#[derive(PartialEq, Eq, Structural, Clone, Copy, Debug)]
pub enum DrawAmount {
    One,
    Two,
    Four,
    Six,
}

/// A move a player can make on their turn.
#[derive(PartialEq, Eq, Structural, Clone, Copy, Debug)]
pub enum Action {
    Play { card: Card },
    ChooseColor { color: CardColor },
    DrawCard { amount: DrawAmount },
    CallBluff,
    Pass,
}

/// The direction of play; advanced by an external turn-order collaborator,
/// never mutated by this core.
#[derive(PartialEq, Eq, Structural, Clone, Copy, Debug)]
pub enum Direction {
    Forward,
    Backward,
}

/// The state the resolver and the applier work on: the last action taken,
/// the card on top of the discard pile, and the card drawn by the most
/// recent single-card draw, if it has not been consumed yet.
#[derive(PartialEq, Eq, Structural, Clone, Copy, Debug)]
pub struct GameState {
    pub last_action: Action,
    pub last_played_card: Card,
    pub last_drew_card: Option<Card>,
    pub direction: Direction,
}

/// The cards a player holds.
pub struct Deck {
    pub cards: Vec<Card>,
}

/// Why the resolver refuses to answer a query: either an internal invariant
/// of the engine was found broken, or the state was left behind by an action
/// shape the engine does not cover yet.
#[derive(PartialEq, Eq, Structural, Clone, Copy, Debug)]
pub enum EngineError {
    /// A color was chosen even though the last played card is a normal card;
    /// a color choice can only ever follow a wild card.
    NormalCardAfterColorChoice,
    /// The last action was a single-card draw, but no drawn card was recorded
    /// by the draw collaborator before the resolver was queried.
    MissingDrawnCard,
    /// The last action has a shape whose follow-up rules are not part of this
    /// core yet, such as a forced multi-card draw, a bluff call, or a pass.
    UnsupportedAction,
}

/// The mandatory color choices after a wild card was played, in fixed order
/// Blue, Green, Yellow, Red.
pub open spec fn choose_color_actions() -> Seq<Action> {
    seq![
        Action::ChooseColor { color: CardColor::Blue },
        Action::ChooseColor { color: CardColor::Green },
        Action::ChooseColor { color: CardColor::Yellow },
        Action::ChooseColor { color: CardColor::Red },
    ]
}

/// Whether `card` matches a chosen color: it is a normal card of that color,
/// or a wild card, which matches any chosen color.
pub open spec fn matches_chosen_color(card: Card, color: CardColor) -> bool {
    match card {
        Card::Normal(normal) => normal.color == color,
        Card::Special(_) => true,
    }
}

/// The plays of exactly those of `cards` that match the chosen `color` or are
/// themselves wild, in input order.
pub open spec fn color_matched_plays(cards: Seq<Card>, color: CardColor) -> Seq<Action>
    decreases cards.len(),
{
    if cards.len() == 0 {
        Seq::empty()
    } else {
        let rest = color_matched_plays(cards.drop_last(), color);
        if matches_chosen_color(cards.last(), color) {
            rest.push(Action::Play { card: cards.last() })
        } else {
            rest
        }
    }
}

/// The plays of exactly those of `cards` that may legally cover the last
/// played card in `state`, in input order.
pub open spec fn playable_plays(state: GameState, cards: Seq<Card>) -> Seq<Action>
    decreases cards.len(),
{
    if cards.len() == 0 {
        Seq::empty()
    } else {
        let rest = playable_plays(state, cards.drop_last());
        if state.spec_can_play(cards.last()) {
            rest.push(Action::Play { card: cards.last() })
        } else {
            rest
        }
    }
}

impl Card {
    /// The color of a normal card; wild cards have none.
    pub open spec fn spec_color(self) -> Option<CardColor> {
        match self {
            Card::Normal(card) => Some(card.color),
            Card::Special(_) => None,
        }
    }

    /// Returns the card's color, or `None` for a wild card.
    pub fn get_color(&self) -> (r: Option<CardColor>)
        ensures
            r == self.spec_color(),
    {
        match self {
            Card::Normal(card) => Some(card.color),
            Card::Special(_) => None,
        }
    }
}

impl GameState {
    /// Whether `card` may legally be played on top of `self.last_played_card`:
    /// a normal card on a normal card needs a matching rank or color; a wild
    /// card covers any normal card; on top of a wild card, a play is legal only
    /// once a color has been chosen, and then only for a normal card of the
    /// chosen color or for a further wild card, unless the covered wild card
    /// was a draw-four, which no wild card may answer.
    pub open spec fn spec_can_play(self, card_to_play: Card) -> bool {
        match (self.last_played_card, card_to_play) {
            (Card::Normal(played), Card::Normal(to_play)) => {
                played.kind == to_play.kind || played.color == to_play.color
            },
            (Card::Normal(_), Card::Special(_)) => true,
            (Card::Special(_), Card::Normal(to_play)) => match self.last_action {
                Action::ChooseColor { color } => to_play.color == color,
                _ => false,
            },
            (Card::Special(played), Card::Special(_)) => match self.last_action {
                Action::ChooseColor { .. } => played.kind != WildCardKind::DrawFour,
                _ => false,
            },
        }
    }

    /// Decides whether `card_to_play` may legally cover the last played card.
    pub fn can_play_card(&self, card_to_play: Card) -> (r: bool)
        ensures
            r == self.spec_can_play(card_to_play),
    {
        match (self.last_played_card, card_to_play) {
            (Card::Normal(played), Card::Normal(to_play)) => {
                played.kind == to_play.kind || played.color == to_play.color
            },
            (Card::Normal(_), Card::Special(_)) => true,
            (Card::Special(_), Card::Normal(to_play)) => match self.last_action {
                Action::ChooseColor { color } => to_play.color == color,
                _ => false,
            },
            (Card::Special(played), Card::Special(_)) => match self.last_action {
                Action::ChooseColor { .. } => played.kind != WildCardKind::DrawFour,
                _ => false,
            },
        }
    }

    /// The ordered list of legal actions for a player holding `cards`, or the
    /// error the resolver reports for this state:
    /// - after a wild card was played, the four color choices and nothing else;
    /// - after a color was chosen on a color-chooser, a single-card draw
    ///   followed by the plays of the matching cards; after a color was chosen
    ///   on a draw-four, only the forced draw and the bluff call; a color
    ///   choice over a normal card breaks an engine invariant;
    /// - after a normal card was played, a single-card draw followed by the
    ///   plays of the legally playable cards;
    /// - after a single-card draw, a pass, and the play of the drawn card if
    ///   it is playable; a missing drawn card breaks an engine invariant;
    /// - any other last action is not covered by this core.
    pub open spec fn spec_actions_for(self, cards: Seq<Card>) -> Result<Seq<Action>, EngineError> {
        match self.last_action {
            Action::Play { card: Card::Special(_) } => Ok(choose_color_actions()),
            Action::ChooseColor { color } => match self.last_played_card {
                Card::Special(wild) => if wild.kind == WildCardKind::ColorChooser {
                    Ok(
                        seq![Action::DrawCard { amount: DrawAmount::One }]
                            + color_matched_plays(cards, color),
                    )
                } else {
                    Ok(seq![Action::DrawCard { amount: DrawAmount::Four }, Action::CallBluff])
                },
                Card::Normal(_) => Err(EngineError::NormalCardAfterColorChoice),
            },
            Action::Play { card: Card::Normal(_) } => Ok(
                seq![Action::DrawCard { amount: DrawAmount::One }] + playable_plays(self, cards),
            ),
            Action::DrawCard { amount: DrawAmount::One } => match self.last_drew_card {
                Some(drawn) => Ok(
                    if self.spec_can_play(drawn) {
                        seq![Action::Pass, Action::Play { card: drawn }]
                    } else {
                        seq![Action::Pass]
                    },
                ),
                None => Err(EngineError::MissingDrawnCard),
            },
            _ => Err(EngineError::UnsupportedAction),
        }
    }

    /// Computes the ordered list of legal actions for a player whose cards are
    /// `deck`, or reports why the state admits none.
    pub fn get_actions_for_deck(&self, deck: &Deck) -> (r: Result<Vec<Action>, EngineError>)
        ensures
            match r {
                Ok(actions) => self.spec_actions_for(deck.cards@) == Ok::<Seq<Action>, EngineError>(
                    actions@,
                ),
                Err(e) => self.spec_actions_for(deck.cards@) == Err::<Seq<Action>, EngineError>(e),
            },
    {
        match self.last_action {
            Action::Play { card: Card::Special(_) } => {
                let actions = vec![
                    Action::ChooseColor { color: CardColor::Blue },
                    Action::ChooseColor { color: CardColor::Green },
                    Action::ChooseColor { color: CardColor::Yellow },
                    Action::ChooseColor { color: CardColor::Red },
                ];
                proof {
                    assert(actions@ =~= choose_color_actions());
                }
                Ok(actions)
            },
            Action::ChooseColor { color: chosen_color } => match self.last_played_card {
                Card::Special(wild) => {
                    if wild.kind == WildCardKind::ColorChooser {
                        let mut actions = vec![Action::DrawCard { amount: DrawAmount::One }];
                        let ghost prefix = actions@;
                        let mut i: usize = 0;
                        while i < deck.cards.len()
                            invariant
                                i <= deck.cards.len(),
                                actions@ == prefix + color_matched_plays(
                                    deck.cards@.take(i as int),
                                    chosen_color,
                                ),
                                prefix == seq![Action::DrawCard { amount: DrawAmount::One }],
                            decreases deck.cards.len() - i,
                        {
                            let card = deck.cards[i];
                            proof {
                                let taken = deck.cards@.take(i + 1 as int);
                                assert(taken.drop_last() =~= deck.cards@.take(i as int));
                                assert(taken.last() == card);
                            }
                            let matches = match card.get_color() {
                                Some(color) => color == chosen_color,
                                None => true,
                            };
                            if matches {
                                actions.push(Action::Play { card });
                            }
                            i = i + 1;
                        }
                        proof {
                            assert(deck.cards@.take(deck.cards@.len() as int) =~= deck.cards@);
                        }
                        Ok(actions)
                    } else {
                        let actions = vec![
                            Action::DrawCard { amount: DrawAmount::Four },
                            Action::CallBluff,
                        ];
                        proof {
                            assert(actions@ =~= seq![
                                Action::DrawCard { amount: DrawAmount::Four },
                                Action::CallBluff,
                            ]);
                        }
                        Ok(actions)
                    }
                },
                Card::Normal(_) => Err(EngineError::NormalCardAfterColorChoice),
            },
            Action::Play { card: Card::Normal(_) } => {
                let mut actions = vec![Action::DrawCard { amount: DrawAmount::One }];
                let ghost prefix = actions@;
                let mut i: usize = 0;
                while i < deck.cards.len()
                    invariant
                        i <= deck.cards.len(),
                        actions@ == prefix + playable_plays(*self, deck.cards@.take(i as int)),
                        prefix == seq![Action::DrawCard { amount: DrawAmount::One }],
                    decreases deck.cards.len() - i,
                {
                    let card = deck.cards[i];
                    proof {
                        let taken = deck.cards@.take(i + 1 as int);
                        assert(taken.drop_last() =~= deck.cards@.take(i as int));
                        assert(taken.last() == card);
                    }
                    if self.can_play_card(card) {
                        actions.push(Action::Play { card });
                    }
                    i = i + 1;
                }
                proof {
                    assert(deck.cards@.take(deck.cards@.len() as int) =~= deck.cards@);
                }
                Ok(actions)
            },
            Action::DrawCard { amount: DrawAmount::One } => match self.last_drew_card {
                Some(last_drew_card) => {
                    let mut actions = vec![Action::Pass];
                    proof {
                        assert(actions@ =~= seq![Action::Pass]);
                    }
                    if self.can_play_card(last_drew_card) {
                        actions.push(Action::Play { card: last_drew_card });
                        proof {
                            assert(actions@ =~= seq![
                                Action::Pass,
                                Action::Play { card: last_drew_card },
                            ]);
                        }
                    }
                    Ok(actions)
                },
                None => Err(EngineError::MissingDrawnCard),
            },
            _ => Err(EngineError::UnsupportedAction),
        }
    }

    /// The state after `action` is taken: `last_action` always becomes the
    /// action; a play additionally records the played card; every other field
    /// is untouched. Recording the card drawn after a single-card draw is the
    /// draw collaborator's job, so `last_drew_card` is left as it is.
    pub open spec fn spec_apply(self, action: Action) -> GameState {
        GameState {
            last_action: action,
            last_played_card: match action {
                Action::Play { card } => card,
                _ => self.last_played_card,
            },
            last_drew_card: self.last_drew_card,
            direction: self.direction,
        }
    }

    /// Applies a chosen action to this state and returns the next state.
    /// Removing a played card from the acting player's hand is the hand
    /// collaborator's business, not this function's.
    pub fn apply(&self, action: Action) -> (next: GameState)
        ensures
            next == self.spec_apply(action),
    {
        GameState {
            last_action: action,
            last_played_card: match action {
                Action::Play { card } => card,
                _ => self.last_played_card,
            },
            last_drew_card: self.last_drew_card,
            direction: self.direction,
        }
    }
}

/// Computes the ordered list of legal actions for a player whose cards are
/// `deck`, or reports why the state admits none.
pub fn get_actions_for_deck(game_state: &GameState, deck: &Deck) -> (r: Result<
    Vec<Action>,
    EngineError,
>)
    ensures
        match r {
            Ok(actions) => game_state.spec_actions_for(deck.cards@) == Ok::<
                Seq<Action>,
                EngineError,
            >(actions@),
            Err(e) => game_state.spec_actions_for(deck.cards@) == Err::<Seq<Action>, EngineError>(
                e,
            ),
        },
{
    game_state.get_actions_for_deck(deck)
}

/// For a normal card on top of a normal card, a play is legal exactly when
/// the ranks match or the colors match, whatever the last action was.
pub proof fn law_normal_on_normal(state: GameState, played: NormalCard, candidate: NormalCard)
    requires
        state.last_played_card == Card::Normal(played),
    ensures
        state.spec_can_play(Card::Normal(candidate)) == (played.kind == candidate.kind
            || played.color == candidate.color),
{
}

/// Playing any wild card forces a color choice: the legal actions are exactly
/// the four color choices, in the fixed order Blue, Green, Yellow, Red,
/// whatever cards the player holds.
pub proof fn law_wild_play_forces_color_choice(state: GameState, cards: Seq<Card>, wild: WildCard)
    requires
        state.last_action == (Action::Play { card: Card::Special(wild) }),
    ensures
        state.spec_actions_for(cards) == Ok::<Seq<Action>, EngineError>(choose_color_actions()),
{
}

/// After a color was chosen on top of a color-chooser, the legal actions are
/// a single-card draw followed by the play of every held card that matches
/// the chosen color or is itself wild, in hand order.
pub proof fn law_color_chosen_on_color_chooser(state: GameState, cards: Seq<Card>, color: CardColor)
    requires
        state.last_action == (Action::ChooseColor { color }),
        state.last_played_card == Card::Special(WildCard { kind: WildCardKind::ColorChooser }),
    ensures
        state.spec_actions_for(cards) == Ok::<Seq<Action>, EngineError>(
            seq![Action::DrawCard { amount: DrawAmount::One }] + color_matched_plays(cards, color),
        ),
{
}

/// The plays kept by `color_matched_plays` are exactly those of the held
/// cards that match the chosen color or are themselves wild: nothing else is
/// offered, and no matching card is passed over.
pub proof fn law_color_matched_plays_membership(cards: Seq<Card>, color: CardColor, card: Card)
    ensures
        color_matched_plays(cards, color).contains(Action::Play { card }) <==> (cards.contains(
            card,
        ) && matches_chosen_color(card, color)),
    decreases cards.len(),
{
    let plays = color_matched_plays(cards, color);
    if cards.len() == 0 {
        assert(!plays.contains(Action::Play { card }));
        assert(!cards.contains(card));
    } else {
        let rest = cards.drop_last();
        law_color_matched_plays_membership(rest, color, card);
        let rest_plays = color_matched_plays(rest, color);
        if plays.contains(Action::Play { card }) {
            let k = choose|k: int| 0 <= k < plays.len() && plays[k] == (Action::Play { card });
            if matches_chosen_color(cards.last(), color) && k == plays.len() - 1 {
                assert(cards[cards.len() - 1] == card);
            } else {
                assert(rest_plays[k] == (Action::Play { card }));
                assert(rest_plays.contains(Action::Play { card }));
                let j = choose|j: int| 0 <= j < rest.len() && rest[j] == card;
                assert(cards[j] == card);
            }
        }
        if cards.contains(card) && matches_chosen_color(card, color) {
            let j = choose|j: int| 0 <= j < cards.len() && cards[j] == card;
            if j == cards.len() - 1 {
                assert(plays[plays.len() - 1] == (Action::Play { card }));
            } else {
                assert(rest[j] == card);
                assert(rest.contains(card));
                let k = choose|k: int|
                    0 <= k < rest_plays.len() && rest_plays[k] == (Action::Play { card });
                assert(plays[k] == (Action::Play { card }));
            }
        }
    }
}

/// The plays kept by `playable_plays` are exactly those of the held cards
/// that may legally cover the last played card: nothing else is offered, and
/// no playable card is passed over.
pub proof fn law_playable_plays_membership(state: GameState, cards: Seq<Card>, card: Card)
    ensures
        playable_plays(state, cards).contains(Action::Play { card }) <==> (cards.contains(card)
            && state.spec_can_play(card)),
    decreases cards.len(),
{
    let plays = playable_plays(state, cards);
    if cards.len() == 0 {
        assert(!plays.contains(Action::Play { card }));
        assert(!cards.contains(card));
    } else {
        let rest = cards.drop_last();
        law_playable_plays_membership(state, rest, card);
        let rest_plays = playable_plays(state, rest);
        if plays.contains(Action::Play { card }) {
            let k = choose|k: int| 0 <= k < plays.len() && plays[k] == (Action::Play { card });
            if state.spec_can_play(cards.last()) && k == plays.len() - 1 {
                assert(cards[cards.len() - 1] == card);
            } else {
                assert(rest_plays[k] == (Action::Play { card }));
                assert(rest_plays.contains(Action::Play { card }));
                let j = choose|j: int| 0 <= j < rest.len() && rest[j] == card;
                assert(cards[j] == card);
            }
        }
        if cards.contains(card) && state.spec_can_play(card) {
            let j = choose|j: int| 0 <= j < cards.len() && cards[j] == card;
            if j == cards.len() - 1 {
                assert(plays[plays.len() - 1] == (Action::Play { card }));
            } else {
                assert(rest[j] == card);
                assert(rest.contains(card));
                let k = choose|k: int|
                    0 <= k < rest_plays.len() && rest_plays[k] == (Action::Play { card });
                assert(plays[k] == (Action::Play { card }));
            }
        }
    }
}

/// After a color was chosen on top of a draw-four, the legal actions are
/// exactly the forced four-card draw and the bluff call: never a play,
/// whatever cards the player holds.
pub proof fn law_color_chosen_on_draw_four(state: GameState, cards: Seq<Card>, color: CardColor)
    requires
        state.last_action == (Action::ChooseColor { color }),
        state.last_played_card == Card::Special(WildCard { kind: WildCardKind::DrawFour }),
    ensures
        state.spec_actions_for(cards) == Ok::<Seq<Action>, EngineError>(
            seq![Action::DrawCard { amount: DrawAmount::Four }, Action::CallBluff],
        ),
{
}

/// After a single-card draw, the player may pass, and may additionally play
/// the drawn card exactly when it is playable; the play is appended after the
/// pass, never put before it.
pub proof fn law_after_single_draw(state: GameState, cards: Seq<Card>, drawn: Card)
    requires
        state.last_action == (Action::DrawCard { amount: DrawAmount::One }),
        state.last_drew_card == Some(drawn),
    ensures
        state.spec_actions_for(cards) == Ok::<Seq<Action>, EngineError>(
            if state.spec_can_play(drawn) {
                seq![Action::Pass, Action::Play { card: drawn }]
            } else {
                seq![Action::Pass]
            },
        ),
{
}

/// Whenever the resolver answers at all, it offers at least one action: one
/// of pass, draw, or a color choice is always on the table.
pub proof fn law_actions_never_empty(state: GameState, cards: Seq<Card>)
    ensures
        state.spec_actions_for(cards) matches Ok(actions) ==> actions.len() >= 1,
{
}

} // verus!
