use vstd::prelude::*;

use super::pool::{first_index, lemma_first_index_is, lemma_first_index_none};
use crate::entities::my_enum::card_enum::CardType;
use crate::threads::audio_thread::{events_view, push_sfx, sfx, Command, CommandView};

verus! {

/// Number of cards in the card bar.
pub const CARD_NUM: usize = 4;

/// The card bar: its cards, their remaining cool-down (in frames; a card
/// is available at 0 or below) and the card picked by the player.
pub struct CardManager {
    pub cards: Vec<CardType>,
    pub cool_times: Vec<i32>,
    pub card_be_select: CardType,
}

/// The cards of the bar, in order: the spade, then the plant cards.
pub open spec fn card_order() -> Seq<CardType> {
    seq![CardType::SpadeCard, CardType::PeashooterCard, CardType::SunFlowerCard, CardType::WallnutCard]
}

/// The slot of a card's cool-down (the spade's slot for no card).
pub open spec fn card_slot(card_type: CardType) -> int {
    match card_type.spec_type_to_index() {
        Some(i) => i as int,
        None => 0,
    }
}

/// One frame less of cool-down, stopping at the smallest value.
pub open spec fn count_down(t: i32) -> i32 {
    if t > i32::MIN {
        (t - 1) as i32
    } else {
        t
    }
}

impl CardManager {
    /// The four cards in order, with one cool-down each.
    pub open spec fn wf(&self) -> bool {
        &&& self.cards@ == card_order()
        &&& self.cool_times@.len() == CARD_NUM
    }

    /// Card `k` is picked by a click (`hits[k]`: the click falls inside it)
    /// when it is not cooling down.
    pub open spec fn selectable(&self, hits: Seq<bool>) -> spec_fn(int) -> bool {
        |k: int| hits[k] && self.cool_times@[k] <= 0
    }

    pub fn new() -> (m: CardManager)
        ensures
            m.wf(),
            m.cool_times@ == seq![0i32, 0i32, 0i32, 0i32],
            m.card_be_select == CardType::NoneCard,
    {
        let mut cards: Vec<CardType> = Vec::new();
        cards.push(CardType::SpadeCard);
        cards.push(CardType::PeashooterCard);
        cards.push(CardType::SunFlowerCard);
        cards.push(CardType::WallnutCard);
        let mut cool_times: Vec<i32> = Vec::new();
        cool_times.push(0);
        cool_times.push(0);
        cool_times.push(0);
        cool_times.push(0);
        assert(cards@ =~= card_order());
        assert(cool_times@ =~= seq![0i32, 0i32, 0i32, 0i32]);
        CardManager { cards, cool_times, card_be_select: CardType::NoneCard }
    }

    /// Makes every card available again.
    pub fn init(&mut self)
        requires
            old(self).wf(),
        ensures
            final(self).wf(),
            final(self).cool_times@ == seq![0i32, 0i32, 0i32, 0i32],
            final(self).card_be_select == old(self).card_be_select,
    {
        let mut k: usize = 0;
        while k < self.cool_times.len()
            invariant
                k <= CARD_NUM,
                self.wf(),
                forall|i: int| 0 <= i < k ==> #[trigger] self.cool_times@[i] == 0,
                self.card_be_select == old(self).card_be_select,
            decreases CARD_NUM - k,
        {
            self.cool_times[k] = 0;
            k = k + 1;
        }
        assert(self.cool_times@ =~= seq![0i32, 0i32, 0i32, 0i32]);
    }

    /// The slot of a card's cool-down (see `card_slot`).
    fn get_index(&self, card_type: &CardType) -> (r: usize)
        ensures
            r == card_slot(*card_type),
            r < CARD_NUM,
    {
        let mut index: usize = 0;
        if let Some(idx) = card_type.type_to_index() {
            index = idx;
        }
        index
    }

    /// Starts the cool-down of a card whose plant was grown.
    pub fn set_card_in_cool_time(&mut self, card_type: &CardType)
        requires
            old(self).wf(),
        ensures
            final(self).wf(),
            final(self).cool_times@ == old(self).cool_times@.update(
                card_slot(*card_type),
                card_type.spec_type_to_cool_time(),
            ),
            final(self).card_be_select == old(self).card_be_select,
            final(self).cards == old(self).cards,
    {
        let index = self.get_index(card_type);
        self.cool_times[index] = card_type.type_to_cool_time();
    }

    /// A click on the card bar (`hits[k]`: the click falls inside card `k`):
    /// the first available card clicked is picked (the spade with its
    /// sound), otherwise no card is.  Returns the card picked.
    pub fn check_select_plant(&mut self, hits: &Vec<bool>, audio_outbox: &mut Vec<Command>) -> (card: CardType)
        requires
            old(self).wf(),
            hits@.len() == CARD_NUM,
        ensures
            final(self).wf(),
            final(self).cool_times == old(self).cool_times,
            card == final(self).card_be_select,
            card == (match first_index(CARD_NUM as int, old(self).selectable(hits@)) {
                Some(k) => card_order()[k],
                None => CardType::NoneCard,
            }),
            card == CardType::SpadeCard ==> events_view(final(audio_outbox)@) == events_view(
                old(audio_outbox)@,
            ).push(sfx("/audio/click_shovel.mp3"@)),
            card != CardType::NoneCard ==> hits@[card_slot(card)] && old(self).cool_times@[card_slot(card)] <= 0,
            card != CardType::SpadeCard ==> final(audio_outbox)@ == old(audio_outbox)@,
    {
        let ghost sel = self.selectable(hits@);
        let mut k: usize = 0;
        while k < self.cards.len()
            invariant
                k <= CARD_NUM,
                self.wf(),
                hits@.len() == CARD_NUM,
                self == old(self),
                sel == old(self).selectable(hits@),
                audio_outbox@ == old(audio_outbox)@,
                forall|j: int| 0 <= j < k ==> !#[trigger] sel(j),
            decreases CARD_NUM - k,
        {
            let card = self.cards[k];
            let index = self.get_index(&card);
            let cur_cool_time = self.cool_times[index];
            if hits[k] && cur_cool_time <= 0 {
                proof {
                    lemma_first_index_is(CARD_NUM as int, sel, k as int);
                }
                match card {
                    CardType::PeashooterCard => {
                        self.card_be_select = CardType::PeashooterCard;
                    },
                    CardType::SunFlowerCard => {
                        self.card_be_select = CardType::SunFlowerCard;
                    },
                    CardType::WallnutCard => {
                        self.card_be_select = CardType::WallnutCard;
                    },
                    CardType::SpadeCard => {
                        self.card_be_select = CardType::SpadeCard;
                        push_sfx(audio_outbox, "/audio/click_shovel.mp3");
                    },
                    CardType::NoneCard => self.card_be_select = CardType::NoneCard,
                }
                return self.card_be_select;
            }
            k = k + 1;
        }
        proof {
            lemma_first_index_none(CARD_NUM as int, sel);
        }
        self.card_be_select = CardType::NoneCard;
        self.card_be_select
    }

    /// Forgets the card picked.
    pub fn reset_plant_selected(&mut self)
        ensures
            *final(self) == (CardManager { card_be_select: CardType::NoneCard, ..*old(self) }),
    {
        self.card_be_select = CardType::NoneCard;
    }

    /// One frame of the card bar as it is drawn: every card shown counts
    /// its cool-down down by one frame; the spade is not shown, and does
    /// not count, while it is picked.
    pub fn update_cool_times(&mut self)
        requires
            old(self).wf(),
        ensures
            final(self).wf(),
            final(self).card_be_select == old(self).card_be_select,
            final(self).cool_times@ == Seq::new(
                CARD_NUM as nat,
                |k: int|
                    if old(self).card_be_select == CardType::SpadeCard && k == 0 {
                        old(self).cool_times@[k]
                    } else {
                        count_down(old(self).cool_times@[k])
                    },
            ),
    {
        let ghost times0 = self.cool_times@;
        let mut k: usize = 0;
        while k < self.cards.len()
            invariant
                k <= CARD_NUM,
                self.wf(),
                self.card_be_select == old(self).card_be_select,
                times0 == old(self).cool_times@,
                forall|j: int| 0 <= j < k ==> #[trigger] self.cool_times@[j] == (if old(self).card_be_select
                    == CardType::SpadeCard && j == 0 {
                    times0[j]
                } else {
                    count_down(times0[j])
                }),
                forall|j: int| k <= j < CARD_NUM ==> #[trigger] self.cool_times@[j] == times0[j],
            decreases CARD_NUM - k,
        {
            let card = self.cards[k];
            if !(self.card_be_select == CardType::SpadeCard && card == CardType::SpadeCard) {
                let index = self.get_index(&card);
                let t = self.cool_times[index];
                if t > i32::MIN {
                    self.cool_times[index] = t - 1;
                }
            }
            k = k + 1;
        }
        assert(self.cool_times@ =~= Seq::new(
            CARD_NUM as nat,
            |k: int|
                if old(self).card_be_select == CardType::SpadeCard && k == 0 {
                    old(self).cool_times@[k]
                } else {
                    count_down(old(self).cool_times@[k])
                },
        ));
    }
}

} // verus!
