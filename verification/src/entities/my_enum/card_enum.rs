use vstd::prelude::*;

use super::plant_enum::PlantType;

verus! {

/// The cards of the card bar: three plant cards, the spade, and "no card".
#[derive(Clone, Copy, Debug, PartialEq, Eq, Structural)]
pub enum CardType {
    PeashooterCard,
    SunFlowerCard,
    WallnutCard,
    SpadeCard,
    NoneCard,
}

impl CardType {
    /// Slot of the card in the card bar (the spade comes first).
    pub open spec fn spec_type_to_index(&self) -> Option<usize> {
        match *self {
            CardType::SpadeCard => Some(0),
            CardType::PeashooterCard => Some(1),
            CardType::SunFlowerCard => Some(2),
            CardType::WallnutCard => Some(3),
            CardType::NoneCard => None,
        }
    }

    /// Sunshine that planting this card costs.
    pub open spec fn spec_type_to_price(&self) -> u32 {
        match *self {
            CardType::PeashooterCard => 100,
            CardType::SunFlowerCard => 50,
            CardType::WallnutCard => 50,
            _ => 0,
        }
    }

    /// The plant that a plant card grows.
    pub open spec fn spec_type_to_plant(&self) -> Option<PlantType> {
        match *self {
            CardType::PeashooterCard => Some(PlantType::Peashooter),
            CardType::SunFlowerCard => Some(PlantType::SunFlower),
            CardType::WallnutCard => Some(PlantType::WallNut),
            _ => None,
        }
    }

    /// Frames a card stays unavailable after its plant was grown.
    pub open spec fn spec_type_to_cool_time(&self) -> i32 {
        match *self {
            CardType::PeashooterCard => 400,
            CardType::SunFlowerCard => 800,
            CardType::WallnutCard => 400,
            _ => 0,
        }
    }

    #[verifier::when_used_as_spec(spec_type_to_index)]
    pub fn type_to_index(&self) -> (r: Option<usize>)
        ensures
            r == self.spec_type_to_index(),
    {
        match self {
            CardType::SpadeCard => Some(0),
            CardType::PeashooterCard => Some(1),
            CardType::SunFlowerCard => Some(2),
            CardType::WallnutCard => Some(3),
            CardType::NoneCard => None,
        }
    }

    #[verifier::when_used_as_spec(spec_type_to_price)]
    pub fn type_to_price(&self) -> (r: u32)
        ensures
            r == self.spec_type_to_price(),
    {
        match self {
            CardType::PeashooterCard => 100,
            CardType::SunFlowerCard => 50,
            CardType::WallnutCard => 50,
            _ => 0,
        }
    }

    /// The plant grown by this card, `None` for the spade and for no card.
    #[verifier::when_used_as_spec(spec_type_to_plant)]
    pub fn type_to_plant(&self) -> (r: Option<PlantType>)
        ensures
            r == self.spec_type_to_plant(),
    {
        match self {
            CardType::PeashooterCard => Some(PlantType::Peashooter),
            CardType::SunFlowerCard => Some(PlantType::SunFlower),
            CardType::WallnutCard => Some(PlantType::WallNut),
            _ => None,
        }
    }

    /// Cool-down of the card, counted in frames.
    #[verifier::when_used_as_spec(spec_type_to_cool_time)]
    pub fn type_to_cool_time(&self) -> (r: i32)
        ensures
            r == self.spec_type_to_cool_time(),
    {
        match self {
            CardType::PeashooterCard => 400,
            CardType::SunFlowerCard => 800,
            CardType::WallnutCard => 400,
            _ => 0,
        }
    }
}

} // verus!
