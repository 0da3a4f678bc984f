use vstd::prelude::*;

verus! {

/// The plants that can be grown on the lawn.
#[derive(Clone, Copy, Debug, PartialEq, Eq, Structural)]
pub enum PlantType {
    Peashooter,
    SunFlower,
    WallNut,
    NonePlant,
}

impl PlantType {
    pub open spec fn spec_type_to_index(&self) -> Option<usize> {
        match *self {
            PlantType::Peashooter => Some(0),
            PlantType::SunFlower => Some(1),
            PlantType::WallNut => Some(2),
            PlantType::NonePlant => None,
        }
    }

    pub open spec fn spec_type_to_frame_num(&self) -> usize {
        match *self {
            PlantType::Peashooter => 13,
            PlantType::SunFlower => 18,
            PlantType::WallNut => 15,
            PlantType::NonePlant => 0,
        }
    }

    pub open spec fn spec_type_to_blood(&self) -> i32 {
        match *self {
            PlantType::Peashooter => 200,
            PlantType::SunFlower => 100,
            PlantType::WallNut => 400,
            PlantType::NonePlant => 0,
        }
    }

    pub open spec fn spec_type_to_skill_time(&self) -> i32 {
        match *self {
            PlantType::Peashooter => 300,
            PlantType::SunFlower => 1500,
            _ => 0,
        }
    }

    pub open spec fn spec_type_to_damage(&self) -> i32 {
        match *self {
            PlantType::Peashooter => 50,
            _ => 0,
        }
    }

    /// Index of the plant's animation.
    #[verifier::when_used_as_spec(spec_type_to_index)]
    pub fn type_to_index(&self) -> (r: Option<usize>)
        ensures
            r == self.spec_type_to_index(),
    {
        match self {
            PlantType::Peashooter => Some(0),
            PlantType::SunFlower => Some(1),
            PlantType::WallNut => Some(2),
            PlantType::NonePlant => None,
        }
    }

    /// Number of frames in the plant's animation.
    #[verifier::when_used_as_spec(spec_type_to_frame_num)]
    pub fn type_to_frame_num(&self) -> (r: usize)
        ensures
            r == self.spec_type_to_frame_num(),
    {
        match self {
            PlantType::Peashooter => 13,
            PlantType::SunFlower => 18,
            PlantType::WallNut => 15,
            PlantType::NonePlant => 0,
        }
    }

    /// Health points of a freshly grown plant.
    #[verifier::when_used_as_spec(spec_type_to_blood)]
    pub fn type_to_blood(&self) -> (r: i32)
        ensures
            r == self.spec_type_to_blood(),
    {
        match self {
            PlantType::Peashooter => 200,
            PlantType::SunFlower => 100,
            PlantType::WallNut => 400,
            PlantType::NonePlant => 0,
        }
    }

    /// Frames between two uses of the plant's skill (0: no skill).
    #[verifier::when_used_as_spec(spec_type_to_skill_time)]
    pub fn type_to_skill_time(&self) -> (r: i32)
        ensures
            r == self.spec_type_to_skill_time(),
    {
        match self {
            PlantType::Peashooter => 300,
            PlantType::SunFlower => 1500,
            _ => 0,
        }
    }

    /// Damage dealt by the plant's projectile.
    #[verifier::when_used_as_spec(spec_type_to_damage)]
    pub fn type_to_damage(&self) -> (r: i32)
        ensures
            r == self.spec_type_to_damage(),
    {
        match self {
            PlantType::Peashooter => 50,
            _ => 0,
        }
    }
}

} // verus!
