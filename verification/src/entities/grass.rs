use vstd::prelude::*;

use super::my_enum::plant_enum::PlantType;
use super::plant::Plant;

verus! {

/// One tile of the lawn and the plant it holds.
#[derive(Clone, Copy, Debug)]
pub struct Grass {
    /// `true` while a plant grows on the tile.
    pub used: bool,
    pub plant: Plant,
    pub row: u32,
}

impl Grass {
    /// A tile is taken exactly while its plant lives, and that plant is
    /// well formed.
    pub open spec fn wf(&self) -> bool {
        &&& self.used == self.plant.used
        &&& self.plant.wf()
    }

    pub fn new(plant: Plant, row: u32) -> (g: Grass)
        ensures
            g == (Grass { used: false, plant, row }),
    {
        Grass { used: false, plant, row }
    }

    pub fn set_used(&mut self)
        ensures
            *final(self) == (Grass { used: true, ..*old(self) }),
    {
        self.used = true;
    }

    /// Frees the tile; its plant dies with it.
    pub fn set_unused(&mut self)
        ensures
            *final(self) == (Grass {
                used: false,
                plant: Plant { used: false, ..old(self).plant },
                ..*old(self)
            }),
    {
        self.used = false;
        self.plant.set_unused();
    }

    pub fn is_used(&self) -> (r: bool)
        ensures
            r == self.used,
    {
        self.used
    }

    pub fn get_plant_type(&self) -> (r: &PlantType)
        ensures
            *r == self.plant.plant_type,
    {
        self.plant.get_type()
    }

    /// Grows a plant of the given type on the tile; returns `true`.
    /// The tile's plant must be dead (a living plant there would be a
    /// broken lawn, on which the game stops).
    pub fn grow_plant(&mut self, plant_type: PlantType) -> (r: bool)
        requires
            !old(self).plant.used,
        ensures
            r,
            *final(self) == (Grass { plant: old(self).plant.spec_init(plant_type), ..*old(self) }),
    {
        self.plant.init(plant_type);
        self.plant.set_used();
        true
    }
}

} // verus!
