use vstd::prelude::*;

use super::bullet::Bullet;
use super::my_enum::plant_enum::PlantType;
use super::my_enum::sunshine_enum::SunshineType;
use super::sunshine::Sunshine;

verus! {

/// Frames between two animation frames of a plant.
pub const INTERVAL_UPDATE_FRAME: i32 = 15;

/// The state of the plant standing on one tile of the lawn.  Its position
/// on screen is fixed by the tile and kept by the caller.
#[derive(Clone, Copy, Debug)]
pub struct Plant {
    pub plant_type: PlantType,
    pub frame_index: usize,
    /// Frames left until the next animation frame.
    pub delay: i32,
    pub used: bool,
    pub max_blood: i32,
    pub cur_blood: i32,
    pub row: u32,
    /// Frames left until the skill is ready; the skill is ready once it hits 0.
    pub skill_time: i32,
    pub can_activate_skill: bool,
}

impl Plant {
    /// A living plant is a real plant whose counters stay in their ranges
    /// and whose health is positive.
    pub open spec fn wf(&self) -> bool {
        self.used ==> {
            &&& self.plant_type != PlantType::NonePlant
            &&& self.frame_index < self.plant_type.spec_type_to_frame_num()
            &&& 1 <= self.delay <= INTERVAL_UPDATE_FRAME
            &&& 0 <= self.skill_time <= self.plant_type.spec_type_to_skill_time()
            &&& 0 < self.cur_blood <= self.max_blood
            &&& self.max_blood == self.plant_type.spec_type_to_blood()
        }
    }

    /// What one frame of the plant needs: a real plant type (its animation
    /// has frames) and counters that can move without overflow.
    pub open spec fn tick_safe(&self) -> bool {
        self.used ==> {
            &&& self.plant_type != PlantType::NonePlant
            &&& self.delay > i32::MIN
            &&& self.frame_index < usize::MAX
        }
    }

    /// The plant as `init` leaves it.
    pub open spec fn spec_init(self, plant_type: PlantType) -> Plant {
        Plant {
            plant_type,
            frame_index: 0,
            delay: INTERVAL_UPDATE_FRAME,
            used: true,
            max_blood: plant_type.spec_type_to_blood(),
            cur_blood: plant_type.spec_type_to_blood(),
            skill_time: plant_type.spec_type_to_skill_time(),
            can_activate_skill: false,
            ..self
        }
    }

    /// One frame of a living plant: the animation advances every
    /// `INTERVAL_UPDATE_FRAME` frames and the skill timer counts down to 0,
    /// where the skill becomes ready.
    pub open spec fn spec_tick(self) -> Plant {
        if !self.used {
            self
        } else {
            let delay = self.delay - 1;
            let (frame_index, delay) = if delay <= 0 {
                (
                    ((self.frame_index + 1) % (self.plant_type.spec_type_to_frame_num() as int)) as usize,
                    INTERVAL_UPDATE_FRAME,
                )
            } else {
                (self.frame_index, delay as i32)
            };
            let (skill_time, can_activate_skill) = if self.skill_time > 0 {
                (
                    (self.skill_time - 1) as i32,
                    if self.skill_time - 1 <= 0 { true } else { self.can_activate_skill },
                )
            } else {
                (self.skill_time, self.can_activate_skill)
            };
            Plant { frame_index, delay, skill_time, can_activate_skill, ..self }
        }
    }

    /// The plant after taking `damage`: it dies once its health is used up.
    pub open spec fn spec_attacked(self, damage: i32) -> Plant {
        let cur_blood = (self.cur_blood - damage) as i32;
        Plant { cur_blood, used: self.used && cur_blood > 0, ..self }
    }

    /// The plant after using its skill: the timer restarts.
    pub open spec fn spec_cooldown(self) -> Plant {
        Plant {
            can_activate_skill: false,
            skill_time: self.plant_type.spec_type_to_skill_time(),
            ..self
        }
    }

    /// An empty tile's plant in row `row`.
    /// A fresh, unused value.
    pub open spec fn spec_new(row: u32) -> Plant {
        Plant {
            plant_type: PlantType::NonePlant,
            frame_index: 0,
            delay: 0,
            used: false,
            max_blood: 0,
            cur_blood: 0,
            row,
            skill_time: 0,
            can_activate_skill: false,
        }
    }

    pub fn new(row: u32) -> (p: Plant)
        ensures
            p == Plant::spec_new(row),
            p.wf(),
    {
        Plant {
            plant_type: PlantType::NonePlant,
            frame_index: 0,
            delay: 0,
            used: false,
            max_blood: 0,
            cur_blood: 0,
            row,
            skill_time: 0,
            can_activate_skill: false,
        }
    }

    /// Brings a plant of the given type to life with full health.
    pub fn init(&mut self, plant_type: PlantType)
        ensures
            *final(self) == old(self).spec_init(plant_type),
    {
        self.plant_type = plant_type;
        self.frame_index = 0;
        self.delay = INTERVAL_UPDATE_FRAME;
        self.used = true;
        self.max_blood = self.plant_type.type_to_blood();
        self.cur_blood = self.max_blood;
        self.skill_time = self.plant_type.type_to_skill_time();
        self.can_activate_skill = false;
    }

    pub fn set_used(&mut self)
        ensures
            *final(self) == (Plant { used: true, ..*old(self) }),
    {
        self.used = true;
    }

    pub fn set_unused(&mut self)
        ensures
            *final(self) == (Plant { used: false, ..*old(self) }),
    {
        self.used = false;
    }

    pub fn is_used(&self) -> (r: bool)
        ensures
            r == self.used,
    {
        self.used
    }

    pub fn get_type(&self) -> (r: &PlantType)
        ensures
            *r == self.plant_type,
    {
        &self.plant_type
    }

    pub fn get_row(&self) -> (r: u32)
        ensures
            r == self.row,
    {
        self.row
    }

    pub fn can_activate_skill(&self) -> (r: bool)
        ensures
            r == self.can_activate_skill,
    {
        self.can_activate_skill
    }

    /// A plant is dead once its health is used up.
    pub fn is_dead(&self) -> (r: bool)
        ensures
            r == (self.cur_blood <= 0),
    {
        self.cur_blood <= 0
    }

    /// Takes `damage` health points; a plant whose health drops to 0 or
    /// below dies.
    pub fn be_attacked(&mut self, damage: i32)
        requires
            i32::MIN <= old(self).cur_blood - damage <= i32::MAX,
        ensures
            *final(self) == old(self).spec_attacked(damage),
            old(self).wf() && damage >= 0 ==> final(self).wf(),
    {
        self.cur_blood = self.cur_blood - damage;
        if self.cur_blood <= 0 {
            self.used = false;
        }
    }

    /// Restarts the skill timer after the skill was used.
    pub fn skill_cooldown(&mut self)
        ensures
            *final(self) == old(self).spec_cooldown(),
    {
        self.can_activate_skill = false;
        self.skill_time = self.plant_type.type_to_skill_time();
    }

    /// The peashooter's skill: the given bullet leaves from this plant's row.
    pub fn peashooter_shoot_bullet(&mut self, bullet: &mut Bullet)
        ensures
            *final(self) == *old(self),
            *final(bullet) == old(bullet).spec_init(old(self).row),
    {
        bullet.init(self.row);
    }

    /// The sunflower's skill: the given sunshine appears at this plant.
    pub fn sunflower_create_sunshine(&mut self, sunshine: &mut Sunshine)
        ensures
            *final(self) == *old(self),
            exists|frame: usize|
                frame < 29 && *final(sunshine) == old(sunshine).spec_init(
                    SunshineType::CommonSunShine,
                    frame,
                ),
    {
        sunshine.init(SunshineType::CommonSunShine);
    }

    /// Advances the plant by one frame (see `spec_tick`).
    pub fn update_status(&mut self)
        requires
            old(self).tick_safe(),
        ensures
            *final(self) == old(self).spec_tick(),
            old(self).wf() ==> final(self).wf(),
    {
        if self.used {
            self.delay = self.delay - 1;
            if self.delay <= 0 {
                self.frame_index = (self.frame_index + 1) % (self.plant_type.type_to_frame_num());
                self.delay = INTERVAL_UPDATE_FRAME;
            }
            if self.skill_time > 0 {
                self.skill_time = self.skill_time - 1;
                if self.skill_time <= 0 {
                    self.can_activate_skill = true;
                }
            }
        }
    }
}

/// The plant after `n` frames.
pub open spec fn plant_ticks(p: Plant, n: nat) -> Plant
    decreases n,
{
    if n == 0 {
        p
    } else {
        plant_ticks(p, (n - 1) as nat).spec_tick()
    }
}

/// A living plant whose skill is not ready and whose timer shows `s`
/// frames gets its skill ready after exactly `s` frames: until then the
/// timer counts down and the skill stays unready.  A peashooter grows with
/// 300 frames to its first pea, a sunflower with 1500 to its first sunshine.
pub proof fn lemma_skill_ready_on_time(p: Plant, n: nat)
    requires
        p.used,
        !p.can_activate_skill,
        0 < p.skill_time,
        n <= p.skill_time,
    ensures
        plant_ticks(p, n).used,
        plant_ticks(p, n).skill_time == p.skill_time - n,
        plant_ticks(p, n).can_activate_skill == (n == p.skill_time),
        p.spec_init(PlantType::Peashooter).skill_time == 300,
        p.spec_init(PlantType::SunFlower).skill_time == 1500,
    decreases n,
{
    if n > 0 {
        lemma_skill_ready_on_time(p, (n - 1) as nat);
    }
}

/// Frames keep a plant's type, row and whether it lives.
pub proof fn lemma_ticks_keep_plant(p: Plant, n: nat)
    ensures
        plant_ticks(p, n).plant_type == p.plant_type,
        plant_ticks(p, n).row == p.row,
        plant_ticks(p, n).used == p.used,
    decreases n,
{
    if n > 0 {
        lemma_ticks_keep_plant(p, (n - 1) as nat);
    }
}

/// A plant bitten loses exactly the damage from its health and dies
/// exactly when its health is used up; nothing else about it changes.
pub proof fn lemma_plant_bitten(p: Plant, damage: i32)
    requires
        i32::MIN <= p.cur_blood - damage <= i32::MAX,
    ensures
        p.spec_attacked(damage).cur_blood == p.cur_blood - damage,
        p.spec_attacked(damage).used == (p.used && p.cur_blood - damage > 0),
        p.spec_attacked(damage) == (Plant {
            cur_blood: p.spec_attacked(damage).cur_blood,
            used: p.spec_attacked(damage).used,
            ..p
        }),
{
}

} // verus!
