use vstd::prelude::*;

use super::my_enum::zombie_enum::{ZombieStatus, ZombieType};
use crate::tools::random_in_range;

verus! {

/// Frames between two animation frames of a zombie.
pub const INTERVAL_UPDATE_FRAME: i32 = 15;

/// Damage of one bite.
pub const DAMAGE: i32 = 2;

/// Number of rows of the lawn.
pub const ROW_NUM: u32 = 5;

/// A zombie.  Its position and size are kept by the caller; `moving` says
/// whether it walks (at the walking speed) or stands still.
#[derive(Clone, Copy, Debug)]
pub struct Zombie {
    pub used: bool,
    pub row: u32,
    pub zm_type: ZombieType,
    pub zm_status: ZombieStatus,
    pub frame_index: usize,
    /// Frames left until the next animation frame.
    pub delay: i32,
    pub moving: bool,
    pub max_blood: i32,
    pub cur_blood: i32,
    pub dead: bool,
    /// Set when an eating zombie finishes a bite frame: it may bite.
    pub can_attack: bool,
    pub damage: i32,
}

/// How a zombie moved during one frame, for the caller to apply to its
/// position: `walked` at the walking speed, and `jumped` one step of a
/// pole vault.
#[derive(Clone, Copy, Debug, PartialEq, Eq, Structural)]
pub struct ZombieMove {
    pub walked: bool,
    pub jumped: bool,
}

/// The zombie type drawn from a roll of 1 to 7 at a level: four in seven
/// are common, two in seven wear a cone, one in seven vaults with a pole;
/// the first level sends only common zombies, and the second no pole
/// vaulter (its roll gives a cone head), so the kinds grow with the level.
pub open spec fn type_of_roll(level: u32, roll: u32) -> ZombieType {
    if 1 <= roll <= 4 || level <= 1 {
        ZombieType::CommonZM
    } else if 5 <= roll <= 6 || level == 2 {
        ZombieType::ConeHeadZM
    } else {
        ZombieType::PoleVaultingZM
    }
}

/// The statuses a zombie of the given type can be in: only a pole vaulter
/// jumps and walks after a jump.
pub open spec fn status_fits_type(status: ZombieStatus, zm_type: ZombieType) -> bool {
    zm_type != ZombieType::PoleVaultingZM ==> (status == ZombieStatus::Walk0
        || status == ZombieStatus::Eat || status == ZombieStatus::Dead)
}

impl Zombie {
    /// Counters in range, a status that the type has an animation for, and
    /// positive health while alive.
    pub open spec fn wf(&self) -> bool {
        &&& 1 <= self.delay <= INTERVAL_UPDATE_FRAME
        &&& self.frame_index < 25
        &&& status_fits_type(self.zm_status, self.zm_type)
        &&& self.dead ==> self.zm_status == ZombieStatus::Dead
        &&& !self.dead ==> self.zm_status != ZombieStatus::Dead
        &&& (self.used && !self.dead) ==> 0 < self.cur_blood <= 800
        &&& self.damage == DAMAGE
    }

    /// What one frame needs: an animation with frames, counters that can
    /// move without overflow.
    pub open spec fn tick_safe(&self) -> bool {
        self.used ==> {
            &&& self.zm_status.spec_status_to_frame_num(&self.zm_type) > 0
            &&& self.frame_index < usize::MAX
            &&& self.delay > i32::MIN
        }
    }

    /// The zombie entering `status`: its animation restarts; it walks in the
    /// two walking statuses and stands still otherwise.
    pub open spec fn spec_become(self, status: ZombieStatus) -> Zombie {
        Zombie {
            frame_index: 0,
            moving: status == ZombieStatus::Walk0 || status == ZombieStatus::Walk1,
            zm_status: status,
            ..self
        }
    }

    /// The status machine: a common or cone-head zombie goes from walking to
    /// eating and back; a pole vaulter jumps at its first plant, then walks,
    /// eats and walks again.  A dead zombie stays dead.
    pub open spec fn spec_next_status(self) -> ZombieStatus {
        match self.zm_type {
            ZombieType::PoleVaultingZM => match self.zm_status {
                ZombieStatus::Walk0 => ZombieStatus::Jump,
                ZombieStatus::Jump => ZombieStatus::Walk1,
                ZombieStatus::Walk1 => ZombieStatus::Eat,
                ZombieStatus::Eat => ZombieStatus::Walk1,
                ZombieStatus::Dead => ZombieStatus::Dead,
            },
            _ => match self.zm_status {
                ZombieStatus::Walk0 => ZombieStatus::Eat,
                ZombieStatus::Eat => ZombieStatus::Walk0,
                s => s,
            },
        }
    }

    /// The zombie after `change_status`.
    pub open spec fn spec_change_status(self) -> Zombie {
        if self.spec_next_status() == self.zm_status {
            self
        } else {
            self.spec_become(self.spec_next_status())
        }
    }

    /// A new zombie of a level in row `row`, its type drawn from
    /// `type_roll`: whatever the slot held before, it starts as a fresh
    /// zombie does, walking, at full health, with a full frame delay and
    /// no bite pending.
    pub open spec fn spec_init(self, row: u32, type_roll: u32, level: u32) -> Zombie {
        let zm_type = type_of_roll(level, type_roll);
        Zombie {
            row,
            zm_type,
            zm_status: ZombieStatus::Walk0,
            used: true,
            frame_index: 0,
            delay: INTERVAL_UPDATE_FRAME,
            moving: true,
            max_blood: zm_type.spec_type_to_blood(),
            cur_blood: zm_type.spec_type_to_blood(),
            dead: false,
            can_attack: false,
            ..self
        }
    }

    /// The zombie after taking `damage`: at no health left it dies.
    pub open spec fn spec_attacked(self, damage: i32) -> Zombie {
        let cur_blood = (self.cur_blood - damage) as i32;
        if cur_blood <= 0 {
            Zombie {
                cur_blood,
                moving: false,
                frame_index: 0,
                dead: true,
                zm_status: ZombieStatus::Dead,
                ..self
            }
        } else {
            Zombie { cur_blood, ..self }
        }
    }

    /// One frame of a zombie, and how it moved: a zombie in play walks while
    /// `moving`, and takes a step of its jump at each jump frame.
    /// Every `INTERVAL_UPDATE_FRAME` frames the animation advances: a dead
    /// zombie disappears when its animation ends, an eating zombie may bite
    /// again, a jumping zombie moves on and, when the jump ends, walks.
    pub open spec fn spec_tick(self) -> (Zombie, ZombieMove) {
        let walked = self.used && self.moving;
        if !self.used {
            (self, ZombieMove { walked, jumped: false })
        } else {
            let delay = self.delay - 1;
            if delay > 0 {
                (Zombie { delay: delay as i32, ..self }, ZombieMove { walked, jumped: false })
            } else {
                let n = self.zm_status.spec_status_to_frame_num(&self.zm_type);
                let frame_index = ((self.frame_index + 1) % (n as int)) as usize;
                let z = Zombie { frame_index, ..self };
                if self.zm_status == ZombieStatus::Dead {
                    (
                        Zombie { used: !(frame_index == 0), delay: INTERVAL_UPDATE_FRAME, ..z },
                        ZombieMove { walked, jumped: false },
                    )
                } else if self.zm_status == ZombieStatus::Eat {
                    (
                        Zombie { can_attack: true, delay: INTERVAL_UPDATE_FRAME, ..z },
                        ZombieMove { walked, jumped: false },
                    )
                } else if self.zm_status == ZombieStatus::Jump {
                    let z2 = if frame_index == 0 { z.spec_change_status() } else { z };
                    (Zombie { delay: INTERVAL_UPDATE_FRAME, ..z2 }, ZombieMove { walked, jumped: true })
                } else {
                    (Zombie { delay: INTERVAL_UPDATE_FRAME, ..z }, ZombieMove { walked, jumped: false })
                }
            }
        }
    }

    /// A fresh, unused value.
    pub open spec fn spec_new() -> Zombie {
        Zombie {
            used: false,
            row: 0,
            zm_type: ZombieType::CommonZM,
            zm_status: ZombieStatus::Walk0,
            frame_index: 0,
            delay: INTERVAL_UPDATE_FRAME,
            moving: true,
            max_blood: 0,
            cur_blood: 0,
            dead: false,
            can_attack: false,
            damage: DAMAGE,
        }
    }

    pub fn new() -> (z: Zombie)
        ensures
            z == Zombie::spec_new(),
            z.wf(),
    {
        Zombie {
            used: false,
            row: 0,
            zm_type: ZombieType::CommonZM,
            zm_status: ZombieStatus::Walk0,
            frame_index: 0,
            delay: INTERVAL_UPDATE_FRAME,
            moving: true,
            max_blood: 0,
            cur_blood: 0,
            dead: false,
            can_attack: false,
            damage: DAMAGE,
        }
    }

    /// Brings the zombie of level `level` onto row `row`, with the type
    /// drawn from `type_roll` (see `type_of_roll`), full health, walking.
    pub fn init_with(&mut self, row: u32, type_roll: u32, level: u32)
        ensures
            *final(self) == old(self).spec_init(row, type_roll, level),
            old(self).wf() ==> final(self).wf(),
    {
        self.row = row;
        let type_num: usize = if (1 <= type_roll && type_roll <= 4) || level <= 1 {
            0
        } else if (5 <= type_roll && type_roll <= 6) || level == 2 {
            1
        } else {
            2
        };
        match ZombieType::try_from(type_num) {
            Ok(zombie) => self.zm_type = zombie,
            Err(_) => {},
        }
        self.zm_status = ZombieStatus::Walk0;
        self.used = true;
        self.frame_index = 0;
        self.delay = INTERVAL_UPDATE_FRAME;
        self.moving = true;
        self.can_attack = false;
        self.max_blood = self.zm_type.type_to_blood();
        self.cur_blood = self.max_blood;
        self.dead = false;
    }

    /// Brings the zombie of level `cur_level` onto a random row with a
    /// random type.
    pub fn init(&mut self, cur_level: u32)
        ensures
            exists|row: u32, roll: u32|
                row < ROW_NUM && 1 <= roll <= 7 && *final(self) == old(self).spec_init(row, roll, cur_level),
            old(self).wf() ==> final(self).wf(),
    {
        let row = random_in_range(0, 4);
        let roll = random_in_range(1, 7);
        self.init_with(row, roll, cur_level);
    }

    pub fn set_unused(&mut self)
        ensures
            *final(self) == (Zombie { used: false, ..*old(self) }),
    {
        self.used = false;
    }

    pub fn is_used(&self) -> (r: bool)
        ensures
            r == self.used,
    {
        self.used
    }

    pub fn is_dead(&self) -> (r: bool)
        ensures
            r == self.dead,
    {
        self.dead
    }

    pub fn get_type(&self) -> (r: &ZombieType)
        ensures
            *r == self.zm_type,
    {
        &self.zm_type
    }

    pub fn get_status(&self) -> (r: &ZombieStatus)
        ensures
            *r == self.zm_status,
    {
        &self.zm_status
    }

    pub fn get_row(&self) -> (r: u32)
        ensures
            r == self.row,
    {
        self.row
    }

    pub fn get_damage(&self) -> (r: i32)
        ensures
            r == self.damage,
    {
        self.damage
    }

    pub fn can_attack(&self) -> (r: bool)
        ensures
            r == self.can_attack,
    {
        self.can_attack
    }

    pub fn attack_cooldown(&mut self)
        ensures
            *final(self) == (Zombie { can_attack: false, ..*old(self) }),
    {
        self.can_attack = false;
    }

    /// Takes `damage` health points (see `spec_attacked`).
    pub fn be_attacked(&mut self, damage: i32)
        requires
            i32::MIN <= old(self).cur_blood - damage <= i32::MAX,
        ensures
            *final(self) == old(self).spec_attacked(damage),
            old(self).wf() && damage >= 0 ==> final(self).wf(),
    {
        self.cur_blood = self.cur_blood - damage;
        if self.cur_blood <= 0 {
            self.moving = false;
            self.frame_index = 0;
            self.dead = true;
            self.zm_status = ZombieStatus::Dead;
        }
    }

    pub fn become_walk0_status(&mut self)
        ensures
            *final(self) == old(self).spec_become(ZombieStatus::Walk0),
    {
        self.frame_index = 0;
        self.moving = true;
        self.zm_status = ZombieStatus::Walk0;
    }

    pub fn become_eat_status(&mut self)
        ensures
            *final(self) == old(self).spec_become(ZombieStatus::Eat),
    {
        self.frame_index = 0;
        self.moving = false;
        self.zm_status = ZombieStatus::Eat;
    }

    pub fn become_jump_status(&mut self)
        ensures
            *final(self) == old(self).spec_become(ZombieStatus::Jump),
    {
        self.frame_index = 0;
        self.moving = false;
        self.zm_status = ZombieStatus::Jump;
    }

    pub fn become_walk1_status(&mut self)
        ensures
            *final(self) == old(self).spec_become(ZombieStatus::Walk1),
    {
        self.frame_index = 0;
        self.moving = true;
        self.zm_status = ZombieStatus::Walk1;
    }

    /// Moves the zombie on to its next status (see `spec_next_status`).
    pub fn change_status(&mut self)
        ensures
            *final(self) == old(self).spec_change_status(),
            old(self).wf() ==> final(self).wf(),
    {
        match self.zm_type {
            ZombieType::PoleVaultingZM => {
                match self.zm_status {
                    ZombieStatus::Walk0 => {
                        self.become_jump_status();
                    },
                    ZombieStatus::Jump => {
                        self.become_walk1_status();
                    },
                    ZombieStatus::Walk1 => {
                        self.become_eat_status();
                    },
                    ZombieStatus::Eat => {
                        self.become_walk1_status();
                    },
                    _ => {},
                }
            },
            _ => {
                match self.zm_status {
                    ZombieStatus::Walk0 => {
                        self.become_eat_status();
                    },
                    ZombieStatus::Eat => {
                        self.become_walk0_status();
                    },
                    _ => {},
                }
            },
        }
    }

    /// One frame of the zombie (see `spec_tick`); returns how it moved, which
    /// the caller applies to its position.
    pub fn update_status(&mut self) -> (motion: ZombieMove)
        requires
            old(self).tick_safe(),
        ensures
            (*final(self), motion) == old(self).spec_tick(),
            old(self).wf() ==> final(self).wf(),
    {
        let walked = self.used && self.moving;
        let mut jump_step = false;
        if self.used {
            self.delay = self.delay - 1;
            if self.delay <= 0 {
                let n = self.zm_status.status_to_frame_num(&self.zm_type);
                self.frame_index = (self.frame_index + 1) % n;
                if self.zm_status == ZombieStatus::Dead {
                    if self.frame_index == 0 {
                        self.used = false;
                    }
                } else if self.zm_status == ZombieStatus::Eat {
                    self.can_attack = true;
                } else if self.zm_status == ZombieStatus::Jump {
                    jump_step = true;
                    if self.frame_index == 0 {
                        self.change_status();
                    }
                }
                self.delay = INTERVAL_UPDATE_FRAME;
            }
        }
        ZombieMove { walked, jumped: jump_step }
    }
}

/// The kinds of zombies a level can send: those some roll of 1 to 7 gives.
pub open spec fn level_kinds(level: u32) -> Set<ZombieType> {
    Set::new(|t: ZombieType| exists|roll: u32| 1 <= roll <= 7 && #[trigger] type_of_roll(level, roll) == t)
}

/// The kinds of zombies grow with the level: each level can send every kind
/// the level before could, the first sends only common zombies, the second
/// adds cone heads, and the third adds pole vaulters.
pub proof fn lemma_kinds_grow(level: u32)
    requires
        1 <= level < 3,
    ensures
        level_kinds(level).subset_of(level_kinds((level + 1) as u32)),
        level_kinds(1) == set![ZombieType::CommonZM],
        level_kinds(2) == set![ZombieType::CommonZM, ZombieType::ConeHeadZM],
        level_kinds(3) == set![ZombieType::CommonZM, ZombieType::ConeHeadZM, ZombieType::PoleVaultingZM],
{
    assert(type_of_roll(1, 1) == ZombieType::CommonZM);
    assert(type_of_roll(2, 1) == ZombieType::CommonZM);
    assert(type_of_roll(2, 5) == ZombieType::ConeHeadZM);
    assert(type_of_roll(3, 1) == ZombieType::CommonZM);
    assert(type_of_roll(3, 5) == ZombieType::ConeHeadZM);
    assert(type_of_roll(3, 7) == ZombieType::PoleVaultingZM);
    assert(level_kinds(1) =~= set![ZombieType::CommonZM]);
    assert(level_kinds(2) =~= set![ZombieType::CommonZM, ZombieType::ConeHeadZM]);
    assert(level_kinds(3) =~= set![ZombieType::CommonZM, ZombieType::ConeHeadZM, ZombieType::PoleVaultingZM]);
}

/// A zombie brought into play on row `row` with a type roll of 1 to 7:
/// in the third level rolls 1 to 4 give a common zombie, 5 and 6 a cone
/// head and 7 a pole vaulter (4 : 2 : 1); the second level gives a cone
/// head for 5 to 7, the first a common zombie for every roll.  It walks on
/// its row, alive, at the full health of its type: 300, 700 or 800.
pub proof fn lemma_new_zombie(z: Zombie, row: u32, type_roll: u32, level: u32)
    requires
        1 <= type_roll <= 7,
        1 <= level,
    ensures
        ({
            let n = z.spec_init(row, type_roll, level);
            &&& n.zm_type == (if level == 1 || type_roll <= 4 {
                ZombieType::CommonZM
            } else if level == 2 || type_roll <= 6 {
                ZombieType::ConeHeadZM
            } else {
                ZombieType::PoleVaultingZM
            })
            &&& n.used && !n.dead && n.moving
            &&& n.row == row
            &&& n.zm_status == ZombieStatus::Walk0
            &&& n.cur_blood == n.max_blood
            &&& n.max_blood == (if n.zm_type == ZombieType::CommonZM {
                300i32
            } else if n.zm_type == ZombieType::ConeHeadZM {
                700i32
            } else {
                800i32
            })
        }),
{
}

/// A zombie hit loses exactly the damage from its health, and dies, stops
/// and starts its death animation exactly when its health is used up; one
/// that survives keeps everything else.
pub proof fn lemma_zombie_hit(z: Zombie, damage: i32)
    requires
        i32::MIN <= z.cur_blood - damage <= i32::MAX,
    ensures
        z.spec_attacked(damage).cur_blood == z.cur_blood - damage,
        z.spec_attacked(damage).dead == (z.dead || z.cur_blood - damage <= 0),
        z.cur_blood - damage <= 0 ==> z.spec_attacked(damage).zm_status == ZombieStatus::Dead
            && !z.spec_attacked(damage).moving && z.spec_attacked(damage).frame_index == 0,
        z.cur_blood - damage > 0 ==> z.spec_attacked(damage) == (Zombie { cur_blood: (z.cur_blood - damage) as i32, ..z }),
        z.spec_attacked(damage).used == z.used,
{
}

/// A pool slot brought back into play, whatever its zombie did before (a
/// killed one included), holds exactly the zombie that a fresh slot would,
/// and in its next frame it walks.
pub proof fn lemma_reused_zombie_walks(z: Zombie, row: u32, type_roll: u32, level: u32)
    requires
        z.wf(),
    ensures
        z.spec_init(row, type_roll, level) == Zombie::spec_new().spec_init(row, type_roll, level),
        z.spec_init(row, type_roll, level).spec_tick().1 == (ZombieMove { walked: true, jumped: false }),
        z.spec_init(row, type_roll, level).spec_tick().0.moving,
{
}

/// A pole vaulter jumps once: after its jump its status only goes between
/// walking and eating (or death), and a zombie of another type never jumps.
pub proof fn lemma_jump_once(z: Zombie)
    ensures
        z.zm_type == ZombieType::PoleVaultingZM && (z.zm_status == ZombieStatus::Walk1 || z.zm_status
            == ZombieStatus::Eat) ==> (z.spec_next_status() == ZombieStatus::Walk1 || z.spec_next_status()
            == ZombieStatus::Eat),
        z.zm_type != ZombieType::PoleVaultingZM && z.zm_status != ZombieStatus::Jump ==> z.spec_next_status()
            != ZombieStatus::Jump,
{
}

/// A dead zombie stays dead: neither a change of status nor a blow, nor a
/// frame, brings it back.
pub proof fn lemma_dead_stays_dead(z: Zombie, damage: i32)
    requires
        z.wf(),
        z.dead,
    ensures
        z.spec_change_status().dead && z.spec_change_status().zm_status == ZombieStatus::Dead,
        z.spec_attacked(damage).dead,
        z.spec_tick().0.dead,
{
}

/// The zombie after `n` frames (see `Zombie::spec_tick`).
pub open spec fn ticks(z: Zombie, n: nat) -> Zombie
    decreases n,
{
    if n == 0 {
        z
    } else {
        ticks(z.spec_tick().0, (n - 1) as nat)
    }
}

/// Frames left of a dying zombie's death animation.
spec fn death_frames_left(z: Zombie) -> int {
    z.delay + INTERVAL_UPDATE_FRAME * (z.zm_status.spec_status_to_frame_num(&z.zm_type) - 1 - z.frame_index)
}

/// A zombie out of play stays as it is.
proof fn lemma_out_stays_out(z: Zombie, n: nat)
    requires
        !z.used,
    ensures
        ticks(z, n) == z,
    decreases n,
{
    if n > 0 {
        lemma_out_stays_out(z.spec_tick().0, (n - 1) as nat);
    }
}

/// A dead zombie stays dead, still and in its death animation, frame
/// after frame.
proof fn lemma_dead_still(z: Zombie, n: nat)
    requires
        z.dead,
        z.zm_status == ZombieStatus::Dead,
        !z.moving,
    ensures
        ticks(z, n).dead,
        ticks(z, n).zm_status == ZombieStatus::Dead,
        !ticks(z, n).moving,
    decreases n,
{
    if n > 0 {
        lemma_dead_still(z.spec_tick().0, (n - 1) as nat);
    }
}

/// A dying zombie is out of play once the rest of its death animation has
/// been shown.
proof fn lemma_dying(z: Zombie, n: nat)
    requires
        z.used,
        z.zm_status == ZombieStatus::Dead,
        1 <= z.delay <= INTERVAL_UPDATE_FRAME,
        z.frame_index < z.zm_status.spec_status_to_frame_num(&z.zm_type),
        n >= death_frames_left(z),
    ensures
        !ticks(z, n).used,
    decreases n,
{
    let z1 = z.spec_tick().0;
    let frames = z.zm_status.spec_status_to_frame_num(&z.zm_type);
    assert(frames == 9 || frames == 10);
    if z1.used {
        if z.delay > 1 {
            assert(death_frames_left(z1) == death_frames_left(z) - 1);
        } else {
            if frames == 9 {
                assert(((z.frame_index + 1) % 9) as usize == z.frame_index + 1);
            } else {
                assert(((z.frame_index + 1) % 10) as usize == z.frame_index + 1);
            }
            assert(z1.frame_index == z.frame_index + 1);
            assert(death_frames_left(z1) == death_frames_left(z) - 1);
        }
        lemma_dying(z1, (n - 1) as nat);
    } else {
        lemma_out_stays_out(z1, (n - 1) as nat);
    }
}

/// A zombie killed by a blow leaves play within `INTERVAL_UPDATE_FRAME`
/// frames for each picture of its death animation; until then it stays
/// dead and does not move.
pub proof fn lemma_death_animation_ends(z: Zombie, n: nat)
    requires
        z.wf(),
        z.used,
        z.dead,
        !z.moving,
        z.frame_index == 0,
    ensures
        n >= INTERVAL_UPDATE_FRAME * ZombieStatus::Dead.spec_status_to_frame_num(&z.zm_type) ==> !ticks(z, n).used,
        ticks(z, n).dead,
        ticks(z, n).spec_tick().1 == (ZombieMove { walked: false, jumped: false }),
{
    lemma_dead_still(z, n);
    if n >= INTERVAL_UPDATE_FRAME * ZombieStatus::Dead.spec_status_to_frame_num(&z.zm_type) {
        lemma_dying(z, n);
    }
}

} // verus!
