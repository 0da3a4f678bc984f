use vstd::prelude::*;

verus! {

/// Damage of a pea.
pub const DAMAGE: i32 = 50;

/// Frames a burst pea stays on screen before it disappears.
pub const DEADDELAY: i32 = 10;

/// A pea shot by a peashooter.  Its position and speed are kept by the
/// caller, which moves every bullet in use.
#[derive(Clone, Copy, Debug)]
pub struct Bullet {
    pub damage: i32,
    /// Row of the lawn; a pea only hits zombies of its own row.
    pub row: u32,
    pub used: bool,
    /// Animation frame: 0 flying, 1 burst.
    pub frame: usize,
    pub dead: bool,
    /// Frames left to show the burst.
    pub dead_delay: i32,
}

impl Bullet {
    /// A bullet in flight or bursting has a burst countdown in range.
    pub open spec fn wf(&self) -> bool {
        &&& self.damage == DAMAGE
        &&& self.used ==> 1 <= self.dead_delay <= DEADDELAY
    }

    /// The bullet as `init` leaves it.
    pub open spec fn spec_init(self, row: u32) -> Bullet {
        Bullet { used: true, row, frame: 0, dead: false, dead_delay: DEADDELAY, ..self }
    }

    /// One frame of a bullet: a burst bullet counts down and then disappears.
    pub open spec fn spec_tick(self) -> Bullet {
        if self.used && self.dead {
            let dead_delay = (self.dead_delay - 1) as i32;
            Bullet { dead_delay, used: !(dead_delay <= 0), ..self }
        } else {
            self
        }
    }

    /// A fresh, unused value.
    pub open spec fn spec_new() -> Bullet {
        Bullet { damage: DAMAGE, row: 0, used: false, frame: 0, dead: false, dead_delay: 0 }
    }

    pub fn new() -> (b: Bullet)
        ensures
            b == Bullet::spec_new(),
            b.wf(),
    {
        Bullet { damage: DAMAGE, row: 0, used: false, frame: 0, dead: false, dead_delay: 0 }
    }

    /// Fires the bullet along row `row`.
    pub fn init(&mut self, row: u32)
        ensures
            *final(self) == old(self).spec_init(row),
            old(self).wf() ==> final(self).wf(),
    {
        self.used = true;
        self.row = row;
        self.frame = 0;
        self.dead = false;
        self.dead_delay = DEADDELAY;
    }

    pub fn set_unused(&mut self)
        ensures
            *final(self) == (Bullet { used: false, ..*old(self) }),
    {
        self.used = false;
    }

    pub fn is_used(&self) -> (r: bool)
        ensures
            r == self.used,
    {
        self.used
    }

    pub fn is_dead(&self) -> (r: bool)
        ensures
            r == self.dead,
    {
        self.dead
    }

    pub fn get_row(&self) -> (r: u32)
        ensures
            r == self.row,
    {
        self.row
    }

    pub fn get_damage(&self) -> (r: i32)
        ensures
            r == self.damage,
    {
        self.damage
    }

    /// One frame of the bullet (see `spec_tick`).
    pub fn update_status(&mut self)
        requires
            old(self).used && old(self).dead ==> old(self).dead_delay > i32::MIN,
        ensures
            *final(self) == old(self).spec_tick(),
            old(self).wf() ==> final(self).wf(),
    {
        if self.used {
            if self.dead {
                self.dead_delay = self.dead_delay - 1;
                if self.dead_delay <= 0 {
                    self.used = false;
                }
            }
        }
    }

    /// The bullet hit a zombie: it bursts.
    pub fn become_dead_status(&mut self)
        ensures
            *final(self) == (Bullet { dead: true, frame: 1, ..*old(self) }),
    {
        self.dead = true;
        self.frame = 1;
    }
}

} // verus!
