use vstd::prelude::*;

use super::my_enum::sunshine_enum::SunshineType;
use crate::tools::random_in_range;

verus! {

/// Frames between two animation frames of a sunshine.
pub const INTERVAL_UPDATE_FRAME: u32 = 15;

/// Frames a sunshine lies on the lawn before it fades.
pub const LIFETIME: i32 = 500;

/// Frames of the sunshine animation.
pub const FRAME_NUM: usize = 29;

/// A sunshine falling on, or lying on, the lawn.  Its position, target
/// height and speed are kept by the caller.
#[derive(Clone, Copy, Debug)]
pub struct Sunshine {
    pub frame_index: usize,
    /// Frames left until the next animation frame.
    pub delay: u32,
    /// `true` while the sunshine is on screen.
    pub used: bool,
    /// Clicked by the player: it flies to the sunshine counter.
    pub be_clicked: bool,
    /// Frames left to lie on the lawn.
    pub timer: i32,
    pub sunshine_type: SunshineType,
}

impl Sunshine {
    /// A sunshine on screen has its counters in range.
    pub open spec fn wf(&self) -> bool {
        self.used ==> {
            &&& 1 <= self.delay <= INTERVAL_UPDATE_FRAME
            &&& self.frame_index < FRAME_NUM
            &&& 1 <= self.timer <= LIFETIME
        }
    }

    /// The sunshine as `init` leaves it, starting at animation frame `frame_index`.
    pub open spec fn spec_init(self, sunshine_type: SunshineType, frame_index: usize) -> Sunshine {
        Sunshine {
            frame_index,
            delay: INTERVAL_UPDATE_FRAME,
            be_clicked: false,
            used: true,
            timer: LIFETIME,
            sunshine_type,
        }
    }

    /// One frame of a sunshine.  `collected`: it has reached the sunshine
    /// counter; `reached_dest`: it has come down to the height where it rests.
    /// A clicked sunshine disappears once collected; a resting one counts
    /// down its lifetime; the animation advances every
    /// `INTERVAL_UPDATE_FRAME` frames.
    pub open spec fn spec_tick(self, collected: bool, reached_dest: bool) -> Sunshine {
        if !self.used {
            self
        } else {
            let (used, timer) = if self.be_clicked {
                (!collected, self.timer)
            } else if reached_dest {
                let t = self.timer - 1;
                (!(t <= 0), t as i32)
            } else {
                (true, self.timer)
            };
            let delay = self.delay - 1;
            let (frame_index, delay) = if delay <= 0 {
                (((self.frame_index + 1) % (FRAME_NUM as int)) as usize, INTERVAL_UPDATE_FRAME)
            } else {
                (self.frame_index, delay as u32)
            };
            Sunshine { used, timer, frame_index, delay, ..self }
        }
    }

    /// What one frame needs: counters that can move without overflow.
    pub open spec fn tick_safe(&self) -> bool {
        self.used ==> {
            &&& self.delay >= 1
            &&& self.frame_index < usize::MAX
            &&& self.timer > i32::MIN
        }
    }

    /// A fresh, unused value.
    pub open spec fn spec_new() -> Sunshine {
        Sunshine {
            frame_index: 0,
            delay: 0,
            used: false,
            be_clicked: false,
            timer: 0,
            sunshine_type: SunshineType::CommonSunShine,
        }
    }

    pub fn new() -> (s: Sunshine)
        ensures
            s == Sunshine::spec_new(),
            s.wf(),
    {
        Sunshine {
            frame_index: 0,
            delay: 0,
            used: false,
            be_clicked: false,
            timer: 0,
            sunshine_type: SunshineType::CommonSunShine,
        }
    }

    pub fn is_used(&self) -> (r: bool)
        ensures
            r == self.used,
    {
        self.used
    }

    pub fn set_unused(&mut self)
        ensures
            *final(self) == (Sunshine { used: false, ..*old(self) }),
    {
        self.used = false;
    }

    /// A click inside the sunshine (`inside`) catches it, once.
    pub fn check_clicked(&mut self, inside: bool)
        ensures
            *final(self) == (Sunshine { be_clicked: old(self).be_clicked || inside, ..*old(self) }),
    {
        if !self.be_clicked {
            if inside {
                self.be_clicked = true;
            }
        }
    }

    pub fn be_clikced(&self) -> (r: bool)
        ensures
            r == self.be_clicked,
    {
        self.be_clicked
    }

    /// Lets a new sunshine fall, starting its animation at `frame_index`.
    pub fn init_with(&mut self, sunshine_type: SunshineType, frame_index: usize)
        ensures
            *final(self) == old(self).spec_init(sunshine_type, frame_index),
            frame_index < FRAME_NUM ==> final(self).wf(),
    {
        self.frame_index = frame_index;
        self.delay = INTERVAL_UPDATE_FRAME;
        self.be_clicked = false;
        self.used = true;
        self.timer = LIFETIME;
        self.sunshine_type = sunshine_type;
    }

    /// Lets a new sunshine fall, at a random frame of its animation.
    pub fn init(&mut self, sunshine_type: SunshineType)
        ensures
            exists|frame: usize|
                frame < FRAME_NUM && *final(self) == old(self).spec_init(sunshine_type, frame),
            final(self).wf(),
    {
        let frame = random_in_range(0, 28) as usize;
        self.init_with(sunshine_type, frame);
    }

    /// One frame of the sunshine (see `spec_tick`).
    pub fn update_status(&mut self, collected: bool, reached_dest: bool)
        requires
            old(self).tick_safe(),
        ensures
            *final(self) == old(self).spec_tick(collected, reached_dest),
            old(self).wf() ==> final(self).wf(),
    {
        if self.used {
            if self.be_clicked {
                if collected {
                    self.used = false;
                }
            } else if reached_dest {
                self.timer = self.timer - 1;
                if self.timer <= 0 {
                    self.used = false;
                }
            }
            self.delay = self.delay - 1;
            if self.delay <= 0 {
                self.frame_index = (self.frame_index + 1) % FRAME_NUM;
                self.delay = INTERVAL_UPDATE_FRAME;
            }
        }
    }
}

/// The sunshine after `n` frames resting on the lawn, never clicked.
pub open spec fn resting_frames(s: Sunshine, n: nat) -> Sunshine
    decreases n,
{
    if n == 0 {
        s
    } else {
        resting_frames(s, (n - 1) as nat).spec_tick(false, true)
    }
}

/// A sunshine on screen that nobody clicks lies on the lawn for as many
/// frames as its lifetime shows, then fades: after `n` frames at rest it is
/// still there with `n` frames less to live while `n` is below its
/// lifetime, and gone when `n` reaches it.  It never counts as clicked.
pub proof fn lemma_unclicked_sunshine_fades(s: Sunshine, n: nat)
    requires
        s.used,
        !s.be_clicked,
        0 < s.timer,
        n <= s.timer,
    ensures
        resting_frames(s, n).used == (n < s.timer),
        n < s.timer ==> resting_frames(s, n).timer == s.timer - n,
        !resting_frames(s, n).be_clicked,
    decreases n,
{
    if n > 0 {
        lemma_unclicked_sunshine_fades(s, (n - 1) as nat);
    }
}

/// A clicked sunshine flies to the counter and leaves the screen exactly
/// on the frame it reaches it, whatever its lifetime; a sunshine on screen
/// not clicked and not yet resting keeps falling.
pub proof fn lemma_clicked_sunshine_is_collected(s: Sunshine, collected: bool, reached: bool)
    requires
        s.used,
    ensures
        s.be_clicked ==> s.spec_tick(collected, reached).used == !collected,
        s.be_clicked ==> s.spec_tick(collected, reached).timer == s.timer,
        !s.be_clicked && !reached ==> s.spec_tick(collected, reached).used,
        s.spec_tick(collected, reached).be_clicked == s.be_clicked,
{
}

} // verus!
