use vstd::prelude::*;

use super::pool::{find_free_sunshine, first_where, is_free_sunshine, lemma_first_where_is, lemma_first_where_none, lemma_first_where_props};
use crate::entities::my_enum::sunshine_enum::SunshineType;
use crate::entities::sunshine::Sunshine;
use crate::my_trait::{pool_clicked, pool_ticked, sunshine_gain, SUNSHINE_VALUE};
use crate::tools::random_in_range;

verus! {

/// Size of the pool of sunshines falling from the sky.
pub const SUNSHINE_POOL_SIZE: usize = 30;

/// Frames before the first sunshine falls.
pub const FIRST_SUNSHINE_TIME: i32 = 600;

/// The sunshines falling from the sky.
pub struct SunshineManager {
    /// Frames left until the next sunshine falls.
    pub sunshine_timer: i32,
    pub sunshines_pool: Vec<Sunshine>,
}

/// Lets a new sunshine fall: the first free one of the pool, starting its
/// animation at `frame`; a full pool lets none fall.
pub open spec fn drop_sunshine(pool: Seq<Sunshine>, frame: usize) -> Seq<Sunshine> {
    match first_where(pool, is_free_sunshine()) {
        Some(i) => pool.update(i, pool[i].spec_init(SunshineType::CommonSunShine, frame)),
        None => pool,
    }
}

impl SunshineManager {
    /// Thirty well-formed sunshines and a timer in range.
    pub open spec fn wf(&self) -> bool {
        &&& self.sunshines_pool@.len() == SUNSHINE_POOL_SIZE
        &&& forall|i: int| 0 <= i < SUNSHINE_POOL_SIZE ==> #[trigger] self.sunshines_pool@[i].wf()
        &&& 1 <= self.sunshine_timer <= 1199
    }

    /// `self` is `old` restarted: the timer restarts and every sunshine
    /// leaves.
    pub open spec fn cleared_from(&self, old: SunshineManager) -> bool {
        &&& self.sunshine_timer == FIRST_SUNSHINE_TIME
        &&& self.sunshines_pool@ == old.sunshines_pool@.map_values(|s: Sunshine| Sunshine { used: false, ..s })
    }

    pub fn new() -> (m: SunshineManager)
        ensures
            m.wf(),
            m.sunshine_timer == FIRST_SUNSHINE_TIME,
            m.sunshines_pool@ == Seq::new(SUNSHINE_POOL_SIZE as nat, |i: int| Sunshine::spec_new()),
    {
        let mut pool: Vec<Sunshine> = Vec::new();
        let mut k: usize = 0;
        while k < SUNSHINE_POOL_SIZE
            invariant
                k <= SUNSHINE_POOL_SIZE,
                pool@ == Seq::new(k as nat, |i: int| Sunshine::spec_new()),
            decreases SUNSHINE_POOL_SIZE - k,
        {
            pool.push(Sunshine::new());
            k = k + 1;
            assert(pool@ =~= Seq::new(k as nat, |i: int| Sunshine::spec_new()));
        }
        SunshineManager { sunshine_timer: FIRST_SUNSHINE_TIME, sunshines_pool: pool }
    }

    /// Restarts the sky: the timer restarts and every sunshine leaves.
    pub fn init(&mut self)
        requires
            old(self).wf(),
        ensures
            final(self).wf(),
            final(self).cleared_from(*old(self)),
    {
        self.sunshine_timer = FIRST_SUNSHINE_TIME;
        let ghost pool0 = self.sunshines_pool@;
        let mut k: usize = 0;
        while k < self.sunshines_pool.len()
            invariant
                k <= self.sunshines_pool@.len(),
                self.sunshines_pool@.len() == pool0.len(),
                forall|i: int| 0 <= i < k ==> #[trigger] self.sunshines_pool@[i] == (Sunshine { used: false, ..pool0[i] }),
                forall|i: int| k <= i < self.sunshines_pool@.len() ==> #[trigger] self.sunshines_pool@[i] == pool0[i],
                self.sunshine_timer == FIRST_SUNSHINE_TIME,
            decreases self.sunshines_pool@.len() - k,
        {
            self.sunshines_pool[k].set_unused();
            k = k + 1;
        }
        assert(self.sunshines_pool@ =~= pool0.map_values(|s: Sunshine| Sunshine { used: false, ..s }));
    }

    /// One frame of the sky with the random draws given: the timer counts
    /// down, and at 0 it restarts at `next_timer` and a sunshine falls (see
    /// `drop_sunshine`).
    pub fn create_sunshine_with(&mut self, next_timer: i32, frame: usize)
        requires
            old(self).wf(),
            1000 <= next_timer <= 1199,
            frame < 29,
        ensures
            final(self).wf(),
            old(self).sunshine_timer - 1 > 0 ==> *final(self) == (SunshineManager {
                sunshine_timer: (old(self).sunshine_timer - 1) as i32,
                ..*old(self)
            }),
            old(self).sunshine_timer - 1 <= 0 ==> final(self).sunshine_timer == next_timer
                && final(self).sunshines_pool@ == drop_sunshine(old(self).sunshines_pool@, frame),
    {
        self.sunshine_timer = self.sunshine_timer - 1;
        if self.sunshine_timer <= 0 {
            self.sunshine_timer = next_timer;
            let ghost pool0 = self.sunshines_pool@;
            proof {
                lemma_first_where_props(pool0, is_free_sunshine());
            }
            match find_free_sunshine(&self.sunshines_pool) {
                Some(i) => {
                    self.sunshines_pool[i].init_with(SunshineType::CommonSunShine, frame);
                    assert(self.sunshines_pool@ =~= pool0.update(i as int, pool0[i as int].spec_init(SunshineType::CommonSunShine, frame)));
                    assert forall|k: int| 0 <= k < SUNSHINE_POOL_SIZE implies #[trigger] self.sunshines_pool@[k].wf() by {
                        assert(pool0[k].wf());
                    }
                },
                None => {},
            }
        }
    }

    /// One frame of the sky: the timer counts down, and at 0 it restarts at
    /// a random 1000 to 1199 frames and a sunshine falls at a random
    /// animation frame.
    pub fn create_sunshine(&mut self)
        requires
            old(self).wf(),
        ensures
            final(self).wf(),
            old(self).sunshine_timer - 1 > 0 ==> *final(self) == (SunshineManager {
                sunshine_timer: (old(self).sunshine_timer - 1) as i32,
                ..*old(self)
            }),
            old(self).sunshine_timer - 1 <= 0 ==> 1000 <= final(self).sunshine_timer <= 1199,
            old(self).sunshine_timer - 1 <= 0 ==> exists|frame: usize|
                frame < 29 && final(self).sunshines_pool@ == #[trigger] drop_sunshine(old(self).sunshines_pool@, frame),
    {
        let mut next_timer: i32 = 1000;
        let mut frame: usize = 0;
        if self.sunshine_timer <= 1 {
            next_timer = random_in_range(1000, 1199) as i32;
            frame = random_in_range(0, 28) as usize;
        }
        self.create_sunshine_with(next_timer, frame);
    }

    /// A click on the sky's sunshines (`inside[i]`: the click falls inside
    /// sunshine `i`).
    pub fn sunshines_check_click(&mut self, inside: &Vec<bool>)
        requires
            old(self).wf(),
            inside@.len() == SUNSHINE_POOL_SIZE,
        ensures
            final(self).wf(),
            final(self).sunshine_timer == old(self).sunshine_timer,
            final(self).sunshines_pool@ == pool_clicked(old(self).sunshines_pool@, inside@),
    {
        crate::my_trait::sunshines_check_click(&mut self.sunshines_pool, inside);
        assert forall|k: int| 0 <= k < SUNSHINE_POOL_SIZE implies #[trigger] self.sunshines_pool@[k].wf() by {
            assert(old(self).sunshines_pool@[k].wf());
        }
    }

    /// One frame of the sky's sunshines; returns the sunshine gained.
    pub fn update_sunshines_status(&mut self, collected: &Vec<bool>, reached: &Vec<bool>) -> (value: u32)
        requires
            old(self).wf(),
            collected@.len() == SUNSHINE_POOL_SIZE,
            reached@.len() == SUNSHINE_POOL_SIZE,
        ensures
            final(self).wf(),
            final(self).sunshine_timer == old(self).sunshine_timer,
            final(self).sunshines_pool@ == pool_ticked(old(self).sunshines_pool@, collected@, reached@),
            value == sunshine_gain(old(self).sunshines_pool@, collected@, reached@, SUNSHINE_POOL_SIZE as int),
            value <= SUNSHINE_POOL_SIZE * SUNSHINE_VALUE,
    {
        assert forall|k: int| 0 <= k < SUNSHINE_POOL_SIZE implies #[trigger] self.sunshines_pool@[k].tick_safe() by {
            assert(self.sunshines_pool@[k].wf());
        }
        crate::my_trait::update_sunshines_status(&mut self.sunshines_pool, collected, reached)
    }
}

impl SunshineManager {
    /// The pool of sunshines.
    pub fn get_sunshines_pool(&self) -> (pool: &Vec<Sunshine>)
        ensures
            *pool == self.sunshines_pool,
    {
        &self.sunshines_pool
    }

    /// The pool of sunshines, to change.
    pub fn get_sunshines_pool_mut(&mut self) -> (pool: &mut Vec<Sunshine>)
        ensures
            *pool == old(self).sunshines_pool,
            *final(self) == (SunshineManager { sunshines_pool: *final(pool), ..*old(self) }),
    {
        &mut self.sunshines_pool
    }
}

/// A sunshine falls in the first free slot of the pool: when slot `i` is
/// free and every slot before it is taken, slot `i` gets a new common
/// sunshine, on screen and not clicked, and every other slot is left as it
/// was; a pool with no free slot is left as it was.
pub proof fn lemma_sunshine_takes_first_free(pool: Seq<Sunshine>, frame: usize, i: int)
    requires
        0 <= i <= pool.len(),
        forall|j: int| 0 <= j < i ==> (#[trigger] pool[j]).used,
        i < pool.len() ==> !pool[i].used,
    ensures
        drop_sunshine(pool, frame).len() == pool.len(),
        forall|j: int| 0 <= j < pool.len() && j != i ==> #[trigger] drop_sunshine(pool, frame)[j] == pool[j],
        i < pool.len() ==> drop_sunshine(pool, frame)[i] == pool[i].spec_init(SunshineType::CommonSunShine, frame),
        i < pool.len() ==> drop_sunshine(pool, frame)[i].used && !drop_sunshine(pool, frame)[i].be_clicked,
{
    if i < pool.len() {
        lemma_first_where_is(pool, is_free_sunshine(), i);
    } else {
        lemma_first_where_none(pool, is_free_sunshine());
    }
}

} // verus!
