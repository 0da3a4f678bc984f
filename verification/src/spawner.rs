use vstd::prelude::*;

use crate::entities::my_enum::sunshine_enum::SunshineType;
use crate::entities::sunshine::Sunshine;
use crate::entities_managers::pool::{find_free_sunshine, is_free_sunshine, lemma_first_where_props};
use crate::entities_managers::sunshines_manager::drop_sunshine;
use crate::tools::random_in_range;

verus! {

/// One frame of a spawner whose timer shows `timer`, with the draws
/// `next_timer` and `frame`: the new timer and the new pool.
pub open spec fn spawn_step(timer: int, pool: Seq<Sunshine>, next_timer: i32, frame: usize) -> (int, Seq<Sunshine>) {
    if timer - 1 > 0 {
        (timer - 1, pool)
    } else {
        (next_timer as int, drop_sunshine(pool, frame))
    }
}

/// Frames of a spawner one after another, the `k`-th with the draws
/// `draws[k]`.
pub open spec fn spawn_run(timer: int, pool: Seq<Sunshine>, draws: Seq<(i32, usize)>) -> (int, Seq<Sunshine>)
    decreases draws.len(),
{
    if draws.len() == 0 {
        (timer, pool)
    } else {
        let (t, p) = spawn_step(timer, pool, draws[0].0, draws[0].1);
        spawn_run(t, p, draws.drop_first())
    }
}

/// Lets sunshines fall from a shared pool at random intervals.
pub struct Spawner {
    /// Frames left until the next sunshine; at 0 one falls.
    pub sunshine_timer: i32,
}

impl Spawner {
    pub fn new() -> (s: Spawner)
        ensures
            s.sunshine_timer == 600,
    {
        Spawner { sunshine_timer: 600 }
    }

    /// One frame with the random draws given: the timer counts down, and at
    /// 0 it restarts at `next_timer` and the first free sunshine of `pool`
    /// falls at animation frame `frame` (see `drop_sunshine`).
    pub fn create_sunshine_with(&mut self, pool: &mut Vec<Sunshine>, next_timer: i32, frame: usize)
        requires
            old(self).sunshine_timer > i32::MIN,
        ensures
            old(self).sunshine_timer - 1 > 0 ==> final(self).sunshine_timer == old(self).sunshine_timer - 1
                && final(pool)@ == old(pool)@,
            old(self).sunshine_timer - 1 <= 0 ==> final(self).sunshine_timer == next_timer
                && final(pool)@ == drop_sunshine(old(pool)@, frame),
            (final(self).sunshine_timer as int, final(pool)@) == spawn_step(
                old(self).sunshine_timer as int,
                old(pool)@,
                next_timer,
                frame,
            ),
    {
        self.sunshine_timer = self.sunshine_timer - 1;
        if self.sunshine_timer <= 0 {
            self.sunshine_timer = next_timer;
            let ghost pool0 = pool@;
            proof {
                lemma_first_where_props(pool0, is_free_sunshine());
            }
            match find_free_sunshine(pool) {
                Some(i) => {
                    pool[i].init_with(SunshineType::CommonSunShine, frame);
                    assert(pool@ =~= pool0.update(i as int, pool0[i as int].spec_init(SunshineType::CommonSunShine, frame)));
                },
                None => {},
            }
        }
    }

    /// One frame: the timer counts down, and at 0 it restarts at a random
    /// 600 to 1199 frames and the first free sunshine of `pool` falls at a
    /// random animation frame.
    pub fn create_sunshine(&mut self, pool: &mut Vec<Sunshine>)
        requires
            old(self).sunshine_timer > i32::MIN,
        ensures
            old(self).sunshine_timer - 1 > 0 ==> final(self).sunshine_timer == old(self).sunshine_timer - 1
                && final(pool)@ == old(pool)@,
            old(self).sunshine_timer - 1 <= 0 ==> 600 <= final(self).sunshine_timer <= 1199,
            old(self).sunshine_timer - 1 <= 0 ==> exists|frame: usize|
                frame < 29 && final(pool)@ == #[trigger] drop_sunshine(old(pool)@, frame),
            exists|next_timer: i32, frame: usize|
                600 <= next_timer <= 1199 && frame < 29 && #[trigger] spawn_step(
                    old(self).sunshine_timer as int,
                    old(pool)@,
                    next_timer,
                    frame,
                ) == (final(self).sunshine_timer as int, final(pool)@),
    {
        let mut next_timer: i32 = 600;
        let mut frame: usize = 0;
        if self.sunshine_timer <= 1 {
            next_timer = random_in_range(600, 1199) as i32;
            frame = random_in_range(0, 28) as usize;
        }
        self.create_sunshine_with(pool, next_timer, frame);
    }
}

/// A spawner whose timer shows `timer` lets nothing fall for `timer - 1`
/// frames while its timer counts down, whatever it draws, and at the
/// `timer`-th frame the first free sunshine of the pool falls and the timer
/// restarts at the draw.  A new spawner shows 600, so its first sunshine
/// falls at the 600th frame.
pub proof fn lemma_sunshine_falls_on_time(timer: int, pool: Seq<Sunshine>, draws: Seq<(i32, usize)>)
    requires
        1 <= timer,
        draws.len() <= timer,
    ensures
        draws.len() < timer ==> spawn_run(timer, pool, draws) == (timer - draws.len(), pool),
        draws.len() == timer ==> spawn_run(timer, pool, draws) == (
            draws.last().0 as int,
            drop_sunshine(pool, draws.last().1),
        ),
    decreases draws.len(),
{
    if draws.len() > 0 {
        if timer > 1 {
            lemma_sunshine_falls_on_time(timer - 1, pool, draws.drop_first());
            if draws.len() == timer {
                assert(draws.drop_first().last() == draws.last());
            }
        } else {
            let (t, p) = spawn_step(timer, pool, draws[0].0, draws[0].1);
            assert(draws.drop_first().len() == 0);
            assert(spawn_run(t, p, draws.drop_first()) == (t, p));
            assert(draws.last() == draws[0]);
        }
    }
}

} // verus!
