use vstd::prelude::*;

use super::pool::{find_free_zombie, first_where, is_free_zombie, lemma_first_where_props};
use crate::entities::my_enum::zombie_enum::{ZombieStatus, ZombieType};
use crate::entities::zombie::{Zombie, ZombieMove, ROW_NUM};
use crate::game::GameMod;
use crate::threads::audio_thread::{events_view, push_sfx, sfx, Command, CommandView};
use crate::tools::random_in_range;
use crate::entities::grass::Grass;
use crate::entities::plant::Plant;
use super::map_manager::{flags_view, MapManager, COLUMN_NUM, ROW_NUM as LAWN_ROWS};

verus! {

/// Size of the pool of zombies.
pub const ZOMBIEPOOLSIZE: usize = 200;

/// Frames before the first wave of a level.
pub const INTERVAL_CREATE_TIME: i32 = 1500;

/// Frames between two sounds of zombies eating.
pub const INTERVAL_ZM_EAT_AUDIO: i32 = 100;

/// Waves of the first level; each further level has one more.
pub const ZM_WAVES: u32 = 5;

/// The zombies, the current level and the timing of the waves.
pub struct ZombieManager {
    pub game_mod: GameMod,
    pub cur_level: u32,
    /// Waves sent in the current level.
    pub zm_waves: u32,
    /// Frames left until the next wave.
    pub zm_timer: i32,
    /// Frames left until the next eating sound.
    pub zm_eat_audio_timer: i32,
    pub zm_pool: Vec<Zombie>,
}

/// How many zombies a wave of `level` sends (at least, at most), after
/// `wave` earlier waves of the level, with the difficulty multiplier `m`.
pub open spec fn wave_size(level: u32, wave: u32, m: u32) -> (u32, u32) {
    if level == 1 {
        (m, (m + 1) as u32)
    } else if level == 2 {
        ((3 * m) as u32, (wave + 3 * m) as u32)
    } else if level == 3 {
        ((5 * m) as u32, (wave + 5 * m) as u32)
    } else {
        (0, 0)
    }
}

/// The sound announcing the first wave of a level.
pub open spec fn wave_sound(level: u32, wave: u32) -> Seq<CommandView> {
    if wave == 1 && level == 1 {
        seq![sfx("/audio/first_wave.mp3"@)]
    } else if wave == 1 && level == 2 {
        seq![sfx("/audio/second_wave.mp3"@)]
    } else if wave == 1 && level == 3 {
        seq![sfx("/audio/final_wave.mp3"@)]
    } else {
        seq![]
    }
}

/// Brings zombies of `level` into play in order, each in the first free slot of the
/// pool, the `j`-th with row and type roll `rolls[j]`; once the pool is
/// exhausted the rest stay out.
pub open spec fn spawn_zombies(pool: Seq<Zombie>, rolls: Seq<(u32, u32)>, level: u32) -> Seq<Zombie>
    decreases rolls.len(),
{
    if rolls.len() == 0 {
        pool
    } else {
        let p = spawn_zombies(pool, rolls.drop_last(), level);
        match first_where(p, is_free_zombie()) {
            Some(i) => p.update(i, p[i].spec_init(rolls.last().0, rolls.last().1, level)),
            None => p,
        }
    }
}

/// Rolls that `Zombie::init` can draw: a row of the lawn and a type roll
/// of 1 to 7.
pub open spec fn valid_rolls(rolls: Seq<(u32, u32)>) -> bool {
    forall|j: int| 0 <= j < rolls.len() ==> (#[trigger] rolls[j]).0 < ROW_NUM && 1 <= rolls[j].1 <= 7
}

/// A pool of 200 well-formed zombies on the lawn's rows.
pub open spec fn pool_ok(pool: Seq<Zombie>) -> bool {
    &&& pool.len() == ZOMBIEPOOLSIZE
    &&& forall|i: int| 0 <= i < ZOMBIEPOOLSIZE ==> (#[trigger] pool[i]).wf() && pool[i].row < ROW_NUM
}

/// A zombie in play meeting one tile of its row, `touch` telling whether
/// it touches the tile's plant.  At a living plant a walking zombie moves on
/// to its next status (a common zombie starts eating, a pole vaulter
/// jumps); an eating zombie that may bite bites once, and a plant bitten to
/// death frees its tile.  Also returns whether the zombie met a plant and
/// whether it is eating.
pub open spec fn meet_tile(z: Zombie, g: Grass, touch: bool) -> (Zombie, Grass, bool, bool) {
    if !(g.used && touch) {
        (z, g, false, false)
    } else {
        let z1 = if z.zm_status == ZombieStatus::Walk0 || z.zm_status == ZombieStatus::Walk1 {
            z.spec_change_status()
        } else {
            z
        };
        if z1.zm_status == ZombieStatus::Eat {
            if z1.can_attack {
                let p = g.plant.spec_attacked(z1.damage);
                let g1 = if p.cur_blood <= 0 {
                    Grass { used: false, plant: Plant { used: false, ..p }, ..g }
                } else {
                    Grass { plant: p, ..g }
                };
                (Zombie { can_attack: false, ..z1 }, g1, true, true)
            } else {
                (z1, g, true, true)
            }
        } else {
            (z1, g, true, false)
        }
    }
}

/// A zombie meeting the first `n` tiles of its row, in order.
pub open spec fn meet_row(z: Zombie, row: Seq<Grass>, touch: Seq<bool>, n: int) -> (Zombie, Seq<Grass>, bool, bool)
    decreases n,
{
    if n <= 0 {
        (z, row, false, false)
    } else {
        let (z1, row1, found1, eating1) = meet_row(z, row, touch, n - 1);
        let (z2, g2, found2, eating2) = meet_tile(z1, row1[n - 1], touch[n - 1]);
        (z2, row1.update(n - 1, g2), found1 || found2, eating1 || eating2)
    }
}

/// One frame of a zombie on the lawn: a zombie in play meets the tiles of
/// its row; one that is eating but met no plant (its plant was eaten)
/// walks again; then every zombie advances (see `Zombie::spec_tick`).
/// Returns the zombie, the lawn, whether it is eating, and how it moved.
pub open spec fn zombie_step(z: Zombie, lawn: Seq<Seq<Grass>>, touch: Seq<bool>) -> (Zombie, Seq<Seq<Grass>>, bool, ZombieMove) {
    if z.used && !z.dead {
        let r = z.row as int;
        let (z1, row1, found, eating) = meet_row(z, lawn[r], touch, COLUMN_NUM as int);
        let z2 = if !found && z1.zm_status == ZombieStatus::Eat {
            z1.spec_change_status()
        } else {
            z1
        };
        let (z3, mv) = z2.spec_tick();
        (z3, lawn.update(r, row1), eating, mv)
    } else {
        let (z3, mv) = z.spec_tick();
        (z3, lawn, false, mv)
    }
}

/// The first `k` zombies of the pool, in order, each taking its frame on
/// the lawn left by the ones before it.
pub open spec fn zombies_fold(pool: Seq<Zombie>, lawn: Seq<Seq<Grass>>, touching: Seq<Seq<bool>>, k: int) -> (Seq<Zombie>, Seq<Seq<Grass>>, bool, Seq<ZombieMove>)
    decreases k,
{
    if k <= 0 {
        (pool, lawn, false, seq![])
    } else {
        let (p, l, eating, moves) = zombies_fold(pool, lawn, touching, k - 1);
        let (z, l2, eating2, mv) = zombie_step(p[k - 1], l, touching[k - 1]);
        (p.update(k - 1, z), l2, eating || eating2, moves.push(mv))
    }
}

impl ZombieManager {
    /// A pool of 200 well-formed zombies on the lawn's rows, a level of at
    /// least 1, and timers in their ranges.
    pub open spec fn wf(&self) -> bool {
        &&& pool_ok(self.zm_pool@)
        &&& self.cur_level >= 1
        &&& 1 <= self.zm_timer <= INTERVAL_CREATE_TIME
        &&& 1 <= self.zm_eat_audio_timer <= INTERVAL_ZM_EAT_AUDIO
    }

    /// `new` is `self` after a wave with the given rolls, the timer set to
    /// `next_timer`.
    pub open spec fn started_wave(self, new: ZombieManager, rolls: Seq<(u32, u32)>, next_timer: i32) -> bool {
        &&& new.zm_waves == self.zm_waves + 1
        &&& new.zm_timer == next_timer
        &&& new.zm_pool@ == spawn_zombies(self.zm_pool@, rolls, self.cur_level)
        &&& new.cur_level == self.cur_level
        &&& new.game_mod == self.game_mod
        &&& new.zm_eat_audio_timer == self.zm_eat_audio_timer
    }

    /// `self` is `old` restarted: level 1, no wave sent, every zombie out of
    /// play.
    pub open spec fn cleared_from(&self, old: ZombieManager) -> bool {
        &&& self.cur_level == 1
        &&& self.zm_waves == 0
        &&& self.zm_timer == INTERVAL_CREATE_TIME
        &&& self.game_mod == old.game_mod
        &&& self.zm_eat_audio_timer == old.zm_eat_audio_timer
        &&& self.zm_pool@ == old.zm_pool@.map_values(|z: Zombie| Zombie { used: false, ..z })
    }

    /// The level still has waves to send and its timer runs out in this
    /// frame: a wave starts.
    pub open spec fn wave_due(&self) -> bool {
        &&& self.cur_level < 4
        &&& self.zm_waves < ZM_WAVES + self.cur_level
        &&& self.zm_timer - 1 <= 0
    }

    /// `f` is `self` after one frame of the level, the sounds going from
    /// `before` to `after`: while the level has waves left, the timer
    /// counts down, and at 0 a wave of a size between the bounds of
    /// `wave_size` starts with some rows and types (see `started_wave`) and
    /// the timer restarts at 1000 to 1199 frames.  Once the level's waves
    /// are out, the next level starts when no zombie is left in play.
    pub open spec fn level_frame(self, f: ZombieManager, before: Seq<CommandView>, after: Seq<CommandView>) -> bool {
        if self.cur_level < 4 && self.zm_waves < ZM_WAVES + self.cur_level {
            if self.zm_timer - 1 > 0 {
                &&& f == ZombieManager { zm_timer: (self.zm_timer - 1) as i32, ..self }
                &&& after == before
            } else {
                &&& exists|rolls: Seq<(u32, u32)>, next_timer: i32| {
                    let (low, high) = wave_size(self.cur_level, self.zm_waves, self.game_mod.spec_mod_to_num());
                    &&& low <= rolls.len() <= high
                    &&& valid_rolls(rolls)
                    &&& 1000 <= next_timer <= 1199
                    &&& #[trigger] self.started_wave(f, rolls, next_timer)
                }
                &&& after == before + wave_sound(self.cur_level, (self.zm_waves + 1) as u32)
            }
        } else if self.zm_waves >= ZM_WAVES && !self.any_in_play() {
            &&& f == ZombieManager { cur_level: (self.cur_level + 1) as u32, zm_waves: 0, ..self }
            &&& after == before
        } else {
            &&& f == self
            &&& after == before
        }
    }

    /// Some zombie is in play.
    pub open spec fn any_in_play(&self) -> bool {
        exists|i: int| 0 <= i < self.zm_pool@.len() && #[trigger] self.zm_pool@[i].used
    }

    pub fn new() -> (m: ZombieManager)
        ensures
            m.wf(),
            m.game_mod == GameMod::Common,
            m.cur_level == 1,
            m.zm_waves == 0,
            m.zm_timer == INTERVAL_CREATE_TIME,
            m.zm_eat_audio_timer == INTERVAL_ZM_EAT_AUDIO,
            m.zm_pool@ == Seq::new(ZOMBIEPOOLSIZE as nat, |i: int| Zombie::spec_new()),
    {
        let mut zm_pool: Vec<Zombie> = Vec::new();
        let mut k: usize = 0;
        while k < ZOMBIEPOOLSIZE
            invariant
                k <= ZOMBIEPOOLSIZE,
                zm_pool@ == Seq::new(k as nat, |i: int| Zombie::spec_new()),
            decreases ZOMBIEPOOLSIZE - k,
        {
            zm_pool.push(Zombie::new());
            k = k + 1;
            assert(zm_pool@ =~= Seq::new(k as nat, |i: int| Zombie::spec_new()));
        }
        ZombieManager {
            game_mod: GameMod::Common,
            cur_level: 1,
            zm_waves: 0,
            zm_timer: INTERVAL_CREATE_TIME,
            zm_eat_audio_timer: INTERVAL_ZM_EAT_AUDIO,
            zm_pool,
        }
    }

    /// Restarts the levels: level 1, no wave sent, every zombie out of play.
    pub fn init(&mut self)
        requires
            old(self).wf(),
        ensures
            final(self).wf(),
            final(self).cleared_from(*old(self)),
    {
        self.cur_level = 1;
        self.zm_waves = 0;
        self.zm_timer = INTERVAL_CREATE_TIME;
        let ghost old_pool = self.zm_pool@;
        let mut k: usize = 0;
        while k < self.zm_pool.len()
            invariant
                k <= self.zm_pool@.len(),
                self.zm_pool@.len() == old_pool.len(),
                pool_ok(old_pool),
                forall|i: int| 0 <= i < k ==> #[trigger] self.zm_pool@[i] == (Zombie { used: false, ..old_pool[i] }),
                forall|i: int| k <= i < self.zm_pool@.len() ==> #[trigger] self.zm_pool@[i] == old_pool[i],
                self.cur_level == 1,
                self.zm_waves == 0,
                self.zm_timer == INTERVAL_CREATE_TIME,
                self.game_mod == old(self).game_mod,
                self.zm_eat_audio_timer == old(self).zm_eat_audio_timer,
                1 <= self.zm_eat_audio_timer <= INTERVAL_ZM_EAT_AUDIO,
            decreases self.zm_pool@.len() - k,
        {
            self.zm_pool[k].set_unused();
            k = k + 1;
        }
        assert(self.zm_pool@ =~= old_pool.map_values(|z: Zombie| Zombie { used: false, ..z }));
        assert forall|i: int| 0 <= i < ZOMBIEPOOLSIZE implies (#[trigger] self.zm_pool@[i]).wf()
            && self.zm_pool@[i].row < ROW_NUM by {
            assert(old_pool[i].wf() && old_pool[i].row < ROW_NUM);
        }
    }

    pub fn set_game_mod(&mut self, game_mod: GameMod)
        ensures
            *final(self) == (ZombieManager { game_mod, ..*old(self) }),
    {
        self.game_mod = game_mod;
    }

    /// Whether some zombie is in play.
    fn has_zombie_in_play(&self) -> (r: bool)
        ensures
            r == self.any_in_play(),
    {
        let mut i: usize = 0;
        while i < self.zm_pool.len()
            invariant
                i <= self.zm_pool@.len(),
                forall|j: int| 0 <= j < i ==> !(#[trigger] self.zm_pool@[j]).used,
            decreases self.zm_pool@.len() - i,
        {
            if self.zm_pool[i].used {
                return true;
            }
            i = i + 1;
        }
        false
    }

    /// Sends a wave: counts it, announces the first wave of the level,
    /// brings zombies into play with the given rolls (see `spawn_zombies`)
    /// and sets the timer of the next wave to `next_timer`.
    pub fn start_wave(&mut self, rolls: &Vec<(u32, u32)>, next_timer: i32, audio_outbox: &mut Vec<Command>)
        requires
            pool_ok(old(self).zm_pool@),
            old(self).cur_level >= 1,
            1 <= old(self).zm_eat_audio_timer <= INTERVAL_ZM_EAT_AUDIO,
            old(self).zm_waves < u32::MAX,
            valid_rolls(rolls@),
            1 <= next_timer <= INTERVAL_CREATE_TIME,
        ensures
            final(self).wf(),
            old(self).started_wave(*final(self), rolls@, next_timer),
            events_view(final(audio_outbox)@) == events_view(old(audio_outbox)@) + wave_sound(
                old(self).cur_level,
                (old(self).zm_waves + 1) as u32,
            ),
    {
        self.zm_waves = self.zm_waves + 1;
        if self.zm_waves == 1 {
            if self.cur_level == 1 {
                push_sfx(audio_outbox, "/audio/first_wave.mp3");
            } else if self.cur_level == 2 {
                push_sfx(audio_outbox, "/audio/second_wave.mp3");
            } else if self.cur_level == 3 {
                push_sfx(audio_outbox, "/audio/final_wave.mp3");
            }
        }
        assert(events_view(audio_outbox@) =~= events_view(old(audio_outbox)@) + wave_sound(
            old(self).cur_level,
            (old(self).zm_waves + 1) as u32,
        ));
        let ghost pool0 = self.zm_pool@;
        let mut j: usize = 0;
        while j < rolls.len()
            invariant
                j <= rolls@.len(),
                valid_rolls(rolls@),
                pool_ok(self.zm_pool@),
                self.zm_pool@ == spawn_zombies(pool0, rolls@.take(j as int), old(self).cur_level),
                self.zm_waves == old(self).zm_waves + 1,
                self.zm_timer == old(self).zm_timer,
                self.cur_level == old(self).cur_level,
                self.game_mod == old(self).game_mod,
                self.zm_eat_audio_timer == old(self).zm_eat_audio_timer,
            decreases rolls@.len() - j,
        {
            let (row, roll) = rolls[j];
            let ghost p = self.zm_pool@;
            assert(rolls@.take(j as int + 1).drop_last() =~= rolls@.take(j as int));
            assert(rolls@.take(j as int + 1).last() == (row, roll));
            assert(rolls@[j as int] == (row, roll));
            proof {
                lemma_first_where_props(p, is_free_zombie());
            }
            match find_free_zombie(&self.zm_pool) {
                Some(i) => {
                    self.zm_pool[i].init_with(row, roll, self.cur_level);
                    assert(self.zm_pool@ =~= p.update(i as int, p[i as int].spec_init(row, roll, self.cur_level)));
                    assert forall|k: int| 0 <= k < ZOMBIEPOOLSIZE implies (#[trigger] self.zm_pool@[k]).wf()
                        && self.zm_pool@[k].row < ROW_NUM by {
                        assert(p[k].wf() && p[k].row < ROW_NUM);
                    }
                },
                None => {},
            }
            j = j + 1;
        }
        assert(rolls@.take(rolls@.len() as int) =~= rolls@);
        self.zm_timer = next_timer;
    }

    /// The bounds of the size of the next wave.
    fn wave_size_range(&self) -> (r: (u32, u32))
        requires
            self.zm_waves <= 8,
        ensures
            r == wave_size(self.cur_level, self.zm_waves, self.game_mod.spec_mod_to_num()),
            r.0 <= r.1,
    {
        let m = self.game_mod.mod_to_num();
        let wave = self.zm_waves;
        if self.cur_level == 1 {
            (m, m + 1)
        } else if self.cur_level == 2 {
            (3 * m, wave + 3 * m)
        } else if self.cur_level == 3 {
            (5 * m, wave + 5 * m)
        } else {
            (0, 0)
        }
    }

    /// One frame of the level: while the level has waves left, the timer
    /// counts down and at 0 a wave of random size is sent, with random rows
    /// and types, and the timer restarts at a random 1000 to 1199 frames.
    /// Once the first level's five waves are out, the next level starts when
    /// no zombie is left in play.  Returns the current level.
    pub fn create_zombie(&mut self, audio_outbox: &mut Vec<Command>) -> (level: u32)
        requires
            old(self).wf(),
            old(self).cur_level < u32::MAX,
        ensures
            final(self).wf(),
            level == final(self).cur_level,
            level == old(self).cur_level || level == old(self).cur_level + 1,
            old(self).level_frame(*final(self), events_view(old(audio_outbox)@), events_view(final(audio_outbox)@)),
            !old(self).wave_due() ==> final(audio_outbox)@ == old(audio_outbox)@,
    {
        let ghost o = *self;
        let cur_level = self.cur_level;
        if cur_level < 4 && self.zm_waves < ZM_WAVES + cur_level {
            self.zm_timer = self.zm_timer - 1;
            if self.zm_timer <= 0 {
                let (low, high) = self.wave_size_range();
                let zm_num = random_in_range(low, high);
                let mut rolls: Vec<(u32, u32)> = Vec::new();
                let mut k: u32 = 0;
                while k < zm_num
                    invariant
                        k <= zm_num,
                        rolls@.len() == k,
                        valid_rolls(rolls@),
                    decreases zm_num - k,
                {
                    let row = random_in_range(0, 4);
                    let roll = random_in_range(1, 7);
                    rolls.push((row, roll));
                    k = k + 1;
                }
                let next_timer = random_in_range(1000, 1199) as i32;
                self.start_wave(&rolls, next_timer, audio_outbox);
                assert(o.started_wave(*self, rolls@, next_timer));
                assert(low <= rolls@.len() <= high);
            }
        } else if self.zm_waves >= ZM_WAVES {
            if !self.has_zombie_in_play() {
                self.cur_level = self.cur_level + 1;
                self.zm_waves = 0;
            }
        }
        self.cur_level
    }
    /// A zombie meeting one tile (see `meet_tile`).
    fn meet(zombie: &mut Zombie, grass: &mut Grass, touch: bool) -> (r: (bool, bool))
        requires
            old(zombie).wf(),
            old(zombie).used && !old(zombie).dead,
            old(grass).wf(),
        ensures
            (*final(zombie), *final(grass), r.0, r.1) == meet_tile(*old(zombie), *old(grass), touch),
            final(zombie).wf(),
            final(zombie).used && !final(zombie).dead,
            final(zombie).row == old(zombie).row,
            final(grass).wf(),
            final(grass).row == old(grass).row,
            final(grass).plant.row == old(grass).plant.row,
    {
        let mut found = false;
        let mut eating = false;
        if grass.is_used() {
            if touch {
                found = true;
                let status = *zombie.get_status();
                if status == ZombieStatus::Walk0 || status == ZombieStatus::Walk1 {
                    zombie.change_status();
                }
                if *zombie.get_status() == ZombieStatus::Eat {
                    eating = true;
                    if zombie.can_attack() {
                        let damage = zombie.get_damage();
                        grass.plant.be_attacked(damage);
                        if grass.plant.is_dead() {
                            grass.set_unused();
                        }
                        zombie.attack_cooldown();
                    }
                }
            }
        }
        (found, eating)
    }

    /// One frame of every zombie on the lawn (see `zombies_fold`), with
    /// `touching[z][c]` telling whether zombie `z` touches the plant of
    /// column `c` of its row.  While some zombie eats, the eating sound
    /// plays every `INTERVAL_ZM_EAT_AUDIO` frames.  Returns how each zombie
    /// moved.
    pub fn update_zombies_status(
        &mut self,
        map_manager: &mut MapManager,
        touching: &Vec<Vec<bool>>,
        audio_outbox: &mut Vec<Command>,
    ) -> (moves: Vec<ZombieMove>)
        requires
            old(self).wf(),
            old(map_manager).wf(),
            touching@.len() == ZOMBIEPOOLSIZE,
            forall|z: int| 0 <= z < ZOMBIEPOOLSIZE ==> #[trigger] touching@[z]@.len() == COLUMN_NUM,
        ensures
            final(self).wf(),
            final(map_manager).wf(),
            ({
                let (pool, lawn, eating, mv) = zombies_fold(
                    old(self).zm_pool@,
                    old(map_manager).lawn(),
                    flags_view(touching@),
                    ZOMBIEPOOLSIZE as int,
                );
                &&& final(self).zm_pool@ == pool
                &&& final(map_manager).lawn() == lawn
                &&& moves@ == mv
                &&& if eating && old(self).zm_eat_audio_timer - 1 <= 0 {
                    &&& final(self).zm_eat_audio_timer == INTERVAL_ZM_EAT_AUDIO
                    &&& events_view(final(audio_outbox)@) == events_view(old(audio_outbox)@).push(
                        sfx("/audio/zombie_eat.mp3"@),
                    )
                } else {
                    &&& final(self).zm_eat_audio_timer == (if eating {
                        old(self).zm_eat_audio_timer - 1
                    } else {
                        old(self).zm_eat_audio_timer as int
                    })
                    &&& final(audio_outbox)@ == old(audio_outbox)@
                }
            }),
            final(self).game_mod == old(self).game_mod,
            final(self).cur_level == old(self).cur_level,
            final(self).zm_waves == old(self).zm_waves,
            final(self).zm_timer == old(self).zm_timer,
            final(map_manager).bullets_pool == old(map_manager).bullets_pool,
            final(map_manager).sunshines_pool == old(map_manager).sunshines_pool,
            final(map_manager).cars_pool == old(map_manager).cars_pool,
    {
        let ghost touch = flags_view(touching@);
        let ghost pool0 = self.zm_pool@;
        let ghost lawn0 = map_manager.lawn();
        let ghost map0 = *map_manager;
        let mut have_zm_eat = false;
        let mut moves: Vec<ZombieMove> = Vec::new();
        let mut z: usize = 0;
        while z < self.zm_pool.len()
            invariant
                z <= ZOMBIEPOOLSIZE,
                touch == flags_view(touching@),
                touching@.len() == ZOMBIEPOOLSIZE,
                forall|k: int| 0 <= k < ZOMBIEPOOLSIZE ==> #[trigger] touching@[k]@.len() == COLUMN_NUM,
                pool_ok(self.zm_pool@),
                map_manager.wf(),
                (self.zm_pool@, map_manager.lawn(), have_zm_eat, moves@) == zombies_fold(pool0, lawn0, touch, z as int),
                forall|k: int| z <= k < ZOMBIEPOOLSIZE ==> #[trigger] self.zm_pool@[k] == pool0[k],
                self.cur_level == old(self).cur_level,
                self.zm_waves == old(self).zm_waves,
                self.zm_timer == old(self).zm_timer,
                self.game_mod == old(self).game_mod,
                self.zm_eat_audio_timer == old(self).zm_eat_audio_timer,
                map_manager.bullets_pool == map0.bullets_pool,
                map_manager.sunshines_pool == map0.sunshines_pool,
                map_manager.cars_pool == map0.cars_pool,
            decreases ZOMBIEPOOLSIZE - z,
        {
            let ghost pool_before = self.zm_pool@;
            let ghost lawn_before = map_manager.lawn();
            let ghost eat_before = have_zm_eat;
            let ghost moves_before = moves@;
            let mut zombie = self.zm_pool[z];
            assert(zombie.wf() && zombie.row < ROW_NUM);
            assert(touch[z as int] == touching@[z as int]@);
            let mut zombie_eats = false;
            if zombie.is_used() && !zombie.is_dead() {
                let mut find_attack_target = false;
                let row = zombie.get_row() as usize;
                let ghost z0 = zombie;
                let ghost row0 = lawn_before[row as int];
                let mut c: usize = 0;
                while c < COLUMN_NUM
                    invariant
                        c <= COLUMN_NUM,
                        row < 5,
                        z < ZOMBIEPOOLSIZE,
                        touching@.len() == ZOMBIEPOOLSIZE,
                        forall|k: int| 0 <= k < ZOMBIEPOOLSIZE ==> #[trigger] touching@[k]@.len() == COLUMN_NUM,
                        touch == flags_view(touching@),
                        row0 == lawn_before[row as int],
                        map_manager.grasses@.len() == 5,
                        forall|i: int| 0 <= i < 5 ==> #[trigger] map_manager.grasses@[i]@.len() == COLUMN_NUM,
                        forall|i: int, k: int|
                            0 <= i < 5 && 0 <= k < COLUMN_NUM ==> super::map_manager::grass_in_row(
                                #[trigger] map_manager.grasses@[i]@[k],
                                i,
                            ),
                        forall|i: int| 0 <= i < 5 && i != row ==> #[trigger] map_manager.lawn()[i] == lawn_before[i],
                        (zombie, map_manager.grasses@[row as int]@, find_attack_target, zombie_eats) == meet_row(
                            z0,
                            row0,
                            touch[z as int],
                            c as int,
                        ),
                        zombie.wf(),
                        zombie.used && !zombie.dead,
                        zombie.row == row,
                        map_manager.bullets_pool == map0.bullets_pool,
                        map_manager.sunshines_pool == map0.sunshines_pool,
                        map_manager.cars_pool == map0.cars_pool,
                        self.zm_pool@ == pool_before,
                    decreases COLUMN_NUM - c,
                {
                    let ghost grasses_before = map_manager.grasses@;
                    let ghost lawn_prev = map_manager.lawn();
                    let ghost cur_row = map_manager.grasses@[row as int]@;
                    assert(super::map_manager::grass_in_row(cur_row[c as int], row as int));
                    let touch_c = touching[z][c];
                    let (found, eats) = Self::meet(&mut zombie, &mut map_manager.grasses[row][c], touch_c);
                    if found {
                        find_attack_target = true;
                    }
                    if eats {
                        zombie_eats = true;
                    }
                    assert(map_manager.grasses@[row as int]@ =~= cur_row.update(c as int, map_manager.grasses@[row as int]@[c as int]));
                    assert(forall|i: int| 0 <= i < 5 && i != row ==> #[trigger] map_manager.grasses@[i] == grasses_before[i]);
                    assert forall|i: int, k: int| 0 <= i < 5 && 0 <= k < COLUMN_NUM implies super::map_manager::grass_in_row(
                        #[trigger] map_manager.grasses@[i]@[k],
                        i,
                    ) by {
                        if i != row {
                            assert(map_manager.grasses@[i] == grasses_before[i]);
                        } else if k != c {
                            assert(map_manager.grasses@[i]@[k] == cur_row[k]);
                        }
                    }
                    assert forall|i: int| 0 <= i < 5 && i != row implies #[trigger] map_manager.lawn()[i] == lawn_before[i] by {
                        assert(map_manager.lawn()[i] == map_manager.grasses@[i]@);
                        assert(lawn_prev[i] == grasses_before[i]@);
                        assert(lawn_prev[i] == lawn_before[i]);
                    }
                    c = c + 1;
                }
                if !find_attack_target && *zombie.get_status() == ZombieStatus::Eat {
                    zombie.change_status();
                }
                assert(map_manager.lawn() =~= lawn_before.update(row as int, map_manager.grasses@[row as int]@));
            }
            let motion = zombie.update_status();
            self.zm_pool[z] = zombie;
            moves.push(motion);
            if zombie_eats {
                have_zm_eat = true;
            }
            assert(self.zm_pool@ =~= pool_before.update(z as int, zombie));
            assert(pool_before[z as int] == pool0[z as int]);
            assert(moves@ =~= moves_before.push(motion));
            z = z + 1;
        }
        if have_zm_eat {
            self.zm_eat_audio_timer = self.zm_eat_audio_timer - 1;
            if self.zm_eat_audio_timer <= 0 {
                push_sfx(audio_outbox, "/audio/zombie_eat.mp3");
                self.zm_eat_audio_timer = INTERVAL_ZM_EAT_AUDIO;
            }
        }
        moves
    }
}

/// Some zombie in play, alive, in row `r`, is ahead of the plant of column
/// `c` (`ahead[z][c]`: zombie `z` is right of that column's plants, on
/// screen).
pub open spec fn threat_at(pool: Seq<Zombie>, ahead: Seq<Seq<bool>>, r: int, c: int) -> bool {
    exists|z: int| 0 <= z < pool.len() && pool[z].used && !pool[z].dead && pool[z].row == r && #[trigger] ahead[z][c]
}

/// The threats over the whole lawn (see `threat_at`).
pub open spec fn threat_matrix(pool: Seq<Zombie>, ahead: Seq<Seq<bool>>) -> Seq<Seq<bool>> {
    Seq::new(LAWN_ROWS as nat, |r: int| Seq::new(COLUMN_NUM as nat, |c: int| threat_at(pool, ahead, r, c)))
}

/// Some zombie in play and alive has passed the losing line (`past[z]`).
pub open spec fn past_line(pool: Seq<Zombie>, past: Seq<bool>) -> bool {
    exists|z: int| 0 <= z < pool.len() && pool[z].used && !pool[z].dead && #[trigger] past[z]
}

impl ZombieManager {
    /// Whether the plants of row `r`, column `c` are threatened (see
    /// `threat_at`).
    fn threat(&self, ahead: &Vec<Vec<bool>>, r: usize, c: usize) -> (t: bool)
        requires
            self.wf(),
            ahead@.len() == ZOMBIEPOOLSIZE,
            forall|z: int| 0 <= z < ZOMBIEPOOLSIZE ==> #[trigger] ahead@[z]@.len() == COLUMN_NUM,
            c < COLUMN_NUM,
        ensures
            t == threat_at(self.zm_pool@, flags_view(ahead@), r as int, c as int),
    {
        let ghost av = flags_view(ahead@);
        let mut z: usize = 0;
        while z < self.zm_pool.len()
            invariant
                z <= ZOMBIEPOOLSIZE,
                self.wf(),
                c < COLUMN_NUM,
                av == flags_view(ahead@),
                ahead@.len() == ZOMBIEPOOLSIZE,
                forall|k: int| 0 <= k < ZOMBIEPOOLSIZE ==> #[trigger] ahead@[k]@.len() == COLUMN_NUM,
                forall|k: int|
                    0 <= k < z ==> !(self.zm_pool@[k].used && !self.zm_pool@[k].dead && self.zm_pool@[k].row == r
                        && #[trigger] av[k][c as int]),
            decreases ZOMBIEPOOLSIZE - z,
        {
            let zombie = &self.zm_pool[z];
            assert(av[z as int] == ahead@[z as int]@);
            if zombie.used && !zombie.dead && zombie.row as usize == r && ahead[z][c] {
                assert(av[z as int][c as int]);
                return true;
            }
            z = z + 1;
        }
        false
    }

    /// The threats over the whole lawn (see `threat_matrix`), for the
    /// plants to know whom to shoot at.
    pub fn threats(&self, ahead: &Vec<Vec<bool>>) -> (t: Vec<Vec<bool>>)
        requires
            self.wf(),
            ahead@.len() == ZOMBIEPOOLSIZE,
            forall|z: int| 0 <= z < ZOMBIEPOOLSIZE ==> #[trigger] ahead@[z]@.len() == COLUMN_NUM,
        ensures
            t@.len() == LAWN_ROWS,
            forall|r: int| 0 <= r < LAWN_ROWS ==> #[trigger] t@[r]@.len() == COLUMN_NUM,
            flags_view(t@) == threat_matrix(self.zm_pool@, flags_view(ahead@)),
    {
        let ghost m = threat_matrix(self.zm_pool@, flags_view(ahead@));
        let mut t: Vec<Vec<bool>> = Vec::new();
        let mut r: usize = 0;
        while r < LAWN_ROWS
            invariant
                r <= LAWN_ROWS,
                self.wf(),
                m == threat_matrix(self.zm_pool@, flags_view(ahead@)),
                ahead@.len() == ZOMBIEPOOLSIZE,
                forall|z: int| 0 <= z < ZOMBIEPOOLSIZE ==> #[trigger] ahead@[z]@.len() == COLUMN_NUM,
                t@.len() == r,
                forall|i: int| 0 <= i < r ==> (#[trigger] t@[i])@ == m[i],
            decreases LAWN_ROWS - r,
        {
            let mut row: Vec<bool> = Vec::new();
            let mut c: usize = 0;
            while c < COLUMN_NUM
                invariant
                    c <= COLUMN_NUM,
                    r < LAWN_ROWS,
                    self.wf(),
                    m == threat_matrix(self.zm_pool@, flags_view(ahead@)),
                    ahead@.len() == ZOMBIEPOOLSIZE,
                    forall|z: int| 0 <= z < ZOMBIEPOOLSIZE ==> #[trigger] ahead@[z]@.len() == COLUMN_NUM,
                    row@.len() == c,
                    forall|j: int| 0 <= j < c ==> #[trigger] row@[j] == m[r as int][j],
                decreases COLUMN_NUM - c,
            {
                let b = self.threat(ahead, r, c);
                row.push(b);
                c = c + 1;
            }
            assert(row@ =~= m[r as int]);
            t.push(row);
            r = r + 1;
        }
        assert(flags_view(t@) =~= m);
        t
    }

    /// Whether a zombie in play and alive has passed the losing line (see
    /// `past_line`).
    pub fn any_past(&self, past: &Vec<bool>) -> (crossed: bool)
        requires
            past@.len() == self.zm_pool@.len(),
        ensures
            crossed == past_line(self.zm_pool@, past@),
    {
        let mut z: usize = 0;
        while z < self.zm_pool.len()
            invariant
                z <= self.zm_pool@.len(),
                past@.len() == self.zm_pool@.len(),
                forall|k: int| 0 <= k < z ==> !(self.zm_pool@[k].used && !self.zm_pool@[k].dead && #[trigger] past@[k]),
            decreases self.zm_pool@.len() - z,
        {
            if self.zm_pool[z].used && !self.zm_pool[z].dead && past[z] {
                return true;
            }
            z = z + 1;
        }
        false
    }
}

/// Each level starts its waves bigger than the level before, and the hard
/// mode's waves are at least as big as the common mode's (for the waves a
/// level sends).
pub proof fn lemma_waves_grow(l1: u32, l2: u32, w1: u32, w2: u32, level: u32, wave: u32, m: GameMod)
    requires
        1 <= l1 < l2 <= 3,
        wave <= ZM_WAVES + level,
        level <= 3,
    ensures
        wave_size(l1, w1, m.spec_mod_to_num()).0 < wave_size(l2, w2, m.spec_mod_to_num()).0,
        wave_size(level, wave, GameMod::Common.spec_mod_to_num()).0 <= wave_size(
            level,
            wave,
            GameMod::Hard.spec_mod_to_num(),
        ).0,
        wave_size(level, wave, GameMod::Common.spec_mod_to_num()).1 <= wave_size(
            level,
            wave,
            GameMod::Hard.spec_mod_to_num(),
        ).1,
{
}

/// The number of free slots of `pool` before index `i`.
pub open spec fn free_before(pool: Seq<Zombie>, i: int) -> int
    decreases i,
{
    if i <= 0 {
        0
    } else {
        free_before(pool, i - 1) + if !pool[i - 1].used {
            1int
        } else {
            0int
        }
    }
}

/// There are between none and `i` free slots before `i`.
proof fn lemma_free_before_range(pool: Seq<Zombie>, i: int)
    requires
        0 <= i,
    ensures
        0 <= free_before(pool, i) <= i,
    decreases i,
{
    if i > 0 {
        lemma_free_before_range(pool, i - 1);
    }
}

/// Free slots count up one by one: a later index has at least as many
/// free slots before it, and strictly more when a free slot lies between.
proof fn lemma_free_before_mono(pool: Seq<Zombie>, i: int, j: int)
    requires
        0 <= i <= j <= pool.len(),
    ensures
        free_before(pool, i) <= free_before(pool, j),
        i < j && !pool[i].used ==> free_before(pool, i) < free_before(pool, j),
    decreases j - i,
{
    if i < j {
        lemma_free_before_mono(pool, i, j - 1);
        if i < j - 1 {
            lemma_free_before_mono(pool, i + 1, j);
        }
    }
}

/// Every count below the free slots before `i` is reached at a free slot
/// before `i`.
proof fn lemma_free_before_hits(pool: Seq<Zombie>, i: int, k: int)
    requires
        0 <= i <= pool.len(),
        0 <= k < free_before(pool, i),
    ensures
        exists|j: int| 0 <= j < i && !pool[j].used && #[trigger] free_before(pool, j) == k,
    decreases i,
{
    if k < free_before(pool, i - 1) {
        lemma_free_before_hits(pool, i - 1, k);
    } else {
        assert(!pool[i - 1].used && free_before(pool, i - 1) == k);
    }
}

/// A wave fills exactly the first free slots of the pool, in order: the
/// free slot with `k` free slots before it takes the `k`-th roll while
/// there are rolls for it; every slot in play, and every free slot past the
/// rolls, is left as it was.
pub proof fn lemma_wave_fills_first_free(pool: Seq<Zombie>, rolls: Seq<(u32, u32)>, level: u32)
    ensures
        spawn_zombies(pool, rolls, level).len() == pool.len(),
        forall|i: int|
            0 <= i < pool.len() ==> {
                let k = free_before(pool, i);
                #[trigger] spawn_zombies(pool, rolls, level)[i] == if !pool[i].used && k < rolls.len() {
                    pool[i].spec_init(rolls[k].0, rolls[k].1, level)
                } else {
                    pool[i]
                }
            },
    decreases rolls.len(),
{
    if rolls.len() == 0 {
        assert forall|i: int| 0 <= i < pool.len() implies free_before(pool, i) >= rolls.len() by {
            lemma_free_before_range(pool, i);
        }
    } else {
        let n = rolls.len() as int;
        let rs = rolls.drop_last();
        lemma_wave_fills_first_free(pool, rs, level);
        let p = spawn_zombies(pool, rs, level);
        lemma_first_where_props(p, is_free_zombie());
        assert forall|i: int| 0 <= i < pool.len() implies (!(#[trigger] p[i]).used <==> (!pool[i].used
            && free_before(pool, i) >= n - 1)) by {
            let k = free_before(pool, i);
            lemma_free_before_range(pool, i);
            if !pool[i].used && k < n - 1 {
                assert(rs[k] == rolls[k]);
            }
        }
        match first_where(p, is_free_zombie()) {
            Some(f) => {
                assert(!p[f].used);
                if free_before(pool, f) > n - 1 {
                    lemma_free_before_hits(pool, f, n - 1);
                    let j = choose|j: int| 0 <= j < f && !pool[j].used && #[trigger] free_before(pool, j) == n - 1;
                    assert(!p[j].used);
                }
                assert(free_before(pool, f) == n - 1);
                assert(rolls.last() == rolls[n - 1]);
                assert forall|i: int| 0 <= i < pool.len() && i != f && !pool[i].used implies free_before(
                    pool,
                    i,
                ) != n - 1 by {
                    if i < f {
                        lemma_free_before_mono(pool, i, f);
                    } else {
                        lemma_free_before_mono(pool, f, i);
                    }
                }
                assert forall|i: int| 0 <= i < pool.len() && !pool[i].used && free_before(pool, i) < n - 1 implies #[trigger] rs[free_before(pool, i)] == rolls[free_before(pool, i)] by {
                    lemma_free_before_range(pool, i);
                }
                let q = spawn_zombies(pool, rolls, level);
                assert(q == p.update(f, p[f].spec_init(rolls.last().0, rolls.last().1, level)));
                assert forall|i: int| 0 <= i < pool.len() implies #[trigger] q[i] == if !pool[i].used
                    && free_before(pool, i) < n {
                    pool[i].spec_init(rolls[free_before(pool, i)].0, rolls[free_before(pool, i)].1, level)
                } else {
                    pool[i]
                } by {
                    lemma_free_before_range(pool, i);
                    if i == f {
                        assert(p[f] == pool[f]);
                    } else if !pool[i].used && free_before(pool, i) < n - 1 {
                        assert(rs[free_before(pool, i)] == rolls[free_before(pool, i)]);
                    }
                }
            },
            None => {
                assert forall|i: int| 0 <= i < pool.len() && !pool[i].used implies free_before(pool, i) < n - 1 by {
                    assert(!p[i].used ==> false);
                }
                let q = spawn_zombies(pool, rolls, level);
                assert(q == p);
                assert forall|i: int| 0 <= i < pool.len() implies #[trigger] q[i] == if !pool[i].used
                    && free_before(pool, i) < n {
                    pool[i].spec_init(rolls[free_before(pool, i)].0, rolls[free_before(pool, i)].1, level)
                } else {
                    pool[i]
                } by {
                    lemma_free_before_range(pool, i);
                    if !pool[i].used {
                        assert(rs[free_before(pool, i)] == rolls[free_before(pool, i)]);
                    }
                }
            },
        }
    }
}

/// `after` is `before` with common zombies walking in its first `n` slots
/// and every other slot untouched and free.
pub open spec fn first_slots_walk(after: Seq<Zombie>, before: Seq<Zombie>, n: int) -> bool {
    &&& after.len() == before.len()
    &&& forall|i: int|
        0 <= i < after.len() ==> {
            let z = #[trigger] after[i];
            &&& z.used == (i < n)
            &&& i < n ==> z.zm_type == ZombieType::CommonZM && z.zm_status == ZombieStatus::Walk0 && z.moving
                && !z.dead
            &&& i >= n ==> z == before[i]
        }
}

/// In a pool with every slot free, the free slots before `i` are `i`.
proof fn lemma_free_before_all_free(pool: Seq<Zombie>, i: int)
    requires
        0 <= i <= pool.len(),
        forall|j: int| 0 <= j < pool.len() ==> !(#[trigger] pool[j]).used,
    ensures
        free_before(pool, i) == i,
    decreases i,
{
    if i > 0 {
        lemma_free_before_all_free(pool, i - 1);
    }
}

/// The first `k` frames of a level that starts with its timer at
/// `INTERVAL_CREATE_TIME` and no wave sent only count the timer down.
proof fn lemma_first_frames(ms: Seq<ZombieManager>, sounds: Seq<Seq<CommandView>>, k: int)
    requires
        0 <= k < INTERVAL_CREATE_TIME,
        ms.len() > k,
        sounds.len() > k,
        ms[0].cur_level == 1,
        ms[0].zm_waves == 0,
        ms[0].zm_timer == INTERVAL_CREATE_TIME,
        forall|j: int| 0 <= j < k ==> #[trigger] ms[j].level_frame(ms[j + 1], sounds[j], sounds[j + 1]),
    ensures
        ms[k] == (ZombieManager { zm_timer: (INTERVAL_CREATE_TIME - k) as i32, ..ms[0] }),
        sounds[k] == sounds[0],
    decreases k,
{
    if k > 0 {
        lemma_first_frames(ms, sounds, k - 1);
        let j = k - 1;
        assert(ms[j].level_frame(ms[j + 1], sounds[j], sounds[j + 1]));
        assert(j + 1 == k);
    }
}

/// A level 1 that starts with every slot of the pool free, no wave sent
/// and its timer at 1500 frames sends nothing for its first 1499 frames,
/// only counting down, and in its 1500th frame sends its first wave,
/// announced by the first-wave sound: between `m` and `m + 1` zombies (`m`
/// being 1 in the common mode and 2 in the hard one), common zombies
/// walking in the first slots of the pool, every other slot still free.
pub proof fn lemma_first_wave(ms: Seq<ZombieManager>, sounds: Seq<Seq<CommandView>>)
    requires
        ms.len() == INTERVAL_CREATE_TIME + 1,
        sounds.len() == INTERVAL_CREATE_TIME + 1,
        ms[0].wf(),
        ms[0].cur_level == 1,
        ms[0].zm_waves == 0,
        ms[0].zm_timer == INTERVAL_CREATE_TIME,
        forall|i: int| 0 <= i < ZOMBIEPOOLSIZE ==> !(#[trigger] ms[0].zm_pool@[i]).used,
        forall|j: int|
            0 <= j < INTERVAL_CREATE_TIME ==> #[trigger] ms[j].level_frame(ms[j + 1], sounds[j], sounds[j + 1]),
    ensures
        forall|k: int|
            0 <= k < INTERVAL_CREATE_TIME ==> #[trigger] ms[k] == (ZombieManager {
                zm_timer: (INTERVAL_CREATE_TIME - k) as i32,
                ..ms[0]
            }) && sounds[k] == sounds[0],
        sounds[INTERVAL_CREATE_TIME as int] == sounds[0] + seq![sfx("/audio/first_wave.mp3"@)],
        ms[INTERVAL_CREATE_TIME as int].cur_level == 1,
        ms[INTERVAL_CREATE_TIME as int].zm_waves == 1,
        ms[INTERVAL_CREATE_TIME as int].zm_pool@.len() == ZOMBIEPOOLSIZE,
        exists|n: int|
            ms[0].game_mod.spec_mod_to_num() <= n <= ms[0].game_mod.spec_mod_to_num() + 1
                && #[trigger] first_slots_walk(ms[INTERVAL_CREATE_TIME as int].zm_pool@, ms[0].zm_pool@, n),
{
    let last = INTERVAL_CREATE_TIME as int;
    assert forall|k: int| 0 <= k < INTERVAL_CREATE_TIME implies #[trigger] ms[k] == (ZombieManager {
        zm_timer: (INTERVAL_CREATE_TIME - k) as i32,
        ..ms[0]
    }) && sounds[k] == sounds[0] by {
        lemma_first_frames(ms, sounds, k);
    }
    lemma_first_frames(ms, sounds, last - 1);
    let j = last - 1;
    let o = ms[j];
    assert(ms[j].level_frame(ms[j + 1], sounds[j], sounds[j + 1]));
    assert(j + 1 == last);
    let (rolls, next_timer) = choose|rolls: Seq<(u32, u32)>, next_timer: i32| {
        let (low, high) = wave_size(o.cur_level, o.zm_waves, o.game_mod.spec_mod_to_num());
        &&& low <= rolls.len() <= high
        &&& valid_rolls(rolls)
        &&& 1000 <= next_timer <= 1199
        &&& #[trigger] o.started_wave(ms[last], rolls, next_timer)
    };
    assert(wave_sound(1, 1) =~= seq![sfx("/audio/first_wave.mp3"@)]);
    let pool = ms[0].zm_pool@;
    lemma_wave_fills_first_free(pool, rolls, 1);
    let n = rolls.len() as int;
    assert forall|i: int| 0 <= i < ZOMBIEPOOLSIZE implies {
        let z = #[trigger] ms[last].zm_pool@[i];
        &&& z.used == (i < n)
        &&& i < n ==> z.zm_type == ZombieType::CommonZM && z.zm_status == ZombieStatus::Walk0 && z.moving && !z.dead
        &&& i >= n ==> z == ms[0].zm_pool@[i]
    } by {
        lemma_free_before_all_free(pool, i);
        assert(spawn_zombies(pool, rolls, 1)[i] == ms[last].zm_pool@[i]);
    }
    assert(first_slots_walk(ms[last].zm_pool@, pool, n));
}

/// A zombie meeting tiles none of which holds a plant that it touches
/// meets nothing: it and the row are left as they were.
proof fn lemma_meet_row_untouched(z: Zombie, row: Seq<Grass>, touch: Seq<bool>, n: int)
    requires
        0 <= n <= row.len(),
        forall|c: int| 0 <= c < n ==> !(#[trigger] row[c].used && touch[c]),
    ensures
        meet_row(z, row, touch, n) == (z, row, false, false),
    decreases n,
{
    if n > 0 {
        lemma_meet_row_untouched(z, row, touch, n - 1);
        assert(!(row[n - 1].used && touch[n - 1]));
        assert(row.update(n - 1, row[n - 1]) =~= row);
    }
}

/// A zombie in play that was eating and touches no plant of its row in a
/// frame (its plant was eaten, or it is gone) stops eating: after the
/// frame it walks on in the walking status of its type (a pole vaulter,
/// whose jump is behind it, in its second walking status), it moves in
/// that frame, it is not counted as eating, and the lawn is untouched.
pub proof fn lemma_eater_walks_on(z: Zombie, lawn: Seq<Seq<Grass>>, touch: Seq<bool>)
    requires
        z.wf(),
        z.used,
        !z.dead,
        z.zm_status == ZombieStatus::Eat,
        z.row < lawn.len(),
        lawn[z.row as int].len() == COLUMN_NUM,
        touch.len() == COLUMN_NUM,
        forall|c: int| 0 <= c < COLUMN_NUM ==> !(#[trigger] lawn[z.row as int][c].used && touch[c]),
    ensures
        ({
            let (z3, lawn3, eating, mv) = zombie_step(z, lawn, touch);
            &&& z3.zm_status == (if z.zm_type == ZombieType::PoleVaultingZM {
                ZombieStatus::Walk1
            } else {
                ZombieStatus::Walk0
            })
            &&& z3.used && !z3.dead
            &&& z3.moving
            &&& mv.walked && !mv.jumped
            &&& !eating
            &&& lawn3 == lawn
        }),
{
    let r = z.row as int;
    lemma_meet_row_untouched(z, lawn[r], touch, COLUMN_NUM as int);
    assert(lawn.update(r, lawn[r]) =~= lawn);
}

/// How big a wave may be.  A wave of the first level sends `m` or `m + 1`
/// zombies, `m` being the mode's multiplier.  In the second and third
/// levels a wave sends at least `3 * m` and `5 * m` zombies, and at most
/// that plus the number of waves the level has already sent: each later
/// wave of the level may be one zombie bigger than the one before.
pub proof fn lemma_wave_size_by_wave(level: u32, w: u32, m: GameMod)
    requires
        1 <= level <= 3,
        w < ZM_WAVES + level,
    ensures
        level == 1 ==> wave_size(level, w, m.spec_mod_to_num()) == (
            m.spec_mod_to_num(),
            (m.spec_mod_to_num() + 1) as u32,
        ),
        level == 2 ==> wave_size(level, w, m.spec_mod_to_num()).0 == 3 * m.spec_mod_to_num(),
        level == 3 ==> wave_size(level, w, m.spec_mod_to_num()).0 == 5 * m.spec_mod_to_num(),
        level >= 2 ==> wave_size(level, w, m.spec_mod_to_num()).1 == w + wave_size(
            level,
            w,
            m.spec_mod_to_num(),
        ).0,
        w > 0 ==> wave_size(level, (w - 1) as u32, m.spec_mod_to_num()).1 + (if level >= 2 {
            1int
        } else {
            0int
        }) == wave_size(level, w, m.spec_mod_to_num()).1,
{
}

/// A zombie in play meeting a tile.  A tile whose plant it does not touch
/// (or an empty one) is passed by.  At a plant it touches: a walking common
/// or cone-head zombie stops and starts eating, a pole vaulter jumps it at
/// its first plant and eats at the next ones; a jumping zombie leaves the
/// plant alone.  An eating zombie that may bite takes `damage` from the
/// plant's health, may not bite again until its next bite frame, and frees
/// the tile when the plant's health runs out; one that may not bite yet
/// leaves the plant as it is.
pub proof fn lemma_zombie_meets_plant(z: Zombie, g: Grass, touch: bool)
    requires
        z.wf(),
        g.wf(),
        z.used,
        !z.dead,
    ensures
        !(g.used && touch) ==> meet_tile(z, g, touch) == (z, g, false, false),
        ({
            let (z1, g1, found, eating) = meet_tile(z, g, touch);
            g.used && touch ==> {
                &&& found
                &&& z.zm_type != ZombieType::PoleVaultingZM && z.zm_status == ZombieStatus::Walk0
                    ==> z1.zm_status == ZombieStatus::Eat && !z1.moving
                &&& z.zm_status == ZombieStatus::Eat ==> z1.zm_status == ZombieStatus::Eat
                &&& z.zm_type == ZombieType::PoleVaultingZM && z.zm_status == ZombieStatus::Walk0
                    ==> z1.zm_status == ZombieStatus::Jump && g1 == g && !eating
                &&& z.zm_type == ZombieType::PoleVaultingZM && z.zm_status == ZombieStatus::Walk1
                    ==> z1.zm_status == ZombieStatus::Eat && !z1.moving
                &&& z.zm_status == ZombieStatus::Jump ==> g1 == g && !eating && z1 == z
                &&& eating == (z1.zm_status == ZombieStatus::Eat)
                &&& z1.zm_status == ZombieStatus::Eat && z.can_attack ==> {
                    &&& g1.plant.cur_blood == g.plant.cur_blood - z.damage
                    &&& g1.used == (g.plant.cur_blood - z.damage > 0)
                    &&& g1.plant.used == g1.used
                    &&& !z1.can_attack
                }
                &&& z1.zm_status == ZombieStatus::Eat && !z.can_attack ==> g1 == g
                &&& z1.row == z.row && z1.used && !z1.dead && z1.zm_type == z.zm_type
            }
        }),
{
}

/// How the levels go, frame by frame, for a level still being played
/// (1 to 3): a wave starts exactly when the level has sent fewer than
/// `ZM_WAVES` plus its number of waves and its timer runs out; only a wave
/// changes the pool; and the next level starts, with no wave sent, exactly
/// when the level has sent all its waves and no zombie is left in play,
/// never while a zombie still walks.  A level never sends more waves than
/// its count.
pub proof fn lemma_levels_advance(o: ZombieManager, f: ZombieManager, before: Seq<CommandView>, after: Seq<CommandView>)
    requires
        1 <= o.cur_level < 4,
        o.level_frame(f, before, after),
    ensures
        f.cur_level == o.cur_level || f.cur_level == o.cur_level + 1,
        (f.cur_level == o.cur_level + 1) == (o.zm_waves >= ZM_WAVES + o.cur_level && !o.any_in_play()),
        f.cur_level == o.cur_level + 1 ==> f.zm_waves == 0 && f.zm_pool == o.zm_pool && after == before,
        (f.zm_waves == o.zm_waves + 1) == (o.zm_waves < ZM_WAVES + o.cur_level && o.zm_timer <= 1),
        !(o.zm_waves < ZM_WAVES + o.cur_level && o.zm_timer <= 1) ==> f.zm_pool == o.zm_pool && after == before,
        o.zm_waves <= ZM_WAVES + o.cur_level ==> f.zm_waves <= ZM_WAVES + f.cur_level,
        f.game_mod == o.game_mod,
{
}

/// A zombie that touches no plant of its row leaves the lawn as it is and
/// does not eat; a walking one keeps its status and walks if it moves.  A
/// zombie out of play, or dead, never touches the lawn nor eats; a dead
/// zombie never jumps, and one that was stopped when it died never walks.
pub proof fn lemma_zombie_passes_by(z: Zombie, lawn: Seq<Seq<Grass>>, touch: Seq<bool>)
    requires
        z.wf(),
        z.row < lawn.len(),
        lawn[z.row as int].len() == COLUMN_NUM,
        touch.len() == COLUMN_NUM,
    ensures
        !(z.used && !z.dead) ==> zombie_step(z, lawn, touch).1 == lawn && !zombie_step(z, lawn, touch).2,
        z.dead ==> !zombie_step(z, lawn, touch).3.jumped,
        z.dead && !z.moving ==> !zombie_step(z, lawn, touch).3.walked,
        (z.used && !z.dead && forall|c: int| 0 <= c < COLUMN_NUM ==> !(#[trigger] lawn[z.row as int][c].used && touch[c]))
            ==> {
            let (z3, lawn3, eating, mv) = zombie_step(z, lawn, touch);
            &&& lawn3 == lawn
            &&& !eating
            &&& (z.zm_status == ZombieStatus::Walk0 || z.zm_status == ZombieStatus::Walk1) ==> z3.zm_status
                == z.zm_status && mv.walked == z.moving && !mv.jumped
        },
{
    if z.used && !z.dead && forall|c: int| 0 <= c < COLUMN_NUM ==> !(#[trigger] lawn[z.row as int][c].used && touch[c]) {
        let r = z.row as int;
        lemma_meet_row_untouched(z, lawn[r], touch, COLUMN_NUM as int);
        assert(lawn.update(r, lawn[r]) =~= lawn);
    }
}

} // verus!
