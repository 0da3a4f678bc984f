use vstd::prelude::*;

use crate::entities::bullet::Bullet;
use crate::entities::car::Car;
use crate::entities::sunshine::Sunshine;
use crate::entities::zombie::{Zombie, ZombieMove};
use crate::entities_managers::map_manager::{flags_view, Spawn, BULLETS_POOL_SIZE, COLUMN_NUM, ROW_NUM, SUNSHINES_POOL_SIZE};
use crate::entities_managers::sunshines_manager::SUNSHINE_POOL_SIZE;
use crate::entities_managers::zombie_manager::{past_line, ZOMBIEPOOLSIZE, ZM_WAVES};
use crate::game::{Game, GameStatus, ZM_WAVES_TOTAL};
use crate::my_trait::{lemma_gain_bound, SUNSHINE_VALUE};
use crate::threads::audio_thread::{events_view, Command, CommandView};

verus! {

/// The screen on which the game is shown.  Where things are is its
/// business: during a frame the game asks it, step by step, each geometric
/// question as plain flags, and lets it move what the last step moved.
pub trait Screen {
    /// Places the sky's sunshines that just began to fall (in play now and
    /// not in `was_used`), then tells, for each sky sunshine, whether it has
    /// reached the counter and whether it has come down to its resting
    /// height.
    fn sky_flags(&mut self, pool: &Vec<Sunshine>, was_used: &Vec<bool>) -> (Vec<bool>, Vec<bool>);

    /// Moves the sky's sunshines still in play.
    fn move_sky(&mut self, pool: &Vec<Sunshine>);

    /// For each zombie and column: the zombie is right of the column's
    /// plants, and on screen.
    fn zombies_ahead(&mut self) -> Vec<Vec<bool>>;

    /// Places the peas just shot and the sunshines just made by plants,
    /// moves the peas in play, then tells for each pea which zombies it
    /// touches.
    fn bullet_hits(&mut self, bullets: &Vec<Bullet>, shot: &Vec<Spawn>, made: &Vec<Spawn>) -> Vec<Vec<bool>>;

    /// For each mower: which zombies it touches, and whether, once moved,
    /// it passes the right edge of the screen.
    fn car_contacts(&mut self, cars: &Vec<Car>) -> (Vec<Vec<bool>>, Vec<bool>);

    /// Moves the running mowers.
    fn move_cars(&mut self, cars: &Vec<Car>);

    /// For each sunshine made by a plant: whether it has reached the
    /// counter, and whether it has come down to its resting height.
    fn lawn_sunshine_flags(&mut self) -> (Vec<bool>, Vec<bool>);

    /// Moves the sunshines made by plants still in play.
    fn move_lawn_sunshines(&mut self, pool: &Vec<Sunshine>);

    /// Places the zombies that just came into play (in play now and not in
    /// `was_used`), then tells for each zombie which plants of its row it
    /// touches, and whether it is past the losing line.
    fn zombie_contacts(&mut self, pool: &Vec<Zombie>, was_used: &Vec<bool>) -> (Vec<Vec<bool>>, Vec<bool>);

    /// Moves the zombies as they moved.
    fn move_zombies(&mut self, moves: &Vec<ZombieMove>);
}

/// What happened during a played frame: the games after each step
/// (`states[0]` after the music, then after the sky's timer, the sky's
/// sunshines, the plants, the peas, the mowers, the plants' sunshines, the
/// zombies' waves, the zombies, and the end of the frame), the commands
/// issued up to each of them, and the answers of the screen that were used.
pub struct FrameTrace {
    pub states: Seq<Game>,
    pub sounds: Seq<Seq<CommandView>>,
    pub sky_collected: Seq<bool>,
    pub sky_reached: Seq<bool>,
    pub ahead: Seq<Seq<bool>>,
    pub shot: Seq<Spawn>,
    pub made: Seq<Spawn>,
    pub bullet_hits: Seq<Seq<bool>>,
    pub car_hits: Seq<Seq<bool>>,
    pub past_edge: Seq<bool>,
    pub lawn_collected: Seq<bool>,
    pub lawn_reached: Seq<bool>,
    pub touching: Seq<Seq<bool>>,
    pub moves: Seq<ZombieMove>,
    pub past: Seq<bool>,
}

/// The outcome of a frame: whether the game was being played, the sunshine
/// collected from the sky and from the plants, the zombies' level, and
/// whether a zombie crossed the losing line.
pub struct FrameReport {
    pub playing: bool,
    pub sky_gain: u32,
    pub map_gain: u32,
    pub level: u32,
    pub crossed: bool,
    pub trace: Ghost<FrameTrace>,
}

/// A matrix of `rows` rows of `cols` flags.
pub open spec fn shaped(m: Seq<Seq<bool>>, rows: int, cols: int) -> bool {
    m.len() == rows && forall|i: int| 0 <= i < rows ==> #[trigger] m[i].len() == cols
}

/// `n` flags as given when there are `n` of them, otherwise `n` times
/// false: an answer of the wrong size counts as nothing touching.
fn fit_flags(flags: Vec<bool>, n: usize) -> (r: Vec<bool>)
    ensures
        r@.len() == n,
        flags@.len() == n ==> r@ == flags@,
        flags@.len() != n ==> forall|i: int| 0 <= i < n ==> !#[trigger] r@[i],
{
    if flags.len() == n {
        flags
    } else {
        let mut r: Vec<bool> = Vec::new();
        while r.len() < n
            invariant
                r@.len() <= n,
                forall|i: int| 0 <= i < r@.len() ==> !#[trigger] r@[i],
            decreases n - r@.len(),
        {
            r.push(false);
        }
        r
    }
}

/// A matrix of `rows` by `cols` flags as given when it has that shape,
/// otherwise all false.
fn fit_matrix(m: Vec<Vec<bool>>, rows: usize, cols: usize) -> (r: Vec<Vec<bool>>)
    ensures
        r@.len() == rows,
        forall|i: int| 0 <= i < rows ==> #[trigger] r@[i]@.len() == cols,
        shaped(flags_view(r@), rows as int, cols as int),
        shaped(flags_view(m@), rows as int, cols as int) ==> flags_view(r@) == flags_view(m@),
        !shaped(flags_view(m@), rows as int, cols as int) ==> forall|i: int, j: int|
            0 <= i < rows && 0 <= j < cols ==> !#[trigger] flags_view(r@)[i][j],
{
    let mut ok = m.len() == rows;
    let mut i: usize = 0;
    while ok && i < m.len()
        invariant
            i <= m@.len(),
            ok ==> m@.len() == rows,
            ok ==> forall|k: int| 0 <= k < i ==> #[trigger] m@[k]@.len() == cols,
            !ok ==> !shaped(flags_view(m@), rows as int, cols as int),
        decreases m@.len() - i,
    {
        if m[i].len() != cols {
            assert(flags_view(m@)[i as int] == m@[i as int]@);
            ok = false;
        }
        i = i + 1;
    }
    if ok {
        assert(shaped(flags_view(m@), rows as int, cols as int)) by {
            assert forall|k: int| 0 <= k < rows implies #[trigger] flags_view(m@)[k].len() == cols by {
                assert(flags_view(m@)[k] == m@[k]@);
            }
        }
        assert forall|k: int| 0 <= k < rows implies #[trigger] m@[k]@.len() == cols by {
            assert(flags_view(m@)[k] == m@[k]@);
        }
        m
    } else {
        let mut r: Vec<Vec<bool>> = Vec::new();
        while r.len() < rows
            invariant
                r@.len() <= rows,
                forall|k: int| 0 <= k < r@.len() ==> #[trigger] r@[k]@.len() == cols,
                forall|k: int, j: int| 0 <= k < r@.len() && 0 <= j < cols ==> !#[trigger] r@[k]@[j],
            decreases rows - r@.len(),
        {
            let row = fit_flags(Vec::new(), cols);
            r.push(row);
        }
        assert(shaped(flags_view(r@), rows as int, cols as int)) by {
            assert forall|k: int| 0 <= k < rows implies #[trigger] flags_view(r@)[k].len() == cols by {
                assert(flags_view(r@)[k] == r@[k]@);
            }
        }
        assert forall|k: int, j: int| 0 <= k < rows && 0 <= j < cols implies !#[trigger] flags_view(r@)[k][j] by {
            assert(flags_view(r@)[k] == r@[k]@);
        }
        r
    }
}

/// Which sunshines of a pool are in play.
fn sunshines_in_play(pool: &Vec<Sunshine>) -> (used: Vec<bool>)
    ensures
        used@.len() == pool@.len(),
        forall|i: int| 0 <= i < pool@.len() ==> #[trigger] used@[i] == pool@[i].used,
{
    let mut used: Vec<bool> = Vec::new();
    let mut i: usize = 0;
    while i < pool.len()
        invariant
            i <= pool@.len(),
            used@.len() == i,
            forall|k: int| 0 <= k < i ==> #[trigger] used@[k] == pool@[k].used,
        decreases pool@.len() - i,
    {
        used.push(pool[i].used);
        i = i + 1;
    }
    used
}

/// Which zombies of a pool are in play.
fn zombies_in_play(pool: &Vec<Zombie>) -> (used: Vec<bool>)
    ensures
        used@.len() == pool@.len(),
        forall|i: int| 0 <= i < pool@.len() ==> #[trigger] used@[i] == pool@[i].used,
{
    let mut used: Vec<bool> = Vec::new();
    let mut i: usize = 0;
    while i < pool.len()
        invariant
            i <= pool@.len(),
            used@.len() == i,
            forall|k: int| 0 <= k < i ==> #[trigger] used@[k] == pool@[k].used,
        decreases pool@.len() - i,
    {
        used.push(pool[i].used);
        i = i + 1;
    }
    used
}

impl Game {
    /// One frame of the game.  The page's music starts when due (see
    /// `music_started`); while the game is being played the frame then goes
    /// through its steps in order, asking `screen` what each step needs:
    /// the sky's timer, the sky's sunshines, the plants, the peas, the
    /// mowers, the plants' sunshines, the zombies' waves, the zombies, and
    /// the end of the frame (see the step predicates of `Game`).  The
    /// player gains the sunshine collected from the sky and from the
    /// plants; a living zombie past the losing line ends the game; otherwise
    /// a new zombie level is taken over, and passing the last one wins.
    pub fn update<S: Screen>(&mut self, screen: &mut S, audio_outbox: &mut Vec<Command>) -> (report: FrameReport)
        requires
            old(self).wf(),
            old(self).status == GameStatus::Playing ==> old(self).sunshines_value + (SUNSHINE_POOL_SIZE
                + SUNSHINES_POOL_SIZE) * SUNSHINE_VALUE <= u32::MAX,
        ensures
            final(self).wf(),
            report.playing == (old(self).status == GameStatus::Playing),
            !report.playing ==> Game::music_started(
                *old(self),
                *final(self),
                events_view(old(audio_outbox)@),
                events_view(final(audio_outbox)@),
            ),
            report.playing ==> ({
                let t = report.trace@;
                let s = t.states;
                let e = t.sounds;
                &&& s.len() == 10 && e.len() == 10
                &&& Game::music_started(*old(self), s[0], events_view(old(audio_outbox)@), e[0])
                &&& Game::sky_sunshine_created(s[0], s[1]) && e[1] == e[0]
                &&& Game::sky_sunshines_updated(s[1], s[2], t.sky_collected, t.sky_reached, report.sky_gain)
                &&& e[2] == e[1]
                &&& Game::plants_updated(s[2], s[3], t.ahead, t.shot, t.made) && e[3] == e[2]
                &&& Game::bullets_updated(s[3], s[4], t.bullet_hits, e[3], e[4])
                &&& Game::cars_updated(s[4], s[5], t.car_hits, t.past_edge) && e[5] == e[4]
                &&& Game::map_sunshines_updated(s[5], s[6], t.lawn_collected, t.lawn_reached, report.map_gain)
                &&& e[6] == e[5]
                &&& Game::zombies_created(s[6], s[7], report.level, e[6], e[7])
                &&& Game::zombies_updated(s[7], s[8], t.touching, t.moves, e[7], e[8])
                &&& Game::frame_finished(s[8], s[9], t.past, e[8], e[9])
                &&& *final(self) == s[9]
                &&& events_view(final(audio_outbox)@) == e[9]
                &&& t.sky_collected.len() == SUNSHINE_POOL_SIZE && t.sky_reached.len() == SUNSHINE_POOL_SIZE
                &&& shaped(t.ahead, ZOMBIEPOOLSIZE as int, COLUMN_NUM as int)
                &&& shaped(t.bullet_hits, BULLETS_POOL_SIZE as int, ZOMBIEPOOLSIZE as int)
                &&& shaped(t.car_hits, ROW_NUM as int, ZOMBIEPOOLSIZE as int) && t.past_edge.len() == ROW_NUM
                &&& t.lawn_collected.len() == SUNSHINES_POOL_SIZE && t.lawn_reached.len() == SUNSHINES_POOL_SIZE
                &&& shaped(t.touching, ZOMBIEPOOLSIZE as int, COLUMN_NUM as int) && t.past.len() == ZOMBIEPOOLSIZE
                &&& report.crossed == past_line(s[8].zombies_manager.zm_pool@, t.past)
            }),
            report.playing ==> final(self).sunshines_value == old(self).sunshines_value + report.sky_gain
                + report.map_gain,
            report.playing && report.crossed ==> final(self).status == GameStatus::GameOver
                && final(self).cur_level == old(self).cur_level,
            report.playing && !report.crossed && report.level != old(self).cur_level ==> {
                &&& final(self).cur_level == report.level
                &&& final(self).status == (if report.level > ZM_WAVES_TOTAL {
                    GameStatus::Victory
                } else {
                    GameStatus::Playing
                })
            },
            report.playing && !report.crossed && report.level == old(self).cur_level ==> final(self).status
                == GameStatus::Playing && final(self).cur_level == old(self).cur_level,
    {
        let playing = self.update_background_music(audio_outbox);
        if !playing {
            let ghost t = FrameTrace {
                states: seq![],
                sounds: seq![],
                sky_collected: seq![],
                sky_reached: seq![],
                ahead: seq![],
                shot: seq![],
                made: seq![],
                bullet_hits: seq![],
                car_hits: seq![],
                past_edge: seq![],
                lawn_collected: seq![],
                lawn_reached: seq![],
                touching: seq![],
                moves: seq![],
                past: seq![],
            };
            return FrameReport { playing: false, sky_gain: 0, map_gain: 0, level: 0, crossed: false, trace: Ghost(t) };
        }
        let ghost g0 = *self;
        let ghost e0 = events_view(audio_outbox@);

        let was_used = sunshines_in_play(&self.sunshines_manager.sunshines_pool);
        self.create_sky_sunshine();
        let ghost g1 = *self;
        let (collected, reached) = screen.sky_flags(&self.sunshines_manager.sunshines_pool, &was_used);
        let collected = fit_flags(collected, SUNSHINE_POOL_SIZE);
        let reached = fit_flags(reached, SUNSHINE_POOL_SIZE);
        proof {
            lemma_gain_bound(g1.sunshines_manager.sunshines_pool@, collected@, reached@, SUNSHINE_POOL_SIZE as int);
        }
        let sky_gain = self.update_sky_sunshines(&collected, &reached);
        let ghost g2 = *self;
        screen.move_sky(&self.sunshines_manager.sunshines_pool);

        let ahead = fit_matrix(screen.zombies_ahead(), ZOMBIEPOOLSIZE, COLUMN_NUM);
        let (shot, made) = self.update_plants(&ahead);
        let ghost g3 = *self;
        let ghost e3 = events_view(audio_outbox@);

        let hits = screen.bullet_hits(&self.map_manager.bullets_pool, &shot, &made);
        let hits = fit_matrix(hits, BULLETS_POOL_SIZE, ZOMBIEPOOLSIZE);
        self.update_bullets(&hits, audio_outbox);
        let ghost g4 = *self;
        let ghost e4 = events_view(audio_outbox@);

        let (car_hits, past_edge) = screen.car_contacts(&self.map_manager.cars_pool);
        let car_hits = fit_matrix(car_hits, ROW_NUM, ZOMBIEPOOLSIZE);
        let past_edge = fit_flags(past_edge, ROW_NUM);
        self.update_cars(&car_hits, &past_edge);
        let ghost g5 = *self;
        screen.move_cars(&self.map_manager.cars_pool);

        let (lawn_collected, lawn_reached) = screen.lawn_sunshine_flags();
        let lawn_collected = fit_flags(lawn_collected, SUNSHINES_POOL_SIZE);
        let lawn_reached = fit_flags(lawn_reached, SUNSHINES_POOL_SIZE);
        proof {
            lemma_gain_bound(g5.map_manager.sunshines_pool@, lawn_collected@, lawn_reached@, SUNSHINES_POOL_SIZE as int);
        }
        let map_gain = self.update_map_sunshines(&lawn_collected, &lawn_reached);
        let ghost g6 = *self;
        screen.move_lawn_sunshines(&self.map_manager.sunshines_pool);

        let zombies_used = zombies_in_play(&self.zombies_manager.zm_pool);
        let level = self.create_zombies(audio_outbox);
        let ghost g7 = *self;
        let ghost e7 = events_view(audio_outbox@);
        let (touching, past) = screen.zombie_contacts(&self.zombies_manager.zm_pool, &zombies_used);
        let touching = fit_matrix(touching, ZOMBIEPOOLSIZE, COLUMN_NUM);
        let past = fit_flags(past, ZOMBIEPOOLSIZE);
        let moves = self.update_zombies(&touching, audio_outbox);
        let ghost g8 = *self;
        let ghost e8 = events_view(audio_outbox@);
        screen.move_zombies(&moves);
        let crossed = self.zombies_manager.any_past(&past);
        self.finish_update(&past, audio_outbox);
        let ghost g9 = *self;
        let ghost e9 = events_view(audio_outbox@);

        let ghost t = FrameTrace {
            states: seq![g0, g1, g2, g3, g4, g5, g6, g7, g8, g9],
            sounds: seq![e0, e0, e0, e3, e4, e4, e4, e7, e8, e9],
            sky_collected: collected@,
            sky_reached: reached@,
            ahead: flags_view(ahead@),
            shot: shot@,
            made: made@,
            bullet_hits: flags_view(hits@),
            car_hits: flags_view(car_hits@),
            past_edge: past_edge@,
            lawn_collected: lawn_collected@,
            lawn_reached: lawn_reached@,
            touching: flags_view(touching@),
            moves: moves@,
            past: past@,
        };
        FrameReport { playing: true, sky_gain, map_gain, level, crossed, trace: Ghost(t) }
    }
}

} // verus!
