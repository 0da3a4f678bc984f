use vstd::prelude::*;

use crate::entities::bullet::Bullet;
use crate::entities::car::Car;
use crate::entities::grass::Grass;
use crate::entities::my_enum::plant_enum::PlantType;
use crate::entities::plant::{lemma_skill_ready_on_time, lemma_ticks_keep_plant, plant_ticks, Plant};
use crate::entities::sunshine::Sunshine;
use crate::threads::audio_thread::{events_view, push_sfx, sfx, Command, CommandView};
use crate::entities::my_enum::sunshine_enum::SunshineType;
use super::pool::{count_where, first_index, lemma_count_where_hits, lemma_count_where_mono, lemma_count_where_range, lemma_first_index_is, lemma_first_index_none};
use super::zombie_manager::{pool_ok, ZombieManager, ZOMBIEPOOLSIZE};
use crate::entities::zombie::Zombie;
use crate::my_trait::{pool_clicked, pool_ticked, sunshine_gain, SUNSHINE_VALUE};
use crate::entities::my_enum::car_enum::CarStatus;
use super::pool::{find_free_bullet, find_free_sunshine, first_where, is_free_bullet, is_free_sunshine, lemma_first_where_props};

verus! {

/// Rows of the lawn.
pub const ROW_NUM: usize = 5;

/// Columns of the lawn.
pub const COLUMN_NUM: usize = 9;

/// Size of the pool of peas.
pub const BULLETS_POOL_SIZE: usize = 400;

/// Size of the pool of sunshines made by sunflowers.
pub const SUNSHINES_POOL_SIZE: usize = 100;

/// The lawn: its tiles and plants, the peas in flight, the sunshines made
/// by sunflowers, and the lawn mowers.
pub struct MapManager {
    pub grasses: Vec<Vec<Grass>>,
    pub bullets_pool: Vec<Bullet>,
    pub sunshines_pool: Vec<Sunshine>,
    pub cars_pool: Vec<Car>,
}

/// A pooled entity put to use for the plant on tile (`row`, `column`).
#[derive(Clone, Copy, Debug, PartialEq, Eq, Structural)]
pub struct Spawn {
    pub pool_index: usize,
    pub row: usize,
    pub column: usize,
}

/// One frame of a tile: a living plant advances, and a plant whose skill is
/// ready uses it (restarting its timer) when it can: a peashooter when a
/// zombie threatens its row (`threat`), a sunflower always.
pub open spec fn tile_after(g: Grass, threat: bool) -> Grass {
    if !g.used {
        g
    } else {
        let t = g.plant.spec_tick();
        if t.can_activate_skill && ((t.plant_type == PlantType::Peashooter && threat)
            || t.plant_type == PlantType::SunFlower) {
            Grass { plant: t.spec_cooldown(), ..g }
        } else {
            Grass { plant: t, ..g }
        }
    }
}

/// The tile's peashooter shoots this frame.
pub open spec fn wants_bullet(g: Grass, threat: bool) -> bool {
    &&& g.used
    &&& g.plant.spec_tick().can_activate_skill
    &&& g.plant.plant_type == PlantType::Peashooter
    &&& threat
}

/// The tile's sunflower makes a sunshine this frame.
pub open spec fn wants_sunshine(g: Grass) -> bool {
    &&& g.used
    &&& g.plant.spec_tick().can_activate_skill
    &&& g.plant.plant_type == PlantType::SunFlower
}

/// The tiles among the first `n` of row `r` whose plant uses its skill
/// (peashooters if `bullet`, sunflowers otherwise), in order.
pub open spec fn row_requests(row: Seq<Grass>, threats: Seq<bool>, r: int, n: int, bullet: bool) -> Seq<(usize, usize)>
    decreases n,
{
    if n <= 0 {
        seq![]
    } else {
        let prev = row_requests(row, threats, r, n - 1, bullet);
        let want = if bullet {
            wants_bullet(row[n - 1], threats[n - 1])
        } else {
            wants_sunshine(row[n - 1])
        };
        if want {
            prev.push((r as usize, (n - 1) as usize))
        } else {
            prev
        }
    }
}

/// The tiles of the first `m` rows whose plant uses its skill, row by row.
pub open spec fn lawn_requests(lawn: Seq<Seq<Grass>>, threats: Seq<Seq<bool>>, m: int, bullet: bool) -> Seq<(usize, usize)>
    decreases m,
{
    if m <= 0 {
        seq![]
    } else {
        lawn_requests(lawn, threats, m - 1, bullet) + row_requests(
            lawn[m - 1],
            threats[m - 1],
            m - 1,
            COLUMN_NUM as int,
            bullet,
        )
    }
}

/// Serves shooting peashooters in order, each with the first free pea of
/// the pool; once the pool is exhausted the rest shoot nothing.
pub open spec fn fill_bullets(pool: Seq<Bullet>, reqs: Seq<(usize, usize)>) -> (Seq<Bullet>, Seq<Spawn>)
    decreases reqs.len(),
{
    if reqs.len() == 0 {
        (pool, seq![])
    } else {
        let (p, sp) = fill_bullets(pool, reqs.drop_last());
        let (r, c) = reqs.last();
        match first_where(p, is_free_bullet()) {
            Some(i) => (
                p.update(i, p[i].spec_init(r as u32)),
                sp.push(Spawn { pool_index: i as usize, row: r, column: c }),
            ),
            None => (p, sp),
        }
    }
}

/// Serves sunflowers in order, each with the first free sunshine of the
/// pool; the `j`-th request's sunshine starts at animation frame `frames[j]`.
pub open spec fn fill_sunshines(pool: Seq<Sunshine>, reqs: Seq<(usize, usize)>, frames: Seq<usize>) -> (Seq<Sunshine>, Seq<Spawn>)
    decreases reqs.len(),
{
    if reqs.len() == 0 {
        (pool, seq![])
    } else {
        let (p, sp) = fill_sunshines(pool, reqs.drop_last(), frames);
        let (r, c) = reqs.last();
        match first_where(p, is_free_sunshine()) {
            Some(i) => (
                p.update(i, p[i].spec_init(SunshineType::CommonSunShine, frames[reqs.len() - 1])),
                sp.push(Spawn { pool_index: i as usize, row: r, column: c }),
            ),
            None => (p, sp),
        }
    }
}

/// Zombie `z` of `zs` can be hit by a pea of row `row`: in play, alive,
/// in that row, and touching the pea (`hits[z]`).
pub open spec fn pea_target(zs: Seq<Zombie>, row: u32, hits: Seq<bool>) -> spec_fn(int) -> bool {
    |z: int| zs[z].used && !zs[z].dead && zs[z].row == row && hits[z]
}

/// One frame of a pea: a pea in play advances; a flying pea touching zombies
/// hits the first of them in the pool, which takes its damage, and bursts.
/// Also returns whether it hit.
pub open spec fn bullet_step(b: Bullet, zs: Seq<Zombie>, hits: Seq<bool>) -> (Bullet, Seq<Zombie>, bool) {
    if !b.used {
        (b, zs, false)
    } else {
        let b1 = b.spec_tick();
        if b1.dead {
            (b1, zs, false)
        } else {
            match first_index(zs.len() as int, pea_target(zs, b1.row, hits)) {
                Some(z) => (
                    Bullet { dead: true, frame: 1, ..b1 },
                    zs.update(z, zs[z].spec_attacked(b1.damage)),
                    true,
                ),
                None => (b1, zs, false),
            }
        }
    }
}

/// The first `k` peas, in order, and the sounds of their hits.
pub open spec fn bullets_fold(bs: Seq<Bullet>, zs: Seq<Zombie>, hits: Seq<Seq<bool>>, k: int) -> (Seq<Bullet>, Seq<Zombie>, Seq<CommandView>)
    decreases k,
{
    if k <= 0 {
        (bs, zs, seq![])
    } else {
        let (b, z, sounds) = bullets_fold(bs, zs, hits, k - 1);
        let (b1, z1, hit) = bullet_step(b[k - 1], z, hits[k - 1]);
        (
            b.update(k - 1, b1),
            z1,
            if hit {
                sounds.push(sfx("/audio/bullet_zombie.mp3"@))
            } else {
                sounds
            },
        )
    }
}

/// Damage a mower deals: more than any zombie's health.
pub const CAR_DAMAGE: i32 = 1000;

/// A mower meeting the first `n` zombies of the pool: each zombie in play,
/// alive, in the mower's row and touching it (`hits[z]`) starts the mower
/// and is run over.
pub open spec fn car_sweep(car: Car, zs: Seq<Zombie>, hits: Seq<bool>, n: int) -> (Car, Seq<Zombie>)
    decreases n,
{
    if n <= 0 {
        (car, zs)
    } else {
        let (c, z) = car_sweep(car, zs, hits, n - 1);
        let zm = z[n - 1];
        if zm.used && !zm.dead && zm.row == c.row && hits[n - 1] {
            (Car { status: CarStatus::Running, ..c }, z.update(n - 1, zm.spec_attacked(CAR_DAMAGE)))
        } else {
            (c, z)
        }
    }
}

/// One frame of a mower in play: it meets the zombies, then moves on
/// (`past_edge`: once moved it has passed the right edge of the screen).
pub open spec fn car_step(car: Car, zs: Seq<Zombie>, hits: Seq<bool>, past_edge: bool) -> (Car, Seq<Zombie>) {
    if !car.used {
        (car, zs)
    } else {
        let (c, z) = car_sweep(car, zs, hits, zs.len() as int);
        (Car { used: c.used && !(c.status == CarStatus::Running && past_edge), ..c }, z)
    }
}

/// The first `k` mowers, in order.
pub open spec fn cars_fold(cs: Seq<Car>, zs: Seq<Zombie>, hits: Seq<Seq<bool>>, past_edge: Seq<bool>, k: int) -> (Seq<Car>, Seq<Zombie>)
    decreases k,
{
    if k <= 0 {
        (cs, zs)
    } else {
        let (c, z) = cars_fold(cs, zs, hits, past_edge, k - 1);
        let (c1, z1) = car_step(c[k - 1], z, hits[k - 1], past_edge[k - 1]);
        (c.update(k - 1, c1), z1)
    }
}

/// The rows of a matrix of flags, as sequences.
pub open spec fn flags_view(m: Seq<Vec<bool>>) -> Seq<Seq<bool>> {
    m.map_values(|v: Vec<bool>| v@)
}

/// A tile of row `r`, well formed.
pub open spec fn grass_in_row(g: Grass, r: int) -> bool {
    &&& g.wf()
    &&& g.row == r
    &&& g.plant.row == r
}

/// A tile of row `r` whose plant may be the placeholder that the no-plant
/// type leaves: only its row and its taken flag are in order.
pub open spec fn loose_tile(g: Grass, r: int) -> bool {
    &&& g.row == r
    &&& g.plant.row == r
    &&& g.used == g.plant.used
}

/// The empty tile of row `r`.
pub open spec fn empty_grass(r: u32) -> Grass {
    Grass { used: false, plant: Plant::spec_new(r), row: r }
}

impl MapManager {
    /// The tiles, row by row.
    pub open spec fn lawn(&self) -> Seq<Seq<Grass>> {
        self.grasses@.map_values(|row: Vec<Grass>| row@)
    }

    /// The tile at row `r`, column `c`.
    pub open spec fn tile(&self, r: int, c: int) -> Grass {
        self.grasses@[r]@[c]
    }

    /// A lawn of 5 by 9 well-formed tiles (a tile is taken exactly while its
    /// plant lives), and pools of the right sizes holding well-formed
    /// entities.
    pub open spec fn wf(&self) -> bool {
        &&& self.grasses@.len() == ROW_NUM
        &&& forall|r: int| 0 <= r < ROW_NUM ==> #[trigger] self.grasses@[r]@.len() == COLUMN_NUM
        &&& forall|r: int, c: int|
            0 <= r < ROW_NUM && 0 <= c < COLUMN_NUM ==> grass_in_row(#[trigger] self.grasses@[r]@[c], r)
        &&& self.bullets_pool@.len() == BULLETS_POOL_SIZE
        &&& forall|i: int| 0 <= i < BULLETS_POOL_SIZE ==> #[trigger] self.bullets_pool@[i].wf()
        &&& self.sunshines_pool@.len() == SUNSHINES_POOL_SIZE
        &&& forall|i: int| 0 <= i < SUNSHINES_POOL_SIZE ==> #[trigger] self.sunshines_pool@[i].wf()
        &&& self.cars_pool@.len() == ROW_NUM
    }

    /// Well formed but for the tile at row `r0`, column `c0`, which need
    /// only be a loose tile of its row.
    pub open spec fn wf_except(&self, r0: int, c0: int) -> bool {
        &&& 0 <= r0 < ROW_NUM
        &&& 0 <= c0 < COLUMN_NUM
        &&& self.grasses@.len() == ROW_NUM
        &&& forall|r: int| 0 <= r < ROW_NUM ==> #[trigger] self.grasses@[r]@.len() == COLUMN_NUM
        &&& forall|r: int, c: int|
            0 <= r < ROW_NUM && 0 <= c < COLUMN_NUM && !(r == r0 && c == c0) ==> grass_in_row(
                #[trigger] self.grasses@[r]@[c],
                r,
            )
        &&& loose_tile(self.grasses@[r0]@[c0], r0)
        &&& self.bullets_pool@.len() == BULLETS_POOL_SIZE
        &&& forall|i: int| 0 <= i < BULLETS_POOL_SIZE ==> #[trigger] self.bullets_pool@[i].wf()
        &&& self.sunshines_pool@.len() == SUNSHINES_POOL_SIZE
        &&& forall|i: int| 0 <= i < SUNSHINES_POOL_SIZE ==> #[trigger] self.sunshines_pool@[i].wf()
        &&& self.cars_pool@.len() == ROW_NUM
    }

    /// What `remove_plant` at `coords` needs: a well-formed lawn, or one
    /// that is well formed but for the tile that `coords` picks.
    pub open spec fn wf_at(&self, coords: Option<(usize, usize)>) -> bool {
        ||| self.wf()
        ||| (self.spec_select_grass(coords) matches Some((r, c)) && self.wf_except(r as int, c as int))
    }

    /// This lawn is `old`'s with a plant of type `t` grown on the tile at
    /// row `r`, column `c`.
    pub open spec fn planted(&self, old: MapManager, r: int, c: int, t: PlantType) -> bool {
        let g = old.grasses@[r]@[c];
        self.lawn() == old.lawn_with(r, c, Grass { used: true, plant: g.plant.spec_init(t), ..g })
    }

    /// This lawn is `old`'s with the plant on the tile at row `r`, column
    /// `c` removed.
    pub open spec fn cleared(&self, old: MapManager, r: int, c: int) -> bool {
        let g = old.grasses@[r]@[c];
        self.lawn() == old.lawn_with(r, c, Grass { used: false, plant: Plant { used: false, ..g.plant }, ..g })
    }

    /// The lawn at the start of a game.
    pub open spec fn fresh(&self) -> bool {
        &&& self.grasses@.len() == ROW_NUM
        &&& forall|r: int| 0 <= r < ROW_NUM ==> #[trigger] self.grasses@[r]@.len() == COLUMN_NUM
        &&& forall|r: int, c: int|
            0 <= r < ROW_NUM && 0 <= c < COLUMN_NUM ==> #[trigger] self.grasses@[r]@[c] == empty_grass(
                r as u32,
            )
        &&& self.bullets_pool@ == Seq::new(BULLETS_POOL_SIZE as nat, |i: int| Bullet::spec_new())
        &&& self.sunshines_pool@ == Seq::new(
            SUNSHINES_POOL_SIZE as nat,
            |i: int| Sunshine::spec_new(),
        )
        &&& self.cars_pool@ == Seq::new(ROW_NUM as nat, |i: int| Car::spec_new(i as u32))
    }

    /// `self` is `old` cleared for a new game: every tile freed and its
    /// plant dead, every pea and sunshine out of play, five new mowers.
    pub open spec fn cleared_from(&self, old: MapManager) -> bool {
        &&& self.grasses@.len() == ROW_NUM
        &&& forall|r: int| 0 <= r < ROW_NUM ==> #[trigger] self.grasses@[r]@.len() == COLUMN_NUM
        &&& forall|r: int, c: int|
            0 <= r < ROW_NUM && 0 <= c < COLUMN_NUM ==> #[trigger] self.grasses@[r]@[c] == (Grass {
                used: false,
                plant: Plant { used: false, ..old.grasses@[r]@[c].plant },
                ..old.grasses@[r]@[c]
            })
        &&& self.bullets_pool@ == old.bullets_pool@.map_values(|b: Bullet| Bullet { used: false, ..b })
        &&& self.sunshines_pool@ == old.sunshines_pool@.map_values(
            |s: Sunshine| Sunshine { used: false, ..s },
        )
        &&& self.cars_pool@ == Seq::new(ROW_NUM as nat, |i: int| Car::spec_new(i as u32))
    }

    /// The tile picked by grid coordinates, when they lie on the lawn.
    pub open spec fn spec_select_grass(&self, coords: Option<(usize, usize)>) -> Option<(usize, usize)> {
        match coords {
            Some((r, c)) => if r < self.grasses@.len() && c < self.grasses@[r as int]@.len() {
                Some((r, c))
            } else {
                None
            },
            None => None,
        }
    }

    fn new_cars() -> (cars: Vec<Car>)
        ensures
            cars@ == Seq::new(ROW_NUM as nat, |i: int| Car::spec_new(i as u32)),
    {
        let mut cars_pool: Vec<Car> = Vec::new();
        let mut i: usize = 0;
        while i < ROW_NUM
            invariant
                i <= ROW_NUM,
                cars_pool@ == Seq::new(i as nat, |k: int| Car::spec_new(k as u32)),
            decreases ROW_NUM - i,
        {
            cars_pool.push(Car::new(i as u32));
            i = i + 1;
            assert(cars_pool@ =~= Seq::new(i as nat, |k: int| Car::spec_new(k as u32)));
        }
        cars_pool
    }

    /// An empty lawn with five waiting mowers and unused pools.
    pub fn new() -> (m: MapManager)
        ensures
            m.wf(),
            m.fresh(),
    {
        let mut map_to_plant: Vec<Vec<Grass>> = Vec::new();
        let mut i: usize = 0;
        while i < ROW_NUM
            invariant
                i <= ROW_NUM,
                map_to_plant@.len() == i,
                forall|r: int| 0 <= r < i ==> #[trigger] map_to_plant@[r]@.len() == COLUMN_NUM,
                forall|r: int, c: int|
                    0 <= r < i && 0 <= c < COLUMN_NUM ==> #[trigger] map_to_plant@[r]@[c]
                        == empty_grass(r as u32),
            decreases ROW_NUM - i,
        {
            let mut row: Vec<Grass> = Vec::new();
            let mut j: usize = 0;
            while j < COLUMN_NUM
                invariant
                    i < ROW_NUM,
                    j <= COLUMN_NUM,
                    row@.len() == j,
                    forall|c: int| 0 <= c < j ==> #[trigger] row@[c] == empty_grass(i as u32),
                decreases COLUMN_NUM - j,
            {
                let plant = Plant::new(i as u32);
                let grass = Grass::new(plant, i as u32);
                row.push(grass);
                j = j + 1;
            }
            map_to_plant.push(row);
            i = i + 1;
        }
        let cars_pool = Self::new_cars();
        let mut bullets_pool: Vec<Bullet> = Vec::new();
        let mut k: usize = 0;
        while k < BULLETS_POOL_SIZE
            invariant
                k <= BULLETS_POOL_SIZE,
                bullets_pool@ == Seq::new(k as nat, |i: int| Bullet::spec_new()),
            decreases BULLETS_POOL_SIZE - k,
        {
            bullets_pool.push(Bullet::new());
            k = k + 1;
            assert(bullets_pool@ =~= Seq::new(k as nat, |i: int| Bullet::spec_new()));
        }
        let mut sunshines_pool: Vec<Sunshine> = Vec::new();
        let mut k: usize = 0;
        while k < SUNSHINES_POOL_SIZE
            invariant
                k <= SUNSHINES_POOL_SIZE,
                sunshines_pool@ == Seq::new(k as nat, |i: int| Sunshine::spec_new()),
            decreases SUNSHINES_POOL_SIZE - k,
        {
            sunshines_pool.push(Sunshine::new());
            k = k + 1;
            assert(sunshines_pool@ =~= Seq::new(k as nat, |i: int| Sunshine::spec_new()));
        }
        let m = MapManager { grasses: map_to_plant, bullets_pool, sunshines_pool, cars_pool };
        assert(forall|r: int, c: int|
            0 <= r < ROW_NUM && 0 <= c < COLUMN_NUM ==> #[trigger] m.grasses@[r]@[c] == empty_grass(
                r as u32,
            ));
        m
    }

    /// Clears the lawn for a new game: every tile is freed (its plant dies),
    /// every pea and sunshine leaves the screen, and five new mowers wait.
    pub fn init(&mut self)
        requires
            old(self).wf(),
        ensures
            final(self).wf(),
            final(self).cleared_from(*old(self)),
    {
        let ghost old_self = *self;
        let mut r: usize = 0;
        while r < ROW_NUM
            invariant
                r <= ROW_NUM,
                self.grasses@.len() == ROW_NUM,
                forall|i: int| 0 <= i < ROW_NUM ==> #[trigger] self.grasses@[i]@.len() == COLUMN_NUM,
                forall|i: int, c: int|
                    0 <= i < r && 0 <= c < COLUMN_NUM ==> #[trigger] self.grasses@[i]@[c] == (Grass {
                        used: false,
                        plant: Plant { used: false, ..old_self.grasses@[i]@[c].plant },
                        ..old_self.grasses@[i]@[c]
                    }),
                forall|i: int, c: int|
                    r <= i < ROW_NUM && 0 <= c < COLUMN_NUM ==> #[trigger] self.grasses@[i]@[c]
                        == old_self.grasses@[i]@[c],
                self.bullets_pool == old_self.bullets_pool,
                self.sunshines_pool == old_self.sunshines_pool,
                self.cars_pool == old_self.cars_pool,
            decreases ROW_NUM - r,
        {
            let mut c: usize = 0;
            while c < COLUMN_NUM
                invariant
                    r < ROW_NUM,
                    c <= COLUMN_NUM,
                    self.grasses@.len() == ROW_NUM,
                    forall|i: int| 0 <= i < ROW_NUM ==> #[trigger] self.grasses@[i]@.len() == COLUMN_NUM,
                    forall|i: int, k: int|
                        0 <= i < r && 0 <= k < COLUMN_NUM ==> #[trigger] self.grasses@[i]@[k] == (Grass {
                            used: false,
                            plant: Plant { used: false, ..old_self.grasses@[i]@[k].plant },
                            ..old_self.grasses@[i]@[k]
                        }),
                    forall|k: int|
                        0 <= k < c ==> #[trigger] self.grasses@[r as int]@[k] == (Grass {
                            used: false,
                            plant: Plant { used: false, ..old_self.grasses@[r as int]@[k].plant },
                            ..old_self.grasses@[r as int]@[k]
                        }),
                    forall|k: int|
                        c <= k < COLUMN_NUM ==> #[trigger] self.grasses@[r as int]@[k] == old_self.grasses@[r as int]@[k],
                    forall|i: int, k: int|
                        r < i < ROW_NUM && 0 <= k < COLUMN_NUM ==> #[trigger] self.grasses@[i]@[k]
                            == old_self.grasses@[i]@[k],
                    self.bullets_pool == old_self.bullets_pool,
                    self.sunshines_pool == old_self.sunshines_pool,
                    self.cars_pool == old_self.cars_pool,
                decreases COLUMN_NUM - c,
            {
                let ghost prev = self.grasses@;
                self.grasses[r][c].set_unused();
                assert(forall|i: int| 0 <= i < ROW_NUM && i != r ==> #[trigger] self.grasses@[i] == prev[i]);
                c = c + 1;
            }
            r = r + 1;
        }
        let ghost lawn_cleared = self.grasses;
        let mut k: usize = 0;
        while k < self.bullets_pool.len()
            invariant
                k <= self.bullets_pool@.len(),
                self.bullets_pool@.len() == old_self.bullets_pool@.len(),
                forall|i: int|
                    0 <= i < k ==> #[trigger] self.bullets_pool@[i] == (Bullet {
                        used: false,
                        ..old_self.bullets_pool@[i]
                    }),
                forall|i: int|
                    k <= i < self.bullets_pool@.len() ==> #[trigger] self.bullets_pool@[i]
                        == old_self.bullets_pool@[i],
                self.sunshines_pool == old_self.sunshines_pool,
                self.grasses == lawn_cleared,
            decreases self.bullets_pool@.len() - k,
        {
            self.bullets_pool[k].set_unused();
            k = k + 1;
        }
        let mut k: usize = 0;
        while k < self.sunshines_pool.len()
            invariant
                k <= self.sunshines_pool@.len(),
                self.sunshines_pool@.len() == old_self.sunshines_pool@.len(),
                forall|i: int|
                    0 <= i < k ==> #[trigger] self.sunshines_pool@[i] == (Sunshine {
                        used: false,
                        ..old_self.sunshines_pool@[i]
                    }),
                forall|i: int|
                    k <= i < self.sunshines_pool@.len() ==> #[trigger] self.sunshines_pool@[i]
                        == old_self.sunshines_pool@[i],
                self.bullets_pool@ == old_self.bullets_pool@.map_values(
                    |b: Bullet| Bullet { used: false, ..b },
                ),
                self.grasses == lawn_cleared,
            decreases self.sunshines_pool@.len() - k,
        {
            self.sunshines_pool[k].set_unused();
            k = k + 1;
        }
        self.cars_pool = Self::new_cars();
        assert(self.bullets_pool@ =~= old_self.bullets_pool@.map_values(
            |b: Bullet| Bullet { used: false, ..b },
        ));
        assert(self.sunshines_pool@ =~= old_self.sunshines_pool@.map_values(
            |s: Sunshine| Sunshine { used: false, ..s },
        ));
        assert forall|r: int, c: int| 0 <= r < ROW_NUM && 0 <= c < COLUMN_NUM implies grass_in_row(
            #[trigger] self.grasses@[r]@[c],
            r,
        ) by {
            assert(grass_in_row(old_self.grasses@[r]@[c], r));
        }
        assert forall|i: int| 0 <= i < BULLETS_POOL_SIZE implies #[trigger] self.bullets_pool@[i].wf() by {
            assert(old_self.bullets_pool@[i].wf());
        }
    }
    /// The lawn with tile (`r`, `c`) replaced by `g`.
    pub open spec fn lawn_with(&self, r: int, c: int, g: Grass) -> Seq<Seq<Grass>> {
        self.lawn().update(r, self.lawn()[r].update(c, g))
    }

    /// Checks grid coordinates against the lawn: the tile's row and column
    /// when they lie on it, `(None, None)` otherwise.
    pub fn select_grass(&self, coords: Option<(usize, usize)>) -> (r: (Option<usize>, Option<usize>))
        ensures
            r == (match self.spec_select_grass(coords) {
                Some((a, b)) => (Some(a), Some(b)),
                None => (None, None),
            }),
    {
        match coords {
            Some((row, column)) => {
                if row < self.grasses.len() && column < self.grasses[row].len() {
                    return (Some(row), Some(column));
                }
            },
            None => {},
        }
        (None, None)
    }

    /// Grows a plant of the selected type on the tile at `coords` if the
    /// tile lies on the lawn and is free, with the growing sound; returns
    /// whether it did.  The lawn stays well formed when the type is a real
    /// plant; a tile given the no-plant type is taken by a placeholder with
    /// no health and no animation, which only `remove_plant` may touch.
    pub fn grow_plant(
        &mut self,
        coords: Option<(usize, usize)>,
        plant_be_select: &PlantType,
        audio_outbox: &mut Vec<Command>,
    ) -> (grown: bool)
        requires
            old(self).wf(),
        ensures
            !grown || *plant_be_select != PlantType::NonePlant ==> final(self).wf(),
            final(self).bullets_pool == old(self).bullets_pool,
            final(self).sunshines_pool == old(self).sunshines_pool,
            final(self).cars_pool == old(self).cars_pool,
            grown == (old(self).spec_select_grass(coords) matches Some((r, c))
                && !old(self).grasses@[r as int]@[c as int].used),
            grown ==> ({
                let (r, c) = coords.unwrap();
                &&& final(self).wf_except(r as int, c as int)
                &&& final(self).planted(*old(self), r as int, c as int, *plant_be_select)
                &&& events_view(final(audio_outbox)@) == events_view(old(audio_outbox)@).push(
                    sfx("/audio/grow_plant.mp3"@),
                )
            }),
            !grown ==> final(self).grasses == old(self).grasses && final(audio_outbox)@ == old(
                audio_outbox,
            )@,
    {
        if let (Some(row), Some(column)) = self.select_grass(coords) {
            if !self.grasses[row][column].is_used() {
                let ghost old_lawn = self.lawn();
                let ghost g = self.grasses@[row as int]@[column as int];
                self.grasses[row][column].set_used();
                push_sfx(audio_outbox, "/audio/grow_plant.mp3");
                let grown = self.grasses[row][column].grow_plant(*plant_be_select);
                assert(self.grasses@[row as int]@ =~= old_lawn[row as int].update(
                    column as int,
                    Grass { used: true, plant: g.plant.spec_init(*plant_be_select), ..g },
                ));
                assert(self.lawn() =~= old_lawn.update(
                    row as int,
                    old_lawn[row as int].update(
                        column as int,
                        Grass { used: true, plant: g.plant.spec_init(*plant_be_select), ..g },
                    ),
                ));
                assert forall|r: int, c: int|
                    0 <= r < ROW_NUM && 0 <= c < COLUMN_NUM && (!(r == row && c == column)
                        || *plant_be_select != PlantType::NonePlant) implies grass_in_row(
                    #[trigger] self.grasses@[r]@[c],
                    r,
                ) by {
                    assert(self.grasses@[r]@[c] == self.lawn()[r][c]);
                }
                assert(loose_tile(self.grasses@[row as int]@[column as int], row as int)) by {
                    assert(self.grasses@[row as int]@[column as int] == self.lawn()[row as int][column as int]);
                }
                return grown;
            }
        }
        false
    }

    /// Removes the plant on the tile at `coords` if the tile lies on the
    /// lawn and holds one, with the spade's sound.
    pub fn remove_plant(&mut self, coords: Option<(usize, usize)>, audio_outbox: &mut Vec<Command>)
        requires
            old(self).wf_at(coords),
        ensures
            final(self).wf(),
            final(self).bullets_pool == old(self).bullets_pool,
            final(self).sunshines_pool == old(self).sunshines_pool,
            final(self).cars_pool == old(self).cars_pool,
            (old(self).spec_select_grass(coords) matches Some((r, c))
                && old(self).grasses@[r as int]@[c as int].used) ==> ({
                let (r, c) = coords.unwrap();
                &&& final(self).cleared(*old(self), r as int, c as int)
                &&& events_view(final(audio_outbox)@) == events_view(old(audio_outbox)@).push(
                    sfx("/audio/remove_plant.mp3"@),
                )
            }),
            !(old(self).spec_select_grass(coords) matches Some((r, c))
                && old(self).grasses@[r as int]@[c as int].used) ==> final(self).grasses == old(
                self,
            ).grasses && final(audio_outbox)@ == old(audio_outbox)@,
    {
        if let (Some(row), Some(column)) = self.select_grass(coords) {
            if self.grasses[row][column].is_used() {
                let ghost old_lawn = self.lawn();
                let ghost g = self.grasses@[row as int]@[column as int];
                self.grasses[row][column].set_unused();
                push_sfx(audio_outbox, "/audio/remove_plant.mp3");
                assert(self.lawn() =~= old_lawn.update(
                    row as int,
                    old_lawn[row as int].update(
                        column as int,
                        Grass { used: false, plant: Plant { used: false, ..g.plant }, ..g },
                    ),
                ));
                assert forall|r: int, c: int| 0 <= r < ROW_NUM && 0 <= c < COLUMN_NUM implies grass_in_row(
                    #[trigger] self.grasses@[r]@[c],
                    r,
                ) by {
                    assert(self.grasses@[r]@[c] == self.lawn()[r][c]);
                }
            } else {
                assert forall|r: int, c: int| 0 <= r < ROW_NUM && 0 <= c < COLUMN_NUM implies grass_in_row(
                    #[trigger] self.grasses@[r]@[c],
                    r,
                ) by {
                    if r == row && c == column && !self.wf() {
                        assert(loose_tile(self.grasses@[r]@[c], r));
                    }
                }
            }
        }
    }

    /// The lawn after one frame of every tile (see `tile_after`).
    pub open spec fn lawn_after(&self, threats: Seq<Seq<bool>>) -> Seq<Seq<Grass>> {
        Seq::new(
            ROW_NUM as nat,
            |r: int| Seq::new(COLUMN_NUM as nat, |c: int| tile_after(self.lawn()[r][c], threats[r][c])),
        )
    }

    /// One frame of every plant; returns the tiles whose peashooter shoots
    /// and whose sunflower makes a sunshine, in row-major order.
    fn tick_plants(&mut self, threatened: &Vec<Vec<bool>>) -> (reqs: (Vec<(usize, usize)>, Vec<(usize, usize)>))
        requires
            old(self).wf(),
            threatened@.len() == ROW_NUM,
            forall|r: int| 0 <= r < ROW_NUM ==> #[trigger] threatened@[r]@.len() == COLUMN_NUM,
        ensures
            final(self).wf(),
            final(self).lawn() == old(self).lawn_after(flags_view(threatened@)),
            final(self).bullets_pool == old(self).bullets_pool,
            final(self).sunshines_pool == old(self).sunshines_pool,
            final(self).cars_pool == old(self).cars_pool,
            reqs.0@ == lawn_requests(old(self).lawn(), flags_view(threatened@), ROW_NUM as int, true),
            reqs.1@ == lawn_requests(old(self).lawn(), flags_view(threatened@), ROW_NUM as int, false),
    {
        let ghost old_self = *self;
        let ghost threats = flags_view(threatened@);
        let ghost lawn0 = old_self.lawn();
        let mut bullet_reqs: Vec<(usize, usize)> = Vec::new();
        let mut sunshine_reqs: Vec<(usize, usize)> = Vec::new();
        let mut r: usize = 0;
        while r < ROW_NUM
            invariant
                r <= ROW_NUM,
                threats == flags_view(threatened@),
                lawn0 == old_self.lawn(),
                old_self.wf(),
                threatened@.len() == ROW_NUM,
                forall|i: int| 0 <= i < ROW_NUM ==> #[trigger] threatened@[i]@.len() == COLUMN_NUM,
                self.grasses@.len() == ROW_NUM,
                forall|i: int| 0 <= i < ROW_NUM ==> #[trigger] self.grasses@[i]@.len() == COLUMN_NUM,
                forall|i: int, k: int|
                    0 <= i < r && 0 <= k < COLUMN_NUM ==> #[trigger] self.grasses@[i]@[k] == tile_after(
                        lawn0[i][k],
                        threats[i][k],
                    ),
                forall|i: int, k: int|
                    r <= i < ROW_NUM && 0 <= k < COLUMN_NUM ==> #[trigger] self.grasses@[i]@[k]
                        == lawn0[i][k],
                forall|i: int, k: int|
                    0 <= i < ROW_NUM && 0 <= k < COLUMN_NUM ==> grass_in_row(#[trigger] self.grasses@[i]@[k], i),
                self.bullets_pool == old_self.bullets_pool,
                self.sunshines_pool == old_self.sunshines_pool,
                self.cars_pool == old_self.cars_pool,
                bullet_reqs@ == lawn_requests(lawn0, threats, r as int, true),
                sunshine_reqs@ == lawn_requests(lawn0, threats, r as int, false),
            decreases ROW_NUM - r,
        {
            let mut c: usize = 0;
            let ghost breqs_row_start = bullet_reqs@;
            let ghost sreqs_row_start = sunshine_reqs@;
            while c < COLUMN_NUM
                invariant
                    r < ROW_NUM,
                    c <= COLUMN_NUM,
                    threats == flags_view(threatened@),
                    lawn0 == old_self.lawn(),
                    old_self.wf(),
                    threatened@.len() == ROW_NUM,
                    forall|i: int| 0 <= i < ROW_NUM ==> #[trigger] threatened@[i]@.len() == COLUMN_NUM,
                    self.grasses@.len() == ROW_NUM,
                    forall|i: int| 0 <= i < ROW_NUM ==> #[trigger] self.grasses@[i]@.len() == COLUMN_NUM,
                    forall|i: int, k: int|
                        0 <= i < r && 0 <= k < COLUMN_NUM ==> #[trigger] self.grasses@[i]@[k] == tile_after(
                            lawn0[i][k],
                            threats[i][k],
                        ),
                    forall|k: int|
                        0 <= k < c ==> #[trigger] self.grasses@[r as int]@[k] == tile_after(
                            lawn0[r as int][k],
                            threats[r as int][k],
                        ),
                    forall|k: int|
                        c <= k < COLUMN_NUM ==> #[trigger] self.grasses@[r as int]@[k] == lawn0[r as int][k],
                    forall|i: int, k: int|
                        r < i < ROW_NUM && 0 <= k < COLUMN_NUM ==> #[trigger] self.grasses@[i]@[k]
                            == lawn0[i][k],
                    forall|i: int, k: int|
                        0 <= i < ROW_NUM && 0 <= k < COLUMN_NUM ==> grass_in_row(#[trigger] self.grasses@[i]@[k], i),
                    self.bullets_pool == old_self.bullets_pool,
                    self.sunshines_pool == old_self.sunshines_pool,
                    self.cars_pool == old_self.cars_pool,
                    breqs_row_start == lawn_requests(lawn0, threats, r as int, true),
                    sreqs_row_start == lawn_requests(lawn0, threats, r as int, false),
                    bullet_reqs@ == breqs_row_start + row_requests(lawn0[r as int], threats[r as int], r as int, c as int, true),
                    sunshine_reqs@ == sreqs_row_start + row_requests(lawn0[r as int], threats[r as int], r as int, c as int, false),
                decreases COLUMN_NUM - c,
            {
                let ghost prev = self.grasses@;
                let ghost g0 = self.grasses@[r as int]@[c as int];
                assert(g0 == lawn0[r as int][c as int]);
                assert(grass_in_row(g0, r as int));
                if self.grasses[r][c].is_used() {
                    self.grasses[r][c].plant.update_status();
                    if self.grasses[r][c].plant.can_activate_skill() {
                        match self.grasses[r][c].plant.get_type() {
                            PlantType::Peashooter => {
                                if threatened[r][c] {
                                    bullet_reqs.push((r, c));
                                    self.grasses[r][c].plant.skill_cooldown();
                                }
                            },
                            PlantType::SunFlower => {
                                sunshine_reqs.push((r, c));
                                self.grasses[r][c].plant.skill_cooldown();
                            },
                            _ => {},
                        }
                    }
                }
                assert(self.grasses@[r as int]@[c as int] == tile_after(g0, threats[r as int][c as int]));
                assert(forall|i: int| 0 <= i < ROW_NUM && i != r ==> #[trigger] self.grasses@[i] == prev[i]);
                assert(forall|k: int| 0 <= k < COLUMN_NUM && k != c ==> #[trigger] self.grasses@[r as int]@[k] == prev[r as int]@[k]);
                proof {
                    let rr = r as int;
                    let cc = c as int;
                    assert(row_requests(lawn0[rr], threats[rr], rr, cc + 1, true) == (if wants_bullet(lawn0[rr][cc], threats[rr][cc]) {
                        row_requests(lawn0[rr], threats[rr], rr, cc, true).push((r, c))
                    } else {
                        row_requests(lawn0[rr], threats[rr], rr, cc, true)
                    }));
                    assert(row_requests(lawn0[rr], threats[rr], rr, cc + 1, false) == (if wants_sunshine(lawn0[rr][cc]) {
                        row_requests(lawn0[rr], threats[rr], rr, cc, false).push((r, c))
                    } else {
                        row_requests(lawn0[rr], threats[rr], rr, cc, false)
                    }));
                    assert(threats[rr][cc] == threatened@[rr]@[cc]);
                }
                c = c + 1;
            }
            proof {
                assert(lawn_requests(lawn0, threats, r as int + 1, true) == lawn_requests(lawn0, threats, r as int, true) + row_requests(lawn0[r as int], threats[r as int], r as int, COLUMN_NUM as int, true));
                assert(lawn_requests(lawn0, threats, r as int + 1, false) == lawn_requests(lawn0, threats, r as int, false) + row_requests(lawn0[r as int], threats[r as int], r as int, COLUMN_NUM as int, false));
            }
            r = r + 1;
        }
        assert(self.lawn() =~= old_self.lawn_after(threats)) by {
            assert forall|i: int| 0 <= i < ROW_NUM implies #[trigger] self.lawn()[i] =~= old_self.lawn_after(threats)[i] by {
                assert forall|k: int| 0 <= k < COLUMN_NUM implies #[trigger] self.lawn()[i][k] == old_self.lawn_after(threats)[i][k] by {
                    assert(self.grasses@[i]@[k] == tile_after(lawn0[i][k], threats[i][k]));
                }
            }
        }
        (bullet_reqs, sunshine_reqs)
    }
    /// Serves the shooting peashooters with free peas (see `fill_bullets`).
    fn fire_bullets(&mut self, reqs: &Vec<(usize, usize)>) -> (spawns: Vec<Spawn>)
        requires
            old(self).wf(),
            forall|j: int| 0 <= j < reqs@.len() ==> (#[trigger] reqs@[j]).0 < ROW_NUM && reqs@[j].1 < COLUMN_NUM,
        ensures
            final(self).wf(),
            (final(self).bullets_pool@, spawns@) == fill_bullets(old(self).bullets_pool@, reqs@),
            final(self).grasses == old(self).grasses,
            final(self).sunshines_pool == old(self).sunshines_pool,
            final(self).cars_pool == old(self).cars_pool,
    {
        let ghost old_self = *self;
        let mut spawns: Vec<Spawn> = Vec::new();
        let mut j: usize = 0;
        while j < reqs.len()
            invariant
                j <= reqs@.len(),
                forall|k: int| 0 <= k < reqs@.len() ==> (#[trigger] reqs@[k]).0 < ROW_NUM && reqs@[k].1 < COLUMN_NUM,
                self.wf(),
                (self.bullets_pool@, spawns@) == fill_bullets(old_self.bullets_pool@, reqs@.take(j as int)),
                self.grasses == old_self.grasses,
                self.sunshines_pool == old_self.sunshines_pool,
                self.cars_pool == old_self.cars_pool,
            decreases reqs@.len() - j,
        {
            let (r, c) = reqs[j];
            let ghost pool0 = self.bullets_pool@;
            let ghost spawns0 = spawns@;
            assert(reqs@.take(j as int + 1).drop_last() =~= reqs@.take(j as int));
            assert(reqs@.take(j as int + 1).last() == (r, c));
            proof {
                lemma_first_where_props(pool0, is_free_bullet());
            }
            match find_free_bullet(&self.bullets_pool) {
                Some(i) => {
                    assert(grass_in_row(self.grasses@[r as int]@[c as int], r as int));
                    let row = self.grasses[r][c].plant.get_row();
                    self.bullets_pool[i].init(row);
                    spawns.push(Spawn { pool_index: i, row: r, column: c });
                    assert(self.bullets_pool@ =~= pool0.update(i as int, pool0[i as int].spec_init(r as u32)));
                    assert(forall|k: int| 0 <= k < BULLETS_POOL_SIZE ==> #[trigger] self.bullets_pool@[k].wf()) by {
                        assert(forall|k: int| 0 <= k < BULLETS_POOL_SIZE ==> pool0[k].wf());
                    }
                },
                None => {},
            }
            j = j + 1;
        }
        assert(reqs@.take(reqs@.len() as int) =~= reqs@);
        spawns
    }

    /// Serves the sunflowers with free sunshines (see `fill_sunshines`).
    fn grow_sunshines(&mut self, reqs: &Vec<(usize, usize)>) -> (spawns: Vec<Spawn>)
        requires
            old(self).wf(),
            forall|j: int| 0 <= j < reqs@.len() ==> (#[trigger] reqs@[j]).0 < ROW_NUM && reqs@[j].1 < COLUMN_NUM,
        ensures
            final(self).wf(),
            exists|frames: Seq<usize>|
                frames.len() == reqs@.len() && (forall|k: int| 0 <= k < frames.len() ==> #[trigger] frames[k] < 29)
                    && (final(self).sunshines_pool@, spawns@) == fill_sunshines(old(self).sunshines_pool@, reqs@, frames),
            final(self).grasses == old(self).grasses,
            final(self).bullets_pool == old(self).bullets_pool,
            final(self).cars_pool == old(self).cars_pool,
    {
        let ghost old_self = *self;
        let ghost mut frames: Seq<usize> = seq![];
        let mut spawns: Vec<Spawn> = Vec::new();
        let mut j: usize = 0;
        while j < reqs.len()
            invariant
                j <= reqs@.len(),
                forall|k: int| 0 <= k < reqs@.len() ==> (#[trigger] reqs@[k]).0 < ROW_NUM && reqs@[k].1 < COLUMN_NUM,
                self.wf(),
                frames.len() == j,
                forall|k: int| 0 <= k < frames.len() ==> #[trigger] frames[k] < 29,
                (self.sunshines_pool@, spawns@) == fill_sunshines(old_self.sunshines_pool@, reqs@.take(j as int), frames),
                self.grasses == old_self.grasses,
                self.bullets_pool == old_self.bullets_pool,
                self.cars_pool == old_self.cars_pool,
            decreases reqs@.len() - j,
        {
            let (r, c) = reqs[j];
            let ghost pool0 = self.sunshines_pool@;
            let ghost frames0 = frames;
            assert(reqs@.take(j as int + 1).drop_last() =~= reqs@.take(j as int));
            assert(reqs@.take(j as int + 1).last() == (r, c));
            proof {
                lemma_first_where_props(pool0, is_free_sunshine());
            }
            match find_free_sunshine(&self.sunshines_pool) {
                Some(i) => {
                    self.sunshines_pool[i].init(SunshineType::CommonSunShine);
                    spawns.push(Spawn { pool_index: i, row: r, column: c });
                    proof {
                        let f = choose|f: usize| f < 29 && self.sunshines_pool@[i as int] == pool0[i as int].spec_init(SunshineType::CommonSunShine, f);
                        frames = frames.push(f);
                        assert(self.sunshines_pool@ =~= pool0.update(i as int, pool0[i as int].spec_init(SunshineType::CommonSunShine, f)));
                        assert forall|k: int| 0 <= k < SUNSHINES_POOL_SIZE implies #[trigger] self.sunshines_pool@[k].wf() by {
                            assert(pool0[k].wf());
                        }
                        assert(fill_sunshines(old_self.sunshines_pool@, reqs@.take(j as int), frames0) == fill_sunshines(old_self.sunshines_pool@, reqs@.take(j as int), frames)) by {
                            lemma_fill_sunshines_prefix(old_self.sunshines_pool@, reqs@.take(j as int), frames0, frames);
                        }
                    }
                },
                None => {
                    proof {
                        frames = frames.push(0);
                        lemma_fill_sunshines_prefix(old_self.sunshines_pool@, reqs@.take(j as int), frames0, frames);
                    }
                },
            }
            j = j + 1;
        }
        assert(reqs@.take(reqs@.len() as int) =~= reqs@);
        spawns
    }

    /// One frame of the plants: every living plant advances, ready
    /// peashooters whose row is threatened (`threatened[r][c]`: a living
    /// zombie ahead of the plant in its row, on screen) shoot a pea, and
    /// ready sunflowers make a sunshine, taken from the pools in row-major
    /// order while free ones remain.  Returns the peas shot and the
    /// sunshines made, for the caller to place at their plants.
    pub fn update_plants_status(&mut self, threatened: &Vec<Vec<bool>>) -> (spawns: (Vec<Spawn>, Vec<Spawn>))
        requires
            old(self).wf(),
            threatened@.len() == ROW_NUM,
            forall|r: int| 0 <= r < ROW_NUM ==> #[trigger] threatened@[r]@.len() == COLUMN_NUM,
        ensures
            final(self).wf(),
            final(self).lawn() == old(self).lawn_after(flags_view(threatened@)),
            (final(self).bullets_pool@, spawns.0@) == fill_bullets(
                old(self).bullets_pool@,
                lawn_requests(old(self).lawn(), flags_view(threatened@), ROW_NUM as int, true),
            ),
            exists|frames: Seq<usize>|
                (forall|k: int| 0 <= k < frames.len() ==> #[trigger] frames[k] < 29)
                    && (final(self).sunshines_pool@, spawns.1@) == fill_sunshines(
                    old(self).sunshines_pool@,
                    lawn_requests(old(self).lawn(), flags_view(threatened@), ROW_NUM as int, false),
                    frames,
                ),
            final(self).cars_pool == old(self).cars_pool,
    {
        let ghost old_self = *self;
        let (bullet_reqs, sunshine_reqs) = self.tick_plants(threatened);
        proof {
            lemma_requests_on_lawn(old_self.lawn(), flags_view(threatened@), ROW_NUM as int, true);
            lemma_requests_on_lawn(old_self.lawn(), flags_view(threatened@), ROW_NUM as int, false);
        }
        let bullets = self.fire_bullets(&bullet_reqs);
        let sunshines = self.grow_sunshines(&sunshine_reqs);
        (bullets, sunshines)
    }
    /// One frame of the peas (see `bullets_fold`): `hits[b][z]` tells whether
    /// pea `b`, once moved, touches zombie `z`.  Each hit plays a sound.
    pub fn undate_bullets_status(
        &mut self,
        zombies_manager: &mut ZombieManager,
        hits: &Vec<Vec<bool>>,
        audio_outbox: &mut Vec<Command>,
    )
        requires
            old(self).wf(),
            old(zombies_manager).wf(),
            hits@.len() == BULLETS_POOL_SIZE,
            forall|b: int|
                0 <= b < BULLETS_POOL_SIZE && old(self).bullets_pool@[b].used ==> #[trigger] hits@[b]@.len()
                    == ZOMBIEPOOLSIZE,
        ensures
            final(self).wf(),
            final(zombies_manager).wf(),
            ({
                let (bs, zs, sounds) = bullets_fold(
                    old(self).bullets_pool@,
                    old(zombies_manager).zm_pool@,
                    flags_view(hits@),
                    BULLETS_POOL_SIZE as int,
                );
                &&& final(self).bullets_pool@ == bs
                &&& final(zombies_manager).zm_pool@ == zs
                &&& events_view(final(audio_outbox)@) == events_view(old(audio_outbox)@) + sounds
            }),
            final(self).grasses == old(self).grasses,
            final(self).sunshines_pool == old(self).sunshines_pool,
            final(self).cars_pool == old(self).cars_pool,
            *final(zombies_manager) == (ZombieManager { zm_pool: final(zombies_manager).zm_pool, ..*old(zombies_manager) }),
    {
        let ghost hv = flags_view(hits@);
        let ghost bs0 = self.bullets_pool@;
        let ghost zs0 = zombies_manager.zm_pool@;
        let ghost out0 = events_view(audio_outbox@);
        let mut b: usize = 0;
        while b < self.bullets_pool.len()
            invariant
                b <= BULLETS_POOL_SIZE,
                self.wf(),
                pool_ok(zombies_manager.zm_pool@),
                hv == flags_view(hits@),
                hits@.len() == BULLETS_POOL_SIZE,
                forall|k: int|
                    0 <= k < BULLETS_POOL_SIZE && bs0[k].used ==> #[trigger] hits@[k]@.len() == ZOMBIEPOOLSIZE,
                forall|k: int| b <= k < BULLETS_POOL_SIZE ==> #[trigger] self.bullets_pool@[k] == bs0[k],
                ({
                    let (bs, zs, sounds) = bullets_fold(bs0, zs0, hv, b as int);
                    &&& self.bullets_pool@ == bs
                    &&& zombies_manager.zm_pool@ == zs
                    &&& events_view(audio_outbox@) == out0 + sounds
                }),
                self.grasses == old(self).grasses,
                self.sunshines_pool == old(self).sunshines_pool,
                self.cars_pool == old(self).cars_pool,
                *zombies_manager == (ZombieManager { zm_pool: zombies_manager.zm_pool, ..*old(zombies_manager) }),
            decreases BULLETS_POOL_SIZE - b,
        {
            let ghost bs_before = self.bullets_pool@;
            let ghost zs_before = zombies_manager.zm_pool@;
            let ghost out_before = events_view(audio_outbox@);
            let mut bullet = self.bullets_pool[b];
            assert(bullet == bs0[b as int]);
            assert(bullet.wf());
            let mut hit = false;
            if bullet.is_used() {
                bullet.update_status();
                if !bullet.is_dead() {
                    assert(hv[b as int] == hits@[b as int]@);
                    let ghost target = pea_target(zs_before, bullet.row, hv[b as int]);
                    let ghost b1 = bullet;
                    let mut z: usize = 0;
                    while z < zombies_manager.zm_pool.len() && !hit
                        invariant
                            z <= ZOMBIEPOOLSIZE,
                            b < BULLETS_POOL_SIZE,
                            hits@.len() == BULLETS_POOL_SIZE,
                            hits@[b as int]@.len() == ZOMBIEPOOLSIZE,
                            hv == flags_view(hits@),
                            pool_ok(zs_before),
                            pool_ok(zombies_manager.zm_pool@),
                            target == pea_target(zs_before, b1.row, hv[b as int]),
                            b1.used && !b1.dead && b1.wf(),
                            !hit ==> zombies_manager.zm_pool@ == zs_before && bullet == b1 && events_view(audio_outbox@) == out_before,
                            !hit ==> forall|j: int| 0 <= j < z ==> !#[trigger] target(j),
                            hit ==> ({
                                &&& first_index(ZOMBIEPOOLSIZE as int, target) matches Some(t)
                                &&& zombies_manager.zm_pool@ == zs_before.update(t, zs_before[t].spec_attacked(b1.damage))
                                &&& bullet == Bullet { dead: true, frame: 1, ..b1 }
                                &&& events_view(audio_outbox@) == out_before.push(sfx("/audio/bullet_zombie.mp3"@))
                            }),
                            *zombies_manager == (ZombieManager { zm_pool: zombies_manager.zm_pool, ..*old(zombies_manager) }),
                        decreases ZOMBIEPOOLSIZE - z,
                    {
                        let zombie = zombies_manager.zm_pool[z];
                        if zombie.is_used() && !zombie.is_dead() && zombie.get_row() == bullet.get_row() && hits[b][z] {
                            proof {
                                lemma_first_index_is(ZOMBIEPOOLSIZE as int, target, z as int);
                            }
                            assert(zombie.wf());
                            push_sfx(audio_outbox, "/audio/bullet_zombie.mp3");
                            bullet.become_dead_status();
                            let damage = bullet.get_damage();
                            zombies_manager.zm_pool[z].be_attacked(damage);
                            hit = true;
                            assert(zombies_manager.zm_pool@ =~= zs_before.update(z as int, zs_before[z as int].spec_attacked(damage)));
                            assert forall|k: int| 0 <= k < ZOMBIEPOOLSIZE implies (#[trigger] zombies_manager.zm_pool@[k]).wf()
                                && zombies_manager.zm_pool@[k].row < 5 by {
                                assert(zs_before[k].wf() && zs_before[k].row < 5);
                            }
                        }
                        z = z + 1;
                    }
                    if !hit {
                        proof {
                            lemma_first_index_none(ZOMBIEPOOLSIZE as int, target);
                        }
                    }
                }
            }
            self.bullets_pool[b] = bullet;
            assert(self.bullets_pool@ =~= bs_before.update(b as int, bullet));
            assert forall|k: int| 0 <= k < BULLETS_POOL_SIZE implies #[trigger] self.bullets_pool@[k].wf() by {
                assert(bs_before[k].wf());
            }
            b = b + 1;
        }
    }

    /// One frame of the mowers (see `cars_fold`): `hits[i][z]` tells whether
    /// mower `i` touches zombie `z`, `past_edge[i]` whether mower `i`, once
    /// moved, has passed the right edge of the screen.
    pub fn update_cars_status(&mut self, zombies_manager: &mut ZombieManager, hits: &Vec<Vec<bool>>, past_edge: &Vec<bool>)
        requires
            old(self).wf(),
            old(zombies_manager).wf(),
            hits@.len() == ROW_NUM,
            forall|i: int| 0 <= i < ROW_NUM ==> #[trigger] hits@[i]@.len() == ZOMBIEPOOLSIZE,
            past_edge@.len() == ROW_NUM,
        ensures
            final(self).wf(),
            final(zombies_manager).wf(),
            (final(self).cars_pool@, final(zombies_manager).zm_pool@) == cars_fold(
                old(self).cars_pool@,
                old(zombies_manager).zm_pool@,
                flags_view(hits@),
                past_edge@,
                ROW_NUM as int,
            ),
            final(self).grasses == old(self).grasses,
            final(self).bullets_pool == old(self).bullets_pool,
            final(self).sunshines_pool == old(self).sunshines_pool,
            *final(zombies_manager) == (ZombieManager { zm_pool: final(zombies_manager).zm_pool, ..*old(zombies_manager) }),
    {
        let ghost hv = flags_view(hits@);
        let ghost cs0 = self.cars_pool@;
        let ghost zs0 = zombies_manager.zm_pool@;
        let mut i: usize = 0;
        while i < self.cars_pool.len()
            invariant
                i <= ROW_NUM,
                self.wf(),
                pool_ok(zombies_manager.zm_pool@),
                hv == flags_view(hits@),
                hits@.len() == ROW_NUM,
                forall|k: int| 0 <= k < ROW_NUM ==> #[trigger] hits@[k]@.len() == ZOMBIEPOOLSIZE,
                past_edge@.len() == ROW_NUM,
                forall|k: int| i <= k < ROW_NUM ==> #[trigger] self.cars_pool@[k] == cs0[k],
                (self.cars_pool@, zombies_manager.zm_pool@) == cars_fold(cs0, zs0, hv, past_edge@, i as int),
                self.grasses == old(self).grasses,
                self.bullets_pool == old(self).bullets_pool,
                self.sunshines_pool == old(self).sunshines_pool,
                *zombies_manager == (ZombieManager { zm_pool: zombies_manager.zm_pool, ..*old(zombies_manager) }),
            decreases ROW_NUM - i,
        {
            let ghost cs_before = self.cars_pool@;
            let ghost zs_before = zombies_manager.zm_pool@;
            let mut car = self.cars_pool[i];
            assert(car == cs0[i as int]);
            assert(hv[i as int] == hits@[i as int]@);
            if car.is_used() {
                let ghost car0 = car;
                let mut z: usize = 0;
                while z < zombies_manager.zm_pool.len()
                    invariant
                        z <= ZOMBIEPOOLSIZE,
                        i < ROW_NUM,
                        hits@.len() == ROW_NUM,
                        hits@[i as int]@.len() == ZOMBIEPOOLSIZE,
                        hv == flags_view(hits@),
                        pool_ok(zombies_manager.zm_pool@),
                        (car, zombies_manager.zm_pool@) == car_sweep(car0, zs_before, hv[i as int], z as int),
                        zs_before.len() == ZOMBIEPOOLSIZE,
                        *zombies_manager == (ZombieManager { zm_pool: zombies_manager.zm_pool, ..*old(zombies_manager) }),
                    decreases ZOMBIEPOOLSIZE - z,
                {
                    let ghost zs_cur = zombies_manager.zm_pool@;
                    let zombie = zombies_manager.zm_pool[z];
                    if zombie.is_used() && !zombie.is_dead() && zombie.get_row() == car.get_row() && hits[i][z] {
                        match car.get_status() {
                            CarStatus::Stopping => {
                                car.become_running();
                            },
                            _ => {},
                        }
                        assert(zombie.wf() && zombie.row < 5);
                        zombies_manager.zm_pool[z].be_attacked(CAR_DAMAGE);
                        assert(zombies_manager.zm_pool@ =~= zs_cur.update(z as int, zs_cur[z as int].spec_attacked(CAR_DAMAGE)));
                        assert forall|k: int| 0 <= k < ZOMBIEPOOLSIZE implies (#[trigger] zombies_manager.zm_pool@[k]).wf()
                            && zombies_manager.zm_pool@[k].row < 5 by {
                            assert(zs_cur[k].wf() && zs_cur[k].row < 5);
                        }
                    }
                    z = z + 1;
                }
                car.update(past_edge[i]);
            }
            self.cars_pool[i] = car;
            assert(self.cars_pool@ =~= cs_before.update(i as int, car));
            i = i + 1;
        }
    }
    /// A click on the sunshines made by sunflowers (`inside[i]`: the click
    /// falls inside sunshine `i`).
    pub fn sunshines_check_click(&mut self, inside: &Vec<bool>)
        requires
            old(self).wf(),
            inside@.len() == SUNSHINES_POOL_SIZE,
        ensures
            final(self).wf(),
            final(self).sunshines_pool@ == pool_clicked(old(self).sunshines_pool@, inside@),
            final(self).grasses == old(self).grasses,
            final(self).bullets_pool == old(self).bullets_pool,
            final(self).cars_pool == old(self).cars_pool,
    {
        crate::my_trait::sunshines_check_click(&mut self.sunshines_pool, inside);
        assert forall|k: int| 0 <= k < SUNSHINES_POOL_SIZE implies #[trigger] self.sunshines_pool@[k].wf() by {
            assert(old(self).sunshines_pool@[k].wf());
        }
    }

    /// One frame of the sunshines made by sunflowers; returns the sunshine
    /// gained.
    pub fn update_sunshines_status(&mut self, collected: &Vec<bool>, reached: &Vec<bool>) -> (value: u32)
        requires
            old(self).wf(),
            collected@.len() == SUNSHINES_POOL_SIZE,
            reached@.len() == SUNSHINES_POOL_SIZE,
        ensures
            final(self).wf(),
            final(self).sunshines_pool@ == pool_ticked(old(self).sunshines_pool@, collected@, reached@),
            value == sunshine_gain(old(self).sunshines_pool@, collected@, reached@, SUNSHINES_POOL_SIZE as int),
            value <= SUNSHINES_POOL_SIZE * SUNSHINE_VALUE,
            final(self).grasses == old(self).grasses,
            final(self).bullets_pool == old(self).bullets_pool,
            final(self).cars_pool == old(self).cars_pool,
    {
        assert forall|k: int| 0 <= k < SUNSHINES_POOL_SIZE implies #[trigger] self.sunshines_pool@[k].tick_safe() by {
            assert(self.sunshines_pool@[k].wf());
        }
        crate::my_trait::update_sunshines_status(&mut self.sunshines_pool, collected, reached)
    }
}

/// Changing frames beyond those used does not change the filled pool.
proof fn lemma_fill_sunshines_prefix(pool: Seq<Sunshine>, reqs: Seq<(usize, usize)>, f1: Seq<usize>, f2: Seq<usize>)
    requires
        f1.len() >= reqs.len(),
        f2.len() >= reqs.len(),
        forall|k: int| 0 <= k < reqs.len() ==> f1[k] == f2[k],
    ensures
        fill_sunshines(pool, reqs, f1) == fill_sunshines(pool, reqs, f2),
    decreases reqs.len(),
{
    if reqs.len() > 0 {
        lemma_fill_sunshines_prefix(pool, reqs.drop_last(), f1, f2);
    }
}

/// The requested tiles lie on the lawn.
proof fn lemma_requests_on_lawn(lawn: Seq<Seq<Grass>>, threats: Seq<Seq<bool>>, m: int, bullet: bool)
    requires
        m <= ROW_NUM,
    ensures
        forall|j: int| 0 <= j < lawn_requests(lawn, threats, m, bullet).len() ==> (#[trigger] lawn_requests(lawn, threats, m, bullet)[j]).0 < ROW_NUM
            && lawn_requests(lawn, threats, m, bullet)[j].1 < COLUMN_NUM,
    decreases m,
{
    if m > 0 {
        lemma_requests_on_lawn(lawn, threats, m - 1, bullet);
        lemma_row_requests_on_lawn(lawn[m - 1], threats[m - 1], m - 1, COLUMN_NUM as int, bullet);
        let a = lawn_requests(lawn, threats, m - 1, bullet);
        let b = row_requests(lawn[m - 1], threats[m - 1], m - 1, COLUMN_NUM as int, bullet);
        assert forall|j: int| 0 <= j < (a + b).len() implies (#[trigger] (a + b)[j]).0 < ROW_NUM && (a + b)[j].1 < COLUMN_NUM by {
            if j < a.len() {
                assert((a + b)[j] == a[j]);
            } else {
                assert((a + b)[j] == b[j - a.len()]);
            }
        }
    }
}

proof fn lemma_row_requests_on_lawn(row: Seq<Grass>, threats: Seq<bool>, r: int, n: int, bullet: bool)
    requires
        0 <= r < ROW_NUM,
        n <= COLUMN_NUM,
    ensures
        forall|j: int| 0 <= j < row_requests(row, threats, r, n, bullet).len() ==> (#[trigger] row_requests(row, threats, r, n, bullet)[j]).0 == r
            && row_requests(row, threats, r, n, bullet)[j].1 < COLUMN_NUM,
    decreases n,
{
    if n > 0 {
        lemma_row_requests_on_lawn(row, threats, r, n - 1, bullet);
        let prev = row_requests(row, threats, r, n - 1, bullet);
        let cur = row_requests(row, threats, r, n, bullet);
        assert forall|j: int| 0 <= j < cur.len() implies (#[trigger] cur[j]).0 == r && cur[j].1 < COLUMN_NUM by {
            if j < prev.len() {
                assert(cur[j] == prev[j]);
            } else {
                assert(cur[j] == (r as usize, (n - 1) as usize));
            }
        }
    }
}

impl MapManager {
    /// The pool of sunshines.
    pub fn get_sunshines_pool(&self) -> (pool: &Vec<Sunshine>)
        ensures
            *pool == self.sunshines_pool,
    {
        &self.sunshines_pool
    }

    /// The pool of sunshines, to change.
    pub fn get_sunshines_pool_mut(&mut self) -> (pool: &mut Vec<Sunshine>)
        ensures
            *pool == old(self).sunshines_pool,
            *final(self) == (MapManager { sunshines_pool: *final(pool), ..*old(self) }),
    {
        &mut self.sunshines_pool
    }
}

/// Meeting zombies never stops a mower, nor takes it out of play, nor
/// moves it to another row.
proof fn lemma_sweep_keeps_car(car: Car, zs: Seq<Zombie>, hits: Seq<bool>, n: int)
    ensures
        car.status == CarStatus::Running ==> car_sweep(car, zs, hits, n).0.status == CarStatus::Running,
        car_sweep(car, zs, hits, n).0.used == car.used,
        car_sweep(car, zs, hits, n).0.row == car.row,
    decreases n,
{
    if n > 0 {
        lemma_sweep_keeps_car(car, zs, hits, n - 1);
    }
}

/// A mower runs on once started, and a mower out of play stays out.
pub proof fn lemma_mower_runs_on(car: Car, zs: Seq<Zombie>, hits: Seq<bool>, past_edge: bool)
    ensures
        car.status == CarStatus::Running ==> car_step(car, zs, hits, past_edge).0.status == CarStatus::Running,
        !car.used ==> !car_step(car, zs, hits, past_edge).0.used,
{
    lemma_sweep_keeps_car(car, zs, hits, zs.len() as int);
}

/// Growing a plant of any type, the no-plant type included, on a free tile
/// and then removing it leaves every tile taken or free as it was before,
/// and the tile holds the removed plant, no longer alive.  The lawn in
/// between is fit for the removal.
pub proof fn lemma_grow_then_remove(
    m0: MapManager,
    m1: MapManager,
    m2: MapManager,
    coords: Option<(usize, usize)>,
    t: PlantType,
)
    requires
        m0.wf(),
        m0.spec_select_grass(coords) matches Some((r, c)) && !m0.grasses@[r as int]@[c as int].used,
        m1.wf_except(coords.unwrap().0 as int, coords.unwrap().1 as int),
        m1.planted(m0, coords.unwrap().0 as int, coords.unwrap().1 as int, t),
        m2.cleared(m1, coords.unwrap().0 as int, coords.unwrap().1 as int),
    ensures
        m1.wf_at(coords),
        m1.spec_select_grass(coords) == m0.spec_select_grass(coords),
        m1.grasses@[coords.unwrap().0 as int]@[coords.unwrap().1 as int].used,
        forall|r: int, c: int|
            0 <= r < ROW_NUM && 0 <= c < COLUMN_NUM ==> (#[trigger] m2.lawn()[r][c]).used == m0.lawn()[r][c].used
                && m2.lawn()[r][c].plant.used == m0.lawn()[r][c].plant.used,
        ({
            let (r, c) = coords.unwrap();
            let g = m0.grasses@[r as int]@[c as int];
            m2.lawn() == m0.lawn_with(
                r as int,
                c as int,
                Grass { used: false, plant: Plant { used: false, ..g.plant.spec_init(t) }, ..g },
            )
        }),
{
    let (r, c) = coords.unwrap();
    let (ri, ci) = (r as int, c as int);
    assert(m1.lawn()[ri][ci] == m1.grasses@[ri]@[ci]);
    assert(m1.lawn().len() == ROW_NUM);
    assert(m1.grasses@.len() == m1.lawn().len());
    assert(m1.grasses@[ri]@.len() == m1.lawn()[ri].len());
    assert forall|r2: int, c2: int|
        0 <= r2 < ROW_NUM && 0 <= c2 < COLUMN_NUM implies (#[trigger] m2.lawn()[r2][c2]).used == m0.lawn()[r2][c2].used
            && m2.lawn()[r2][c2].plant.used == m0.lawn()[r2][c2].plant.used by {
        assert(m0.lawn()[r2][c2] == m0.grasses@[r2]@[c2]);
        assert(m0.lawn()[r2].len() == COLUMN_NUM);
        assert(m1.lawn()[r2].len() == COLUMN_NUM);
    }
    let g = m0.grasses@[ri]@[ci];
    let x = Grass { used: false, plant: Plant { used: false, ..g.plant.spec_init(t) }, ..g };
    assert(m0.lawn()[ri] == m0.grasses@[ri]@);
    assert(m1.grasses@[ri]@[ci] == (Grass { used: true, plant: g.plant.spec_init(t), ..g }));
    assert(m1.lawn()[ri].update(ci, x) =~= m0.lawn()[ri].update(ci, x));
    assert(m2.lawn() =~= m0.lawn_with(
        ri,
        ci,
        Grass { used: false, plant: Plant { used: false, ..g.plant.spec_init(t) }, ..g },
    ));
}

/// A peashooter spends its skill only on a frame in which it shoots: on a
/// frame with no zombie threatening it, it only advances, and a skill that
/// is ready stays stored, ready, for the frame a zombie comes; on a frame
/// with a threat and a ready skill it shoots, and its timer restarts at its
/// full 300 frames.
pub proof fn lemma_peashooter_holds_fire(g: Grass, threat: bool)
    requires
        g.used,
        g.plant.plant_type == PlantType::Peashooter,
    ensures
        wants_bullet(g, threat) == (threat && g.plant.spec_tick().can_activate_skill),
        !wants_bullet(g, threat) ==> tile_after(g, threat) == (Grass { plant: g.plant.spec_tick(), ..g }),
        !threat && g.plant.can_activate_skill && g.plant.skill_time == 0 ==> tile_after(
            g,
            threat,
        ).plant.can_activate_skill && tile_after(g, threat).plant.skill_time == 0,
        wants_bullet(g, threat) ==> !tile_after(g, threat).plant.can_activate_skill
            && tile_after(g, threat).plant.skill_time == 300,
        tile_after(g, threat).used,
{
}

/// The tile after `n` frames with no zombie threatening it.
pub open spec fn quiet_frames(g: Grass, n: nat) -> Grass
    decreases n,
{
    if n == 0 {
        g
    } else {
        tile_after(quiet_frames(g, (n - 1) as nat), false)
    }
}

/// Frames without a threat only advance a peashooter.
proof fn lemma_quiet_peashooter(g: Grass, n: nat)
    requires
        g.used,
        g.plant.plant_type == PlantType::Peashooter,
    ensures
        quiet_frames(g, n) == (Grass { plant: plant_ticks(g.plant, n), ..g }),
    decreases n,
{
    if n > 0 {
        lemma_quiet_peashooter(g, (n - 1) as nat);
        lemma_ticks_keep_plant(g.plant, (n - 1) as nat);
        lemma_peashooter_holds_fire(quiet_frames(g, (n - 1) as nat), false);
    }
}

/// Past its timer, a plant's skill stays ready while unused.
proof fn lemma_skill_stays_ready(p: Plant, n: nat)
    requires
        p.used,
        !p.can_activate_skill,
        0 < p.skill_time,
        n >= p.skill_time,
    ensures
        plant_ticks(p, n).can_activate_skill,
        plant_ticks(p, n).skill_time == 0,
    decreases n,
{
    if n == p.skill_time {
        lemma_skill_ready_on_time(p, n);
    } else {
        lemma_skill_stays_ready(p, (n - 1) as nat);
    }
}

/// A peashooter just grown, left without a threat for `n` frames, shoots
/// on the next frame if a zombie threatens it then exactly when `n` is at
/// least 299: its first pea can come on its 300th frame, and however long
/// it waited after that, the first zombie to come is shot at once.  It
/// never shoots on a frame without a threat.
pub proof fn lemma_first_pea_waits_for_a_zombie(g: Grass, n: nat)
    requires
        g.used,
        g.plant.used,
        g.plant.plant_type == PlantType::Peashooter,
        !g.plant.can_activate_skill,
        g.plant.skill_time == 300,
    ensures
        wants_bullet(quiet_frames(g, n), true) == (n >= 299),
        !wants_bullet(quiet_frames(g, n), false),
{
    lemma_quiet_peashooter(g, n);
    lemma_ticks_keep_plant(g.plant, n);
    lemma_peashooter_holds_fire(quiet_frames(g, n), true);
    lemma_peashooter_holds_fire(quiet_frames(g, n), false);
    assert(plant_ticks(g.plant, n).spec_tick() == plant_ticks(g.plant, n + 1));
    if n + 1 >= 300 {
        lemma_skill_stays_ready(g.plant, n + 1);
    } else {
        lemma_skill_ready_on_time(g.plant, n + 1);
    }
}

/// A zombie that a mower of row `row` runs over: in play, alive, in that
/// row, and touching the mower.
pub open spec fn run_over(z: Zombie, row: u32, hit: bool) -> bool {
    z.used && !z.dead && z.row == row && hit
}

/// A sweep over the first `n` zombies attacks exactly those of them that
/// the mower runs over.
proof fn lemma_sweep_zombies(car: Car, zs: Seq<Zombie>, hits: Seq<bool>, n: int)
    requires
        0 <= n <= zs.len(),
    ensures
        car_sweep(car, zs, hits, n).1.len() == zs.len(),
        forall|i: int|
            0 <= i < zs.len() ==> #[trigger] car_sweep(car, zs, hits, n).1[i] == if i < n && run_over(
                zs[i],
                car.row,
                hits[i],
            ) {
                zs[i].spec_attacked(CAR_DAMAGE)
            } else {
                zs[i]
            },
        (exists|i: int| 0 <= i < n && #[trigger] run_over(zs[i], car.row, hits[i])) ==> car_sweep(
            car,
            zs,
            hits,
            n,
        ).0.status == CarStatus::Running,
        (forall|i: int| 0 <= i < n ==> !#[trigger] run_over(zs[i], car.row, hits[i])) ==> car_sweep(
            car,
            zs,
            hits,
            n,
        ).0 == car,
    decreases n,
{
    if n > 0 {
        lemma_sweep_zombies(car, zs, hits, n - 1);
        lemma_sweep_keeps_car(car, zs, hits, n - 1);
        let (c, z) = car_sweep(car, zs, hits, n - 1);
        assert(z[n - 1] == zs[n - 1]);
        if forall|i: int| 0 <= i < n ==> !#[trigger] run_over(zs[i], car.row, hits[i]) {
            assert(!run_over(zs[n - 1], car.row, hits[n - 1]));
        }
        if exists|i: int| 0 <= i < n && #[trigger] run_over(zs[i], car.row, hits[i]) {
            let i = choose|i: int| 0 <= i < n && #[trigger] run_over(zs[i], car.row, hits[i]);
            if i < n - 1 {
                assert(c.status == CarStatus::Running);
            }
        }
    }
}

/// A mower in play, whether waiting or already running, runs over every
/// zombie in play and alive in its row that touches it: such a zombie takes
/// `CAR_DAMAGE` and, being a well-formed zombie, dies; every other zombie
/// is left as it was, and a mower that runs a zombie over is running.
pub proof fn lemma_mower_runs_over(car: Car, zs: Seq<Zombie>, hits: Seq<bool>, past_edge: bool)
    requires
        car.used,
    ensures
        car_step(car, zs, hits, past_edge).1.len() == zs.len(),
        forall|i: int|
            0 <= i < zs.len() ==> #[trigger] car_step(car, zs, hits, past_edge).1[i] == if run_over(
                zs[i],
                car.row,
                hits[i],
            ) {
                zs[i].spec_attacked(CAR_DAMAGE)
            } else {
                zs[i]
            },
        forall|i: int|
            0 <= i < zs.len() && run_over(zs[i], car.row, hits[i]) && zs[i].wf() ==> (#[trigger] car_step(
                car,
                zs,
                hits,
                past_edge,
            ).1[i]).dead,
        (exists|i: int| 0 <= i < zs.len() && #[trigger] run_over(zs[i], car.row, hits[i])) ==> car_step(
            car,
            zs,
            hits,
            past_edge,
        ).0.status == CarStatus::Running,
{
    lemma_sweep_zombies(car, zs, hits, zs.len() as int);
}

/// A flying pea hits the first zombie of the pool, in pool order, that is
/// in play, alive, in the pea's row and touching it: only that zombie takes
/// the pea's damage, the pea bursts, and the hit is reported.
pub proof fn lemma_pea_hits_first(b: Bullet, zs: Seq<Zombie>, hits: Seq<bool>, i: int)
    requires
        b.used,
        !b.dead,
        0 <= i < zs.len(),
        zs[i].used && !zs[i].dead && zs[i].row == b.row && hits[i],
        forall|j: int| 0 <= j < i ==> !(#[trigger] zs[j].used && !zs[j].dead && zs[j].row == b.row && hits[j]),
    ensures
        bullet_step(b, zs, hits) == (
            Bullet { dead: true, frame: 1, ..b },
            zs.update(i, zs[i].spec_attacked(b.damage)),
            true,
        ),
{
    lemma_first_index_is(zs.len() as int, pea_target(zs, b.row, hits), i);
}

/// A pea that touches no zombie in play and alive in its row flies on
/// without hitting anything, and a burst pea hits nothing: the zombies are
/// left as they were.
pub proof fn lemma_pea_misses(b: Bullet, zs: Seq<Zombie>, hits: Seq<bool>)
    requires
        b.dead || forall|j: int|
            0 <= j < zs.len() ==> !(#[trigger] zs[j].used && !zs[j].dead && zs[j].row == b.row && hits[j]),
    ensures
        bullet_step(b, zs, hits).1 == zs,
        !bullet_step(b, zs, hits).2,
        b.used && !b.dead ==> bullet_step(b, zs, hits).0 == b,
{
    if b.used && !b.dead {
        lemma_first_index_none(zs.len() as int, pea_target(zs, b.row, hits));
    }
}

/// A sunflower uses its skill whenever it is ready, zombie or not, and its
/// timer restarts at its full 1500 frames; a wall-nut has no skill and only
/// advances; an empty tile is left as it is and asks for nothing.  No tile
/// but a peashooter's asks for a pea, and none but a sunflower's for a
/// sunshine.
pub proof fn lemma_other_tiles(g: Grass, threat: bool)
    ensures
        !g.used ==> tile_after(g, threat) == g && !wants_bullet(g, threat) && !wants_sunshine(g),
        g.plant.plant_type != PlantType::Peashooter ==> !wants_bullet(g, threat),
        g.plant.plant_type != PlantType::SunFlower ==> !wants_sunshine(g),
        g.used && g.plant.plant_type == PlantType::SunFlower ==> {
            &&& wants_sunshine(g) == g.plant.spec_tick().can_activate_skill
            &&& tile_after(g, true) == tile_after(g, false)
            &&& wants_sunshine(g) ==> tile_after(g, threat).plant.skill_time == 1500
                && !tile_after(g, threat).plant.can_activate_skill
            &&& !wants_sunshine(g) ==> tile_after(g, threat) == (Grass { plant: g.plant.spec_tick(), ..g })
        },
        g.used && g.plant.plant_type == PlantType::WallNut ==> tile_after(g, threat) == (Grass {
            plant: g.plant.spec_tick(),
            ..g
        }),
{
}

/// The tiles among the first `n` of a row that ask for a pea (`bullet`)
/// or a sunshine are exactly those whose plant wants to.
proof fn lemma_row_requests_members(row: Seq<Grass>, threats: Seq<bool>, r: int, n: int, bullet: bool)
    requires
        0 <= r < ROW_NUM,
        0 <= n <= COLUMN_NUM,
    ensures
        forall|rc: (usize, usize)|
            #[trigger] row_requests(row, threats, r, n, bullet).contains(rc) <==> (rc.0 == r && rc.1 < n && (if bullet {
                wants_bullet(row[rc.1 as int], threats[rc.1 as int])
            } else {
                wants_sunshine(row[rc.1 as int])
            })),
    decreases n,
{
    if n > 0 {
        lemma_row_requests_members(row, threats, r, n - 1, bullet);
        let prev = row_requests(row, threats, r, n - 1, bullet);
        assert forall|rc: (usize, usize)|
            #[trigger] row_requests(row, threats, r, n, bullet).contains(rc) <==> (rc.0 == r && rc.1 < n && (if bullet {
                wants_bullet(row[rc.1 as int], threats[rc.1 as int])
            } else {
                wants_sunshine(row[rc.1 as int])
            })) by {
            if rc.0 == r && rc.1 == n - 1 {
                assert(!prev.contains(rc));
            }
            if row_requests(row, threats, r, n, bullet) != prev {
                assert(row_requests(row, threats, r, n, bullet) == prev.push((r as usize, (n - 1) as usize)));
                if prev.contains(rc) {
                    let j = choose|j: int| 0 <= j < prev.len() && prev[j] == rc;
                    assert(row_requests(row, threats, r, n, bullet)[j] == rc);
                }
                if rc == (r as usize, (n - 1) as usize) {
                    assert(row_requests(row, threats, r, n, bullet)[prev.len() as int] == rc);
                }
            }
        }
    }
}

/// In a frame, the tiles that ask for a pea are exactly those holding a
/// peashooter whose skill is ready and whose row is threatened, and the
/// tiles that ask for a sunshine exactly those holding a sunflower whose
/// skill is ready: none is left out and none is added.
pub proof fn lemma_requests_members(lawn: Seq<Seq<Grass>>, threats: Seq<Seq<bool>>, m: int, bullet: bool)
    requires
        0 <= m <= ROW_NUM,
    ensures
        forall|rc: (usize, usize)|
            #[trigger] lawn_requests(lawn, threats, m, bullet).contains(rc) <==> (rc.0 < m && rc.1 < COLUMN_NUM && (
            if bullet {
                wants_bullet(lawn[rc.0 as int][rc.1 as int], threats[rc.0 as int][rc.1 as int])
            } else {
                wants_sunshine(lawn[rc.0 as int][rc.1 as int])
            })),
    decreases m,
{
    if m > 0 {
        lemma_requests_members(lawn, threats, m - 1, bullet);
        lemma_row_requests_members(lawn[m - 1], threats[m - 1], m - 1, COLUMN_NUM as int, bullet);
        let a = lawn_requests(lawn, threats, m - 1, bullet);
        let b = row_requests(lawn[m - 1], threats[m - 1], m - 1, COLUMN_NUM as int, bullet);
        assert forall|rc: (usize, usize)| #[trigger] (a + b).contains(rc) <==> (a.contains(rc) || b.contains(rc)) by {
            if a.contains(rc) {
                let j = choose|j: int| 0 <= j < a.len() && a[j] == rc;
                assert((a + b)[j] == rc);
            }
            if b.contains(rc) {
                let j = choose|j: int| 0 <= j < b.len() && b[j] == rc;
                assert((a + b)[a.len() + j] == rc);
            }
            if (a + b).contains(rc) {
                let j = choose|j: int| 0 <= j < (a + b).len() && (a + b)[j] == rc;
                if j < a.len() {
                    assert(a[j] == rc);
                } else {
                    assert(b[j - a.len()] == rc);
                }
            }
        }
    }
}

/// A waiting mower that no zombie reaches keeps waiting where it is, even
/// at the screen's edge; a running mower moves on, and leaves play once it
/// has passed the right edge of the screen, not before.
pub proof fn lemma_mower_waits_then_leaves(car: Car, zs: Seq<Zombie>, hits: Seq<bool>, past_edge: bool)
    requires
        car.used,
    ensures
        car.status == CarStatus::Stopping && (forall|i: int|
            0 <= i < zs.len() ==> !#[trigger] run_over(zs[i], car.row, hits[i])) ==> car_step(
            car,
            zs,
            hits,
            past_edge,
        ).0 == car,
        car_step(car, zs, hits, past_edge).0.status == CarStatus::Running ==> car_step(
            car,
            zs,
            hits,
            past_edge,
        ).0.used == !past_edge,
        car_step(car, zs, hits, past_edge).0.row == car.row,
{
    lemma_sweep_zombies(car, zs, hits, zs.len() as int);
    lemma_sweep_keeps_car(car, zs, hits, zs.len() as int);
}

/// Peas go to the first free slots of the pool, in order: the `j`-th
/// shooting peashooter (in the order of the requests) gets the free slot
/// with `j` free slots before it, a pea of its row, while free slots last;
/// the spawns follow the requests, one per request as long as free slots
/// last; every slot in use, and every free slot past the requests, is left
/// as it was.
pub proof fn lemma_peas_take_first_free(pool: Seq<Bullet>, reqs: Seq<(usize, usize)>)
    requires
        pool.len() <= usize::MAX,
    ensures
        fill_bullets(pool, reqs).0.len() == pool.len(),
        forall|i: int|
            0 <= i < pool.len() ==> {
                let k = count_where(pool, is_free_bullet(), i);
                #[trigger] fill_bullets(pool, reqs).0[i] == if !pool[i].used && k < reqs.len() {
                    pool[i].spec_init(reqs[k].0 as u32)
                } else {
                    pool[i]
                }
            },
        fill_bullets(pool, reqs).1.len() == if reqs.len() <= count_where(pool, is_free_bullet(), pool.len() as int) {
            reqs.len() as int
        } else {
            count_where(pool, is_free_bullet(), pool.len() as int)
        },
        forall|j: int|
            0 <= j < fill_bullets(pool, reqs).1.len() ==> {
                let sp = #[trigger] fill_bullets(pool, reqs).1[j];
                &&& sp.row == reqs[j].0 && sp.column == reqs[j].1
                &&& sp.pool_index < pool.len()
                &&& !pool[sp.pool_index as int].used
                &&& count_where(pool, is_free_bullet(), sp.pool_index as int) == j
            },
    decreases reqs.len(),
{
    let fr = is_free_bullet();
    let total = count_where(pool, fr, pool.len() as int);
    lemma_count_where_range(pool, fr, pool.len() as int);
    if reqs.len() == 0 {
        assert forall|i: int| 0 <= i < pool.len() implies count_where(pool, fr, i) >= reqs.len() by {
            lemma_count_where_range(pool, fr, i);
        }
    } else {
        let n = reqs.len() as int;
        let rs = reqs.drop_last();
        lemma_peas_take_first_free(pool, rs);
        let (p, sp) = fill_bullets(pool, rs);
        lemma_first_where_props(p, fr);
        assert forall|i: int| 0 <= i < pool.len() implies (!(#[trigger] p[i]).used <==> (!pool[i].used
            && count_where(pool, fr, i) >= n - 1)) by {
            lemma_count_where_range(pool, fr, i);
            if !pool[i].used && count_where(pool, fr, i) < n - 1 {
                assert(rs[count_where(pool, fr, i)] == reqs[count_where(pool, fr, i)]);
            }
        }
        assert forall|j: int| 0 <= j < sp.len() implies #[trigger] rs[j] == reqs[j] by {}
        let q = fill_bullets(pool, reqs);
        match first_where(p, fr) {
            Some(f) => {
                assert(!p[f].used);
                if count_where(pool, fr, f) > n - 1 {
                    lemma_count_where_hits(pool, fr, f, n - 1);
                    let j = choose|j: int| 0 <= j < f && fr(pool[j]) && #[trigger] count_where(pool, fr, j) == n - 1;
                    assert(!p[j].used);
                }
                assert(count_where(pool, fr, f) == n - 1);
                assert(p[f] == pool[f]);
                lemma_count_where_mono(pool, fr, f, pool.len() as int);
                assert(sp.len() == n - 1);
                assert(q.0 == p.update(f, p[f].spec_init(reqs.last().0 as u32)));
                assert(q.1 == sp.push(Spawn { pool_index: f as usize, row: reqs.last().0, column: reqs.last().1 }));
                assert(reqs.last() == reqs[n - 1]);
                assert forall|i: int| 0 <= i < pool.len() implies #[trigger] q.0[i] == if !pool[i].used
                    && count_where(pool, fr, i) < n {
                    pool[i].spec_init(reqs[count_where(pool, fr, i)].0 as u32)
                } else {
                    pool[i]
                } by {
                    lemma_count_where_range(pool, fr, i);
                    if i == f {
                        assert(p[f] == pool[f]);
                    } else {
                        if !pool[i].used {
                            if i < f {
                                lemma_count_where_mono(pool, fr, i, f);
                            } else {
                                lemma_count_where_mono(pool, fr, f, i);
                            }
                        }
                        if !pool[i].used && count_where(pool, fr, i) < n - 1 {
                            assert(rs[count_where(pool, fr, i)] == reqs[count_where(pool, fr, i)]);
                        }
                    }
                }
                assert forall|j: int| 0 <= j < q.1.len() implies {
                    let s1 = #[trigger] q.1[j];
                    &&& s1.row == reqs[j].0 && s1.column == reqs[j].1
                    &&& s1.pool_index < pool.len()
                    &&& !pool[s1.pool_index as int].used
                    &&& count_where(pool, fr, s1.pool_index as int) == j
                } by {
                    if j < n - 1 {
                        assert(q.1[j] == sp[j]);
                        let s0 = sp[j];
                        assert(rs[j] == reqs[j]);
                    } else {
                        assert(q.1[j] == Spawn { pool_index: f as usize, row: reqs[n - 1].0, column: reqs[n - 1].1 });
                    }
                }
            },
            None => {
                if total > n - 1 {
                    lemma_count_where_hits(pool, fr, pool.len() as int, n - 1);
                    let j = choose|j: int| 0 <= j < pool.len() && fr(pool[j]) && #[trigger] count_where(pool, fr, j) == n - 1;
                    assert(!p[j].used);
                }
                assert(q.0 == p && q.1 == sp);
                assert forall|i: int| 0 <= i < pool.len() implies #[trigger] q.0[i] == if !pool[i].used
                    && count_where(pool, fr, i) < n {
                    pool[i].spec_init(reqs[count_where(pool, fr, i)].0 as u32)
                } else {
                    pool[i]
                } by {
                    lemma_count_where_range(pool, fr, i);
                    if !pool[i].used {
                        assert(!p[i].used ==> false);
                        assert(rs[count_where(pool, fr, i)] == reqs[count_where(pool, fr, i)]);
                    }
                }
            },
        }
    }
}

/// Sunflowers' sunshines go to the first free slots of the pool, in order:
/// the `j`-th sunflower (in the order of the requests) gets the free slot
/// with `j` free slots before it, a new common sunshine starting at frame
/// `frames[j]`, while free slots last;
/// the spawns follow the requests, one per request as long as free slots
/// last; every slot in use, and every free slot past the requests, is left
/// as it was.
pub proof fn lemma_sunshines_take_first_free(pool: Seq<Sunshine>, reqs: Seq<(usize, usize)>, frames: Seq<usize>)
    requires
        pool.len() <= usize::MAX,
    ensures
        fill_sunshines(pool, reqs, frames).0.len() == pool.len(),
        forall|i: int|
            0 <= i < pool.len() ==> {
                let k = count_where(pool, is_free_sunshine(), i);
                #[trigger] fill_sunshines(pool, reqs, frames).0[i] == if !pool[i].used && k < reqs.len() {
                    pool[i].spec_init(SunshineType::CommonSunShine, frames[k])
                } else {
                    pool[i]
                }
            },
        fill_sunshines(pool, reqs, frames).1.len() == if reqs.len() <= count_where(pool, is_free_sunshine(), pool.len() as int) {
            reqs.len() as int
        } else {
            count_where(pool, is_free_sunshine(), pool.len() as int)
        },
        forall|j: int|
            0 <= j < fill_sunshines(pool, reqs, frames).1.len() ==> {
                let sp = #[trigger] fill_sunshines(pool, reqs, frames).1[j];
                &&& sp.row == reqs[j].0 && sp.column == reqs[j].1
                &&& sp.pool_index < pool.len()
                &&& !pool[sp.pool_index as int].used
                &&& count_where(pool, is_free_sunshine(), sp.pool_index as int) == j
            },
    decreases reqs.len(),
{
    let fr = is_free_sunshine();
    let total = count_where(pool, fr, pool.len() as int);
    lemma_count_where_range(pool, fr, pool.len() as int);
    if reqs.len() == 0 {
        assert forall|i: int| 0 <= i < pool.len() implies count_where(pool, fr, i) >= reqs.len() by {
            lemma_count_where_range(pool, fr, i);
        }
    } else {
        let n = reqs.len() as int;
        let rs = reqs.drop_last();
        lemma_sunshines_take_first_free(pool, rs, frames);
        let (p, sp) = fill_sunshines(pool, rs, frames);
        lemma_first_where_props(p, fr);
        assert forall|i: int| 0 <= i < pool.len() implies (!(#[trigger] p[i]).used <==> (!pool[i].used
            && count_where(pool, fr, i) >= n - 1)) by {
            lemma_count_where_range(pool, fr, i);
            if !pool[i].used && count_where(pool, fr, i) < n - 1 {
                assert(rs[count_where(pool, fr, i)] == reqs[count_where(pool, fr, i)]);
            }
        }
        assert forall|j: int| 0 <= j < sp.len() implies #[trigger] rs[j] == reqs[j] by {}
        let q = fill_sunshines(pool, reqs, frames);
        match first_where(p, fr) {
            Some(f) => {
                assert(!p[f].used);
                if count_where(pool, fr, f) > n - 1 {
                    lemma_count_where_hits(pool, fr, f, n - 1);
                    let j = choose|j: int| 0 <= j < f && fr(pool[j]) && #[trigger] count_where(pool, fr, j) == n - 1;
                    assert(!p[j].used);
                }
                assert(count_where(pool, fr, f) == n - 1);
                assert(p[f] == pool[f]);
                lemma_count_where_mono(pool, fr, f, pool.len() as int);
                assert(sp.len() == n - 1);
                assert(q.0 == p.update(f, p[f].spec_init(SunshineType::CommonSunShine, frames[n - 1])));
                assert(q.1 == sp.push(Spawn { pool_index: f as usize, row: reqs.last().0, column: reqs.last().1 }));
                assert(reqs.last() == reqs[n - 1]);
                assert forall|i: int| 0 <= i < pool.len() implies #[trigger] q.0[i] == if !pool[i].used
                    && count_where(pool, fr, i) < n {
                    pool[i].spec_init(SunshineType::CommonSunShine, frames[count_where(pool, fr, i)])
                } else {
                    pool[i]
                } by {
                    lemma_count_where_range(pool, fr, i);
                    if i == f {
                        assert(p[f] == pool[f]);
                    } else {
                        if !pool[i].used {
                            if i < f {
                                lemma_count_where_mono(pool, fr, i, f);
                            } else {
                                lemma_count_where_mono(pool, fr, f, i);
                            }
                        }
                        if !pool[i].used && count_where(pool, fr, i) < n - 1 {
                            assert(rs[count_where(pool, fr, i)] == reqs[count_where(pool, fr, i)]);
                        }
                    }
                }
                assert forall|j: int| 0 <= j < q.1.len() implies {
                    let s1 = #[trigger] q.1[j];
                    &&& s1.row == reqs[j].0 && s1.column == reqs[j].1
                    &&& s1.pool_index < pool.len()
                    &&& !pool[s1.pool_index as int].used
                    &&& count_where(pool, fr, s1.pool_index as int) == j
                } by {
                    if j < n - 1 {
                        assert(q.1[j] == sp[j]);
                        let s0 = sp[j];
                        assert(rs[j] == reqs[j]);
                    } else {
                        assert(q.1[j] == Spawn { pool_index: f as usize, row: reqs[n - 1].0, column: reqs[n - 1].1 });
                    }
                }
            },
            None => {
                if total > n - 1 {
                    lemma_count_where_hits(pool, fr, pool.len() as int, n - 1);
                    let j = choose|j: int| 0 <= j < pool.len() && fr(pool[j]) && #[trigger] count_where(pool, fr, j) == n - 1;
                    assert(!p[j].used);
                }
                assert(q.0 == p && q.1 == sp);
                assert forall|i: int| 0 <= i < pool.len() implies #[trigger] q.0[i] == if !pool[i].used
                    && count_where(pool, fr, i) < n {
                    pool[i].spec_init(SunshineType::CommonSunShine, frames[count_where(pool, fr, i)])
                } else {
                    pool[i]
                } by {
                    lemma_count_where_range(pool, fr, i);
                    if !pool[i].used {
                        assert(!p[i].used ==> false);
                        assert(rs[count_where(pool, fr, i)] == reqs[count_where(pool, fr, i)]);
                    }
                }
            },
        }
    }
}

} // verus!
