use vstd::prelude::*;

use crate::entities::sunshine::Sunshine;

verus! {

/// Sunshine a collected sunshine is worth.
pub const SUNSHINE_VALUE: u32 = 50;

/// The pool after a click: each sunshine on screen that the click falls
/// inside (`inside[i]`) is caught.
pub open spec fn pool_clicked(pool: Seq<Sunshine>, inside: Seq<bool>) -> Seq<Sunshine> {
    Seq::new(
        pool.len(),
        |i: int|
            if pool[i].used {
                Sunshine { be_clicked: pool[i].be_clicked || inside[i], ..pool[i] }
            } else {
                pool[i]
            },
    )
}

/// The pool after one frame of every sunshine (see `Sunshine::spec_tick`).
pub open spec fn pool_ticked(pool: Seq<Sunshine>, collected: Seq<bool>, reached: Seq<bool>) -> Seq<Sunshine> {
    Seq::new(pool.len(), |i: int| pool[i].spec_tick(collected[i], reached[i]))
}

/// Sunshine gained in one frame from the first `n` sunshines of the pool:
/// `SUNSHINE_VALUE` for each caught sunshine that reached the counter.
pub open spec fn sunshine_gain(pool: Seq<Sunshine>, collected: Seq<bool>, reached: Seq<bool>, n: int) -> nat
    decreases n,
{
    if n <= 0 {
        0
    } else {
        let s = pool[n - 1];
        let gained = if s.used && s.be_clicked && !s.spec_tick(collected[n - 1], reached[n - 1]).used {
            SUNSHINE_VALUE as nat
        } else {
            0
        };
        sunshine_gain(pool, collected, reached, n - 1) + gained
    }
}

/// A frame brings sunshine in units of `SUNSHINE_VALUE`, at most one unit
/// for each sunshine of the pool.
pub proof fn lemma_gain_bound(pool: Seq<Sunshine>, collected: Seq<bool>, reached: Seq<bool>, n: int)
    requires
        n >= 0,
    ensures
        sunshine_gain(pool, collected, reached, n) <= SUNSHINE_VALUE * n,
        sunshine_gain(pool, collected, reached, n) % (SUNSHINE_VALUE as nat) == 0,
    decreases n,
{
    if n > 0 {
        lemma_gain_bound(pool, collected, reached, n - 1);
    }
}

/// A click catches exactly the sunshines on screen that it falls inside;
/// a caught sunshine stays caught, a sunshine off screen is never caught,
/// and nothing else about any sunshine changes.
pub proof fn lemma_click_catches(pool: Seq<Sunshine>, inside: Seq<bool>)
    ensures
        pool_clicked(pool, inside).len() == pool.len(),
        forall|i: int|
            0 <= i < pool.len() ==> (#[trigger] pool_clicked(pool, inside)[i]).be_clicked == (pool[i].be_clicked || (
            pool[i].used && inside[i])),
        forall|i: int|
            0 <= i < pool.len() ==> #[trigger] pool_clicked(pool, inside)[i] == (Sunshine {
                be_clicked: pool_clicked(pool, inside)[i].be_clicked,
                ..pool[i]
            }),
{
}

/// A sunshine is worth `SUNSHINE_VALUE` to a frame exactly when it was
/// on screen, caught by a click before the frame, and reached the counter
/// in the frame: a sunshine never clicked brings nothing, even when it
/// fades away, and neither does a clicked one still on its way.  So a
/// frame with no caught sunshine, or none reaching the counter, brings
/// nothing.
pub proof fn lemma_gain_counts_caught(pool: Seq<Sunshine>, collected: Seq<bool>, reached: Seq<bool>, n: int)
    requires
        0 <= n,
    ensures
        sunshine_gain(pool, collected, reached, 0) == 0,
        forall|i: int|
            0 <= i < n ==> #[trigger] sunshine_gain(pool, collected, reached, i + 1) == sunshine_gain(
                pool,
                collected,
                reached,
                i,
            ) + if pool[i].used && pool[i].be_clicked && collected[i] {
                SUNSHINE_VALUE as nat
            } else {
                0
            },
        (forall|i: int| 0 <= i < n ==> !(#[trigger] pool[i].used && pool[i].be_clicked && collected[i]))
            ==> sunshine_gain(pool, collected, reached, n) == 0,
    decreases n,
{
    if n > 0 {
        lemma_gain_counts_caught(pool, collected, reached, n - 1);
        if forall|i: int| 0 <= i < n ==> !(#[trigger] pool[i].used && pool[i].be_clicked && collected[i]) {
            assert(!(pool[n - 1].used && pool[n - 1].be_clicked && collected[n - 1]));
        }
    }
}

/// A click on the lawn: every sunshine on screen that the click falls
/// inside is caught.
pub fn sunshines_check_click(pool: &mut Vec<Sunshine>, inside: &Vec<bool>)
    requires
        inside@.len() == old(pool)@.len(),
    ensures
        final(pool)@ == pool_clicked(old(pool)@, inside@),
{
    let ghost pool0 = pool@;
    let mut i: usize = 0;
    while i < pool.len()
        invariant
            i <= pool@.len(),
            pool@.len() == pool0.len(),
            inside@.len() == pool0.len(),
            forall|k: int| 0 <= k < i ==> #[trigger] pool@[k] == pool_clicked(pool0, inside@)[k],
            forall|k: int| i <= k < pool@.len() ==> #[trigger] pool@[k] == pool0[k],
        decreases pool@.len() - i,
    {
        if pool[i].is_used() {
            pool[i].check_clicked(inside[i]);
        }
        i = i + 1;
    }
    assert(pool@ =~= pool_clicked(pool0, inside@));
}

/// One frame of every sunshine of the pool (`collected[i]`: sunshine `i`
/// reached the counter, `reached[i]`: it came down to its resting height);
/// returns the sunshine gained (see `sunshine_gain`).
pub fn update_sunshines_status(pool: &mut Vec<Sunshine>, collected: &Vec<bool>, reached: &Vec<bool>) -> (value: u32)
    requires
        collected@.len() == old(pool)@.len(),
        reached@.len() == old(pool)@.len(),
        old(pool)@.len() * SUNSHINE_VALUE <= u32::MAX,
        forall|i: int| 0 <= i < old(pool)@.len() ==> #[trigger] old(pool)@[i].tick_safe(),
    ensures
        final(pool)@ == pool_ticked(old(pool)@, collected@, reached@),
        value == sunshine_gain(old(pool)@, collected@, reached@, old(pool)@.len() as int),
        value <= old(pool)@.len() * SUNSHINE_VALUE,
        forall|i: int| 0 <= i < old(pool)@.len() && old(pool)@[i].wf() ==> #[trigger] final(pool)@[i].wf(),
{
    let ghost pool0 = pool@;
    let mut sunshine_value: u32 = 0;
    let mut i: usize = 0;
    while i < pool.len()
        invariant
            i <= pool@.len(),
            pool@.len() == pool0.len(),
            collected@.len() == pool0.len(),
            reached@.len() == pool0.len(),
            pool0.len() * SUNSHINE_VALUE <= u32::MAX,
            forall|k: int| 0 <= k < pool0.len() ==> #[trigger] pool0[k].tick_safe(),
            forall|k: int| 0 <= k < i ==> #[trigger] pool@[k] == pool0[k].spec_tick(collected@[k], reached@[k]),
            forall|k: int| 0 <= k < i && pool0[k].wf() ==> #[trigger] pool@[k].wf(),
            forall|k: int| i <= k < pool@.len() ==> #[trigger] pool@[k] == pool0[k],
            sunshine_value == sunshine_gain(pool0, collected@, reached@, i as int),
        decreases pool@.len() - i,
    {
        proof {
            lemma_gain_bound(pool0, collected@, reached@, i as int);
        }
        if pool[i].is_used() {
            pool[i].update_status(collected[i], reached[i]);
            if !pool[i].is_used() && pool[i].be_clikced() {
                sunshine_value = sunshine_value + SUNSHINE_VALUE;
            }
        }
        i = i + 1;
    }
    assert(pool@ =~= pool_ticked(pool0, collected@, reached@));
    proof {
        lemma_gain_bound(pool0, collected@, reached@, pool0.len() as int);
    }
    sunshine_value
}

} // verus!
