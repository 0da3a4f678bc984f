use vstd::prelude::*;

use crate::entities::bullet::Bullet;
use crate::entities::sunshine::Sunshine;
use crate::entities::zombie::Zombie;

verus! {

/// The smallest index of `s` whose element satisfies `p`, if any.
pub open spec fn first_where<T>(s: Seq<T>, p: spec_fn(T) -> bool) -> Option<int> {
    if exists|i: int| 0 <= i < s.len() && p(s[i]) {
        Some(choose|i: int| 0 <= i < s.len() && p(s[i]) && forall|j: int| 0 <= j < i ==> !p(s[j]))
    } else {
        None
    }
}

/// `i` is the first index whose element satisfies `p`.
pub proof fn lemma_first_where_is<T>(s: Seq<T>, p: spec_fn(T) -> bool, i: int)
    requires
        0 <= i < s.len(),
        p(s[i]),
        forall|j: int| 0 <= j < i ==> !p(s[j]),
    ensures
        first_where(s, p) == Some(i),
{
    let k = choose|k: int| 0 <= k < s.len() && p(s[k]) && forall|j: int| 0 <= j < k ==> !p(s[j]);
    assert(0 <= k < s.len() && p(s[k]) && forall|j: int| 0 <= j < k ==> !p(s[j]));
    if k < i {
        assert(!p(s[k]));
    } else if k > i {
        assert(!p(s[i]));
    }
}

/// No element satisfies `p`.
pub proof fn lemma_first_where_none<T>(s: Seq<T>, p: spec_fn(T) -> bool)
    requires
        forall|j: int| 0 <= j < s.len() ==> !p(s[j]),
    ensures
        first_where(s, p) is None,
{
}

/// The first index satisfying `p` satisfies it, and none before it does.
pub proof fn lemma_first_where_props<T>(s: Seq<T>, p: spec_fn(T) -> bool)
    ensures
        first_where(s, p) matches Some(i) ==> {
            &&& 0 <= i < s.len()
            &&& p(s[i])
            &&& forall|j: int| 0 <= j < i ==> !p(s[j])
        },
        first_where(s, p) is None ==> forall|j: int| 0 <= j < s.len() ==> !p(s[j]),
{
    if exists|i: int| 0 <= i < s.len() && p(s[i]) {
        let w = choose|i: int| 0 <= i < s.len() && p(s[i]);
        lemma_least_witness(s, p, w);
    }
}

/// Some element satisfies `p` ==> a first one exists.
proof fn lemma_least_witness<T>(s: Seq<T>, p: spec_fn(T) -> bool, w: int)
    requires
        0 <= w < s.len(),
        p(s[w]),
    ensures
        exists|i: int| 0 <= i < s.len() && p(s[i]) && forall|j: int| 0 <= j < i ==> !p(s[j]),
    decreases w,
{
    if exists|j: int| 0 <= j < w && p(s[j]) {
        let j = choose|j: int| 0 <= j < w && p(s[j]);
        lemma_least_witness(s, p, j);
    } else {
        assert(forall|j: int| 0 <= j < w ==> !p(s[j]));
    }
}

pub open spec fn is_free_bullet() -> spec_fn(Bullet) -> bool {
    |b: Bullet| !b.used
}

pub open spec fn is_free_sunshine() -> spec_fn(Sunshine) -> bool {
    |s: Sunshine| !s.used
}

pub open spec fn is_free_zombie() -> spec_fn(Zombie) -> bool {
    |z: Zombie| !z.used
}

/// The first bullet not in use.
pub fn find_free_bullet(pool: &Vec<Bullet>) -> (r: Option<usize>)
    ensures
        r matches Some(i) ==> first_where(pool@, is_free_bullet()) == Some(i as int),
        r is None ==> first_where(pool@, is_free_bullet()) is None,
{
    let mut i: usize = 0;
    while i < pool.len()
        invariant
            i <= pool.len(),
            forall|j: int| 0 <= j < i ==> pool@[j].used,
        decreases pool.len() - i,
    {
        if !pool[i].used {
            proof {
                lemma_first_where_is(pool@, is_free_bullet(), i as int);
            }
            return Some(i);
        }
        i = i + 1;
    }
    proof {
        lemma_first_where_none(pool@, is_free_bullet());
    }
    None
}

/// The first sunshine not in use.
pub fn find_free_sunshine(pool: &Vec<Sunshine>) -> (r: Option<usize>)
    ensures
        r matches Some(i) ==> first_where(pool@, is_free_sunshine()) == Some(i as int),
        r is None ==> first_where(pool@, is_free_sunshine()) is None,
{
    let mut i: usize = 0;
    while i < pool.len()
        invariant
            i <= pool.len(),
            forall|j: int| 0 <= j < i ==> pool@[j].used,
        decreases pool.len() - i,
    {
        if !pool[i].used {
            proof {
                lemma_first_where_is(pool@, is_free_sunshine(), i as int);
            }
            return Some(i);
        }
        i = i + 1;
    }
    proof {
        lemma_first_where_none(pool@, is_free_sunshine());
    }
    None
}

/// The first zombie not in use.
pub fn find_free_zombie(pool: &Vec<Zombie>) -> (r: Option<usize>)
    ensures
        r matches Some(i) ==> first_where(pool@, is_free_zombie()) == Some(i as int),
        r is None ==> first_where(pool@, is_free_zombie()) is None,
{
    let mut i: usize = 0;
    while i < pool.len()
        invariant
            i <= pool.len(),
            forall|j: int| 0 <= j < i ==> pool@[j].used,
        decreases pool.len() - i,
    {
        if !pool[i].used {
            proof {
                lemma_first_where_is(pool@, is_free_zombie(), i as int);
            }
            return Some(i);
        }
        i = i + 1;
    }
    proof {
        lemma_first_where_none(pool@, is_free_zombie());
    }
    None
}

/// The smallest index below `n` satisfying `p`, if any.
pub open spec fn first_index(n: int, p: spec_fn(int) -> bool) -> Option<int> {
    if exists|i: int| 0 <= i < n && #[trigger] p(i) {
        Some(choose|i: int| 0 <= i < n && #[trigger] p(i) && forall|j: int| 0 <= j < i ==> !#[trigger] p(j))
    } else {
        None
    }
}

pub proof fn lemma_first_index_is(n: int, p: spec_fn(int) -> bool, i: int)
    requires
        0 <= i < n,
        p(i),
        forall|j: int| 0 <= j < i ==> !#[trigger] p(j),
    ensures
        first_index(n, p) == Some(i),
{
    let k = choose|k: int| 0 <= k < n && #[trigger] p(k) && forall|j: int| 0 <= j < k ==> !#[trigger] p(j);
    assert(0 <= k < n && p(k) && forall|j: int| 0 <= j < k ==> !#[trigger] p(j));
    if k < i {
        assert(!p(k));
    } else if k > i {
        assert(!p(i));
    }
}

pub proof fn lemma_first_index_none(n: int, p: spec_fn(int) -> bool)
    requires
        forall|j: int| 0 <= j < n ==> !#[trigger] p(j),
    ensures
        first_index(n, p) is None,
{
}

/// The number of elements before index `i` satisfying `p`.
pub open spec fn count_where<T>(s: Seq<T>, p: spec_fn(T) -> bool, i: int) -> int
    decreases i,
{
    if i <= 0 {
        0
    } else {
        count_where(s, p, i - 1) + if p(s[i - 1]) {
            1int
        } else {
            0int
        }
    }
}

/// Between none and `i` elements before `i` satisfy `p`.
pub proof fn lemma_count_where_range<T>(s: Seq<T>, p: spec_fn(T) -> bool, i: int)
    requires
        0 <= i,
    ensures
        0 <= count_where(s, p, i) <= i,
    decreases i,
{
    if i > 0 {
        lemma_count_where_range(s, p, i - 1);
    }
}

/// The count grows with the index, strictly past an element satisfying `p`.
pub proof fn lemma_count_where_mono<T>(s: Seq<T>, p: spec_fn(T) -> bool, i: int, j: int)
    requires
        0 <= i <= j <= s.len(),
    ensures
        count_where(s, p, i) <= count_where(s, p, j),
        i < j && p(s[i]) ==> count_where(s, p, i) < count_where(s, p, j),
    decreases j - i,
{
    if i < j {
        lemma_count_where_mono(s, p, i, j - 1);
        if i < j - 1 {
            lemma_count_where_mono(s, p, i + 1, j);
        }
    }
}

/// Every count below the count at `i` is reached at an element before `i`
/// satisfying `p`.
pub proof fn lemma_count_where_hits<T>(s: Seq<T>, p: spec_fn(T) -> bool, i: int, k: int)
    requires
        0 <= i <= s.len(),
        0 <= k < count_where(s, p, i),
    ensures
        exists|j: int| 0 <= j < i && p(s[j]) && #[trigger] count_where(s, p, j) == k,
    decreases i,
{
    if k < count_where(s, p, i - 1) {
        lemma_count_where_hits(s, p, i - 1, k);
    } else {
        assert(p(s[i - 1]) && count_where(s, p, i - 1) == k);
    }
}

} // verus!
