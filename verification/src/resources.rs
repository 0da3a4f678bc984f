use vstd::prelude::*;

use crate::entities::sunshine::Sunshine;

verus! {

/// The kinds of pooled entities the resource manager keeps.
#[derive(Clone, Copy, Debug, PartialEq, Eq, Structural)]
pub enum EntityType {
    SunShine,
}

/// A pool of `num` new entities of the given kind, none of them in play.
pub fn new_entities_pool(entities_type: &EntityType, num: u32) -> (pool: Vec<Sunshine>)
    ensures
        pool@ == Seq::new(num as nat, |i: int| Sunshine::spec_new()),
{
    let mut pool: Vec<Sunshine> = Vec::new();
    match entities_type {
        EntityType::SunShine => {
            let mut i: u32 = 0;
            while i < num
                invariant
                    i <= num,
                    pool@ == Seq::new(i as nat, |k: int| Sunshine::spec_new()),
                decreases num - i,
            {
                pool.push(Sunshine::new());
                i = i + 1;
                assert(pool@ =~= Seq::new(i as nat, |k: int| Sunshine::spec_new()));
            }
        },
    }
    pool
}

} // verus!
