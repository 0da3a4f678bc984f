use vstd::prelude::*;

verus! {

/// The kinds of sunshine that can fall on the lawn.
#[derive(Clone, Copy, Debug, PartialEq, Eq, Structural)]
pub enum SunshineType {
    CommonSunShine,
}

} // verus!
