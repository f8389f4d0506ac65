use vstd::prelude::*;

pub mod codec;
pub mod error;
pub mod json;
pub mod probe;
pub mod upscale;
pub mod video;

verus! {

/// Adds two unsigned counters.
pub fn add(left: u64, right: u64) -> (r: u64)
    requires
        left + right <= u64::MAX,
    ensures
        r == left + right,
{
    left + right
}

} // verus!
