use vstd::prelude::*;

pub mod calculator;
pub mod laws;
pub mod tiers;

verus! {

} // verus!
