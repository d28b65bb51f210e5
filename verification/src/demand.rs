//! Pizza-equivalent demand: how many pizzas a headcount calls for.
//!
//! Each attendee is expected to eat two thirds of a pizza. The carnivore
//! estimate rounds down, the vegetarian estimate rounds up.

use vstd::prelude::*;

verus! {

/// Two thirds of `n`, rounded down.
pub open spec fn spec_num_pizzas(n: int) -> int {
    (2 * n) / 3
}

/// Two thirds of `n`, rounded up.
pub open spec fn spec_num_veg_pizzas(n: int) -> int {
    (2 * n + 2) / 3
}

/// Number of pizzas that `people` carnivorous attendees call for.
pub fn num_pizzas(people: u16) -> (r: u16)
    ensures
        r == spec_num_pizzas(people as int),
{
    ((people as u32 * 2) / 3) as u16
}

/// Number of pizzas that `people` vegetarian attendees call for.
pub fn num_veg_pizzas(people: u16) -> (r: u16)
    ensures
        r == spec_num_veg_pizzas(people as int),
{
    ((people as u32 * 2 + 2) / 3) as u16
}

/// Rounding the same ratio down never exceeds rounding it up: the
/// carnivore estimate for a headcount is at most the vegetarian one.
pub proof fn lemma_num_pizzas_le_num_veg_pizzas(n: int)
    ensures
        spec_num_pizzas(n) <= spec_num_veg_pizzas(n),
{
}

} // verus!
