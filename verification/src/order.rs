//! The order allocator: turns a pizza-equivalent demand into counts per
//! pizza variety, garlic bread and drinks.
//!
//! The catalog has eleven pizza varieties. Each carries a fixed preference
//! weight; the weights sum to 15, so `people` pizzas of carnivore demand
//! are split as `floor(people * weight / 15)` per variety. Vegetarian
//! demand is absorbed by the two vegetarian-friendly varieties, cheese and
//! vegetarian, whose combined weight is 4: cheese takes
//! `floor(veg / 4)` on top of its carnivore share, the vegetarian variety
//! takes `ceil(veg * 3 / 4)`. A randomized top-up then raises counts among
//! the lightest varieties, one pizza at a time, until the total equals the
//! demand.

use vstd::prelude::*;

verus! {

/// A pizza order: a count per catalog item.
#[derive(Clone, Copy, Debug, PartialEq, Eq, Structural)]
pub struct Order {
    /// Double Bacon Cheeseburger
    pub dbc: u16,
    /// Supreme
    pub sup: u16,
    /// Pepperoni
    pub pep: u16,
    /// Beef and Onion
    pub bao: u16,
    /// Hawaiian
    pub haw: u16,
    /// Cheese
    pub che: u16,
    /// Margherita
    pub mar: u16,
    /// BBQ Pork and Onion
    pub bpo: u16,
    /// BBQ Meatlovers
    pub bml: u16,
    /// Eight Meats
    pub eme: u16,
    /// Vegetarian
    pub veg: u16,
    /// Garlic Bread
    pub gar: u16,
    /// Drinks
    pub dri: u16,
}

/// Carnivore share of a variety with the given preference weight:
/// `people * weight / 15`, rounded down. 15 is the sum of the weights
/// over the eleven varieties.
pub open spec fn base_share(people: int, weight: int) -> int {
    (people * weight) / 15
}

/// Part of the vegetarian demand that cheese absorbs: a quarter of it,
/// rounded down.
pub open spec fn cheese_veg_share(veg: int) -> int {
    veg / 4
}

/// Count of the vegetarian variety: three quarters of the vegetarian
/// demand, rounded up.
pub open spec fn veg_variety_count(veg: int) -> int {
    (veg * 3 + 3) / 4
}

/// Garlic bread count: `4/15` of the carnivore demand, rounded up.
pub open spec fn garlic_count(people: int) -> int {
    (people * 4 + 14) / 15
}

/// Drink count: two drinks per five pizzas of total demand, rounded up.
pub open spec fn drink_count(people: int, veg: int) -> int {
    ((people + veg) * 2 + 4) / 5
}

/// Total of the eleven base pizza counts, before the top-up.
pub open spec fn base_pizza_sum(people: int, veg: int) -> int {
    base_share(people, 3) + 3 * base_share(people, 2) + 6 * base_share(people, 1)
        + cheese_veg_share(veg) + veg_variety_count(veg)
}

impl Order {
    /// Total pizza count of the order: the eleven variety counts, with
    /// garlic bread and drinks excluded.
    pub open spec fn spec_sum(&self) -> int {
        self.dbc + self.sup + self.pep + self.bao + self.haw + self.che + self.mar
            + self.bpo + self.bml + self.eme + self.veg
    }

    /// Number of pizzas in the order.
    pub fn sum(&self) -> (total: u16)
        requires
            self.spec_sum() <= u16::MAX,
        ensures
            total == self.spec_sum(),
    {
        self.dbc + self.sup + self.pep + self.bao + self.haw + self.che + self.mar
            + self.bpo + self.bml + self.eme + self.veg
    }
}

/// The base allocation never overshoots the demand: the eleven variety
/// counts sum to at most `people + veg`.
pub proof fn lemma_base_sum_le_demand(people: int, veg: int)
    requires
        people >= 0,
        veg >= 0,
    ensures
        base_pizza_sum(people, veg) <= people + veg,
{
}

/// Relies on rand::random: draws one byte from the thread-local generator.
/// The value depends on the generator's state, so nothing is promised of it.
#[verifier::external_body]
fn random_byte() -> u8 {
    rand::random::<u8>()
}

/// The deterministic base allocation: every count is a fixed rounding of
/// the demand scaled by the variety's preference weight.
pub fn base_order(people: u16, veg: u16) -> (order: Order)
    ensures
        order.dbc == base_share(people as int, 3),
        order.sup == base_share(people as int, 2),
        order.pep == base_share(people as int, 2),
        order.bao == base_share(people as int, 2),
        order.haw == base_share(people as int, 1),
        order.che == base_share(people as int, 1) + cheese_veg_share(veg as int),
        order.mar == base_share(people as int, 1),
        order.bpo == base_share(people as int, 1),
        order.bml == base_share(people as int, 1),
        order.eme == base_share(people as int, 1),
        order.veg == veg_variety_count(veg as int),
        order.gar == garlic_count(people as int),
        order.dri == drink_count(people as int, veg as int),
        order.spec_sum() == base_pizza_sum(people as int, veg as int),
{
    let p = people as u32;
    let v = veg as u32;
    Order {
        dbc: ((p * 3) / 15) as u16,
        sup: ((p * 2) / 15) as u16,
        pep: ((p * 2) / 15) as u16,
        bao: ((p * 2) / 15) as u16,
        haw: ((p * 1) / 15) as u16,
        che: ((p * 1) / 15 + v / 4) as u16,
        mar: ((p * 1) / 15) as u16,
        bpo: ((p * 1) / 15) as u16,
        bml: ((p * 1) / 15) as u16,
        eme: ((p * 1) / 15) as u16,
        veg: ((v * 3 + 3) / 4) as u16,
        gar: ((p * 4 + 14) / 15) as u16,
        dri: (((p + v) * 2 + 4) / 5) as u16,
    }
}

/// Allocates an order for the given demand: the deterministic base
/// allocation, then pizzas of the six lightest varieties added one at a
/// time, at random, until the total pizza count reaches `people + veg`.
///
/// Only the hawaiian, cheese, margherita, BBQ pork and onion, BBQ
/// meatlovers and eight-meats counts can exceed their base value; every
/// other count is pinned, so repeated runs differ only in where the
/// top-up pizzas land.
pub fn gen_order(people: u16, veg: u16) -> (order: Order)
    requires
        people + veg <= u16::MAX,
    ensures
        order.dbc == base_share(people as int, 3),
        order.sup == base_share(people as int, 2),
        order.pep == base_share(people as int, 2),
        order.bao == base_share(people as int, 2),
        order.haw >= base_share(people as int, 1),
        order.che >= base_share(people as int, 1) + cheese_veg_share(veg as int),
        order.mar >= base_share(people as int, 1),
        order.bpo >= base_share(people as int, 1),
        order.bml >= base_share(people as int, 1),
        order.eme >= base_share(people as int, 1),
        order.veg == veg_variety_count(veg as int),
        order.gar == garlic_count(people as int),
        order.dri == drink_count(people as int, veg as int),
        order.spec_sum() == people + veg,
        order.spec_sum() <= people + veg,
        people + veg > 0 ==> order.spec_sum() >= people + veg - 1,
{
    let mut order = base_order(people, veg);
    proof {
        lemma_base_sum_le_demand(people as int, veg as int);
    }
    let target = people + veg;
    while order.sum() < target
        invariant
            target == people + veg,
            order.spec_sum() <= target,
            order.dbc == base_share(people as int, 3),
            order.sup == base_share(people as int, 2),
            order.pep == base_share(people as int, 2),
            order.bao == base_share(people as int, 2),
            order.haw >= base_share(people as int, 1),
            order.che >= base_share(people as int, 1) + cheese_veg_share(veg as int),
            order.mar >= base_share(people as int, 1),
            order.bpo >= base_share(people as int, 1),
            order.bml >= base_share(people as int, 1),
            order.eme >= base_share(people as int, 1),
            order.veg == veg_variety_count(veg as int),
            order.gar == garlic_count(people as int),
            order.dri == drink_count(people as int, veg as int),
        decreases target - order.spec_sum(),
    {
        match random_byte() % 6 {
            0 => {
                order.haw = order.haw + 1;
            },
            1 => {
                order.che = order.che + 1;
            },
            2 => {
                order.mar = order.mar + 1;
            },
            3 => {
                order.bpo = order.bpo + 1;
            },
            4 => {
                order.bml = order.bml + 1;
            },
            _ => {
                order.eme = order.eme + 1;
            },
        }
    }
    order
}

} // verus!
