//! The only place where chance enters: thin, trusted calls into the `rand`
//! crate, whose contracts say no more than `rand` documents, and the throws
//! that the board makes with them.

use vstd::prelude::*;

use rand::rngs::ThreadRng;
use rand::seq::SliceRandom;
use rand::Rng;

verus! {

/// The handle to `rand`'s thread-local generator. Nothing is known of what
/// it holds.
#[verifier::external_type_specification]
#[verifier::external_body]
pub struct ExThreadRng(ThreadRng);

/// `rand::thread_rng` hands out the handle to the thread-local generator.
/// Nothing is claimed of it.
pub assume_specification[ rand::thread_rng ]() -> (rng: ThreadRng)
;

/// Calls `rand::Rng::gen_range` with the half-open range `low..high`. `rand`
/// panics on an empty range, which the precondition excludes; the value
/// drawn lies in the range.
#[verifier::external_body]
pub(crate) fn random_below(rng: &mut ThreadRng, low: u32, high: u32) -> (drawn: u32)
    requires
        low < high,
    ensures
        low <= drawn < high,
{
    rng.gen_range(low..high)
}

/// Calls `rand::seq::SliceRandom::shuffle`. The shuffle only swaps items of
/// the slice among themselves, so the items afterwards are the items before,
/// each as often as before.
#[verifier::external_body]
pub(crate) fn shuffle(rng: &mut ThreadRng, items: &mut Vec<u8>)
    ensures
        final(items)@.to_multiset() == old(items)@.to_multiset(),
{
    items.shuffle(rng);
}

/// Whether `order` names each of the three upward directions once.
pub open spec fn orderly(order: [u8; 3]) -> bool {
    &&& order[0] < 3 && order[1] < 3 && order[2] < 3
    &&& order[0] != order[1] && order[0] != order[2] && order[1] != order[2]
}

/// Two items that were shuffled are still the same two items, in one order
/// or the other.
proof fn lemma_shuffled_pair(before: Seq<u8>, after: Seq<u8>)
    requires
        before.len() == 2,
        before[0] != before[1],
        after.to_multiset() == before.to_multiset(),
    ensures
        after.len() == 2,
        (after[0] == before[0] && after[1] == before[1]) || (after[0] == before[1] && after[1]
            == before[0]),
{
    before.to_multiset_ensures();
    after.to_multiset_ensures();
    assert(before.contains(before[0]));
    assert(before.contains(before[1]));
    assert(before.to_multiset().count(before[0]) > 0);
    assert(before.to_multiset().count(before[1]) > 0);
    assert(after.to_multiset().count(before[0]) > 0);
    assert(after.to_multiset().count(before[1]) > 0);
    assert(after.contains(before[0]));
    assert(after.contains(before[1]));
}

/// How many numbers a throw for the leading direction can show.
pub const LEAD_SIDES: u32 = 10;

/// How many sides a coin has.
pub const COIN_SIDES: u32 = 2;

/// The direction that leads for the throw `weight` out of ten: straight up
/// (0) for eight of the ten numbers, up and to the left (1) for one, up and
/// to the right (2) for one.
pub open spec fn lead_of(weight: u32) -> u8 {
    if weight >= 2 {
        0
    } else if weight == 1 {
        1
    } else {
        2
    }
}

/// The order in which a plant tries its three upward directions for the
/// throw `weight` out of ten: the direction that leads, then the other two,
/// the smaller one first unless they are `swapped`.
pub open spec fn order_of(weight: u32, swapped: bool) -> [u8; 3] {
    let lead = lead_of(weight);
    let low: u8 = if lead == 0 {
        1
    } else {
        0
    };
    let high: u8 = if lead == 2 {
        1
    } else {
        2
    };
    if swapped {
        [lead, high, low]
    } else {
        [lead, low, high]
    }
}

/// Whether a coin that shows `drawn` shows heads: the first of its sides.
pub open spec fn heads_of(drawn: u32) -> bool {
    drawn == 0
}

/// The direction that leads for the throw `weight` out of ten.
pub fn lead_for(weight: u32) -> (lead: u8)
    ensures
        lead == lead_of(weight),
{
    if weight >= 2 {
        0
    } else if weight == 1 {
        1
    } else {
        2
    }
}

/// The order in which a plant tries its three upward directions for the
/// throw `weight` out of ten, with the other two directions `swapped` or
/// not.
pub fn order_for(weight: u32, swapped: bool) -> (order: [u8; 3])
    ensures
        order == order_of(weight, swapped),
        orderly(order),
{
    let lead: u8 = lead_for(weight);
    let low: u8 = if lead == 0 {
        1
    } else {
        0
    };
    let high: u8 = if lead == 2 {
        1
    } else {
        2
    };
    if swapped {
        [lead, high, low]
    } else {
        [lead, low, high]
    }
}

/// Whether a coin that shows `drawn` shows heads.
pub fn heads_for(drawn: u32) -> (heads: bool)
    ensures
        heads == heads_of(drawn),
{
    drawn == 0
}

/// Throws a coin and says which side it shows, a number below `COIN_SIDES`.
pub fn random_coin(rng: &mut ThreadRng) -> (drawn: u32)
    ensures
        drawn < COIN_SIDES,
{
    random_below(rng, 0, COIN_SIDES)
}

/// Throws what decides the order in which a plant tries its three upward
/// directions: a number below `LEAD_SIDES` for the direction that leads,
/// and, by shuffling the other two, whether they are swapped.
pub fn random_lead(rng: &mut ThreadRng) -> (thrown: (u32, bool))
    ensures
        thrown.0 < LEAD_SIDES,
{
    let weight: u32 = random_below(rng, 0, LEAD_SIDES);
    let lead: u8 = lead_for(weight);
    let mut rest: Vec<u8> = Vec::new();
    if lead != 0 {
        rest.push(0);
    }
    if lead != 1 {
        rest.push(1);
    }
    if lead != 2 {
        rest.push(2);
    }
    let first: u8 = rest[0];
    let ghost before = rest@;
    shuffle(rng, &mut rest);
    proof {
        lemma_shuffled_pair(before, rest@);
    }
    (weight, rest[0] != first)
}

/// Throws the order in which a plant tries its three upward directions:
/// straight up comes first in eight throws of ten, up-left in one, up-right
/// in one, and the other two follow shuffled. Whatever is thrown, the order
/// is the one that `order_for` gives for the throw.
pub fn random_order(rng: &mut ThreadRng) -> (order: [u8; 3])
    ensures
        orderly(order),
        exists|weight: u32| weight < LEAD_SIDES && order[0] == #[trigger] lead_of(weight),
        exists|weight: u32, swapped: bool|
            weight < LEAD_SIDES && order == #[trigger] order_of(weight, swapped),
{
    let (weight, swapped) = random_lead(rng);
    let order = order_for(weight, swapped);
    assert(order[0] == lead_of(weight));
    order
}

} // verus!
