use vstd::prelude::*;
use crate::errors::ErrorCode;
use crate::events::BusinessPurchased;
use crate::state::{PlayerState, PlayerStateView};

verus! {

/// The number of businesses in the catalog; their ids are 0 to 19.
pub const BUSINESS_COUNT: u8 = 20;

/// The catalog: what each business costs, in credits. Ids 0 to 9 are the
/// basic businesses, ids 10 to 19 the enhanced ones.
pub open spec fn spec_business_cost(business_id: u8) -> Result<u64, ErrorCode> {
    match business_id {
        0 => Ok(500),
        1 => Ok(1000),
        2 => Ok(2500),
        3 => Ok(5000),
        4 => Ok(10000),
        5 => Ok(20000),
        6 => Ok(50000),
        7 => Ok(100000),
        8 => Ok(250000),
        9 => Ok(500000),
        10 => Ok(1000000),
        11 => Ok(2000000),
        12 => Ok(3000000),
        13 => Ok(5000000),
        14 => Ok(7500000),
        15 => Ok(10000000),
        16 => Ok(15000000),
        17 => Ok(20000000),
        18 => Ok(30000000),
        19 => Ok(50000000),
        _ => Err(ErrorCode::InvalidBusinessId),
    }
}

/// How many businesses a player of this level can run at once.
pub open spec fn spec_max_slots(work_frequency_level: u8) -> u8 {
    if 1 <= work_frequency_level <= 4 {
        (work_frequency_level + 1) as u8
    } else {
        1
    }
}

/// What the purchase of a business costs the player, or why it is refused.
/// The checks stand in the order in which they are made; the first that
/// fails names the error.
pub open spec fn spec_purchase_cost(player: PlayerStateView, business_id: u8) -> Result<
    u64,
    ErrorCode,
> {
    if business_id >= BUSINESS_COUNT {
        Err(ErrorCode::InvalidBusinessId)
    } else if player.businesses_owned.contains(business_id) {
        Err(ErrorCode::AlreadyOwned)
    } else if player.credits < spec_business_cost(business_id).unwrap() {
        Err(ErrorCode::InsufficientCredits)
    } else {
        spec_business_cost(business_id)
    }
}

/// The player after the purchase of a business at `cost`: the credits are
/// paid, the business is owned, and it is active too if a slot is free at
/// the player's level.
pub open spec fn spec_purchased(player: PlayerStateView, business_id: u8, cost: u64) -> PlayerStateView {
    PlayerStateView {
        credits: (player.credits - cost) as u64,
        businesses_owned: player.businesses_owned.push(business_id),
        active_business_slots: if player.active_business_slots.len() < spec_max_slots(
            player.work_frequency_level,
        ) {
            player.active_business_slots.push(business_id)
        } else {
            player.active_business_slots
        },
        ..player
    }
}

/// Every business of the catalog has a price, and a business with a higher
/// id costs more.
pub proof fn lemma_business_costs_increase(cheaper: u8, dearer: u8)
    requires
        cheaper < dearer < BUSINESS_COUNT,
    ensures
        spec_business_cost(cheaper) is Ok,
        spec_business_cost(dearer) is Ok,
        spec_business_cost(cheaper).unwrap() < spec_business_cost(dearer).unwrap(),
{
}

/// Buys a business of the catalog for the player, with the player's credits.
/// A refused purchase leaves the player as it was.
pub fn purchase_business(player: &mut PlayerState, business_id: u8, now: i64) -> (r: Result<
    BusinessPurchased,
    ErrorCode,
>)
    ensures
        match spec_purchase_cost(old(player)@, business_id) {
            Ok(cost) => {
                &&& final(player)@ == spec_purchased(old(player)@, business_id, cost)
                &&& r == Ok::<BusinessPurchased, ErrorCode>(
                    BusinessPurchased {
                        player: old(player).owner,
                        business_id,
                        cost,
                        timestamp: now,
                    },
                )
            },
            Err(e) => {
                &&& *final(player) == *old(player)
                &&& r == Err::<BusinessPurchased, ErrorCode>(e)
            },
        },
        old(player).wf() ==> final(player).wf(),
{
    if business_id >= BUSINESS_COUNT {
        return Err(ErrorCode::InvalidBusinessId);
    }
    if holds(&player.businesses_owned, business_id) {
        return Err(ErrorCode::AlreadyOwned);
    }
    let business_cost = match get_business_cost(business_id) {
        Ok(c) => c,
        Err(e) => {
            return Err(e);
        },
    };
    if player.credits < business_cost {
        return Err(ErrorCode::InsufficientCredits);
    }
    player.credits = player.credits - business_cost;
    player.businesses_owned.push(business_id);

    let max_slots = get_max_slots(player.work_frequency_level);
    if player.active_business_slots.len() < max_slots as usize {
        player.active_business_slots.push(business_id);
    }
    proof {
        if old(player).wf() {
            lemma_push_keeps_wf(old(player)@, business_id, business_cost);
        }
    }
    Ok(
        BusinessPurchased {
            player: player.owner,
            business_id,
            cost: business_cost,
            timestamp: now,
        },
    )
}

/// A purchase of a business that the player does not own yet keeps the
/// lists of a well-formed player well-formed.
proof fn lemma_push_keeps_wf(player: PlayerStateView, business_id: u8, cost: u64)
    requires
        player.wf(),
        !player.businesses_owned.contains(business_id),
    ensures
        spec_purchased(player, business_id, cost).wf(),
{
    let after = spec_purchased(player, business_id, cost);
    assert(!player.active_business_slots.contains(business_id)) by {
        if player.active_business_slots.contains(business_id) {
            let i = choose|i: int|
                0 <= i < player.active_business_slots.len() && player.active_business_slots[i]
                    == business_id;
            assert(player.businesses_owned.contains(player.active_business_slots[i]));
        }
    }
    assert(after.businesses_owned.no_duplicates());
    assert(after.active_business_slots.no_duplicates());
    assert forall|i: int| 0 <= i < after.active_business_slots.len() implies after.businesses_owned.contains(
    #[trigger] after.active_business_slots[i]) by {
        if i < player.active_business_slots.len() {
            let id = player.active_business_slots[i];
            assert(player.businesses_owned.contains(id));
            let j = choose|j: int|
                0 <= j < player.businesses_owned.len() && player.businesses_owned[j] == id;
            assert(after.businesses_owned[j] == id);
        } else {
            assert(after.businesses_owned[player.businesses_owned.len() as int] == business_id);
        }
    }
}

/// Whether `id` is among `ids`.
fn holds(ids: &Vec<u8>, id: u8) -> (found: bool)
    ensures
        found == ids@.contains(id),
{
    let mut i: usize = 0;
    while i < ids.len()
        invariant
            i <= ids.len(),
            forall|j: int| 0 <= j < i ==> ids@[j] != id,
        decreases ids.len() - i,
    {
        if ids[i] == id {
            return true;
        }
        i += 1;
    }
    false
}

/// What the business costs, in credits.
pub fn get_business_cost(business_id: u8) -> (r: Result<u64, ErrorCode>)
    ensures
        r == spec_business_cost(business_id),
        r is Ok <==> business_id < BUSINESS_COUNT,
{
    let cost: u64 = match business_id {
        0 => 500,
        1 => 1000,
        2 => 2500,
        3 => 5000,
        4 => 10000,
        5 => 20000,
        6 => 50000,
        7 => 100000,
        8 => 250000,
        9 => 500000,
        10 => 1000000,
        11 => 2000000,
        12 => 3000000,
        13 => 5000000,
        14 => 7500000,
        15 => 10000000,
        16 => 15000000,
        17 => 20000000,
        18 => 30000000,
        19 => 50000000,
        _ => {
            return Err(ErrorCode::InvalidBusinessId);
        },
    };
    Ok(cost)
}

/// How many businesses a player of this level can run at once: one at level
/// 0 and one more with each level up to 4.
pub fn get_max_slots(work_frequency_level: u8) -> (slots: u8)
    ensures
        slots == spec_max_slots(work_frequency_level),
        1 <= slots <= 5,
{
    match work_frequency_level {
        0 => 1,
        1 => 2,
        2 => 3,
        3 => 4,
        4 => 5,
        _ => 1,
    }
}

} // verus!
