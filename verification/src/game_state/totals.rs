use vstd::prelude::*;
use crate::components::building::{Building, BuildingVariant};
use crate::game_state::{sum_by, GameState};

verus! {

/// Housing a building offers: habitations at their current tier.
pub open spec fn housing_of(b: Building) -> nat {
    b.variant.housing_at(b.current_tier_index as int) as nat
}

/// Specialist slots a habitation offers at its current tier.
pub open spec fn habitation_slots_of(b: Building) -> nat {
    b.variant.habitation_slots_at(b.current_tier_index as int) as nat
}

/// Civic index contribution of a building: active services and zones.
pub open spec fn civic_of(b: Building) -> nat {
    if b.is_active { b.variant.civic_at(b.current_tier_index as int) as nat } else { 0 }
}

/// Job slots of a building: active staffed buildings.
pub open spec fn job_slots_of(b: Building) -> nat {
    if b.is_active { b.variant.job_slots_at(b.current_tier_index as int) as nat } else { 0 }
}

/// Total housing capacity of the colony's habitations.
pub open spec fn housing_sum(bs: Seq<Building>) -> nat {
    sum_by(bs, |b: Building| housing_of(b))
}

/// Total specialist slots of the colony's habitations.
pub open spec fn habitation_slots_sum(bs: Seq<Building>) -> nat {
    sum_by(bs, |b: Building| habitation_slots_of(b))
}

/// The civic index the colony's active services and zones add up to.
pub open spec fn civic_sum(bs: Seq<Building>) -> nat {
    sum_by(bs, |b: Building| civic_of(b))
}

/// Job slots the colony's active buildings add up to.
pub open spec fn job_slots_sum(bs: Seq<Building>) -> nat {
    sum_by(bs, |b: Building| job_slots_of(b))
}

/// Summing over one more building adds its term.
pub proof fn lemma_sum_push(bs: Seq<Building>, b: Building, f: spec_fn(Building) -> nat)
    ensures
        sum_by(bs.push(b), f) == sum_by(bs, f) + f(b),
{
    assert(bs.push(b).drop_last() =~= bs);
}

/// Replacing a building changes the sum by the difference of its terms.
pub proof fn lemma_sum_update(bs: Seq<Building>, i: int, b: Building, f: spec_fn(Building) -> nat)
    requires
        0 <= i < bs.len(),
    ensures
        sum_by(bs.update(i, b), f) + f(bs[i]) == sum_by(bs, f) + f(b),
    decreases bs.len(),
{
    if i == bs.len() - 1 {
        assert(bs.update(i, b).drop_last() =~= bs.drop_last());
    } else {
        lemma_sum_update(bs.drop_last(), i, b, f);
        assert(bs.update(i, b).drop_last() =~= bs.drop_last().update(i, b));
    }
}

/// Removing a building takes its term off the sum.
pub proof fn lemma_sum_remove(bs: Seq<Building>, i: int, f: spec_fn(Building) -> nat)
    requires
        0 <= i < bs.len(),
    ensures
        sum_by(bs.remove(i), f) + f(bs[i]) == sum_by(bs, f),
    decreases bs.len(),
{
    if i == bs.len() - 1 {
        assert(bs.remove(i) =~= bs.drop_last());
    } else {
        lemma_sum_remove(bs.drop_last(), i, f);
        assert(bs.remove(i).drop_last() =~= bs.drop_last().remove(i));
    }
}

/// A prefix never adds up to more than the whole.
pub proof fn lemma_sum_prefix_le(bs: Seq<Building>, n: int, f: spec_fn(Building) -> nat)
    requires
        0 <= n <= bs.len(),
    ensures
        sum_by(bs.take(n), f) <= sum_by(bs, f),
    decreases bs.len(),
{
    if n == bs.len() {
        assert(bs.take(n) =~= bs);
    } else {
        lemma_sum_prefix_le(bs.drop_last(), n, f);
        assert(bs.drop_last().take(n) =~= bs.take(n));
    }
}

/// Sets the housing capacity and the specialist slots to what the colony's
/// habitations offer at their current tiers, active or not.
pub fn update_housing_and_specialist_slots(game_state: &mut GameState)
    requires
        housing_sum(old(game_state).buildings@) <= u32::MAX,
        habitation_slots_sum(old(game_state).buildings@) <= u32::MAX,
    ensures
        old(game_state).is_consistent() ==> final(game_state).is_consistent(),
        *final(game_state) == (GameState {
            available_housing_capacity: housing_sum(old(game_state).buildings@) as u32,
            total_specialist_slots: habitation_slots_sum(old(game_state).buildings@) as u32,
            ..*old(game_state)
        }),
{
    let ghost bs = game_state.buildings@;
    let mut total_housing: u32 = 0;
    let mut total_slots: u32 = 0;
    let n = game_state.buildings.len();
    let mut i: usize = 0;
    while i < n
        invariant
            n == bs.len(),
            bs == game_state.buildings@,
            i <= n,
            total_housing == housing_sum(bs.take(i as int)),
            total_slots == habitation_slots_sum(bs.take(i as int)),
            housing_sum(bs) <= u32::MAX,
            habitation_slots_sum(bs) <= u32::MAX,
        decreases n - i,
    {
        let b = &game_state.buildings[i];
        let (_, housing, slots, _) = b.variant.totals_at(b.current_tier_index);
        proof {
            assert(bs.take(i + 1).drop_last() =~= bs.take(i as int));
            lemma_sum_prefix_le(bs, i + 1, |b: Building| housing_of(b));
            lemma_sum_prefix_le(bs, i + 1, |b: Building| habitation_slots_of(b));
        }
        total_housing = total_housing + housing;
        total_slots = total_slots + slots;
        i = i + 1;
    }
    proof {
        assert(bs.take(n as int) =~= bs);
    }
    game_state.available_housing_capacity = total_housing;
    game_state.total_specialist_slots = total_slots;
}

/// Sets the civic index to what the active services and zones contribute at
/// their current tiers.
pub fn update_civic_index(game_state: &mut GameState)
    requires
        civic_sum(old(game_state).buildings@) <= u32::MAX,
    ensures
        old(game_state).is_consistent() ==> final(game_state).is_consistent(),
        *final(game_state) == (GameState {
            civic_index: civic_sum(old(game_state).buildings@) as u32,
            ..*old(game_state)
        }),
{
    let ghost bs = game_state.buildings@;
    let mut total: u32 = 0;
    let n = game_state.buildings.len();
    let mut i: usize = 0;
    while i < n
        invariant
            n == bs.len(),
            bs == game_state.buildings@,
            i <= n,
            total == civic_sum(bs.take(i as int)),
            civic_sum(bs) <= u32::MAX,
        decreases n - i,
    {
        let b = &game_state.buildings[i];
        proof {
            assert(bs.take(i + 1).drop_last() =~= bs.take(i as int));
            lemma_sum_prefix_le(bs, i + 1, |b: Building| civic_of(b));
        }
        if b.is_active {
            let (civic, _, _, _) = b.variant.totals_at(b.current_tier_index);
            total = total + civic;
        }
        i = i + 1;
    }
    proof {
        assert(bs.take(n as int) =~= bs);
    }
    game_state.civic_index = total;
}

/// Sets the total specialist slots to the jobs the active buildings offer
/// at their current tiers.
pub fn update_total_specialist_slots(game_state: &mut GameState)
    requires
        job_slots_sum(old(game_state).buildings@) <= u32::MAX,
    ensures
        old(game_state).is_consistent() ==> final(game_state).is_consistent(),
        *final(game_state) == (GameState {
            total_specialist_slots: job_slots_sum(old(game_state).buildings@) as u32,
            ..*old(game_state)
        }),
{
    let ghost bs = game_state.buildings@;
    let mut total: u32 = 0;
    let n = game_state.buildings.len();
    let mut i: usize = 0;
    while i < n
        invariant
            n == bs.len(),
            bs == game_state.buildings@,
            i <= n,
            total == job_slots_sum(bs.take(i as int)),
            job_slots_sum(bs) <= u32::MAX,
        decreases n - i,
    {
        let b = &game_state.buildings[i];
        proof {
            assert(bs.take(i + 1).drop_last() =~= bs.take(i as int));
            lemma_sum_prefix_le(bs, i + 1, |b: Building| job_slots_of(b));
        }
        if b.is_active {
            let (_, _, _, jobs) = b.variant.totals_at(b.current_tier_index);
            total = total + jobs;
        }
        i = i + 1;
    }
    proof {
        assert(bs.take(n as int) =~= bs);
    }
    game_state.total_specialist_slots = total;
}

} // verus!

verus! {

} // verus!

verus! {

/// What a building of kind `v` at tier `tier` adds to the housing, the
/// habitation slots, the civic index and the job slots, when `active` or not.
pub fn tier_terms(v: &BuildingVariant, tier: usize, active: bool) -> (r: (u64, u64, u64, u64))
    ensures
        r.0 == v.housing_at(tier as int),
        r.1 == v.habitation_slots_at(tier as int),
        r.2 == if active { v.civic_at(tier as int) } else { 0 },
        r.3 == if active { v.job_slots_at(tier as int) } else { 0 },
{
    let (civic, housing, slots, jobs) = v.totals_at(tier);
    if active {
        (housing as u64, slots as u64, civic as u64, jobs as u64)
    } else {
        (housing as u64, slots as u64, 0, 0)
    }
}

/// The colony's housing, habitation slots, civic index and job slots, as
/// the buildings add them up, computed without bound.
pub fn colony_sums(bs: &Vec<Building>) -> (r: (u128, u128, u128, u128))
    ensures
        r.0 == housing_sum(bs@),
        r.1 == habitation_slots_sum(bs@),
        r.2 == civic_sum(bs@),
        r.3 == job_slots_sum(bs@),
        r.0 < 0x1_0000_0000_0000_0000_0000_0000,
        r.1 < 0x1_0000_0000_0000_0000_0000_0000,
        r.2 < 0x1_0000_0000_0000_0000_0000_0000,
        r.3 < 0x1_0000_0000_0000_0000_0000_0000,
{
    let n = bs.len();
    let mut h: u128 = 0;
    let mut s: u128 = 0;
    let mut c: u128 = 0;
    let mut j: u128 = 0;
    let mut i: usize = 0;
    while i < n
        invariant
            n == bs@.len(),
            i <= n,
            h == housing_sum(bs@.take(i as int)),
            s == habitation_slots_sum(bs@.take(i as int)),
            c == civic_sum(bs@.take(i as int)),
            j == job_slots_sum(bs@.take(i as int)),
            h <= i * 0xffff_ffff,
            s <= i * 0xffff_ffff,
            c <= i * 0xffff_ffff,
            j <= i * 0xffff_ffff,
        decreases n - i,
    {
        let b = &bs[i];
        let (th, ts, tc, tj) = tier_terms(&b.variant, b.current_tier_index, b.is_active);
        proof {
            assert(bs@.take(i + 1).drop_last() =~= bs@.take(i as int));
            assert(bs@.take(i + 1).last() == bs@[i as int]);
            assert(i <= usize::MAX);
        }
        h = h + th as u128;
        s = s + ts as u128;
        c = c + tc as u128;
        j = j + tj as u128;
        i = i + 1;
    }
    proof {
        assert(bs@.take(n as int) =~= bs@);
        assert(n <= usize::MAX);
    }
    (h, s, c, j)
}

} // verus!
