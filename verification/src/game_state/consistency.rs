use vstd::prelude::*;
use crate::components::building::Building;
use crate::game_state::totals::{civic_sum, housing_sum};
use crate::game_state::{structure_id, GameState, Tech, NOTIFICATION_LOG_CAPACITY};

verus! {

/// Every building stands at a tier of its table.
pub open spec fn tiers_valid(bs: Seq<Building>) -> bool {
    forall|i: int| 0 <= i < bs.len() ==> #[trigger] bs[i].variant.has_tier(bs[i].current_tier_index as int)
}

/// No building employs more workers than its tier requires.
pub open spec fn workforce_within_caps(bs: Seq<Building>) -> bool {
    forall|i: int|
        0 <= i < bs.len() ==> #[trigger] bs[i].assigned_workforce <= bs[i].variant.workforce_at(
            bs[i].current_tier_index as int,
        )
}

/// No two buildings share an identifier.
pub open spec fn ids_distinct(bs: Seq<Building>) -> bool {
    forall|i: int, j: int| 0 <= i < bs.len() && 0 <= j < bs.len() && i != j ==> #[trigger] bs[i].id@ != #[trigger] bs[j].id@
}

/// `id` was handed out before serial number `next`.
pub open spec fn issued_before(id: Seq<char>, next: u32) -> bool {
    exists|k: nat| k < next && id == #[trigger] structure_id(k)
}

/// Every identifier was handed out before serial number `next`.
pub open spec fn ids_issued(bs: Seq<Building>, next: u32) -> bool {
    forall|i: int| 0 <= i < bs.len() ==> issued_before(#[trigger] bs[i].id@, next)
}

/// No tech has two entries in a cost table.
pub open spec fn costs_keyed(costs: Seq<(Tech, u32)>) -> bool {
    forall|i: int, j: int| 0 <= i < costs.len() && 0 <= j < costs.len() && i != j ==> #[trigger] costs[i].0 != #[trigger] costs[j].0
}

impl GameState {
    /// What every command of the colony keeps: a bounded log, buildings at
    /// valid tiers, staffed within their requirements and uniquely named,
    /// no more specialists assigned than inhabitants, the civic index and
    /// housing capacity equal to what the buildings add up to, one cost per
    /// tech, and landmarks at valid tiers (the Spire's setting the phase).
    pub open spec fn is_consistent(&self) -> bool {
        let bs = self.buildings@;
        &&& self.notifications@.len() <= NOTIFICATION_LOG_CAPACITY
        &&& tiers_valid(bs)
        &&& workforce_within_caps(bs)
        &&& ids_distinct(bs)
        &&& ids_issued(bs, self.next_structure_serial)
        &&& self.assigned_specialists_total <= self.total_inhabitants
        &&& self.civic_index == civic_sum(bs)
        &&& self.available_housing_capacity == housing_sum(bs)
        &&& self.unlocked_techs@.no_duplicates()
        &&& self.unlocked_raw_materials@.no_duplicates()
        &&& costs_keyed(self.tech_costs@)
        &&& (self.administrative_spire matches Some(s) ==> {
            &&& s.current_tier_index < s.available_tiers@.len()
            &&& self.current_development_phase == s.available_tiers@[s.current_tier_index as int].unlocks_phase
        })
        &&& (self.legacy_structure matches Some(s) ==> s.current_tier_index < s.available_tiers@.len())
    }
}

} // verus!

verus! {

/// A fresh identifier keeps identifiers distinct and issued.
pub proof fn lemma_fresh_id(bs: Seq<Building>, next: u32, b: Building)
    requires
        ids_distinct(bs),
        ids_issued(bs, next),
        next < u32::MAX,
        b.id@ == structure_id(next as nat),
    ensures
        ids_distinct(bs.push(b)),
        ids_issued(bs.push(b), (next + 1) as u32),
{
    let nbs = bs.push(b);
    assert forall|i: int| 0 <= i < bs.len() implies #[trigger] nbs[i].id@ != b.id@ by {
        assert(nbs[i] == bs[i]);
        assert(issued_before(bs[i].id@, next));
        let k = choose|k: nat| k < next && bs[i].id@ == structure_id(k);
        if bs[i].id@ == b.id@ {
            crate::game_state::lemma_structure_id_injective(k, next as nat);
        }
    }
    assert forall|i: int, j: int| 0 <= i < nbs.len() && 0 <= j < nbs.len() && i != j implies
        #[trigger] nbs[i].id@ != #[trigger] nbs[j].id@ by {
        if i < bs.len() && j < bs.len() {
            assert(nbs[i] == bs[i]);
            assert(nbs[j] == bs[j]);
        } else if i < bs.len() {
            assert(nbs[j] == b);
        } else {
            assert(nbs[i] == b);
            assert(nbs[j] == bs[j]);
        }
    }
    assert forall|i: int| 0 <= i < nbs.len() implies issued_before(#[trigger] nbs[i].id@, (next + 1) as u32) by {
        if i < bs.len() {
            assert(nbs[i] == bs[i]);
            assert(issued_before(bs[i].id@, next));
            let k = choose|k: nat| k < next && bs[i].id@ == structure_id(k);
            assert(k < (next + 1) as u32 && nbs[i].id@ == structure_id(k));
        } else {
            assert(nbs[i] == b);
            assert(next < (next + 1) as u32 && nbs[i].id@ == structure_id(next as nat));
        }
    }
}

/// Placing a new building, numbered with the next serial, at a valid tier
/// and without workers, keeps the colony consistent, provided the totals
/// that depend on buildings are right for the new list.
pub proof fn lemma_place_building(old: GameState, new: GameState, b: Building)
    requires
        old.is_consistent(),
        old.next_structure_serial < u32::MAX,
        new.buildings@ == old.buildings@.push(b),
        b.id@ == structure_id(old.next_structure_serial as nat),
        b.variant.has_tier(b.current_tier_index as int),
        b.assigned_workforce == 0,
        new.next_structure_serial == old.next_structure_serial + 1,
        new.notifications@.len() <= NOTIFICATION_LOG_CAPACITY,
        new.assigned_specialists_total == old.assigned_specialists_total,
        new.total_inhabitants == old.total_inhabitants,
        new.civic_index == civic_sum(new.buildings@),
        new.available_housing_capacity == housing_sum(new.buildings@),
        new.unlocked_techs == old.unlocked_techs,
        new.tech_costs == old.tech_costs,
        new.unlocked_raw_materials@.no_duplicates(),
        new.administrative_spire == old.administrative_spire,
        new.legacy_structure == old.legacy_structure,
        new.current_development_phase == old.current_development_phase,
    ensures
        new.is_consistent(),
{
    let bs = old.buildings@;
    let nbs = new.buildings@;
    lemma_fresh_id(bs, old.next_structure_serial, b);
    assert forall|i: int| 0 <= i < nbs.len() implies #[trigger] nbs[i].variant.has_tier(
        nbs[i].current_tier_index as int,
    ) by {
        if i < bs.len() {
            assert(nbs[i] == bs[i]);
        }
    }
    assert forall|i: int| 0 <= i < nbs.len() implies #[trigger] nbs[i].assigned_workforce
        <= nbs[i].variant.workforce_at(nbs[i].current_tier_index as int) by {
        if i < bs.len() {
            assert(nbs[i] == bs[i]);
        }
    }
}

} // verus!

verus! {

/// Replacing one building by another with the same identifier and kind, at
/// a valid tier and within its requirement, keeps the colony consistent,
/// provided the totals that depend on buildings are right for the new list.
pub proof fn lemma_update_building(old: GameState, new: GameState, i: int, nb: Building)
    requires
        old.is_consistent(),
        0 <= i < old.buildings@.len(),
        new.buildings@ == old.buildings@.update(i, nb),
        nb.id == old.buildings@[i].id,
        nb.variant == old.buildings@[i].variant,
        nb.variant.has_tier(nb.current_tier_index as int),
        nb.assigned_workforce <= nb.variant.workforce_at(nb.current_tier_index as int),
        new.next_structure_serial == old.next_structure_serial,
        new.notifications@.len() <= NOTIFICATION_LOG_CAPACITY,
        new.assigned_specialists_total <= new.total_inhabitants,
        new.civic_index == civic_sum(new.buildings@),
        new.available_housing_capacity == housing_sum(new.buildings@),
        new.unlocked_techs == old.unlocked_techs,
        new.tech_costs == old.tech_costs,
        new.unlocked_raw_materials == old.unlocked_raw_materials,
        new.administrative_spire == old.administrative_spire,
        new.legacy_structure == old.legacy_structure,
        new.current_development_phase == old.current_development_phase,
    ensures
        new.is_consistent(),
{
    let bs = old.buildings@;
    let nbs = new.buildings@;
    assert forall|j: int| 0 <= j < nbs.len() implies #[trigger] nbs[j].variant.has_tier(
        nbs[j].current_tier_index as int,
    ) by {
        if j != i {
            assert(nbs[j] == bs[j]);
        }
    }
    assert forall|j: int| 0 <= j < nbs.len() implies #[trigger] nbs[j].assigned_workforce
        <= nbs[j].variant.workforce_at(nbs[j].current_tier_index as int) by {
        if j != i {
            assert(nbs[j] == bs[j]);
        }
    }
    assert forall|j: int| 0 <= j < nbs.len() implies #[trigger] nbs[j].id == bs[j].id by {
        if j != i {
            assert(nbs[j] == bs[j]);
        }
    }
    lemma_same_ids(bs, nbs, old.next_structure_serial);
    assert(tiers_valid(nbs));
    assert(workforce_within_caps(nbs));
    assert(ids_distinct(nbs));
    assert(ids_issued(nbs, new.next_structure_serial));
}

/// Buildings with the same identifiers, in the same order, keep the
/// identifiers distinct and issued.
pub proof fn lemma_same_ids(bs: Seq<Building>, nbs: Seq<Building>, next: u32)
    requires
        bs.len() == nbs.len(),
        forall|j: int| 0 <= j < nbs.len() ==> #[trigger] nbs[j].id == bs[j].id,
        ids_distinct(bs),
        ids_issued(bs, next),
    ensures
        ids_distinct(nbs),
        ids_issued(nbs, next),
{
    assert forall|j: int, k: int| 0 <= j < nbs.len() && 0 <= k < nbs.len() && j != k implies
        #[trigger] nbs[j].id@ != #[trigger] nbs[k].id@ by {
        assert(nbs[j].id == bs[j].id);
        assert(nbs[k].id == bs[k].id);
    }
    assert forall|j: int| 0 <= j < nbs.len() implies issued_before(#[trigger] nbs[j].id@, next) by {
        assert(nbs[j].id == bs[j].id);
        assert(issued_before(bs[j].id@, next));
    }
}

/// A change that leaves a building's civic and housing contributions alone
/// leaves the colony's civic and housing totals alone.
pub proof fn lemma_update_keeps_totals(bs: Seq<Building>, i: int, nb: Building)
    requires
        0 <= i < bs.len(),
        crate::game_state::totals::civic_of(nb) == crate::game_state::totals::civic_of(bs[i]),
        crate::game_state::totals::housing_of(nb) == crate::game_state::totals::housing_of(bs[i]),
    ensures
        civic_sum(bs.update(i, nb)) == civic_sum(bs),
        housing_sum(bs.update(i, nb)) == housing_sum(bs),
{
    crate::game_state::totals::lemma_sum_update(bs, i, nb, |b: Building| crate::game_state::totals::civic_of(b));
    crate::game_state::totals::lemma_sum_update(bs, i, nb, |b: Building| crate::game_state::totals::housing_of(b));
}

} // verus!

verus! {

/// Taking a building away keeps the colony consistent, provided the totals
/// that depend on buildings are right for the remaining list.
pub proof fn lemma_remove_building(old: GameState, new: GameState, i: int)
    requires
        old.is_consistent(),
        0 <= i < old.buildings@.len(),
        new.buildings@ == old.buildings@.remove(i),
        new.next_structure_serial == old.next_structure_serial,
        new.notifications@.len() <= NOTIFICATION_LOG_CAPACITY,
        new.assigned_specialists_total <= new.total_inhabitants,
        new.civic_index == civic_sum(new.buildings@),
        new.available_housing_capacity == housing_sum(new.buildings@),
        new.unlocked_techs == old.unlocked_techs,
        new.tech_costs == old.tech_costs,
        new.unlocked_raw_materials == old.unlocked_raw_materials,
        new.administrative_spire == old.administrative_spire,
        new.legacy_structure == old.legacy_structure,
        new.current_development_phase == old.current_development_phase,
    ensures
        new.is_consistent(),
{
    let bs = old.buildings@;
    let nbs = new.buildings@;
    assert forall|j: int| 0 <= j < nbs.len() implies #[trigger] nbs[j] == bs[if j < i { j } else { j + 1 }] by {
    }
    assert forall|j: int| 0 <= j < nbs.len() implies #[trigger] nbs[j].variant.has_tier(
        nbs[j].current_tier_index as int,
    ) by {
        assert(nbs[j] == bs[if j < i { j } else { j + 1 }]);
    }
    assert forall|j: int| 0 <= j < nbs.len() implies #[trigger] nbs[j].assigned_workforce
        <= nbs[j].variant.workforce_at(nbs[j].current_tier_index as int) by {
        assert(nbs[j] == bs[if j < i { j } else { j + 1 }]);
    }
    assert forall|j: int, k: int| 0 <= j < nbs.len() && 0 <= k < nbs.len() && j != k implies
        #[trigger] nbs[j].id@ != #[trigger] nbs[k].id@ by {
        assert(nbs[j] == bs[if j < i { j } else { j + 1 }]);
        assert(nbs[k] == bs[if k < i { k } else { k + 1 }]);
    }
    assert forall|j: int| 0 <= j < nbs.len() implies issued_before(
        #[trigger] nbs[j].id@,
        new.next_structure_serial,
    ) by {
        assert(nbs[j] == bs[if j < i { j } else { j + 1 }]);
        assert(issued_before(bs[if j < i { j } else { j + 1 }].id@, old.next_structure_serial));
    }
}

} // verus!
