use vstd::prelude::*;
use crate::components::building::Building;
use crate::game_state::management::{
    assignment_effect, find_first, first_with_id, has_id, lemma_find_first, sat_sub, toggle_effect,
    unassignment_effect, upgrade_verdict, upgraded_building, UpgradeOutcome,
};
use crate::components::building::BuildingVariant;
use crate::game_state::consistency::issued_before;
use crate::game_state::totals::{civic_sum, job_slots_sum};
use crate::game_state::construction::placed;
use crate::game_state::{lemma_structure_id_injective, structure_id, GameState};

verus! {

/// Assigning `num` workers to the building named `id` goes through.
pub open spec fn assignment_succeeds(gs: GameState, id: Seq<char>, num: u32) -> bool {
    match find_first(gs.buildings@, id) {
        None => false,
        Some(i) => {
            let b = gs.buildings@[i];
            let max = b.variant.workforce_at(b.current_tier_index as int);
            &&& max != 0
            &&& sat_sub(gs.total_inhabitants, gs.assigned_specialists_total) >= num
            &&& b.assigned_workforce + num <= max
        },
    }
}

/// Replacing a building by one with the same identifier does not change
/// which building an identifier finds first.
pub proof fn lemma_find_first_update(bs: Seq<Building>, i: int, nb: Building, id: Seq<char>)
    requires
        0 <= i < bs.len(),
        nb.id == bs[i].id,
    ensures
        find_first(bs.update(i, nb), id) == find_first(bs, id),
{
    let nbs = bs.update(i, nb);
    assert forall|j: int| 0 <= j < bs.len() implies #[trigger] nbs[j].id == bs[j].id by {
        if j != i {
            assert(nbs[j] == bs[j]);
        }
    }
    if has_id(bs, id) {
        let w = choose|w: int| 0 <= w < bs.len() && bs[w].id@ == id;
        assert(nbs[w].id == bs[w].id);
        lemma_first_exists(bs, id, w);
        let k = choose|k: int| first_with_id(bs, id, k);
        assert(first_with_id(nbs, id, k));
        lemma_find_first(bs, id, k);
        lemma_find_first(nbs, id, k);
    } else {
        assert forall|j: int| 0 <= j < nbs.len() implies nbs[j].id@ != id by {
            assert(nbs[j].id == bs[j].id);
        }
    }
}

/// Where some building has an identifier, a first one has it.
pub proof fn lemma_first_exists(bs: Seq<Building>, id: Seq<char>, w: int)
    requires
        0 <= w < bs.len(),
        bs[w].id@ == id,
    ensures
        exists|k: int| first_with_id(bs, id, k),
    decreases w,
{
    if exists|j: int| 0 <= j < w && bs[j].id@ == id {
        let j = choose|j: int| 0 <= j < w && bs[j].id@ == id;
        lemma_first_exists(bs, id, j);
    } else {
        assert(first_with_id(bs, id, w));
    }
}

/// Taking off the workers that were just assigned to a building takes all
/// of them off, and gives back the buildings and the count of assigned
/// specialists as they were before the assignment.
pub proof fn law_unassign_undoes_assign(
    s0: GameState,
    s1: GameState,
    s2: GameState,
    id: Seq<char>,
    num: u32,
    taken: u32,
)
    requires
        assignment_succeeds(s0, id, num),
        assignment_effect(s0, s1, id, num),
        unassignment_effect(s1, s2, id, num, taken),
    ensures
        taken == num,
        s2.buildings@ == s0.buildings@,
        s2.assigned_specialists_total == s0.assigned_specialists_total,
{
    let i = find_first(s0.buildings@, id)->0;
    let b = s0.buildings@[i];
    let nb = Building { assigned_workforce: (b.assigned_workforce + num) as u32, ..b };
    assert(has_id(s0.buildings@, id));
    let w = choose|w: int| 0 <= w < s0.buildings@.len() && s0.buildings@[w].id@ == id;
    lemma_first_exists(s0.buildings@, id, w);
    let k = choose|k: int| first_with_id(s0.buildings@, id, k);
    lemma_find_first(s0.buildings@, id, k);
    lemma_find_first_update(s0.buildings@, i, nb, id);
    if num > 0 {
        assert(s2.buildings@ =~= s0.buildings@);
    } else {
        assert(s1.buildings@ =~= s0.buildings@);
    }
}

/// Removing the building just built, by its identifier, removes that
/// building and no other: the removal finds it last in the list, and the
/// list without it is the colony's list from before the construction.
pub proof fn law_remove_undoes_build(s0: GameState, s1: GameState, b: Building)
    requires
        s0.is_consistent(),
        placed(s0, s1, b),
    ensures
        find_first(s1.buildings@, b.id@) == Some(s0.buildings@.len() as int),
        s1.buildings@.remove(s0.buildings@.len() as int) == s0.buildings@,
{
    let bs = s0.buildings@;
    let n = bs.len() as int;
    assert forall|j: int| 0 <= j < n implies s1.buildings@[j].id@ != b.id@ by {
        assert(s1.buildings@[j] == bs[j]);
        assert(issued_before(bs[j].id@, s0.next_structure_serial));
        let k = choose|k: nat| k < s0.next_structure_serial && bs[j].id@ == structure_id(k);
        if bs[j].id@ == b.id@ {
            lemma_structure_id_injective(k, s0.next_structure_serial as nat);
        }
    }
    assert(first_with_id(s1.buildings@, b.id@, n));
    lemma_find_first(s1.buildings@, b.id@, n);
    assert(s1.buildings@.remove(n) =~= bs);
}

/// Switching a building twice gives it back its activity and leaves every
/// other building as it was; the only trace is that a staffed building's
/// workers have been sent home (on the switch that turned it off).
///
/// When no workers are sent home (the building has none, or is of a kind
/// that takes none) and the civic index and job slots matched the buildings
/// before, the whole colony but its log comes back as it was: civic index,
/// job slots and assigned specialists included.
pub proof fn law_toggle_twice_restores(s0: GameState, s1: GameState, s2: GameState, id: Seq<char>)
    requires
        toggle_effect(s0, s1, id),
        toggle_effect(s1, s2, id),
    ensures
        match find_first(s0.buildings@, id) {
            None => s2.buildings@ == s0.buildings@,
            Some(i) => {
                let b = s0.buildings@[i];
                s2.buildings@ == s0.buildings@.update(
                    i,
                    Building {
                        assigned_workforce: if b.variant.is_staffed_kind() { 0 } else { b.assigned_workforce },
                        ..b
                    },
                )
            },
        },
        match find_first(s0.buildings@, id) {
            None => s2 == (GameState { buildings: s2.buildings, notifications: s2.notifications, ..s0 }),
            Some(i) => {
                let b = s0.buildings@[i];
                (b.assigned_workforce == 0 || !b.variant.is_staffed_kind())
                    && (b.variant.is_civic() ==> s0.civic_index == civic_sum(s0.buildings@))
                    && (b.variant.is_staffed_kind() ==> s0.total_specialist_slots == job_slots_sum(s0.buildings@))
                    ==> s2.buildings@ == s0.buildings@ && s2 == (GameState {
                    buildings: s2.buildings,
                    notifications: s2.notifications,
                    ..s0
                })
            },
        },
{
    match find_first(s0.buildings@, id) {
        None => {
            assert(s1.buildings@ == s0.buildings@);
        },
        Some(i) => {
            let b = s0.buildings@[i];
            let w = choose|w: int| 0 <= w < s0.buildings@.len() && s0.buildings@[w].id@ == id;
            lemma_first_exists(s0.buildings@, id, w);
            let k = choose|k: int| first_with_id(s0.buildings@, id, k);
            lemma_find_first(s0.buildings@, id, k);
            let b1 = s1.buildings@[i];
            assert(s1.buildings@ == s0.buildings@.update(i, b1));
            lemma_find_first_update(s0.buildings@, i, b1, id);
            let b2 = s2.buildings@[i];
            assert(s2.buildings@ == s1.buildings@.update(i, b2));
            assert(s2.buildings@ =~= s0.buildings@.update(
                i,
                Building {
                    assigned_workforce: if b.variant.is_staffed_kind() { 0 } else { b.assigned_workforce },
                    ..b
                },
            ));
            if b.assigned_workforce == 0 || !b.variant.is_staffed_kind() {
                assert(b1 == Building { is_active: !b.is_active, ..b });
                let back = s1.buildings@.update(i, Building { is_active: b.is_active, ..b1 });
                assert(back =~= s0.buildings@);
                assert(s2.buildings@ =~= s0.buildings@);
            }
        },
    }
}

/// The kinds of structure, by what each is: habitations; services and zones
/// (civic); fabricators and processing plants (production); the upgradable
/// kinds are exactly habitations, services, zones, fabricators and
/// processing plants; the kinds that take workers are those and extractors,
/// Bio-Domes and research institutes.
pub proof fn law_kinds(v: BuildingVariant)
    ensures
        v.is_habitation() <==> v is Habitation,
        v.is_civic() <==> (v is Service || v is Zone),
        v.is_production() <==> (v is Fabricator || v is ProcessingPlant),
        v.is_upgradable() <==> (v is Habitation || v is Service || v is Zone || v is Fabricator
            || v is ProcessingPlant),
        v.is_staffed_kind() <==> (v is Extractor || v is BioDome || v is ResearchInstitute || v is Habitation
            || v is Service || v is Zone || v is Fabricator || v is ProcessingPlant),
{
}

/// An upgrade order on a habitation, service, zone, fabricator or
/// processing plant below its last tier, whose next tier's tech is unlocked
/// and whose cost the colony can pay, goes through; an order on any other
/// kind is refused as not upgradable.
pub proof fn law_upgrade_goes_through(gs: GameState, id: Seq<char>)
    requires
        find_first(gs.buildings@, id) is Some,
    ensures
        ({
            let b = gs.buildings@[find_first(gs.buildings@, id)->0];
            let k = b.current_tier_index as int;
            let next = b.variant.tier(k + 1);
            let upgradable = b.variant is Habitation || b.variant is Service || b.variant is Zone
                || b.variant is Fabricator || b.variant is ProcessingPlant;
            &&& !upgradable ==> upgrade_verdict(gs, id) == UpgradeOutcome::NotUpgradable
            &&& upgradable && k + 1 < b.variant.tier_count() && (next.tech is None || gs.unlocked_techs@.contains(
                next.tech->0,
            )) && gs.credits >= next.cost ==> upgrade_verdict(gs, id) == UpgradeOutcome::Upgraded
        }),
{
    let w = choose|w: int| 0 <= w < gs.buildings@.len() && gs.buildings@[w].id@ == id;
    lemma_first_exists(gs.buildings@, id, w);
    let k = choose|k: int| first_with_id(gs.buildings@, id, k);
    lemma_find_first(gs.buildings@, id, k);
}

/// Switching off a building of a kind that takes workers (extractor,
/// Bio-Dome, research institute, habitation, service, zone, fabricator,
/// processing plant) sends all its workers home and releases them from the
/// assigned total; switching such a building either way recounts the job
/// slots to what the active buildings offer.
pub proof fn law_toggle_staffed(s0: GameState, s1: GameState, id: Seq<char>)
    requires
        toggle_effect(s0, s1, id),
        find_first(s0.buildings@, id) is Some,
        job_slots_sum(s1.buildings@) <= u32::MAX,
    ensures
        ({
            let i = find_first(s0.buildings@, id)->0;
            let b = s0.buildings@[i];
            let staffed = b.variant is Extractor || b.variant is BioDome || b.variant is ResearchInstitute
                || b.variant is Habitation || b.variant is Service || b.variant is Zone || b.variant is Fabricator
                || b.variant is ProcessingPlant;
            &&& s1.buildings@[i].is_active == !b.is_active
            &&& staffed ==> s1.total_specialist_slots == job_slots_sum(s1.buildings@)
            &&& staffed && b.is_active ==> s1.buildings@[i].assigned_workforce == 0
                && s1.assigned_specialists_total == sat_sub(s0.assigned_specialists_total, b.assigned_workforce)
        }),
{
    let w = choose|w: int| 0 <= w < s0.buildings@.len() && s0.buildings@[w].id@ == id;
    lemma_first_exists(s0.buildings@, id, w);
    let k = choose|k: int| first_with_id(s0.buildings@, id, k);
    lemma_find_first(s0.buildings@, id, k);
}

/// Upgrading a building moves it up exactly one tier and keeps its workers,
/// except that when the new tier requires fewer workers than the old one,
/// those beyond the new requirement are sent home.
pub proof fn law_upgrade_workforce(b: Building)
    requires
        b.current_tier_index < usize::MAX,
    ensures
        ({
            let k = b.current_tier_index as int;
            let nb = upgraded_building(b);
            let old_max = b.variant.workforce_at(k);
            let new_max = b.variant.workforce_at(k + 1);
            &&& nb.current_tier_index == k + 1
            &&& nb.id == b.id && nb.variant == b.variant && nb.is_active == b.is_active
            &&& new_max < old_max && b.assigned_workforce > new_max ==> nb.assigned_workforce == new_max
            &&& !(new_max < old_max && b.assigned_workforce > new_max) ==> nb.assigned_workforce == b.assigned_workforce
        }),
{
}

} // verus!
