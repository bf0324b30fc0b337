use vstd::prelude::*;
use crate::components::building::Building;
use crate::game_state::construction::{build_verdict, habitation_fits, inactive_build_fits, BuildOutcome};
use crate::game_state::management::{
    assignment_fits, find_building_index, removal_fits, toggle_fits, upgrade_fits, upgrade_well_defined,
    upgraded_building,
};
use crate::game_state::tiers::{
    biodome_catalog, extractor_catalog, fabricator_catalog, get_default_biodome_tiers, get_default_extractor_tiers,
    get_default_research_institute_tiers, get_new_fabricator_tiers, get_new_habitation_tiers,
    get_new_processing_plant_tiers, get_new_service_tiers, get_new_zone_tiers, processing_plant_catalog,
    research_institute_catalog, service_catalog, zone_catalog,
};
use crate::game_state::totals::{
    civic_of, colony_sums, habitation_slots_of, housing_of, job_slots_of, lemma_sum_remove, lemma_sum_update,
    tier_terms,
};
use crate::game_state::{tech_unlocked, GameState, ServiceType, Tech, ZoneType};

verus! {

/// The kinds of structure that can be ordered built.
#[derive(Debug, Clone, Copy, PartialEq, Eq, Structural)]
pub enum StructureKind {
    Habitation,
    Service(ServiceType),
    Zone(ZoneType),
    Fabricator,
    ProcessingPlant,
    Extractor,
    BioDome,
    PowerRelay,
    ResearchInstitute,
    StorageSilo,
}

/// Whether the totals that building a structure of kind `kind` at tier
/// `tier` recomputes fit in a `u32` (what each construction requires).
pub open spec fn build_fits(gs: GameState, kind: StructureKind, tier: usize) -> bool {
    match kind {
        StructureKind::Habitation => habitation_fits(gs, tier),
        StructureKind::Service(s) => tier < service_catalog(s).len() ==> inactive_build_fits(
            gs,
            service_catalog(s)[tier as int].cost,
            service_catalog(s)[tier as int].tech,
            true,
        ),
        StructureKind::Zone(z) => tier < zone_catalog(z).len() ==> inactive_build_fits(
            gs,
            zone_catalog(z)[tier as int].cost,
            zone_catalog(z)[tier as int].tech,
            true,
        ),
        StructureKind::Fabricator => tier < fabricator_catalog().len() ==> inactive_build_fits(
            gs,
            fabricator_catalog()[tier as int].cost,
            None,
            false,
        ),
        StructureKind::ProcessingPlant => tier < processing_plant_catalog().len() ==> inactive_build_fits(
            gs,
            processing_plant_catalog()[tier as int].cost,
            None,
            false,
        ),
        StructureKind::Extractor => inactive_build_fits(
            gs,
            extractor_catalog()[0].cost,
            extractor_catalog()[0].tech,
            false,
        ),
        StructureKind::BioDome => inactive_build_fits(gs, biodome_catalog()[0].cost, biodome_catalog()[0].tech, false),
        StructureKind::ResearchInstitute => inactive_build_fits(
            gs,
            research_institute_catalog()[0].cost,
            research_institute_catalog()[0].tech,
            false,
        ),
        StructureKind::PowerRelay => true,
        StructureKind::StorageSilo => true,
    }
}

/// Whether a construction of cost `cost` that needs `tech` would go through.
fn would_build(gs: &GameState, cost: u32, tech: Option<Tech>) -> (r: bool)
    ensures
        r == (build_verdict(*gs, cost, tech) == BuildOutcome::Built),
{
    let tech_met = match tech {
        Some(t) => tech_unlocked(&gs.unlocked_techs, t),
        None => true,
    };
    tech_met && gs.credits >= cost as u64
}

/// Whether an inactive structure can be built without its totals
/// overflowing: the job slots, and the civic index where `civic`.
fn inactive_fits(gs: &GameState, cost: u32, tech: Option<Tech>, civic: bool) -> (r: bool)
    ensures
        r == inactive_build_fits(*gs, cost, tech, civic),
{
    if !would_build(gs, cost, tech) {
        return true;
    }
    let (_, _, c, j) = colony_sums(&gs.buildings);
    j <= u32::MAX as u128 && (!civic || c <= u32::MAX as u128)
}

/// Whether a structure of kind `kind` at tier `tier` can be ordered built
/// without the colony's totals overflowing.
pub fn room_to_build(game_state: &GameState, kind: StructureKind, tier: usize) -> (r: bool)
    ensures
        r == build_fits(*game_state, kind, tier),
{
    match kind {
        StructureKind::Habitation => {
            let t = get_new_habitation_tiers();
            if tier >= t.len() {
                return true;
            }
            if !would_build(game_state, t[tier].construction_credits_cost, t[tier].required_tech) {
                return true;
            }
            let (h, s, _, _) = colony_sums(&game_state.buildings);
            h + t[tier].housing_capacity as u128 <= u32::MAX as u128 && s + t[tier].specialist_slots as u128
                <= u32::MAX as u128
        },
        StructureKind::Service(st) => {
            let t = get_new_service_tiers(st);
            if tier >= t.len() {
                return true;
            }
            inactive_fits(game_state, t[tier].construction_credits_cost, t[tier].required_tech, true)
        },
        StructureKind::Zone(z) => {
            let t = get_new_zone_tiers(z);
            if tier >= t.len() {
                return true;
            }
            inactive_fits(game_state, t[tier].construction_credits_cost, t[tier].required_tech, true)
        },
        StructureKind::Fabricator => {
            let t = get_new_fabricator_tiers();
            if tier >= t.len() {
                return true;
            }
            inactive_fits(game_state, t[tier].construction_credits_cost, None, false)
        },
        StructureKind::ProcessingPlant => {
            let t = get_new_processing_plant_tiers();
            if tier >= t.len() {
                return true;
            }
            inactive_fits(game_state, t[tier].construction_credits_cost, None, false)
        },
        StructureKind::Extractor => {
            let t = get_default_extractor_tiers();
            inactive_fits(game_state, t[0].construction_credits_cost, t[0].required_tech, false)
        },
        StructureKind::BioDome => {
            let t = get_default_biodome_tiers();
            inactive_fits(game_state, t[0].construction_credits_cost, t[0].required_tech, false)
        },
        StructureKind::ResearchInstitute => {
            let t = get_default_research_institute_tiers();
            inactive_fits(game_state, t[0].construction_credits_cost, t[0].required_tech, false)
        },
        StructureKind::PowerRelay => true,
        StructureKind::StorageSilo => true,
    }
}

/// Whether switching the building named `id` leaves the totals it
/// recomputes within a `u32`.
pub fn toggle_fits_exec(game_state: &GameState, id: &str) -> (r: bool)
    ensures
        r == toggle_fits(*game_state, id@),
{
    match find_building_index(&game_state.buildings, id) {
        None => true,
        Some(i) => {
            let b = &game_state.buildings[i];
            let (_, _, c, j) = colony_sums(&game_state.buildings);
            let (_, _, oc, oj) = tier_terms(&b.variant, b.current_tier_index, b.is_active);
            let (_, _, nc, nj) = tier_terms(&b.variant, b.current_tier_index, !b.is_active);
            proof {
                let bs = game_state.buildings@;
                let nb = Building { is_active: !bs[i as int].is_active, ..bs[i as int] };
                lemma_sum_update(bs, i as int, nb, |b: Building| civic_of(b));
                lemma_sum_update(bs, i as int, nb, |b: Building| job_slots_of(b));
            }
            (!b.variant.is_civic_kind() || c + nc as u128 - oc as u128 <= u32::MAX as u128) && (
            !b.variant.is_staffed() || j + nj as u128 - oj as u128 <= u32::MAX as u128)
        },
    }
}

/// Whether removing the building named `id` leaves the totals it
/// recomputes within a `u32`.
pub fn removal_fits_exec(game_state: &GameState, id: &str) -> (r: bool)
    ensures
        r == removal_fits(*game_state, id@),
{
    match find_building_index(&game_state.buildings, id) {
        None => true,
        Some(i) => {
            let b = &game_state.buildings[i];
            let (h, s, c, j) = colony_sums(&game_state.buildings);
            let (oh, os, oc, oj) = tier_terms(&b.variant, b.current_tier_index, b.is_active);
            proof {
                let bs = game_state.buildings@;
                lemma_sum_remove(bs, i as int, |b: Building| housing_of(b));
                lemma_sum_remove(bs, i as int, |b: Building| habitation_slots_of(b));
                lemma_sum_remove(bs, i as int, |b: Building| civic_of(b));
                lemma_sum_remove(bs, i as int, |b: Building| job_slots_of(b));
            }
            let hab = b.variant.is_habitation_kind();
            let civic = b.variant.is_civic_kind();
            (!hab || (h - oh as u128 <= u32::MAX as u128 && s - os as u128 <= u32::MAX as u128)) && (!civic || (
            c - oc as u128 <= u32::MAX as u128 && j - oj as u128 <= u32::MAX as u128)) && (!(b.variant.is_staffed()
                && !hab) || j - oj as u128 <= u32::MAX as u128)
        },
    }
}

/// Whether upgrading the building named `id` leaves the totals it
/// recomputes within a `u32`.
pub fn upgrade_fits_exec(game_state: &GameState, id: &str) -> (r: bool)
    ensures
        r == upgrade_fits(*game_state, id@),
{
    match find_building_index(&game_state.buildings, id) {
        None => true,
        Some(i) => {
            let b = &game_state.buildings[i];
            let k = b.current_tier_index;
            if !b.variant.is_upgradable_kind() || k >= b.variant.tier_count_exec() || k + 1 >= b.variant.tier_count_exec() {
                return true;
            }
            let (cost, _, tech) = match b.variant.tier_basics(k + 1) {
                Some(t) => t,
                None => {
                    return true;
                },
            };
            if !would_build(game_state, cost, tech) {
                return true;
            }
            let (h, s, c, j) = colony_sums(&game_state.buildings);
            let (oh, os, oc, oj) = tier_terms(&b.variant, k, b.is_active);
            let (nh, ns, nc, nj) = tier_terms(&b.variant, k + 1, b.is_active);
            proof {
                let bs = game_state.buildings@;
                let nb = upgraded_building(bs[i as int]);
                lemma_sum_update(bs, i as int, nb, |b: Building| housing_of(b));
                lemma_sum_update(bs, i as int, nb, |b: Building| habitation_slots_of(b));
                lemma_sum_update(bs, i as int, nb, |b: Building| civic_of(b));
                lemma_sum_update(bs, i as int, nb, |b: Building| job_slots_of(b));
            }
            let hab = b.variant.is_habitation_kind();
            (!hab || (h + nh as u128 - oh as u128 <= u32::MAX as u128 && s + ns as u128 - os as u128
                <= u32::MAX as u128)) && (hab || j + nj as u128 - oj as u128 <= u32::MAX as u128) && (
            !b.variant.is_civic_kind() || c + nc as u128 - oc as u128 <= u32::MAX as u128)
        },
    }
}

/// Whether assigning `num` workers to the building named `id` is free of
/// overflow.
pub fn assignment_fits_exec(game_state: &GameState, id: &str, num: u32) -> (r: bool)
    ensures
        r == assignment_fits(*game_state, id@, num),
{
    match find_building_index(&game_state.buildings, id) {
        None => true,
        Some(i) => {
            let b = &game_state.buildings[i];
            let max = match b.variant.tier_basics(b.current_tier_index) {
                Some((_, w, _)) => w,
                None => 0,
            };
            let idle = game_state.total_inhabitants.saturating_sub(game_state.assigned_specialists_total);
            !(max != 0 && idle >= num) || b.assigned_workforce as u64 + num as u64 <= u32::MAX as u64
        },
    }
}

/// Whether an upgrade order for the building named `id` is well defined.
pub fn upgrade_well_defined_exec(game_state: &GameState, id: &str) -> (r: bool)
    ensures
        r == upgrade_well_defined(*game_state, id@),
{
    match find_building_index(&game_state.buildings, id) {
        None => true,
        Some(i) => {
            let v = &game_state.buildings[i].variant;
            !v.is_upgradable_kind() || v.tier_count_exec() >= 1
        },
    }
}

} // verus!
