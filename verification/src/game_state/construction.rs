use vstd::prelude::*;
use crate::components::building::{Building, BuildingVariant, ProcessingPlantTier, TierSummary};
use crate::game_state::text::{concat3, concat5, tech_label, tech_name};
use crate::game_state::tiers::{
    biodome_catalog, extractor_catalog, fabricator_catalog, get_default_biodome_tiers, get_default_extractor_tiers, get_default_power_relay_tiers, get_default_research_institute_tiers, get_default_storage_silo_tiers, get_new_fabricator_tiers, get_new_habitation_tiers, get_new_processing_plant_tiers, get_new_service_tiers, get_new_zone_tiers, habitation_catalog, is_biodome_table, is_extractor_table, is_fabricator_table, is_habitation_table, is_power_relay_table, is_processing_plant_table, is_research_institute_table, is_service_table, is_storage_silo_table, is_zone_table, power_relay_catalog, processing_plant_catalog, research_institute_catalog, service_catalog, storage_silo_catalog, zone_catalog,
};
use crate::game_state::consistency::lemma_place_building;
use crate::game_state::totals::{
    civic_of, civic_sum, habitation_slots_of, housing_of, habitation_slots_sum, housing_sum, job_slots_of,
    job_slots_sum, lemma_sum_push,
    update_civic_index, update_housing_and_specialist_slots, update_total_specialist_slots,
};
use crate::game_state::{
    add_notification, generate_unique_id, logged, next_serial, structure_id, sum_by, tech_unlocked,
    GameState, ResourceType, Tech,
};

verus! {

/// What became of a construction order.
#[derive(Debug, Clone, Copy, PartialEq, Eq, Structural)]
pub enum BuildOutcome {
    /// There is no tier with the requested index; nothing changed.
    InvalidTier,
    /// The tier needs a tech that is not unlocked yet.
    TechLocked(Tech),
    /// The colony cannot pay for the tier.
    InsufficientCredits,
    /// The structure was paid for and placed.
    Built,
}

/// The verdict on building a tier of cost `cost` that needs `tech`: a
/// missing tech refuses it first, then a lack of credits.
pub open spec fn build_verdict(gs: GameState, cost: u32, tech: Option<Tech>) -> BuildOutcome {
    if tech is Some && !gs.unlocked_techs@.contains(tech->0) {
        BuildOutcome::TechLocked(tech->0)
    } else if (gs.credits as int) < cost as int {
        BuildOutcome::InsufficientCredits
    } else {
        BuildOutcome::Built
    }
}

/// Notice that a tech is missing to build `label`.
pub open spec fn tech_required_msg(t: Tech, label: Seq<char>) -> Seq<char> {
    "Technology "@ + tech_label(t) + " required to build "@ + label + "."@
}

/// Notice that the colony cannot afford `label`.
pub open spec fn no_credits_msg(label: Seq<char>) -> Seq<char> {
    "Not enough credits to build "@ + label + "."@
}

/// Notice of a finished construction.
pub open spec fn built_msg(prefix: Seq<char>, label: Seq<char>) -> Seq<char> {
    prefix + label + "."@
}

/// The notice a construction order leaves in the log.
pub open spec fn outcome_msg(r: BuildOutcome, label: Seq<char>, prefix: Seq<char>) -> Seq<char> {
    match r {
        BuildOutcome::TechLocked(t) => tech_required_msg(t, label),
        BuildOutcome::InsufficientCredits => no_credits_msg(label),
        _ => built_msg(prefix, label),
    }
}

/// Checks the tech and the credits for a construction; pays for it when
/// both allow, and logs the verdict.
fn charge_for_construction(
    game_state: &mut GameState,
    cost: u32,
    tech: Option<Tech>,
    label: &str,
    built_prefix: &str,
) -> (r: BuildOutcome)
    ensures
        r == build_verdict(*old(game_state), cost, tech),
        *final(game_state) == (GameState {
            credits: if r == BuildOutcome::Built {
                (old(game_state).credits - cost) as u64
            } else {
                old(game_state).credits
            },
            notifications: final(game_state).notifications,
            ..*old(game_state)
        }),
        logged(
            old(game_state).notifications@,
            final(game_state).notifications@,
            outcome_msg(r, label@, built_prefix@),
            0,
        ),
{
    if let Some(t) = tech {
        if !tech_unlocked(&game_state.unlocked_techs, t) {
            let msg = concat5("Technology ", tech_name(t), " required to build ", label, ".");
            add_notification(&mut game_state.notifications, msg, 0);
            return BuildOutcome::TechLocked(t);
        }
    }
    if game_state.credits < cost as u64 {
        let msg = concat3("Not enough credits to build ", label, ".");
        add_notification(&mut game_state.notifications, msg, 0);
        return BuildOutcome::InsufficientCredits;
    }
    game_state.credits = game_state.credits - cost as u64;
    let msg = concat3(built_prefix, label, ".");
    add_notification(&mut game_state.notifications, msg, 0);
    BuildOutcome::Built
}

/// The totals building a habitation at `tier` recomputes fit in a `u32`:
/// housing and habitation slots with the new one counted, when it is built.
pub open spec fn habitation_fits(gs: GameState, tier: usize) -> bool {
    let info = habitation_catalog()[tier as int];
    tier < habitation_catalog().len() && build_verdict(gs, info.cost, info.tech) == BuildOutcome::Built ==> {
        &&& housing_sum(gs.buildings@) + info.housing <= u32::MAX
        &&& habitation_slots_sum(gs.buildings@) + info.slots <= u32::MAX
    }
}

/// The totals building an inactive structure of cost `cost` that needs
/// `tech` recomputes fit in a `u32`, when it is built: the job slots, and
/// the civic index where `civic`. (An inactive structure adds nothing to
/// them.)
pub open spec fn inactive_build_fits(gs: GameState, cost: u32, tech: Option<Tech>, civic: bool) -> bool {
    build_verdict(gs, cost, tech) == BuildOutcome::Built ==> {
        &&& job_slots_sum(gs.buildings@) <= u32::MAX
        &&& civic ==> civic_sum(gs.buildings@) <= u32::MAX
    }
}


/// Builds a habitation at tier `tier_index`: active, empty, and counted in
/// the housing capacity and specialist slots at once.
pub fn add_habitation_structure(game_state: &mut GameState, tier_index: usize) -> (r: BuildOutcome)
    requires
        habitation_fits(*old(game_state), tier_index),
    ensures
        old(game_state).is_consistent() && old(game_state).next_structure_serial < u32::MAX
            ==> final(game_state).is_consistent(),
        tier_index >= habitation_catalog().len() ==> r == BuildOutcome::InvalidTier
            && *final(game_state) == *old(game_state),
        tier_index < habitation_catalog().len() ==> ({
            let info = habitation_catalog()[tier_index as int];
            &&& r == build_verdict(*old(game_state), info.cost, info.tech)
            &&& logged(
                old(game_state).notifications@,
                final(game_state).notifications@,
                outcome_msg(r, info.name, "Built "@),
                0,
            )
            &&& r != BuildOutcome::Built ==> *final(game_state) == (GameState {
                notifications: final(game_state).notifications,
                ..*old(game_state)
            })
            &&& r == BuildOutcome::Built ==> {
                let b = final(game_state).buildings@.last();
                &&& final(game_state).buildings@ == old(game_state).buildings@.push(b)
                &&& b.id@ == structure_id(old(game_state).next_structure_serial as nat)
                &&& b.variant matches BuildingVariant::Habitation { current_inhabitants, available_tiers }
                    && current_inhabitants == 0 && is_habitation_table(available_tiers@)
                &&& b.current_tier_index == tier_index
                &&& b.is_active
                &&& b.assigned_workforce == 0
                &&& *final(game_state) == (GameState {
                    credits: (old(game_state).credits - info.cost) as u64,
                    notifications: final(game_state).notifications,
                    buildings: final(game_state).buildings,
                    next_structure_serial: next_serial(old(game_state).next_structure_serial),
                    available_housing_capacity: housing_sum(final(game_state).buildings@) as u32,
                    total_specialist_slots: habitation_slots_sum(final(game_state).buildings@) as u32,
                    ..*old(game_state)
                })
            }
        }),
{
    let ghost old_state = *game_state;
    let all_available_tiers = get_new_habitation_tiers();
    if tier_index >= all_available_tiers.len() {
        return BuildOutcome::InvalidTier;
    }
    let cost = all_available_tiers[tier_index].construction_credits_cost;
    let tech = all_available_tiers[tier_index].required_tech;
    let r = charge_for_construction(
        game_state,
        cost,
        tech,
        all_available_tiers[tier_index].name.as_str(),
        "Built ",
    );
    if r != BuildOutcome::Built {
        return r;
    }
    let id = generate_unique_id(game_state);
    let new_building = Building {
        id,
        variant: BuildingVariant::Habitation { current_inhabitants: 0, available_tiers: all_available_tiers },
        current_tier_index: tier_index,
        is_active: true,
        assigned_workforce: 0,
    };
    let ghost nb = new_building;
    proof {
        lemma_sum_push(game_state.buildings@, new_building, |b: Building| housing_of(b));
        lemma_sum_push(game_state.buildings@, new_building, |b: Building| habitation_slots_of(b));
        lemma_sum_push(game_state.buildings@, new_building, |b: Building| job_slots_of(b));
        lemma_sum_push(game_state.buildings@, new_building, |b: Building| civic_of(b));
    }
    game_state.buildings.push(new_building);
    update_housing_and_specialist_slots(game_state);
    proof {
        if old_state.is_consistent() && old_state.next_structure_serial < u32::MAX {
            lemma_place_building(old_state, *game_state, nb);
        }
    }
    r
}

} // verus!

verus! {

/// `new` is `old` with building `b`, just numbered, placed last.
pub open spec fn placed(old: GameState, new: GameState, b: Building) -> bool {
    &&& new.buildings@ == old.buildings@.push(b)
    &&& b.id@ == structure_id(old.next_structure_serial as nat)
    &&& b.assigned_workforce == 0
}



/// The label under which a service tier is announced.
pub open spec fn service_label(s: crate::game_state::ServiceType, name: Seq<char>) -> Seq<char> {
    crate::game_state::text::service_type_label(s) + " - "@ + name
}

/// The label under which a zone tier is announced.
pub open spec fn zone_label(z: crate::game_state::ZoneType, name: Seq<char>) -> Seq<char> {
    crate::game_state::text::zone_type_label(z) + " - "@ + name
}

/// Builds a service of type `service_type` at tier `tier_index`. It starts
/// inactive; the civic index and the job slots are recomputed.
pub fn add_service_building(
    game_state: &mut GameState,
    service_type: crate::game_state::ServiceType,
    tier_index: usize,
) -> (r: BuildOutcome)
    requires
        tier_index < service_catalog(service_type).len() ==> inactive_build_fits(
            *old(game_state),
            service_catalog(service_type)[tier_index as int].cost,
            service_catalog(service_type)[tier_index as int].tech,
            true,
        ),
    ensures
        old(game_state).is_consistent() && old(game_state).next_structure_serial < u32::MAX
            ==> final(game_state).is_consistent(),
        tier_index >= service_catalog(service_type).len() ==> r == BuildOutcome::InvalidTier
            && *final(game_state) == *old(game_state),
        tier_index < service_catalog(service_type).len() ==> ({
            let info = service_catalog(service_type)[tier_index as int];
            &&& r == build_verdict(*old(game_state), info.cost, info.tech)
            &&& logged(
                old(game_state).notifications@,
                final(game_state).notifications@,
                outcome_msg(r, service_label(service_type, info.name), "Built "@),
                0,
            )
            &&& r != BuildOutcome::Built ==> *final(game_state) == (GameState {
                notifications: final(game_state).notifications,
                ..*old(game_state)
            })
            &&& r == BuildOutcome::Built ==> {
                let b = final(game_state).buildings@.last();
                &&& placed(*old(game_state), *final(game_state), b)
                &&& b.variant matches BuildingVariant::Service { service_type: st, available_tiers }
                    && st == service_type && is_service_table(service_type, available_tiers@)
                &&& b.current_tier_index == tier_index
                &&& !b.is_active
                &&& *final(game_state) == (GameState {
                    credits: (old(game_state).credits - info.cost) as u64,
                    notifications: final(game_state).notifications,
                    buildings: final(game_state).buildings,
                    next_structure_serial: next_serial(old(game_state).next_structure_serial),
                    civic_index: civic_sum(final(game_state).buildings@) as u32,
                    total_specialist_slots: job_slots_sum(final(game_state).buildings@) as u32,
                    ..*old(game_state)
                })
            }
        }),
{
    let ghost old_state = *game_state;
    let all_available_tiers = get_new_service_tiers(service_type);
    if tier_index >= all_available_tiers.len() {
        return BuildOutcome::InvalidTier;
    }
    let cost = all_available_tiers[tier_index].construction_credits_cost;
    let tech = all_available_tiers[tier_index].required_tech;
    let label = concat3(
        crate::game_state::text::service_type_name(service_type),
        " - ",
        all_available_tiers[tier_index].name.as_str(),
    );
    let r = charge_for_construction(game_state, cost, tech, label.as_str(), "Built ");
    if r != BuildOutcome::Built {
        return r;
    }
    let id = generate_unique_id(game_state);
    let new_building = Building {
        id,
        variant: BuildingVariant::Service { service_type, available_tiers: all_available_tiers },
        current_tier_index: tier_index,
        is_active: false,
        assigned_workforce: 0,
    };
    proof {
        lemma_sum_push(game_state.buildings@, new_building, |b: Building| habitation_slots_of(b));
        lemma_sum_push(game_state.buildings@, new_building, |b: Building| job_slots_of(b));
        lemma_sum_push(game_state.buildings@, new_building, |b: Building| civic_of(b));
        lemma_sum_push(game_state.buildings@, new_building, |b: Building| housing_of(b));
    }
    let ghost nb = new_building;
    game_state.buildings.push(new_building);
    update_civic_index(game_state);
    update_total_specialist_slots(game_state);
    proof {
        if old_state.is_consistent() && old_state.next_structure_serial < u32::MAX {
            lemma_place_building(old_state, *game_state, nb);
        }
    }
    r
}

/// Builds a zone of type `zone_type` at tier `tier_index`. It starts
/// inactive; the job slots and the civic index are recomputed.
pub fn add_zone(
    game_state: &mut GameState,
    zone_type: crate::game_state::ZoneType,
    tier_index: usize,
) -> (r: BuildOutcome)
    requires
        tier_index < zone_catalog(zone_type).len() ==> inactive_build_fits(
            *old(game_state),
            zone_catalog(zone_type)[tier_index as int].cost,
            zone_catalog(zone_type)[tier_index as int].tech,
            true,
        ),
    ensures
        old(game_state).is_consistent() && old(game_state).next_structure_serial < u32::MAX
            ==> final(game_state).is_consistent(),
        tier_index >= zone_catalog(zone_type).len() ==> r == BuildOutcome::InvalidTier
            && *final(game_state) == *old(game_state),
        tier_index < zone_catalog(zone_type).len() ==> ({
            let info = zone_catalog(zone_type)[tier_index as int];
            &&& r == build_verdict(*old(game_state), info.cost, info.tech)
            &&& logged(
                old(game_state).notifications@,
                final(game_state).notifications@,
                outcome_msg(r, zone_label(zone_type, info.name), "Constructed Zone: "@),
                0,
            )
            &&& r != BuildOutcome::Built ==> *final(game_state) == (GameState {
                notifications: final(game_state).notifications,
                ..*old(game_state)
            })
            &&& r == BuildOutcome::Built ==> {
                let b = final(game_state).buildings@.last();
                &&& placed(*old(game_state), *final(game_state), b)
                &&& b.variant matches BuildingVariant::Zone { zone_type: zt, available_tiers }
                    && zt == zone_type && is_zone_table(zone_type, available_tiers@)
                &&& b.current_tier_index == tier_index
                &&& !b.is_active
                &&& *final(game_state) == (GameState {
                    credits: (old(game_state).credits - info.cost) as u64,
                    notifications: final(game_state).notifications,
                    buildings: final(game_state).buildings,
                    next_structure_serial: next_serial(old(game_state).next_structure_serial),
                    civic_index: civic_sum(final(game_state).buildings@) as u32,
                    total_specialist_slots: job_slots_sum(final(game_state).buildings@) as u32,
                    ..*old(game_state)
                })
            }
        }),
{
    let ghost old_state = *game_state;
    let all_available_tiers = get_new_zone_tiers(zone_type);
    if tier_index >= all_available_tiers.len() {
        return BuildOutcome::InvalidTier;
    }
    let cost = all_available_tiers[tier_index].construction_credits_cost;
    let tech = all_available_tiers[tier_index].required_tech;
    let label = concat3(
        crate::game_state::text::zone_type_name(zone_type),
        " - ",
        all_available_tiers[tier_index].name.as_str(),
    );
    let r = charge_for_construction(game_state, cost, tech, label.as_str(), "Constructed Zone: ");
    if r != BuildOutcome::Built {
        return r;
    }
    let id = generate_unique_id(game_state);
    let new_building = Building {
        id,
        variant: BuildingVariant::Zone { zone_type, available_tiers: all_available_tiers },
        current_tier_index: tier_index,
        is_active: false,
        assigned_workforce: 0,
    };
    proof {
        lemma_sum_push(game_state.buildings@, new_building, |b: Building| habitation_slots_of(b));
        lemma_sum_push(game_state.buildings@, new_building, |b: Building| job_slots_of(b));
        lemma_sum_push(game_state.buildings@, new_building, |b: Building| civic_of(b));
        lemma_sum_push(game_state.buildings@, new_building, |b: Building| housing_of(b));
    }
    let ghost nb = new_building;
    game_state.buildings.push(new_building);
    update_total_specialist_slots(game_state);
    update_civic_index(game_state);
    proof {
        if old_state.is_consistent() && old_state.next_structure_serial < u32::MAX {
            lemma_place_building(old_state, *game_state, nb);
        }
    }
    r
}

} // verus!

verus! {

/// `s` with the raw material `r` made available, if there is one.
pub open spec fn with_resource(s: Seq<ResourceType>, r: Option<ResourceType>) -> Seq<ResourceType> {
    match r {
        Some(x) => if s.contains(x) { s } else { s.push(x) },
        None => s,
    }
}

/// The raw material that each processing plant tier opens up.
pub open spec fn processing_unlock(i: int) -> Option<ResourceType> {
    if i == 0 {
        Some(ResourceType::RawXylos)
    } else if i == 1 {
        Some(ResourceType::RawQuantium)
    } else {
        None
    }
}

/// The raw material a processing plant tier opens up is the one its tier
/// table lists.
pub proof fn law_processing_unlock_is_the_tables(ts: Seq<ProcessingPlantTier>, t: int)
    requires
        is_processing_plant_table(ts),
        0 <= t < ts.len(),
    ensures
        processing_unlock(t) == ts[t].unlocks_resource,
{
}

/// Makes raw material `r` available, once.
fn unlock_resource(v: &mut Vec<ResourceType>, r: ResourceType)
    ensures
        final(v)@ == with_resource(old(v)@, Some(r)),
{
    let mut i: usize = 0;
    while i < v.len()
        invariant
            i <= v@.len(),
            v@ == old(v)@,
            forall|j: int| 0 <= j < i ==> v@[j] != r,
        decreases v.len() - i,
    {
        if v[i] == r {
            return;
        }
        i = i + 1;
    }
    v.push(r);
}


/// Builds a fabricator at tier `tier_index`, whatever tech the tier lists.
/// It starts inactive; the job slots are recomputed.
pub fn add_fabricator(game_state: &mut GameState, tier_index: usize) -> (r: BuildOutcome)
    requires
        tier_index < fabricator_catalog().len() ==> inactive_build_fits(
            *old(game_state),
            fabricator_catalog()[tier_index as int].cost,
            None,
            false,
        ),
    ensures
        old(game_state).is_consistent() && old(game_state).next_structure_serial < u32::MAX
            ==> final(game_state).is_consistent(),
        tier_index >= fabricator_catalog().len() ==> r == BuildOutcome::InvalidTier
            && *final(game_state) == *old(game_state),
        tier_index < fabricator_catalog().len() ==> ({
            let info = fabricator_catalog()[tier_index as int];
            &&& r == build_verdict(*old(game_state), info.cost, None)
            &&& logged(
                old(game_state).notifications@,
                final(game_state).notifications@,
                outcome_msg(r, info.name, "Built "@),
                0,
            )
            &&& r != BuildOutcome::Built ==> *final(game_state) == (GameState {
                notifications: final(game_state).notifications,
                ..*old(game_state)
            })
            &&& r == BuildOutcome::Built ==> {
                let b = final(game_state).buildings@.last();
                &&& placed(*old(game_state), *final(game_state), b)
                &&& b.variant matches BuildingVariant::Fabricator { available_tiers }
                    && is_fabricator_table(available_tiers@)
                &&& b.current_tier_index == tier_index
                &&& !b.is_active
                &&& *final(game_state) == (GameState {
                    credits: (old(game_state).credits - info.cost) as u64,
                    notifications: final(game_state).notifications,
                    buildings: final(game_state).buildings,
                    next_structure_serial: next_serial(old(game_state).next_structure_serial),
                    total_specialist_slots: job_slots_sum(final(game_state).buildings@) as u32,
                    ..*old(game_state)
                })
            }
        }),
{
    let ghost old_state = *game_state;
    let all_available_tiers = get_new_fabricator_tiers();
    if tier_index >= all_available_tiers.len() {
        return BuildOutcome::InvalidTier;
    }
    let cost = all_available_tiers[tier_index].construction_credits_cost;
    let r = charge_for_construction(
        game_state,
        cost,
        None,
        all_available_tiers[tier_index].name.as_str(),
        "Built ",
    );
    if r != BuildOutcome::Built {
        return r;
    }
    let id = generate_unique_id(game_state);
    let new_building = Building {
        id,
        variant: BuildingVariant::Fabricator { available_tiers: all_available_tiers },
        current_tier_index: tier_index,
        is_active: false,
        assigned_workforce: 0,
    };
    proof {
        lemma_sum_push(game_state.buildings@, new_building, |b: Building| habitation_slots_of(b));
        lemma_sum_push(game_state.buildings@, new_building, |b: Building| job_slots_of(b));
        lemma_sum_push(game_state.buildings@, new_building, |b: Building| civic_of(b));
        lemma_sum_push(game_state.buildings@, new_building, |b: Building| housing_of(b));
    }
    let ghost nb = new_building;
    game_state.buildings.push(new_building);
    update_total_specialist_slots(game_state);
    proof {
        if old_state.is_consistent() && old_state.next_structure_serial < u32::MAX {
            lemma_place_building(old_state, *game_state, nb);
        }
    }
    r
}


/// Builds a processing plant at tier `tier_index`, whatever tech the tier
/// lists. It starts inactive, makes
/// the raw material its tier opens up available, and the job slots are
/// recomputed.
pub fn add_processing_plant(game_state: &mut GameState, tier_index: usize) -> (r: BuildOutcome)
    requires
        tier_index < processing_plant_catalog().len() ==> inactive_build_fits(
            *old(game_state),
            processing_plant_catalog()[tier_index as int].cost,
            None,
            false,
        ),
    ensures
        old(game_state).is_consistent() && old(game_state).next_structure_serial < u32::MAX
            ==> final(game_state).is_consistent(),
        tier_index >= processing_plant_catalog().len() ==> r == BuildOutcome::InvalidTier
            && *final(game_state) == *old(game_state),
        tier_index < processing_plant_catalog().len() ==> ({
            let info = processing_plant_catalog()[tier_index as int];
            &&& r == build_verdict(*old(game_state), info.cost, None)
            &&& logged(
                old(game_state).notifications@,
                final(game_state).notifications@,
                outcome_msg(r, info.name, "Built "@),
                0,
            )
            &&& r != BuildOutcome::Built ==> *final(game_state) == (GameState {
                notifications: final(game_state).notifications,
                ..*old(game_state)
            })
            &&& r == BuildOutcome::Built ==> {
                let b = final(game_state).buildings@.last();
                &&& placed(*old(game_state), *final(game_state), b)
                &&& b.variant matches BuildingVariant::ProcessingPlant { available_tiers }
                    && is_processing_plant_table(available_tiers@)
                &&& b.current_tier_index == tier_index
                &&& !b.is_active
                &&& final(game_state).unlocked_raw_materials@
                    == with_resource(old(game_state).unlocked_raw_materials@, processing_unlock(tier_index as int))
                &&& b.variant matches BuildingVariant::ProcessingPlant { available_tiers }
                    && (available_tiers@[tier_index as int].unlocks_resource matches Some(u)
                    ==> final(game_state).unlocked_raw_materials@.contains(u))
                &&& forall|x: ResourceType| #[trigger] old(game_state).unlocked_raw_materials@.contains(x)
                    ==> final(game_state).unlocked_raw_materials@.contains(x)
                &&& *final(game_state) == (GameState {
                    credits: (old(game_state).credits - info.cost) as u64,
                    notifications: final(game_state).notifications,
                    buildings: final(game_state).buildings,
                    next_structure_serial: next_serial(old(game_state).next_structure_serial),
                    unlocked_raw_materials: final(game_state).unlocked_raw_materials,
                    total_specialist_slots: job_slots_sum(final(game_state).buildings@) as u32,
                    ..*old(game_state)
                })
            }
        }),
{
    let ghost old_state = *game_state;
    let all_available_tiers = get_new_processing_plant_tiers();
    if tier_index >= all_available_tiers.len() {
        return BuildOutcome::InvalidTier;
    }
    let cost = all_available_tiers[tier_index].construction_credits_cost;
    let unlocks = all_available_tiers[tier_index].unlocks_resource;
    let r = charge_for_construction(
        game_state,
        cost,
        None,
        all_available_tiers[tier_index].name.as_str(),
        "Built ",
    );
    if r != BuildOutcome::Built {
        return r;
    }
    let id = generate_unique_id(game_state);
    let new_building = Building {
        id,
        variant: BuildingVariant::ProcessingPlant { available_tiers: all_available_tiers },
        current_tier_index: tier_index,
        is_active: false,
        assigned_workforce: 0,
    };
    proof {
        lemma_sum_push(game_state.buildings@, new_building, |b: Building| habitation_slots_of(b));
        lemma_sum_push(game_state.buildings@, new_building, |b: Building| job_slots_of(b));
        lemma_sum_push(game_state.buildings@, new_building, |b: Building| civic_of(b));
        lemma_sum_push(game_state.buildings@, new_building, |b: Building| housing_of(b));
    }
    let ghost nb = new_building;
    if let Some(res) = unlocks {
        unlock_resource(&mut game_state.unlocked_raw_materials, res);
    }
    game_state.buildings.push(new_building);
    update_total_specialist_slots(game_state);
    proof {
        if old_state.is_consistent() && old_state.next_structure_serial < u32::MAX {
            lemma_place_building(old_state, *game_state, nb);
        }
        let v0 = old_state.unlocked_raw_materials@;
        let v1 = game_state.unlocked_raw_materials@;
        if let Some(u) = unlocks {
            if !v0.contains(u) {
                assert(v1 == v0.push(u));
                assert(v1[v0.len() as int] == u);
            }
            assert forall|x: ResourceType| #[trigger] v0.contains(x) implies v1.contains(x) by {
                if !v0.contains(u) {
                    let k = choose|k: int| 0 <= k < v0.len() && v0[k] == x;
                    assert(v1[k] == x);
                }
            }
        }
    }
    r
}


/// Builds an extractor. It starts inactive; the job slots are recomputed.
pub fn add_extractor(game_state: &mut GameState) -> (r: BuildOutcome)
    requires
        inactive_build_fits(*old(game_state), extractor_catalog()[0].cost, extractor_catalog()[0].tech, false),
    ensures
        old(game_state).is_consistent() && old(game_state).next_structure_serial < u32::MAX
            ==> final(game_state).is_consistent(),
        ({
            let info = extractor_catalog()[0 as int];
            &&& r == build_verdict(*old(game_state), info.cost, info.tech)
            &&& logged(
                old(game_state).notifications@,
                final(game_state).notifications@,
                outcome_msg(r, info.name, "Built "@),
                0,
            )
            &&& r != BuildOutcome::Built ==> *final(game_state) == (GameState {
                notifications: final(game_state).notifications,
                ..*old(game_state)
            })
            &&& r == BuildOutcome::Built ==> {
                let b = final(game_state).buildings@.last();
                &&& placed(*old(game_state), *final(game_state), b)
                &&& b.variant matches BuildingVariant::Extractor { available_tiers }
                    && is_extractor_table(available_tiers@)
                &&& b.current_tier_index == 0
                &&& !b.is_active
                &&& *final(game_state) == (GameState {
                    credits: (old(game_state).credits - info.cost) as u64,
                    notifications: final(game_state).notifications,
                    buildings: final(game_state).buildings,
                    next_structure_serial: next_serial(old(game_state).next_structure_serial),
                    total_specialist_slots: job_slots_sum(final(game_state).buildings@) as u32,
                    ..*old(game_state)
                })
            }
        }),
{
    let ghost old_state = *game_state;
    let all_available_tiers = get_default_extractor_tiers();
    let tier_index: usize = 0;
    let cost = all_available_tiers[tier_index].construction_credits_cost;
    let tech = all_available_tiers[tier_index].required_tech;
    let r = charge_for_construction(
        game_state,
        cost,
        tech,
        all_available_tiers[tier_index].name.as_str(),
        "Built ",
    );
    if r != BuildOutcome::Built {
        return r;
    }
    let id = generate_unique_id(game_state);
    let new_building = Building {
        id,
        variant: BuildingVariant::Extractor { available_tiers: all_available_tiers },
        current_tier_index: tier_index,
        is_active: false,
        assigned_workforce: 0,
    };
    proof {
        lemma_sum_push(game_state.buildings@, new_building, |b: Building| habitation_slots_of(b));
        lemma_sum_push(game_state.buildings@, new_building, |b: Building| job_slots_of(b));
        lemma_sum_push(game_state.buildings@, new_building, |b: Building| civic_of(b));
        lemma_sum_push(game_state.buildings@, new_building, |b: Building| housing_of(b));
    }
    let ghost nb = new_building;
    game_state.buildings.push(new_building);
    update_total_specialist_slots(game_state);
    proof {
        if old_state.is_consistent() && old_state.next_structure_serial < u32::MAX {
            lemma_place_building(old_state, *game_state, nb);
        }
    }
    r
}


/// Builds a Bio-Dome. It starts inactive; the job slots are recomputed.
pub fn add_bio_dome(game_state: &mut GameState) -> (r: BuildOutcome)
    requires
        inactive_build_fits(*old(game_state), biodome_catalog()[0].cost, biodome_catalog()[0].tech, false),
    ensures
        old(game_state).is_consistent() && old(game_state).next_structure_serial < u32::MAX
            ==> final(game_state).is_consistent(),
        ({
            let info = biodome_catalog()[0 as int];
            &&& r == build_verdict(*old(game_state), info.cost, info.tech)
            &&& logged(
                old(game_state).notifications@,
                final(game_state).notifications@,
                outcome_msg(r, info.name, "Built "@),
                0,
            )
            &&& r != BuildOutcome::Built ==> *final(game_state) == (GameState {
                notifications: final(game_state).notifications,
                ..*old(game_state)
            })
            &&& r == BuildOutcome::Built ==> {
                let b = final(game_state).buildings@.last();
                &&& placed(*old(game_state), *final(game_state), b)
                &&& b.variant matches BuildingVariant::BioDome { available_tiers }
                    && is_biodome_table(available_tiers@)
                &&& b.current_tier_index == 0
                &&& !b.is_active
                &&& *final(game_state) == (GameState {
                    credits: (old(game_state).credits - info.cost) as u64,
                    notifications: final(game_state).notifications,
                    buildings: final(game_state).buildings,
                    next_structure_serial: next_serial(old(game_state).next_structure_serial),
                    total_specialist_slots: job_slots_sum(final(game_state).buildings@) as u32,
                    ..*old(game_state)
                })
            }
        }),
{
    let ghost old_state = *game_state;
    let all_available_tiers = get_default_biodome_tiers();
    let tier_index: usize = 0;
    let cost = all_available_tiers[tier_index].construction_credits_cost;
    let tech = all_available_tiers[tier_index].required_tech;
    let r = charge_for_construction(
        game_state,
        cost,
        tech,
        all_available_tiers[tier_index].name.as_str(),
        "Built ",
    );
    if r != BuildOutcome::Built {
        return r;
    }
    let id = generate_unique_id(game_state);
    let new_building = Building {
        id,
        variant: BuildingVariant::BioDome { available_tiers: all_available_tiers },
        current_tier_index: tier_index,
        is_active: false,
        assigned_workforce: 0,
    };
    proof {
        lemma_sum_push(game_state.buildings@, new_building, |b: Building| habitation_slots_of(b));
        lemma_sum_push(game_state.buildings@, new_building, |b: Building| job_slots_of(b));
        lemma_sum_push(game_state.buildings@, new_building, |b: Building| civic_of(b));
        lemma_sum_push(game_state.buildings@, new_building, |b: Building| housing_of(b));
    }
    let ghost nb = new_building;
    game_state.buildings.push(new_building);
    update_total_specialist_slots(game_state);
    proof {
        if old_state.is_consistent() && old_state.next_structure_serial < u32::MAX {
            lemma_place_building(old_state, *game_state, nb);
        }
    }
    r
}


/// Builds a power relay. It starts active; no total changes.
pub fn add_power_relay(game_state: &mut GameState) -> (r: BuildOutcome)
    ensures
        old(game_state).is_consistent() && old(game_state).next_structure_serial < u32::MAX
            ==> final(game_state).is_consistent(),
        ({
            let info = power_relay_catalog()[0 as int];
            &&& r == build_verdict(*old(game_state), info.cost, info.tech)
            &&& logged(
                old(game_state).notifications@,
                final(game_state).notifications@,
                outcome_msg(r, info.name, "Built "@),
                0,
            )
            &&& r != BuildOutcome::Built ==> *final(game_state) == (GameState {
                notifications: final(game_state).notifications,
                ..*old(game_state)
            })
            &&& r == BuildOutcome::Built ==> {
                let b = final(game_state).buildings@.last();
                &&& placed(*old(game_state), *final(game_state), b)
                &&& b.variant matches BuildingVariant::PowerRelay { available_tiers }
                    && is_power_relay_table(available_tiers@)
                &&& b.current_tier_index == 0
                &&& b.is_active
                &&& *final(game_state) == (GameState {
                    credits: (old(game_state).credits - info.cost) as u64,
                    notifications: final(game_state).notifications,
                    buildings: final(game_state).buildings,
                    next_structure_serial: next_serial(old(game_state).next_structure_serial),

                    ..*old(game_state)
                })
            }
        }),
{
    let ghost old_state = *game_state;
    let all_available_tiers = get_default_power_relay_tiers();
    let tier_index: usize = 0;
    let cost = all_available_tiers[tier_index].construction_credits_cost;
    let tech = all_available_tiers[tier_index].required_tech;
    let r = charge_for_construction(
        game_state,
        cost,
        tech,
        all_available_tiers[tier_index].name.as_str(),
        "Built ",
    );
    if r != BuildOutcome::Built {
        return r;
    }
    let id = generate_unique_id(game_state);
    let new_building = Building {
        id,
        variant: BuildingVariant::PowerRelay { available_tiers: all_available_tiers },
        current_tier_index: tier_index,
        is_active: true,
        assigned_workforce: 0,
    };
    proof {
        lemma_sum_push(game_state.buildings@, new_building, |b: Building| habitation_slots_of(b));
        lemma_sum_push(game_state.buildings@, new_building, |b: Building| job_slots_of(b));
        lemma_sum_push(game_state.buildings@, new_building, |b: Building| civic_of(b));
        lemma_sum_push(game_state.buildings@, new_building, |b: Building| housing_of(b));
    }
    let ghost nb = new_building;
    game_state.buildings.push(new_building);
    proof {
        if old_state.is_consistent() && old_state.next_structure_serial < u32::MAX {
            lemma_place_building(old_state, *game_state, nb);
        }
    }
    r
}


/// Builds a research institute. It starts inactive; the job slots are
/// recomputed.
pub fn add_research_institute(game_state: &mut GameState) -> (r: BuildOutcome)
    requires
        inactive_build_fits(
            *old(game_state),
            research_institute_catalog()[0].cost,
            research_institute_catalog()[0].tech,
            false,
        ),
    ensures
        old(game_state).is_consistent() && old(game_state).next_structure_serial < u32::MAX
            ==> final(game_state).is_consistent(),
        ({
            let info = research_institute_catalog()[0 as int];
            &&& r == build_verdict(*old(game_state), info.cost, info.tech)
            &&& logged(
                old(game_state).notifications@,
                final(game_state).notifications@,
                outcome_msg(r, info.name, "Built "@),
                0,
            )
            &&& r != BuildOutcome::Built ==> *final(game_state) == (GameState {
                notifications: final(game_state).notifications,
                ..*old(game_state)
            })
            &&& r == BuildOutcome::Built ==> {
                let b = final(game_state).buildings@.last();
                &&& placed(*old(game_state), *final(game_state), b)
                &&& b.variant matches BuildingVariant::ResearchInstitute { available_tiers }
                    && is_research_institute_table(available_tiers@)
                &&& b.current_tier_index == 0
                &&& !b.is_active
                &&& *final(game_state) == (GameState {
                    credits: (old(game_state).credits - info.cost) as u64,
                    notifications: final(game_state).notifications,
                    buildings: final(game_state).buildings,
                    next_structure_serial: next_serial(old(game_state).next_structure_serial),
                    total_specialist_slots: job_slots_sum(final(game_state).buildings@) as u32,
                    ..*old(game_state)
                })
            }
        }),
{
    let ghost old_state = *game_state;
    let all_available_tiers = get_default_research_institute_tiers();
    let tier_index: usize = 0;
    let cost = all_available_tiers[tier_index].construction_credits_cost;
    let tech = all_available_tiers[tier_index].required_tech;
    let r = charge_for_construction(
        game_state,
        cost,
        tech,
        all_available_tiers[tier_index].name.as_str(),
        "Built ",
    );
    if r != BuildOutcome::Built {
        return r;
    }
    let id = generate_unique_id(game_state);
    let new_building = Building {
        id,
        variant: BuildingVariant::ResearchInstitute { available_tiers: all_available_tiers },
        current_tier_index: tier_index,
        is_active: false,
        assigned_workforce: 0,
    };
    proof {
        lemma_sum_push(game_state.buildings@, new_building, |b: Building| habitation_slots_of(b));
        lemma_sum_push(game_state.buildings@, new_building, |b: Building| job_slots_of(b));
        lemma_sum_push(game_state.buildings@, new_building, |b: Building| civic_of(b));
        lemma_sum_push(game_state.buildings@, new_building, |b: Building| housing_of(b));
    }
    let ghost nb = new_building;
    game_state.buildings.push(new_building);
    update_total_specialist_slots(game_state);
    proof {
        if old_state.is_consistent() && old_state.next_structure_serial < u32::MAX {
            lemma_place_building(old_state, *game_state, nb);
        }
    }
    r
}


/// Builds a storage silo. It starts active; no total changes.
pub fn add_storage_silo(game_state: &mut GameState) -> (r: BuildOutcome)
    ensures
        old(game_state).is_consistent() && old(game_state).next_structure_serial < u32::MAX
            ==> final(game_state).is_consistent(),
        ({
            let info = storage_silo_catalog()[0 as int];
            &&& r == build_verdict(*old(game_state), info.cost, info.tech)
            &&& logged(
                old(game_state).notifications@,
                final(game_state).notifications@,
                outcome_msg(r, info.name, "Built "@),
                0,
            )
            &&& r != BuildOutcome::Built ==> *final(game_state) == (GameState {
                notifications: final(game_state).notifications,
                ..*old(game_state)
            })
            &&& r == BuildOutcome::Built ==> {
                let b = final(game_state).buildings@.last();
                &&& placed(*old(game_state), *final(game_state), b)
                &&& b.variant matches BuildingVariant::StorageSilo { available_tiers }
                    && is_storage_silo_table(available_tiers@)
                &&& b.current_tier_index == 0
                &&& b.is_active
                &&& *final(game_state) == (GameState {
                    credits: (old(game_state).credits - info.cost) as u64,
                    notifications: final(game_state).notifications,
                    buildings: final(game_state).buildings,
                    next_structure_serial: next_serial(old(game_state).next_structure_serial),

                    ..*old(game_state)
                })
            }
        }),
{
    let ghost old_state = *game_state;
    let all_available_tiers = get_default_storage_silo_tiers();
    let tier_index: usize = 0;
    let cost = all_available_tiers[tier_index].construction_credits_cost;
    let tech = all_available_tiers[tier_index].required_tech;
    let r = charge_for_construction(
        game_state,
        cost,
        tech,
        all_available_tiers[tier_index].name.as_str(),
        "Built ",
    );
    if r != BuildOutcome::Built {
        return r;
    }
    let id = generate_unique_id(game_state);
    let new_building = Building {
        id,
        variant: BuildingVariant::StorageSilo { available_tiers: all_available_tiers },
        current_tier_index: tier_index,
        is_active: true,
        assigned_workforce: 0,
    };
    proof {
        lemma_sum_push(game_state.buildings@, new_building, |b: Building| habitation_slots_of(b));
        lemma_sum_push(game_state.buildings@, new_building, |b: Building| job_slots_of(b));
        lemma_sum_push(game_state.buildings@, new_building, |b: Building| civic_of(b));
        lemma_sum_push(game_state.buildings@, new_building, |b: Building| housing_of(b));
    }
    let ghost nb = new_building;
    game_state.buildings.push(new_building);
    proof {
        if old_state.is_consistent() && old_state.next_structure_serial < u32::MAX {
            lemma_place_building(old_state, *game_state, nb);
        }
    }
    r
}

} // verus!
