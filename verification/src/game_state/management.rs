use vstd::prelude::*;
use crate::components::building::{Building, BuildingVariant};
use crate::game_state::text::{
    concat3, concat5, decimal, decimal_string, service_type_label, service_type_name, tech_label, tech_name,
    zone_type_label, zone_type_name,
};
use crate::game_state::consistency::{lemma_remove_building, lemma_update_building, lemma_update_keeps_totals};
use crate::game_state::totals::{
    civic_of, housing_of, job_slots_of, lemma_sum_update,
    civic_sum, habitation_slots_sum, housing_sum, job_slots_sum, lemma_sum_remove,
    update_civic_index, update_housing_and_specialist_slots, update_total_specialist_slots,
};
use crate::game_state::{
    add_notification, logged, tech_unlocked, GameState, NotificationEvent, Tech,
};

verus! {

/// `bs[i]` is the first building whose identifier is `id`.
pub open spec fn first_with_id(bs: Seq<Building>, id: Seq<char>, i: int) -> bool {
    &&& 0 <= i < bs.len()
    &&& bs[i].id@ == id
    &&& forall|j: int| 0 <= j < i ==> bs[j].id@ != id
}

/// Some building has identifier `id`.
pub open spec fn has_id(bs: Seq<Building>, id: Seq<char>) -> bool {
    exists|i: int| 0 <= i < bs.len() && bs[i].id@ == id
}

/// The position of the first building with identifier `id`, if any.
pub open spec fn find_first(bs: Seq<Building>, id: Seq<char>) -> Option<int> {
    if has_id(bs, id) {
        Some(choose|i: int| first_with_id(bs, id, i))
    } else {
        None
    }
}

/// The first building with an identifier is unique, and is the one
/// `find_first` names.
pub proof fn lemma_find_first(bs: Seq<Building>, id: Seq<char>, i: int)
    requires
        first_with_id(bs, id, i),
    ensures
        find_first(bs, id) == Some(i),
{
    assert(has_id(bs, id));
    let k = choose|k: int| first_with_id(bs, id, k);
    assert(first_with_id(bs, id, k));
    if k < i {
        assert(bs[k].id@ != id);
    }
    if i < k {
        assert(bs[i].id@ != id);
    }
}

/// Finds the first building with identifier `id`.
pub fn find_building_index(bs: &Vec<Building>, id: &str) -> (r: Option<usize>)
    ensures
        r == match find_first(bs@, id@) {
            Some(i) => Some(i as usize),
            None => None::<usize>,
        },
        r matches Some(i) ==> first_with_id(bs@, id@, i as int),
{
    let target = id.to_owned();
    let mut i: usize = 0;
    while i < bs.len()
        invariant
            i <= bs@.len(),
            target@ == id@,
            forall|j: int| 0 <= j < i ==> bs@[j].id@ != id@,
        decreases bs.len() - i,
    {
        if bs[i].id == target {
            proof {
                lemma_find_first(bs@, id@, i as int);
            }
            return Some(i);
        }
        i = i + 1;
    }
    None
}

/// Name of tier `i`, or `default` where there is no such tier.
pub open spec fn name_or(v: BuildingVariant, i: int, default: Seq<char>) -> Seq<char> {
    if v.has_tier(i) { v.tier(i).name } else { default }
}

/// The name of tier `i`, or `default` where there is no such tier.
pub fn tier_name_or(v: &BuildingVariant, i: usize, default: &str) -> (r: String)
    ensures
        r@ == name_or(*v, i as int, default@),
{
    match v.tier_name(i) {
        Some(n) => n,
        None => String::from_str(default),
    }
}

/// The name under which a building at tier `i` is announced when workforce is assigned.
pub open spec fn assignment_name(v: BuildingVariant, i: int) -> Seq<char> {
    match v {
        BuildingVariant::Extractor { .. } => name_or(v, i, "Extractor"@),
        BuildingVariant::BioDome { .. } => name_or(v, i, "BioDome"@),
        BuildingVariant::PowerRelay { .. } => "Unknown Building"@,
        BuildingVariant::ResearchInstitute { .. } => name_or(v, i, "Research Institute"@),
        BuildingVariant::StorageSilo { .. } => "Unknown Building"@,
        BuildingVariant::Habitation { .. } => name_or(v, i, "Habitation Structure"@),
        BuildingVariant::Service { service_type, .. } => service_type_label(service_type) + " "@ + name_or(v, i, ""@),
        BuildingVariant::Zone { zone_type, .. } => zone_type_label(zone_type) + " "@ + name_or(v, i, ""@),
        BuildingVariant::Fabricator { .. } => name_or(v, i, "Fabricator"@),
        BuildingVariant::ProcessingPlant { .. } => name_or(v, i, "Processing Plant"@),
        BuildingVariant::AdministrativeSpire { .. } => name_or(v, i, "Admin Spire"@),
        BuildingVariant::LegacyStructure { .. } => name_or(v, i, "Legacy Structure"@),
    }
}

/// The name under which workforce assignment notices refer to a building.
pub fn assignment_name_of(v: &BuildingVariant, i: usize) -> (r: String)
    ensures
        r@ == assignment_name(*v, i as int),
{
    proof {
        reveal_strlit("");
    }
    match v {
            BuildingVariant::Extractor { .. } => tier_name_or(v, i, "Extractor"),
            BuildingVariant::BioDome { .. } => tier_name_or(v, i, "BioDome"),
            BuildingVariant::PowerRelay { .. } => String::from_str("Unknown Building"),
            BuildingVariant::ResearchInstitute { .. } => tier_name_or(v, i, "Research Institute"),
            BuildingVariant::StorageSilo { .. } => String::from_str("Unknown Building"),
            BuildingVariant::Habitation { .. } => tier_name_or(v, i, "Habitation Structure"),
            BuildingVariant::Service { service_type, .. } => {
                let n = tier_name_or(v, i, "");
                concat3(service_type_name(*service_type), " ", n.as_str())
            },
            BuildingVariant::Zone { zone_type, .. } => {
                let n = tier_name_or(v, i, "");
                concat3(zone_type_name(*zone_type), " ", n.as_str())
            },
            BuildingVariant::Fabricator { .. } => tier_name_or(v, i, "Fabricator"),
            BuildingVariant::ProcessingPlant { .. } => tier_name_or(v, i, "Processing Plant"),
            BuildingVariant::AdministrativeSpire { .. } => tier_name_or(v, i, "Admin Spire"),
            BuildingVariant::LegacyStructure { .. } => tier_name_or(v, i, "Legacy Structure"),
    }
}

/// The name under which a building at tier `i` is announced when workforce is unassigned.
pub open spec fn unassignment_name(v: BuildingVariant, i: int) -> Seq<char> {
    match v {
        BuildingVariant::Extractor { .. } => name_or(v, i, "Extractor"@),
        BuildingVariant::BioDome { .. } => name_or(v, i, "BioDome"@),
        BuildingVariant::PowerRelay { .. } => "Building"@,
        BuildingVariant::ResearchInstitute { .. } => name_or(v, i, "Research Institute"@),
        BuildingVariant::StorageSilo { .. } => "Building"@,
        BuildingVariant::Habitation { .. } => name_or(v, i, "Habitation Structure"@),
        BuildingVariant::Service { service_type, .. } => service_type_label(service_type) + " "@ + name_or(v, i, ""@),
        BuildingVariant::Zone { zone_type, .. } => zone_type_label(zone_type) + " "@ + name_or(v, i, ""@),
        BuildingVariant::Fabricator { .. } => name_or(v, i, "Fabricator"@),
        BuildingVariant::ProcessingPlant { .. } => name_or(v, i, "Processing Plant"@),
        BuildingVariant::AdministrativeSpire { .. } => "Building"@,
        BuildingVariant::LegacyStructure { .. } => "Building"@,
    }
}

/// The name under which workforce unassignment notices refer to a building.
pub fn unassignment_name_of(v: &BuildingVariant, i: usize) -> (r: String)
    ensures
        r@ == unassignment_name(*v, i as int),
{
    proof {
        reveal_strlit("");
    }
    match v {
            BuildingVariant::Extractor { .. } => tier_name_or(v, i, "Extractor"),
            BuildingVariant::BioDome { .. } => tier_name_or(v, i, "BioDome"),
            BuildingVariant::PowerRelay { .. } => String::from_str("Building"),
            BuildingVariant::ResearchInstitute { .. } => tier_name_or(v, i, "Research Institute"),
            BuildingVariant::StorageSilo { .. } => String::from_str("Building"),
            BuildingVariant::Habitation { .. } => tier_name_or(v, i, "Habitation Structure"),
            BuildingVariant::Service { service_type, .. } => {
                let n = tier_name_or(v, i, "");
                concat3(service_type_name(*service_type), " ", n.as_str())
            },
            BuildingVariant::Zone { zone_type, .. } => {
                let n = tier_name_or(v, i, "");
                concat3(zone_type_name(*zone_type), " ", n.as_str())
            },
            BuildingVariant::Fabricator { .. } => tier_name_or(v, i, "Fabricator"),
            BuildingVariant::ProcessingPlant { .. } => tier_name_or(v, i, "Processing Plant"),
            BuildingVariant::AdministrativeSpire { .. } => String::from_str("Building"),
            BuildingVariant::LegacyStructure { .. } => String::from_str("Building"),
    }
}

/// The name under which a building at tier `i` is announced when it is switched on or off.
pub open spec fn toggle_name(v: BuildingVariant, i: int) -> Seq<char> {
    match v {
        BuildingVariant::Extractor { .. } => name_or(v, i, "Extractor"@),
        BuildingVariant::BioDome { .. } => name_or(v, i, "BioDome"@),
        BuildingVariant::PowerRelay { .. } => "Power Relay"@,
        BuildingVariant::ResearchInstitute { .. } => name_or(v, i, "Research Institute"@),
        BuildingVariant::StorageSilo { .. } => "Storage Silo"@,
        BuildingVariant::Habitation { .. } => name_or(v, i, "Habitation"@),
        BuildingVariant::Service { service_type, .. } => service_type_label(service_type) + " "@ + name_or(v, i, ""@),
        BuildingVariant::Zone { zone_type, .. } => zone_type_label(zone_type) + " "@ + name_or(v, i, ""@),
        BuildingVariant::Fabricator { .. } => name_or(v, i, "Fabricator"@),
        BuildingVariant::ProcessingPlant { .. } => name_or(v, i, "Processing Plant"@),
        BuildingVariant::AdministrativeSpire { .. } => "Building"@,
        BuildingVariant::LegacyStructure { .. } => "Building"@,
    }
}

/// The name under which activation notices refer to a building.
pub fn toggle_name_of(v: &BuildingVariant, i: usize) -> (r: String)
    ensures
        r@ == toggle_name(*v, i as int),
{
    proof {
        reveal_strlit("");
    }
    match v {
            BuildingVariant::Extractor { .. } => tier_name_or(v, i, "Extractor"),
            BuildingVariant::BioDome { .. } => tier_name_or(v, i, "BioDome"),
            BuildingVariant::PowerRelay { .. } => String::from_str("Power Relay"),
            BuildingVariant::ResearchInstitute { .. } => tier_name_or(v, i, "Research Institute"),
            BuildingVariant::StorageSilo { .. } => String::from_str("Storage Silo"),
            BuildingVariant::Habitation { .. } => tier_name_or(v, i, "Habitation"),
            BuildingVariant::Service { service_type, .. } => {
                let n = tier_name_or(v, i, "");
                concat3(service_type_name(*service_type), " ", n.as_str())
            },
            BuildingVariant::Zone { zone_type, .. } => {
                let n = tier_name_or(v, i, "");
                concat3(zone_type_name(*zone_type), " ", n.as_str())
            },
            BuildingVariant::Fabricator { .. } => tier_name_or(v, i, "Fabricator"),
            BuildingVariant::ProcessingPlant { .. } => tier_name_or(v, i, "Processing Plant"),
            BuildingVariant::AdministrativeSpire { .. } => String::from_str("Building"),
            BuildingVariant::LegacyStructure { .. } => String::from_str("Building"),
    }
}

} // verus!

verus! {

/// `a - b`, or 0 where `b` exceeds `a`.
pub open spec fn sat_sub(a: u32, b: u32) -> u32 {
    if a >= b { (a - b) as u32 } else { 0 }
}

/// The smaller of two counts.
pub open spec fn min_u32(a: u32, b: u32) -> u32 {
    if a <= b { a } else { b }
}

/// Notice about the building identifier a command names.
pub open spec fn building_id_msg(id: Seq<char>, tail: Seq<char>) -> Seq<char> {
    "Building ID "@ + id + tail
}

/// How assigning `num` workers to the building named `id` turns `old`
/// into `new`.
pub open spec fn assignment_effect(old: GameState, new: GameState, id: Seq<char>, num: u32) -> bool {
    match find_first(old.buildings@, id) {
        None => {
            &&& new == (GameState {
                notifications: new.notifications,
                ..old
            })
            &&& logged(
                old.notifications@,
                new.notifications@,
                building_id_msg(id, " not found for workforce assignment."@),
                0,
            )
        },
        Some(i) => {
            let b = old.buildings@[i];
            let max = b.variant.workforce_at(b.current_tier_index as int);
            let name = assignment_name(b.variant, b.current_tier_index as int);
            let idle = sat_sub(old.total_inhabitants, old.assigned_specialists_total);
            if max == 0 || idle < num || b.assigned_workforce + num > max {
                &&& new == (GameState {
                    notifications: new.notifications,
                    ..old
                })
                &&& logged(
                    old.notifications@,
                    new.notifications@,
                    if max == 0 {
                        name + " does not require workforce."@
                    } else if idle < num {
                        "Not enough unassigned inhabitants for "@ + name + "."@
                    } else {
                        "Cannot assign more workforce than required for "@ + name + ". Max: "@
                            + decimal(max as nat)
                    },
                    0,
                )
            } else {
                &&& new.buildings@ == old.buildings@.update(
                    i,
                    Building { assigned_workforce: (b.assigned_workforce + num) as u32, ..b },
                )
                &&& new == (GameState {
                    buildings: new.buildings,
                    assigned_specialists_total: (old.assigned_specialists_total
                        + num) as u32,
                    notifications: new.notifications,
                    ..old
                })
                &&& logged(
                    old.notifications@,
                    new.notifications@,
                    "Assigned "@ + decimal(num as nat) + " workforce to "@ + name + "."@,
                    0,
                )
            }
        },
    }
}

/// How taking up to `num` workers off the building named `id` turns `old`
/// into `new`, `r` being the number taken off.
pub open spec fn unassignment_effect(old: GameState, new: GameState, id: Seq<char>, num: u32, r: u32) -> bool {
    match find_first(old.buildings@, id) {
        None => {
            &&& r == 0
            &&& new == (GameState {
                notifications: new.notifications,
                ..old
            })
            &&& logged(
                old.notifications@,
                new.notifications@,
                building_id_msg(id, " not found for workforce unassignment."@),
                0,
            )
        },
        Some(i) => {
            let b = old.buildings@[i];
            &&& r == min_u32(num, b.assigned_workforce)
            &&& r == 0 ==> new == old
            &&& r > 0 ==> {
                &&& new.buildings@ == old.buildings@.update(
                    i,
                    Building { assigned_workforce: (b.assigned_workforce - r) as u32, ..b },
                )
                &&& new == (GameState {
                    buildings: new.buildings,
                    assigned_specialists_total: sat_sub(old.assigned_specialists_total, r),
                    notifications: new.notifications,
                    ..old
                })
                &&& logged(
                    old.notifications@,
                    new.notifications@,
                    "Unassigned "@ + decimal(r as nat) + " workforce from "@
                        + unassignment_name(b.variant, b.current_tier_index as int) + "."@,
                    0,
                )
            }
        },
    }
}

/// Takes up to `num_to_unassign` workers off the first building with
/// identifier `building_id`, and returns how many were taken off.
pub fn unassign_workforce_from_building_by_id(
    game_state: &mut GameState,
    building_id: &str,
    num_to_unassign: u32,
) -> (r: u32)
    ensures
        old(game_state).is_consistent() ==> final(game_state).is_consistent(),
        unassignment_effect(*old(game_state), *final(game_state), building_id@, num_to_unassign, r),
{
    match find_building_index(&game_state.buildings, building_id) {
        None => {
            let msg = concat3("Building ID ", building_id, " not found for workforce unassignment.");
            add_notification(&mut game_state.notifications, msg, 0);
            0
        },
        Some(i) => {
            let name = unassignment_name_of(
                &game_state.buildings[i].variant,
                game_state.buildings[i].current_tier_index,
            );
            let assigned = game_state.buildings[i].assigned_workforce;
            let actual = if num_to_unassign <= assigned { num_to_unassign } else { assigned };
            if actual > 0 {
                let ghost old_state = *game_state;
                game_state.buildings[i].assigned_workforce = assigned - actual;
                game_state.assigned_specialists_total = game_state.assigned_specialists_total.saturating_sub(actual);
                let count = decimal_string(actual);
                let msg = concat5("Unassigned ", count.as_str(), " workforce from ", name.as_str(), ".");
                add_notification(&mut game_state.notifications, msg, 0);
                proof {
                    let nb = game_state.buildings@[i as int];
                    assert(game_state.buildings@ =~= old_state.buildings@.update(i as int, nb));
                    if old_state.is_consistent() {
                        lemma_update_keeps_totals(old_state.buildings@, i as int, nb);
                        lemma_update_building(old_state, *game_state, i as int, nb);
                    }
                }
            }
            actual
        },
    }
}

} // verus!

verus! {

/// Assigning `num` workers to the building named `id` cannot overflow its
/// count: wherever the assignment gets as far as adding, the sum fits.
pub open spec fn assignment_fits(gs: GameState, id: Seq<char>, num: u32) -> bool {
    forall|i: int|
        #![trigger gs.buildings@[i]]
        find_first(gs.buildings@, id) == Some(i)
            && gs.buildings@[i].variant.workforce_at(gs.buildings@[i].current_tier_index as int) != 0
            && sat_sub(gs.total_inhabitants, gs.assigned_specialists_total) >= num
            ==> gs.buildings@[i].assigned_workforce + num <= u32::MAX
}

/// Assigns `num_to_assign` unassigned inhabitants to the first building with
/// identifier `building_id`, if it takes workers, there are enough idle
/// inhabitants, and its tier's requirement is not exceeded.
pub fn assign_workforce_to_building_by_id(game_state: &mut GameState, building_id: &str, num_to_assign: u32)
    requires
        assignment_fits(*old(game_state), building_id@, num_to_assign),
    ensures
        old(game_state).is_consistent() ==> final(game_state).is_consistent(),
        assignment_effect(*old(game_state), *final(game_state), building_id@, num_to_assign),
{
    match find_building_index(&game_state.buildings, building_id) {
        None => {
            let msg = concat3("Building ID ", building_id, " not found for workforce assignment.");
            add_notification(&mut game_state.notifications, msg, 0);
        },
        Some(i) => {
            let tier_index = game_state.buildings[i].current_tier_index;
            let max_workforce_for_tier = match game_state.buildings[i].variant.tier_basics(tier_index) {
                Some((_, workforce, _)) => workforce,
                None => 0,
            };
            let name = assignment_name_of(&game_state.buildings[i].variant, tier_index);
            if max_workforce_for_tier == 0 {
                let msg = concat3("", name.as_str(), " does not require workforce.");
                proof {
                    reveal_strlit("");
                }
                add_notification(&mut game_state.notifications, msg, 0);
                return;
            }
            let unassigned_inhabitants = game_state.total_inhabitants.saturating_sub(
                game_state.assigned_specialists_total,
            );
            if unassigned_inhabitants < num_to_assign {
                let msg = concat3("Not enough unassigned inhabitants for ", name.as_str(), ".");
                add_notification(&mut game_state.notifications, msg, 0);
                return;
            }
            let assigned = game_state.buildings[i].assigned_workforce;
            if assigned + num_to_assign > max_workforce_for_tier {
                let max_text = decimal_string(max_workforce_for_tier);
                let msg = concat5(
                    "Cannot assign more workforce than required for ",
                    name.as_str(),
                    ". Max: ",
                    max_text.as_str(),
                    "",
                );
                proof {
                    reveal_strlit("");
                    assert(msg@ =~= "Cannot assign more workforce than required for "@ + name@ + ". Max: "@
                        + max_text@);
                }
                add_notification(&mut game_state.notifications, msg, 0);
                return;
            }
            let ghost old_state = *game_state;
            game_state.buildings[i].assigned_workforce = assigned + num_to_assign;
            game_state.assigned_specialists_total = game_state.assigned_specialists_total + num_to_assign;
            let count = decimal_string(num_to_assign);
            let msg = concat5("Assigned ", count.as_str(), " workforce to ", name.as_str(), ".");
            add_notification(&mut game_state.notifications, msg, 0);
            proof {
                let nb = game_state.buildings@[i as int];
                assert(game_state.buildings@ =~= old_state.buildings@.update(i as int, nb));
                if old_state.is_consistent() {
                    lemma_update_keeps_totals(old_state.buildings@, i as int, nb);
                    lemma_update_building(old_state, *game_state, i as int, nb);
                }
            }
        },
    }
}

} // verus!

verus! {

/// `new` is `old` with two notices logged one after the other.
pub open spec fn logged_twice(
    old: Seq<NotificationEvent>,
    new: Seq<NotificationEvent>,
    first: Seq<char>,
    second: Seq<char>,
) -> bool {
    exists|mid: Seq<NotificationEvent>| logged(old, mid, first, 0) && logged(mid, new, second, 0)
}

/// Notice that a building was switched on or off.
pub open spec fn toggle_msg(name: Seq<char>, id: Seq<char>, active: bool) -> Seq<char> {
    name + " "@ + id + " "@ + (if active { "activated"@ } else { "deactivated"@ }) + "."@
}

/// The totals a switch of the building named `id` recomputes fit in a
/// `u32`: the civic index (services and zones) and the job slots (staffed
/// kinds), over the buildings with that one switched.
pub open spec fn toggle_fits(gs: GameState, id: Seq<char>) -> bool {
    match find_first(gs.buildings@, id) {
        None => true,
        Some(i) => {
            let b = gs.buildings@[i];
            let switched = gs.buildings@.update(i, Building { is_active: !b.is_active, ..b });
            &&& b.variant.is_civic() ==> civic_sum(switched) <= u32::MAX
            &&& b.variant.is_staffed_kind() ==> job_slots_sum(switched) <= u32::MAX
        },
    }
}

/// How switching the first building with identifier `id` on or off turns
/// `old` into `new`.
pub open spec fn toggle_effect(old: GameState, new: GameState, id: Seq<char>) -> bool {
    match find_first(old.buildings@, id) {
        None => {
            &&& new == (GameState {
                notifications: new.notifications,
                ..old
            })
            &&& logged(
                old.notifications@,
                new.notifications@,
                building_id_msg(id, " not found for toggling active state."@),
                0,
            )
        },
        Some(i) => {
            let b = old.buildings@[i];
            let active = !b.is_active;
            let name = toggle_name(b.variant, b.current_tier_index as int);
            let switched = old.buildings@.update(i, Building { is_active: active, ..b });
            let sends_home = b.variant.is_staffed_kind() && !active && b.assigned_workforce > 0;
            let bs = if sends_home {
                old.buildings@.update(i, Building { is_active: active, assigned_workforce: 0, ..b })
            } else {
                switched
            };
            &&& new.buildings@ == bs
            &&& new == (GameState {
                buildings: new.buildings,
                notifications: new.notifications,
                civic_index: if b.variant.is_civic() {
                    civic_sum(switched) as u32
                } else {
                    old.civic_index
                },
                total_specialist_slots: if b.variant.is_staffed_kind() {
                    job_slots_sum(bs) as u32
                } else {
                    old.total_specialist_slots
                },
                assigned_specialists_total: if sends_home {
                    sat_sub(old.assigned_specialists_total, b.assigned_workforce)
                } else {
                    old.assigned_specialists_total
                },
                ..old
            })
            &&& if sends_home {
                logged_twice(
                    old.notifications@,
                    new.notifications@,
                    toggle_msg(name, id, active),
                    "Workforce unassigned from deactivated "@ + name + "."@,
                )
            } else {
                logged(
                    old.notifications@,
                    new.notifications@,
                    toggle_msg(name, id, active),
                    0,
                )
            }
        },
    }
}

/// Switches the first building with identifier `building_id` on or off.
///
/// Services and zones update the civic index. Every staffed kind updates
/// the job slots; when one is switched off, its workers are sent home.
pub fn toggle_building_active_state_by_id(game_state: &mut GameState, building_id: &str)
    requires
        toggle_fits(*old(game_state), building_id@),
    ensures
        old(game_state).is_consistent() ==> final(game_state).is_consistent(),
        toggle_effect(*old(game_state), *final(game_state), building_id@),
{
    match find_building_index(&game_state.buildings, building_id) {
        None => {
            let msg = concat3("Building ID ", building_id, " not found for toggling active state.");
            add_notification(&mut game_state.notifications, msg, 0);
        },
        Some(i) => {
            let ghost old_state = *game_state;
            let new_active_state = !game_state.buildings[i].is_active;
            game_state.buildings[i].is_active = new_active_state;
            let tier_index = game_state.buildings[i].current_tier_index;
            let name = toggle_name_of(&game_state.buildings[i].variant, tier_index);
            let requires_civic_index_update = game_state.buildings[i].variant.is_civic_kind();
            let requires_job_slot_update = game_state.buildings[i].variant.is_staffed();
            let mut msg = concat5(name.as_str(), " ", building_id, " ", if new_active_state {
                "activated"
            } else {
                "deactivated"
            });
            msg.append(".");
            add_notification(&mut game_state.notifications, msg, 0);
            let ghost mid = game_state.notifications@;
            let ghost ob = old_state.buildings@[i as int];
            let ghost switched = old_state.buildings@.update(i as int, Building { is_active: new_active_state, ..ob });
            proof {
                assert(game_state.buildings@ =~= switched);
            }
            if requires_civic_index_update {
                update_civic_index(game_state);
            }
            if requires_job_slot_update {
                if !new_active_state {
                    let assigned = game_state.buildings[i].assigned_workforce;
                    if assigned > 0 {
                        game_state.assigned_specialists_total = game_state.assigned_specialists_total.saturating_sub(
                            assigned,
                        );
                        game_state.buildings[i].assigned_workforce = 0;
                        let msg2 = concat3("Workforce unassigned from deactivated ", name.as_str(), ".");
                        add_notification(&mut game_state.notifications, msg2, 0);
                        proof {
                            assert(game_state.buildings@ =~= old_state.buildings@.update(
                                i as int,
                                Building { is_active: new_active_state, assigned_workforce: 0, ..ob },
                            ));
                            assert(game_state.buildings@ =~= switched.update(
                                i as int,
                                Building { is_active: new_active_state, assigned_workforce: 0, ..ob },
                            ));
                            lemma_sum_update(
                                switched,
                                i as int,
                                game_state.buildings@[i as int],
                                |b: Building| job_slots_of(b),
                            );
                        }
                    }
                }
                update_total_specialist_slots(game_state);
            }
            proof {
                if requires_job_slot_update && !new_active_state && old_state.buildings@[i as int].assigned_workforce > 0 {
                    assert(logged(old_state.notifications@, mid, toggle_msg(name@, building_id@, new_active_state), 0));
                }
                let nb = game_state.buildings@[i as int];
                let sb = Building { is_active: new_active_state, ..ob };
                assert(game_state.buildings@ =~= old_state.buildings@.update(i as int, nb));
                if old_state.is_consistent() {
                    lemma_sum_update(old_state.buildings@, i as int, nb, |b: Building| civic_of(b));
                    lemma_sum_update(old_state.buildings@, i as int, sb, |b: Building| civic_of(b));
                    lemma_sum_update(old_state.buildings@, i as int, nb, |b: Building| housing_of(b));
                    lemma_update_building(old_state, *game_state, i as int, nb);
                }
            }
        },
    }
}

} // verus!

verus! {

/// The totals a removal of the building named `id` recomputes fit in a
/// `u32`, over the buildings left: housing and habitation slots for a
/// habitation; civic index and job slots for a service or zone; job slots
/// for the other staffed kinds.
pub open spec fn removal_fits(gs: GameState, id: Seq<char>) -> bool {
    match find_first(gs.buildings@, id) {
        None => true,
        Some(i) => {
            let b = gs.buildings@[i];
            let rest = gs.buildings@.remove(i);
            &&& b.variant.is_habitation() ==> housing_sum(rest) <= u32::MAX && habitation_slots_sum(rest)
                <= u32::MAX
            &&& b.variant.is_civic() ==> civic_sum(rest) <= u32::MAX && job_slots_sum(rest) <= u32::MAX
            &&& b.variant.is_staffed_kind() && !b.variant.is_habitation() ==> job_slots_sum(rest) <= u32::MAX
        },
    }
}

/// Removes the first building with identifier `building_id`.
///
/// Its workers are released. Removing a habitation recomputes housing and
/// habitation slots, evicts inhabitants beyond the remaining housing, and
/// caps the assigned specialists by the inhabitants and the slots; removing
/// a service or zone recomputes the civic index and the job slots; removing
/// another staffed kind recomputes the job slots.
pub fn remove_building_by_id(game_state: &mut GameState, building_id_to_remove: &str)
    requires
        removal_fits(*old(game_state), building_id_to_remove@),
    ensures
        old(game_state).is_consistent() ==> final(game_state).is_consistent(),
        match find_first(old(game_state).buildings@, building_id_to_remove@) {
            None => {
                &&& *final(game_state) == (GameState {
                    notifications: final(game_state).notifications,
                    ..*old(game_state)
                })
                &&& logged(
                    old(game_state).notifications@,
                    final(game_state).notifications@,
                    building_id_msg(building_id_to_remove@, " not found for removal."@),
                    0,
                )
            },
            Some(i) => {
                let b = old(game_state).buildings@[i];
                let rest = old(game_state).buildings@.remove(i);
                let released = sat_sub(old(game_state).assigned_specialists_total, b.assigned_workforce);
                let housing = housing_sum(rest) as u32;
                let hab_slots = habitation_slots_sum(rest) as u32;
                let inhabitants = min_u32(old(game_state).total_inhabitants, housing);
                &&& final(game_state).buildings@ == rest
                &&& logged(
                    old(game_state).notifications@,
                    final(game_state).notifications@,
                    "Building "@ + b.id@ + " removed."@,
                    0,
                )
                &&& b.variant.is_habitation() ==> *final(game_state) == (GameState {
                    buildings: final(game_state).buildings,
                    notifications: final(game_state).notifications,
                    available_housing_capacity: housing,
                    total_specialist_slots: hab_slots,
                    total_inhabitants: inhabitants,
                    assigned_specialists_total: min_u32(min_u32(released, inhabitants), hab_slots),
                    ..*old(game_state)
                })
                &&& b.variant.is_civic() ==> *final(game_state) == (GameState {
                    buildings: final(game_state).buildings,
                    notifications: final(game_state).notifications,
                    civic_index: civic_sum(rest) as u32,
                    total_specialist_slots: job_slots_sum(rest) as u32,
                    assigned_specialists_total: released,
                    ..*old(game_state)
                })
                &&& (b.variant.is_staffed_kind() && !b.variant.is_habitation() && !b.variant.is_civic())
                    ==> *final(game_state) == (GameState {
                    buildings: final(game_state).buildings,
                    notifications: final(game_state).notifications,
                    total_specialist_slots: job_slots_sum(rest) as u32,
                    assigned_specialists_total: released,
                    ..*old(game_state)
                })
                &&& !b.variant.is_staffed_kind() ==> *final(game_state) == (GameState {
                    buildings: final(game_state).buildings,
                    notifications: final(game_state).notifications,
                    assigned_specialists_total: released,
                    ..*old(game_state)
                })
            },
        },
{
    match find_building_index(&game_state.buildings, building_id_to_remove) {
        None => {
            let msg = concat3("Building ID ", building_id_to_remove, " not found for removal.");
            add_notification(&mut game_state.notifications, msg, 0);
        },
        Some(i) => {
            let ghost old_state = *game_state;
            let ghost old_bs = game_state.buildings@;
            let removed_building = game_state.buildings.remove(i);
            proof {
                lemma_sum_remove(old_bs, i as int, |b: Building| civic_of(b));
                lemma_sum_remove(old_bs, i as int, |b: Building| housing_of(b));
            }
            let requires_housing_update = removed_building.variant.is_habitation_kind();
            let requires_civic_index_update = removed_building.variant.is_civic_kind();
            let requires_job_slot_update = removed_building.variant.is_staffed();
            let msg = concat3("Building ", removed_building.id.as_str(), " removed.");
            add_notification(&mut game_state.notifications, msg, 0);
            game_state.assigned_specialists_total = game_state.assigned_specialists_total.saturating_sub(
                removed_building.assigned_workforce,
            );
            if requires_housing_update {
                update_housing_and_specialist_slots(game_state);
            }
            if requires_civic_index_update {
                update_civic_index(game_state);
            }
            if requires_job_slot_update && !requires_housing_update {
                update_total_specialist_slots(game_state);
            }
            if requires_housing_update {
                if game_state.total_inhabitants > game_state.available_housing_capacity {
                    game_state.total_inhabitants = game_state.available_housing_capacity;
                }
                let mut assigned = game_state.assigned_specialists_total;
                if game_state.total_inhabitants < assigned {
                    assigned = game_state.total_inhabitants;
                }
                if game_state.total_specialist_slots < assigned {
                    assigned = game_state.total_specialist_slots;
                }
                game_state.assigned_specialists_total = assigned;
            }
            proof {
                if old_state.is_consistent() {
                    lemma_remove_building(old_state, *game_state, i as int);
                }
            }
        },
    }
}

} // verus!

verus! {

/// What became of an upgrade order.
#[derive(Debug, Clone, Copy, PartialEq, Eq, Structural)]
pub enum UpgradeOutcome {
    NotFound,
    NotUpgradable,
    AtMaxTier,
    TechLocked(Tech),
    InsufficientCredits,
    Upgraded,
}

/// The verdict on upgrading the first building with identifier `id`.
pub open spec fn upgrade_verdict(gs: GameState, id: Seq<char>) -> UpgradeOutcome {
    match find_first(gs.buildings@, id) {
        None => UpgradeOutcome::NotFound,
        Some(i) => {
            let b = gs.buildings@[i];
            let k = b.current_tier_index as int;
            if !b.variant.is_upgradable() {
                UpgradeOutcome::NotUpgradable
            } else if !(k < b.variant.tier_count() - 1) {
                UpgradeOutcome::AtMaxTier
            } else {
                let next = b.variant.tier(k + 1);
                if next.tech is Some && !gs.unlocked_techs@.contains(next.tech->0) {
                    UpgradeOutcome::TechLocked(next.tech->0)
                } else if (gs.credits as int) < next.cost as int {
                    UpgradeOutcome::InsufficientCredits
                } else {
                    UpgradeOutcome::Upgraded
                }
            }
        },
    }
}

/// The building upgraded one tier; workers beyond a smaller requirement of
/// the new tier are sent home.
pub open spec fn upgraded_building(b: Building) -> Building {
    let k = b.current_tier_index as int;
    let old_max = b.variant.workforce_at(k);
    let new_max = b.variant.workforce_at(k + 1);
    Building {
        current_tier_index: (b.current_tier_index + 1) as usize,
        assigned_workforce: if new_max < old_max && b.assigned_workforce > new_max {
            new_max
        } else {
            b.assigned_workforce
        },
        ..b
    }
}

/// The notice an upgrade order leaves in the log.
pub open spec fn upgrade_msg(gs: GameState, id: Seq<char>, r: UpgradeOutcome) -> Seq<char> {
    match r {
        UpgradeOutcome::NotFound => building_id_msg(id, " not found for upgrade."@),
        UpgradeOutcome::NotUpgradable => building_id_msg(id, " is not upgradable."@),
        UpgradeOutcome::AtMaxTier => "Already at maximum tier."@,
        UpgradeOutcome::TechLocked(t) => "Tech "@ + tech_label(t) + " required for upgrade."@,
        UpgradeOutcome::InsufficientCredits => "Not enough credits for upgrade."@,
        UpgradeOutcome::Upgraded => {
            let b = gs.buildings@[find_first(gs.buildings@, id)->0];
            "Upgraded "@ + b.id@ + " to "@ + b.variant.tier(b.current_tier_index + 1).name + "."@
        },
    }
}

/// Upgrade orders can be carried out without underflow: an upgradable
/// building that the order names has at least one tier.
pub open spec fn upgrade_well_defined(gs: GameState, id: Seq<char>) -> bool {
    forall|i: int|
        #![trigger gs.buildings@[i]]
        find_first(gs.buildings@, id) == Some(i) && gs.buildings@[i].variant.is_upgradable()
            ==> gs.buildings@[i].variant.tier_count() >= 1
}

/// The totals an upgrade of the building named `id` recomputes fit in a
/// `u32`, over the buildings with that one upgraded: housing and habitation
/// slots for a habitation, job slots for the other kinds, and the civic
/// index for a service or zone. Only an upgrade that goes through
/// recomputes them.
pub open spec fn upgrade_fits(gs: GameState, id: Seq<char>) -> bool {
    upgrade_verdict(gs, id) == UpgradeOutcome::Upgraded ==> {
        let i = find_first(gs.buildings@, id)->0;
        let b = gs.buildings@[i];
        let bs = gs.buildings@.update(i, upgraded_building(b));
        &&& b.variant.is_habitation() ==> housing_sum(bs) <= u32::MAX && habitation_slots_sum(bs) <= u32::MAX
        &&& !b.variant.is_habitation() ==> job_slots_sum(bs) <= u32::MAX
        &&& b.variant.is_civic() ==> civic_sum(bs) <= u32::MAX
    }
}

/// Upgrades the first building with identifier `building_id_to_upgrade` to
/// its next tier, when its kind can be upgraded, the next tier exists, its
/// tech is unlocked and the colony can pay for it.
///
/// The next tier's construction cost is paid. Habitations recompute housing
/// and habitation slots; services and zones the civic index and job slots;
/// fabricators and processing plants the job slots.
pub fn upgrade_building_by_id(game_state: &mut GameState, building_id_to_upgrade: &str) -> (r: UpgradeOutcome)
    requires
        upgrade_well_defined(*old(game_state), building_id_to_upgrade@),
        upgrade_fits(*old(game_state), building_id_to_upgrade@),
    ensures
        old(game_state).is_consistent() ==> final(game_state).is_consistent(),
        r == upgrade_verdict(*old(game_state), building_id_to_upgrade@),
        logged(
            old(game_state).notifications@,
            final(game_state).notifications@,
            upgrade_msg(*old(game_state), building_id_to_upgrade@, r),
            0,
        ),
        r != UpgradeOutcome::Upgraded ==> *final(game_state) == (GameState {
            notifications: final(game_state).notifications,
            ..*old(game_state)
        }),
        r == UpgradeOutcome::Upgraded ==> {
            let i = find_first(old(game_state).buildings@, building_id_to_upgrade@)->0;
            let b = old(game_state).buildings@[i];
            let nb = upgraded_building(b);
            let bs = old(game_state).buildings@.update(i, nb);
            let sent_home = (b.assigned_workforce - nb.assigned_workforce) as u32;
            &&& final(game_state).buildings@ == bs
            &&& *final(game_state) == (GameState {
                buildings: final(game_state).buildings,
                notifications: final(game_state).notifications,
                credits: (old(game_state).credits - b.variant.tier(b.current_tier_index + 1).cost) as u64,
                assigned_specialists_total: sat_sub(old(game_state).assigned_specialists_total, sent_home),
                available_housing_capacity: if b.variant.is_habitation() {
                    housing_sum(bs) as u32
                } else {
                    old(game_state).available_housing_capacity
                },
                civic_index: if b.variant.is_civic() {
                    civic_sum(bs) as u32
                } else {
                    old(game_state).civic_index
                },
                total_specialist_slots: if b.variant.is_habitation() {
                    habitation_slots_sum(bs) as u32
                } else {
                    job_slots_sum(bs) as u32
                },
                ..*old(game_state)
            })
        },
{
    let i = match find_building_index(&game_state.buildings, building_id_to_upgrade) {
        None => {
            let msg = concat3("Building ID ", building_id_to_upgrade, " not found for upgrade.");
            add_notification(&mut game_state.notifications, msg, 0);
            return UpgradeOutcome::NotFound;
        },
        Some(i) => i,
    };
    let ghost old_state = *game_state;
    if !game_state.buildings[i].variant.is_upgradable_kind() {
        let msg = concat3("Building ID ", building_id_to_upgrade, " is not upgradable.");
        add_notification(&mut game_state.notifications, msg, 0);
        return UpgradeOutcome::NotUpgradable;
    }
    let current_tier_idx = game_state.buildings[i].current_tier_index;
    let available_tiers_len = game_state.buildings[i].variant.tier_count_exec();
    if !(current_tier_idx < available_tiers_len - 1) {
        add_notification(&mut game_state.notifications, String::from_str("Already at maximum tier."), 0);
        return UpgradeOutcome::AtMaxTier;
    }
    let (cost, new_workforce_max, tech) = match game_state.buildings[i].variant.tier_basics(current_tier_idx + 1) {
        Some(t) => t,
        None => {
            proof {
                assert(false);
            }
            return UpgradeOutcome::AtMaxTier;
        },
    };
    if let Some(tech_req) = tech {
        if !tech_unlocked(&game_state.unlocked_techs, tech_req) {
            let msg = concat3("Tech ", tech_name(tech_req), " required for upgrade.");
            add_notification(&mut game_state.notifications, msg, 0);
            return UpgradeOutcome::TechLocked(tech_req);
        }
    }
    if game_state.credits < cost as u64 {
        add_notification(&mut game_state.notifications, String::from_str("Not enough credits for upgrade."), 0);
        return UpgradeOutcome::InsufficientCredits;
    }
    let old_workforce_max = match game_state.buildings[i].variant.tier_basics(current_tier_idx) {
        Some((_, w, _)) => w,
        None => 0,
    };
    let new_tier_name = match game_state.buildings[i].variant.tier_name(current_tier_idx + 1) {
        Some(n) => n,
        None => String::new(),
    };
    let requires_housing_update = game_state.buildings[i].variant.is_habitation_kind();
    let requires_civic_index_update = game_state.buildings[i].variant.is_civic_kind();
    game_state.credits = game_state.credits - cost as u64;
    game_state.buildings[i].current_tier_index = current_tier_idx + 1;
    let msg = concat5(
        "Upgraded ",
        game_state.buildings[i].id.as_str(),
        " to ",
        new_tier_name.as_str(),
        ".",
    );
    add_notification(&mut game_state.notifications, msg, 0);
    if new_workforce_max < old_workforce_max {
        let assigned = game_state.buildings[i].assigned_workforce;
        if assigned > new_workforce_max {
            let to_unassign = assigned - new_workforce_max;
            game_state.buildings[i].assigned_workforce = new_workforce_max;
            game_state.assigned_specialists_total = game_state.assigned_specialists_total.saturating_sub(to_unassign);
        }
    }
    let ghost ob = old_state.buildings@[i as int];
    proof {
        assert(game_state.buildings@ =~= old_state.buildings@.update(i as int, upgraded_building(ob)));
    }
    if requires_housing_update {
        update_housing_and_specialist_slots(game_state);
    }
    if requires_civic_index_update {
        update_civic_index(game_state);
    }
    if !requires_housing_update {
        update_total_specialist_slots(game_state);
    }
    proof {
        let nb = upgraded_building(ob);
        if old_state.is_consistent() {
            lemma_sum_update(old_state.buildings@, i as int, nb, |b: Building| civic_of(b));
            lemma_sum_update(old_state.buildings@, i as int, nb, |b: Building| housing_of(b));
            lemma_update_building(old_state, *game_state, i as int, nb);
        }
    }
    UpgradeOutcome::Upgraded
}

} // verus!
