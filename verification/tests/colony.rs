use nexus::components::building::BuildingVariant;
use nexus::game_state::text::decimal_string;
use nexus::game_state::{
    self, add_notification, generate_unique_id, BuildOutcome, DevelopmentPhase, GameState, ResourceType,
    ServiceType, Tech, UpgradeOutcome, ZoneType,
};
use std::collections::VecDeque;

fn front(state: &GameState) -> String {
    state.notifications.front().unwrap().message.clone()
}

#[test]
fn new_colony_starts_with_welcome() {
    let state = GameState::default();
    assert_eq!(state.credits, 10000);
    assert_eq!(state.total_inhabitants, 5);
    assert_eq!(state.current_development_phase, DevelopmentPhase::DP1);
    assert!(state.buildings.is_empty());
    assert_eq!(state.notifications.len(), 1);
    assert_eq!(front(&state), "Colony established. Welcome, Commander!");
    assert_eq!(state.tech_costs.len(), 6);
    assert_eq!(state.tech_costs[5], (Tech::ArcologyConstruction, 1000));
}

#[test]
fn build_basic_dwellings() {
    let mut state = GameState::default();
    let r = game_state::add_habitation_structure(&mut state, 0);
    assert_eq!(r, BuildOutcome::Built);
    assert_eq!(state.credits, 9900);
    assert_eq!(state.buildings.len(), 1);
    assert_eq!(state.buildings[0].id, "struct_0");
    assert!(state.buildings[0].is_active);
    assert_eq!(state.available_housing_capacity, 10);
    assert_eq!(state.total_specialist_slots, 1);
    assert_eq!(front(&state), "Built Basic Dwellings.");
}

#[test]
fn invalid_tier_changes_nothing() {
    let mut state = GameState::default();
    assert_eq!(game_state::add_habitation_structure(&mut state, 3), BuildOutcome::InvalidTier);
    assert_eq!(game_state::add_zone(&mut state, ZoneType::LightIndustry, 7), BuildOutcome::InvalidTier);
    assert_eq!(state.credits, 10000);
    assert_eq!(state.notifications.len(), 1);
}

#[test]
fn insufficient_credits_refuses_construction() {
    let mut state = GameState::default();
    state.credits = 50;
    let r = game_state::add_habitation_structure(&mut state, 0);
    assert_eq!(r, BuildOutcome::InsufficientCredits);
    assert_eq!(state.credits, 50);
    assert!(state.buildings.is_empty());
    assert_eq!(front(&state), "Not enough credits to build Basic Dwellings.");
}

#[test]
fn identifiers_are_unique_and_sequential() {
    let mut state = GameState::default();
    game_state::add_extractor(&mut state);
    game_state::add_bio_dome(&mut state);
    game_state::add_power_relay(&mut state);
    assert_eq!(state.buildings[0].id, "struct_0");
    assert_eq!(state.buildings[1].id, "struct_1");
    assert_eq!(state.buildings[2].id, "struct_2");
    assert_eq!(generate_unique_id(&mut state), "struct_3");
    assert_eq!(state.next_structure_serial, 4);
}

#[test]
fn decimal_notation() {
    assert_eq!(decimal_string(0), "0");
    assert_eq!(decimal_string(7), "7");
    assert_eq!(decimal_string(1234), "1234");
    assert_eq!(decimal_string(u32::MAX), "4294967295");
}

#[test]
fn notification_log_keeps_twenty_newest_first() {
    let mut log = VecDeque::new();
    for i in 0..25u32 {
        add_notification(&mut log, decimal_string(i), i as u64);
    }
    assert_eq!(log.len(), 20);
    assert_eq!(log.front().unwrap().message, "24");
    assert_eq!(log.back().unwrap().message, "5");
    assert_eq!(log.front().unwrap().timestamp_ms, 24);
}

#[test]
fn service_toggle_updates_civic_index_and_slots() {
    let mut state = GameState::default();
    assert_eq!(game_state::add_service_building(&mut state, ServiceType::Wellness, 0), BuildOutcome::Built);
    assert!(!state.buildings[0].is_active);
    assert_eq!(state.civic_index, 0);
    assert_eq!(front(&state), "Built Wellness - Clinic.");
    game_state::toggle_building_active_state_by_id(&mut state, "struct_0");
    assert!(state.buildings[0].is_active);
    assert_eq!(state.civic_index, 5);
    assert_eq!(state.total_specialist_slots, 2);
    assert_eq!(front(&state), "Wellness Clinic struct_0 activated.");
}

#[test]
fn zone_construction_message() {
    let mut state = GameState::default();
    assert_eq!(game_state::add_zone(&mut state, ZoneType::Commercial, 0), BuildOutcome::Built);
    assert_eq!(state.credits, 9900);
    assert_eq!(front(&state), "Constructed Zone: Commercial - Small Market Stalls.");
}

#[test]
fn workforce_assignment_rules() {
    let mut state = GameState::default();
    game_state::add_service_building(&mut state, ServiceType::Wellness, 0);
    game_state::assign_workforce_to_building_by_id(&mut state, "struct_0", 2);
    assert_eq!(state.buildings[0].assigned_workforce, 2);
    assert_eq!(state.assigned_specialists_total, 2);
    assert_eq!(front(&state), "Assigned 2 workforce to Wellness Clinic.");

    game_state::assign_workforce_to_building_by_id(&mut state, "struct_0", 1);
    assert_eq!(state.buildings[0].assigned_workforce, 2);
    assert_eq!(front(&state), "Cannot assign more workforce than required for Wellness Clinic. Max: 2");

    game_state::assign_workforce_to_building_by_id(&mut state, "struct_0", 4);
    assert_eq!(front(&state), "Not enough unassigned inhabitants for Wellness Clinic.");

    game_state::add_power_relay(&mut state);
    game_state::assign_workforce_to_building_by_id(&mut state, "struct_1", 1);
    assert_eq!(front(&state), "Unknown Building does not require workforce.");

    game_state::assign_workforce_to_building_by_id(&mut state, "struct_9", 1);
    assert_eq!(front(&state), "Building ID struct_9 not found for workforce assignment.");
}

#[test]
fn workforce_unassignment_takes_at_most_what_is_there() {
    let mut state = GameState::default();
    game_state::add_extractor(&mut state);
    game_state::assign_workforce_to_building_by_id(&mut state, "struct_0", 3);
    let taken = game_state::unassign_workforce_from_building_by_id(&mut state, "struct_0", 5);
    assert_eq!(taken, 3);
    assert_eq!(state.buildings[0].assigned_workforce, 0);
    assert_eq!(state.assigned_specialists_total, 0);
    assert_eq!(front(&state), "Unassigned 3 workforce from Ferrocrete Extractor.");
    let before = state.notifications.len();
    assert_eq!(game_state::unassign_workforce_from_building_by_id(&mut state, "struct_0", 1), 0);
    assert_eq!(state.notifications.len(), before);
    game_state::unassign_workforce_from_building_by_id(&mut state, "nope", 1);
    assert_eq!(front(&state), "Building ID nope not found for workforce unassignment.");
}

#[test]
fn deactivation_sends_workers_home() {
    let mut state = GameState::default();
    game_state::add_zone(&mut state, ZoneType::Commercial, 0);
    game_state::toggle_building_active_state_by_id(&mut state, "struct_0");
    assert_eq!(state.civic_index, 3);
    game_state::assign_workforce_to_building_by_id(&mut state, "struct_0", 4);
    assert_eq!(state.assigned_specialists_total, 4);
    let before = state.notifications.len();
    game_state::toggle_building_active_state_by_id(&mut state, "struct_0");
    assert!(!state.buildings[0].is_active);
    assert_eq!(state.buildings[0].assigned_workforce, 0);
    assert_eq!(state.assigned_specialists_total, 0);
    assert_eq!(state.civic_index, 0);
    assert_eq!(state.total_specialist_slots, 0);
    assert_eq!(state.notifications.len(), before + 2);
    assert_eq!(front(&state), "Workforce unassigned from deactivated Commercial Small Market Stalls.");
    assert_eq!(state.notifications[1].message, "Commercial Small Market Stalls struct_0 deactivated.");
}

#[test]
fn toggle_unknown_building() {
    let mut state = GameState::default();
    game_state::toggle_building_active_state_by_id(&mut state, "struct_4");
    assert_eq!(front(&state), "Building ID struct_4 not found for toggling active state.");
}

#[test]
fn upgrade_habitation_through_its_tiers() {
    let mut state = GameState::default();
    game_state::add_habitation_structure(&mut state, 0);
    let r = game_state::upgrade_building_by_id(&mut state, "struct_0");
    assert_eq!(r, UpgradeOutcome::Upgraded);
    assert_eq!(state.buildings[0].current_tier_index, 1);
    assert_eq!(state.credits, 9900 - 250);
    assert_eq!(state.available_housing_capacity, 25);
    assert_eq!(state.total_specialist_slots, 3);
    assert_eq!(front(&state), "Upgraded struct_0 to Community Blocks.");

    let r = game_state::upgrade_building_by_id(&mut state, "struct_0");
    assert_eq!(r, UpgradeOutcome::TechLocked(Tech::ArcologyConstruction));
    assert_eq!(front(&state), "Tech ArcologyConstruction required for upgrade.");

    state.unlocked_techs.push(Tech::ArcologyConstruction);
    state.credits = 999;
    assert_eq!(game_state::upgrade_building_by_id(&mut state, "struct_0"), UpgradeOutcome::InsufficientCredits);
    assert_eq!(front(&state), "Not enough credits for upgrade.");

    state.credits = 1000;
    assert_eq!(game_state::upgrade_building_by_id(&mut state, "struct_0"), UpgradeOutcome::Upgraded);
    assert_eq!(state.credits, 0);
    assert_eq!(state.available_housing_capacity, 100);
    assert_eq!(game_state::upgrade_building_by_id(&mut state, "struct_0"), UpgradeOutcome::AtMaxTier);
    assert_eq!(front(&state), "Already at maximum tier.");
}

#[test]
fn upgrade_refusals() {
    let mut state = GameState::default();
    game_state::add_power_relay(&mut state);
    assert_eq!(game_state::upgrade_building_by_id(&mut state, "struct_0"), UpgradeOutcome::NotUpgradable);
    assert_eq!(front(&state), "Building ID struct_0 is not upgradable.");
    assert_eq!(game_state::upgrade_building_by_id(&mut state, "x"), UpgradeOutcome::NotFound);
    assert_eq!(front(&state), "Building ID x not found for upgrade.");
}

#[test]
fn upgrading_a_staffed_service_keeps_its_workers() {
    let mut state = GameState::default();
    game_state::add_zone(&mut state, ZoneType::LightIndustry, 1);
    assert_eq!(state.buildings.len(), 0);
    state.unlocked_techs.push(Tech::ZoningOrdinances);
    state.total_inhabitants = 30;
    game_state::add_service_building(&mut state, ServiceType::Security, 0);
    game_state::assign_workforce_to_building_by_id(&mut state, "struct_0", 3);
    state.unlocked_techs.push(Tech::BasicConstructionProtocols);
    assert_eq!(game_state::upgrade_building_by_id(&mut state, "struct_0"), UpgradeOutcome::Upgraded);
    assert_eq!(state.buildings[0].assigned_workforce, 3);
    assert_eq!(state.credits, 10000 - 150 - 450);
}

#[test]
fn removing_habitation_evicts_inhabitants() {
    let mut state = GameState::default();
    game_state::add_habitation_structure(&mut state, 0);
    game_state::add_extractor(&mut state);
    game_state::assign_workforce_to_building_by_id(&mut state, "struct_1", 4);
    assert_eq!(state.assigned_specialists_total, 4);
    game_state::remove_building_by_id(&mut state, "struct_0");
    assert_eq!(state.buildings.len(), 1);
    assert_eq!(state.available_housing_capacity, 0);
    assert_eq!(state.total_inhabitants, 0);
    assert_eq!(state.assigned_specialists_total, 0);
    assert_eq!(front(&state), "Building struct_0 removed.");
    game_state::remove_building_by_id(&mut state, "struct_0");
    assert_eq!(front(&state), "Building ID struct_0 not found for removal.");
}

#[test]
fn removing_a_staffed_building_releases_its_workers() {
    let mut state = GameState::default();
    game_state::add_research_institute(&mut state);
    game_state::assign_workforce_to_building_by_id(&mut state, "struct_0", 5);
    game_state::remove_building_by_id(&mut state, "struct_0");
    assert_eq!(state.assigned_specialists_total, 0);
    assert_eq!(state.total_inhabitants, 5);
}

#[test]
fn processing_plant_unlocks_raw_material_once() {
    let mut state = GameState::default();
    assert_eq!(game_state::add_processing_plant(&mut state, 0), BuildOutcome::Built);
    assert_eq!(front(&state), "Built Xylos Purifier.");
    assert_eq!(game_state::add_processing_plant(&mut state, 0), BuildOutcome::Built);
    assert_eq!(state.unlocked_raw_materials, vec![ResourceType::RawXylos]);
    assert_eq!(game_state::add_processing_plant(&mut state, 2), BuildOutcome::Built);
    assert_eq!(state.unlocked_raw_materials, vec![ResourceType::RawXylos]);
}

#[test]
fn fabricator_and_silo() {
    let mut state = GameState::default();
    assert_eq!(game_state::add_fabricator(&mut state, 0), BuildOutcome::Built);
    assert_eq!(game_state::add_storage_silo(&mut state), BuildOutcome::Built);

    assert!(!state.buildings[0].is_active);
    assert!(state.buildings[1].is_active);
    assert_eq!(state.credits, 10000 - 200 - 100);
    match &state.buildings[0].variant {
        BuildingVariant::Fabricator { available_tiers } => {
            assert_eq!(available_tiers[1].name, "Advanced Fabricator");
        },
        _ => panic!("expected a fabricator"),
    }
}

#[test]
fn administrative_spire_advances_phases() {
    let mut state = GameState::default();
    game_state::upgrade_administrative_spire(&mut state);
    assert_eq!(front(&state), "Administrative Spire not constructed yet.");
    game_state::construct_administrative_spire(&mut state);
    assert_eq!(state.credits, 9000);
    assert_eq!(front(&state), "Spire Core constructed.");
    game_state::construct_administrative_spire(&mut state);
    assert_eq!(front(&state), "Administrative Spire already constructed.");
    game_state::upgrade_administrative_spire(&mut state);
    assert_eq!(state.current_development_phase, DevelopmentPhase::DP2);
    assert_eq!(state.credits, 7500);
    assert_eq!(front(&state), "Administrative Spire upgraded to Spire Nexus.");
    game_state::upgrade_administrative_spire(&mut state);
    assert_eq!(state.current_development_phase, DevelopmentPhase::DP3);
    assert_eq!(state.credits, 5000);
    game_state::upgrade_administrative_spire(&mut state);
    assert_eq!(front(&state), "Administrative Spire is already at maximum tier.");
}

#[test]
fn spire_upgrade_needs_credits() {
    let mut state = GameState::default();
    game_state::construct_administrative_spire(&mut state);
    state.credits = 100;
    game_state::upgrade_administrative_spire(&mut state);
    assert_eq!(front(&state), "Not enough credits to upgrade Spire to Spire Nexus.");
    assert_eq!(state.current_development_phase, DevelopmentPhase::DP1);
    let mut poor = GameState::default();
    poor.credits = 999;
    game_state::construct_administrative_spire(&mut poor);
    assert!(poor.administrative_spire.is_none());
    assert_eq!(front(&poor), "Not enough credits to construct Spire Core.");
}

#[test]
fn legacy_structure_needs_phase_three() {
    let mut state = GameState::default();
    assert_eq!(game_state::construct_legacy_structure(&mut state), 0);
    assert_eq!(front(&state), "Legacy Structure requires Development Phase 3.");
    state.current_development_phase = DevelopmentPhase::DP3;
    state.credits = 20000;
    assert_eq!(game_state::construct_legacy_structure(&mut state), 5);
    assert_eq!(state.credits, 18000);
    assert_eq!(front(&state), "Ancient Monolith constructed.");
    assert_eq!(game_state::upgrade_legacy_structure(&mut state), 5);
    assert_eq!(state.credits, 13000);
    assert_eq!(front(&state), "Legacy Structure upgraded to Restored Monument.");
    state.credits = 9999;
    assert_eq!(game_state::upgrade_legacy_structure(&mut state), 0);
    assert_eq!(front(&state), "Not enough credits to upgrade Legacy Structure to Nexus Beacon.");
    state.credits = 10000;
    assert_eq!(game_state::upgrade_legacy_structure(&mut state), 10);
    assert_eq!(game_state::upgrade_legacy_structure(&mut state), 0);
    assert_eq!(front(&state), "Legacy Structure is already at maximum tier.");
    assert_eq!(game_state::construct_legacy_structure(&mut state), 0);
    assert_eq!(front(&state), "Legacy Structure already constructed.");
}

#[test]
fn tier_tables() {
    assert_eq!(game_state::get_new_habitation_tiers().len(), 3);
    assert_eq!(game_state::get_new_zone_tiers(ZoneType::Commercial)[1].name, "Shopping Plaza");
    assert_eq!(game_state::get_new_service_tiers(ServiceType::Security)[1].required_tech, Some(Tech::BasicConstructionProtocols));
    assert_eq!(game_state::get_new_service_tiers(ServiceType::Spiritual)[0].civic_index_contribution, 3);
    assert_eq!(game_state::get_administrative_spire_tiers()[2].unlocks_phase, DevelopmentPhase::DP3);
    assert_eq!(game_state::get_legacy_structure_tiers()[2].income_bonus, 500);
    assert_eq!(game_state::get_default_extractor_tiers()[0].extraction_rate_milli_per_sec, 2500);
    assert_eq!(game_state::get_new_processing_plant_tiers()[1].unlocks_resource, Some(ResourceType::RawQuantium));
    assert_eq!(game_state::get_default_power_relay_tiers()[0].power_generation, 50);
}

#[test]
fn advanced_fabricator_needs_no_unlocked_tech() {
    let mut state = GameState::default();
    assert_eq!(game_state::add_fabricator(&mut state, 1), BuildOutcome::Built);
    assert_eq!(state.credits, 10000 - 500);
    assert_eq!(front(&state), "Built Advanced Fabricator.");
}
