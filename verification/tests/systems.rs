use nexus::alerts::{alert_system, AlertReadings, AlertState};
use nexus::components::building::{Building, BuildingVariant, ServiceTier};
use nexus::first_hour_tooltips::{
    check_tutorial_triggers, get_tutorial_steps, trigger_fires, ColonyReadings, EntityTag,
    TutorialState, TutorialTrigger, TUTORIAL_STEP_COUNT,
};
use nexus::game_state::guards::{
    assignment_fits_exec, removal_fits_exec, room_to_build, toggle_fits_exec, upgrade_fits_exec,
    upgrade_well_defined_exec, StructureKind,
};
use nexus::game_state::{self, DevelopmentPhase, GameState, ServiceType, Tech, UpgradeOutcome, ZoneType};
use nexus::resources::population::PopulationResource;
use nexus::systems::research::{initiate_research, research_system, tech_cost};
use nexus::ui::colony_status::{diagnostic_ok, population_status, DiagnosticType, PopulationStatus};
use nexus::ui::dashboard::{
    building_panel, can_upgrade_now, get_building_display_info, legacy_panel, spire_panel, upgrade_preview, LegacyPanel,
    NextTier, SpirePanel, UpgradeOffer, WorkforceControls,
};
use nexus::ui::research::available_research;

fn front(state: &GameState) -> String {
    state.notifications.front().unwrap().message.clone()
}

fn readings() -> ColonyReadings {
    ColonyReadings { power_deficit: false, happiness_points: 50, research_app_open: false }
}

fn service_tier(name: &str, cost: u32, workforce: u32) -> ServiceTier {
    ServiceTier {
        name: name.to_string(),
        construction_credits_cost: cost,
        upkeep_cost: 0,
        power_requirement: 0,
        workforce_requirement: workforce,
        required_tech: None,
        service_capacity: 10,
        service_radius: 5,
        civic_index_contribution: 1,
    }
}

#[test]
fn upgrade_to_a_smaller_requirement_sends_extra_workers_home() {
    let mut state = GameState::default();
    state.total_inhabitants = 10;
    state.buildings.push(Building {
        id: "struct_0".to_string(),
        variant: BuildingVariant::Service {
            service_type: ServiceType::Wellness,
            available_tiers: vec![service_tier("Big", 0, 5), service_tier("Lean", 100, 2)],
        },
        current_tier_index: 0,
        is_active: true,
        assigned_workforce: 0,
    });
    state.next_structure_serial = 1;
    game_state::assign_workforce_to_building_by_id(&mut state, "struct_0", 4);
    assert_eq!(state.assigned_specialists_total, 4);
    assert_eq!(game_state::upgrade_building_by_id(&mut state, "struct_0"), UpgradeOutcome::Upgraded);
    assert_eq!(state.buildings[0].current_tier_index, 1);
    assert_eq!(state.buildings[0].assigned_workforce, 2);
    assert_eq!(state.assigned_specialists_total, 2);
    assert_eq!(state.credits, 9900);
    assert_eq!(front(&state), "Upgraded struct_0 to Lean.");
}

#[test]
fn research_runs_only_with_a_staffed_institute() {
    let mut state = GameState::default();
    assert_eq!(tech_cost(&state.tech_costs, Tech::BasicConstructionProtocols), Some(100));
    assert!(initiate_research(&mut state, Tech::BasicConstructionProtocols));
    assert_eq!(state.credits, 9900);
    assert_eq!(state.research_progress, Some((Tech::BasicConstructionProtocols, 0)));
    assert!(!initiate_research(&mut state, Tech::EfficientExtraction));
    assert_eq!(state.credits, 9900);

    assert_eq!(research_system(&mut state), None);
    assert_eq!(state.research_progress, Some((Tech::BasicConstructionProtocols, 0)));

    game_state::add_research_institute(&mut state);
    state.total_inhabitants = 20;
    game_state::assign_workforce_to_building_by_id(&mut state, "struct_0", 15);
    assert_eq!(state.buildings[0].assigned_workforce, 15);
    for _ in 0..99 {
        assert_eq!(research_system(&mut state), None);
    }
    assert_eq!(state.research_progress, Some((Tech::BasicConstructionProtocols, 99)));
    assert_eq!(research_system(&mut state), Some(Tech::BasicConstructionProtocols));
    assert_eq!(state.research_progress, None);
    assert_eq!(state.unlocked_techs, vec![Tech::BasicConstructionProtocols]);
    assert_eq!(available_research(&state), vec![Tech::EfficientExtraction]);
}

#[test]
fn research_refused_without_credits() {
    let mut state = GameState::default();
    state.credits = 99;
    assert!(!initiate_research(&mut state, Tech::BasicConstructionProtocols));
    assert_eq!(state.research_progress, None);
    assert_eq!(state.credits, 99);
}

#[test]
fn offered_research() {
    let state = GameState::default();
    assert_eq!(available_research(&state), vec![Tech::BasicConstructionProtocols, Tech::EfficientExtraction]);
}

#[test]
fn tutorial_steps_in_order() {
    let steps = get_tutorial_steps();
    assert_eq!(steps.len(), TUTORIAL_STEP_COUNT);
    assert_eq!(steps[0].title, "Welcome to Nexus Core");
    assert_eq!(steps[0].trigger, TutorialTrigger::Always);
    assert_eq!(steps[1].trigger, TutorialTrigger::HasEntity(EntityTag::OperationsHub));
    assert_eq!(steps[7].trigger, TutorialTrigger::HappinessBelow(70));
    assert_eq!(steps[11].title, "Legacy Awaits");
    assert_eq!(steps[1].title, "Power Online");
    assert_eq!(steps[0].content, "Welcome, Colony Director. Let’s begin by placing your Operations Hub.");
    assert_eq!(steps[11].ui_highlight, Some("ui.legacy_panel"));
    assert!(steps.iter().all(|s| s.ui_highlight.is_some()));
}

#[test]
fn tutorial_moves_on_when_a_step_fires() {
    let mut state = GameState::default();
    let mut tutorial = TutorialState::default();
    assert_eq!(tutorial.current_step, 0);
    assert_eq!(tutorial.completed_steps.len(), TUTORIAL_STEP_COUNT);

    assert_eq!(check_tutorial_triggers(&mut tutorial, &state, &readings()), Some(0));
    assert!(tutorial.completed_steps[0]);
    assert_eq!(tutorial.current_step, 1);

    assert_eq!(check_tutorial_triggers(&mut tutorial, &state, &readings()), None);
    assert_eq!(tutorial.current_step, 1);
    assert!(!tutorial.completed_steps[1]);
    game_state::construct_administrative_spire(&mut state);
    assert_eq!(check_tutorial_triggers(&mut tutorial, &state, &readings()), Some(1));
    assert_eq!(tutorial.current_step, 2);
}

#[test]
fn tutorial_stops_after_the_last_step() {
    let state = GameState::default();
    let mut tutorial = TutorialState::default();
    tutorial.current_step = TUTORIAL_STEP_COUNT;
    assert_eq!(check_tutorial_triggers(&mut tutorial, &state, &readings()), None);
    assert_eq!(tutorial.current_step, TUTORIAL_STEP_COUNT);
}

#[test]
fn tutorial_triggers_read_the_colony() {
    let mut state = GameState::default();
    let calm = readings();
    let tense = ColonyReadings { power_deficit: true, happiness_points: 40, research_app_open: true };
    assert!(trigger_fires(TutorialTrigger::HappinessBelow(70), &state, &calm));
    assert!(!trigger_fires(TutorialTrigger::HappinessBelow(50), &state, &calm));
    assert!(trigger_fires(TutorialTrigger::TechTreeOpened, &state, &tense));
    assert!(!trigger_fires(TutorialTrigger::ExtractorNeedsPower, &state, &tense));
    game_state::add_extractor(&mut state);
    assert!(trigger_fires(TutorialTrigger::ExtractorNeedsPower, &state, &tense));
    assert!(!trigger_fires(TutorialTrigger::ExtractorNeedsPower, &state, &calm));
    assert!(trigger_fires(TutorialTrigger::HasEntity(EntityTag::Extractor), &state, &calm));
    assert!(!trigger_fires(TutorialTrigger::ExtractorProducing, &state, &calm));
    assert!(!trigger_fires(TutorialTrigger::PopulationIncreased, &state, &calm));
    state.total_inhabitants = 6;
    assert!(trigger_fires(TutorialTrigger::PopulationIncreased, &state, &calm));
    assert!(!trigger_fires(TutorialTrigger::AllServicesCovered, &state, &calm));
}

#[test]
fn alerts_log_when_they_change() {
    let mut state = GameState::default();
    let mut alerts = AlertState::default();
    let deficit = AlertReadings { power_deficit: true, food_short: false, unrest: false };
    alert_system(&mut alerts, &mut state.notifications, &deficit, 1500);
    assert!(alerts.power);
    assert_eq!(front(&state), "ALERT: Power deficit detected.");
    assert_eq!(state.notifications.front().unwrap().timestamp_ms, 1500);
    assert_eq!(state.notifications.len(), 2);

    alert_system(&mut alerts, &mut state.notifications, &deficit, 2500);
    assert_eq!(state.notifications.len(), 2);

    let all = AlertReadings { power_deficit: false, food_short: true, unrest: true };
    alert_system(&mut alerts, &mut state.notifications, &all, 3000);
    assert!(!alerts.power && alerts.food && alerts.unrest);
    assert_eq!(state.notifications.len(), 5);
    assert_eq!(state.notifications[0].message, "ALERT: Civic unrest rising.");
    assert_eq!(state.notifications[1].message, "ALERT: Food shortage.");
    assert_eq!(state.notifications[2].message, "Power levels stabilized.");

    let calm = AlertReadings { power_deficit: false, food_short: false, unrest: false };
    alert_system(&mut alerts, &mut state.notifications, &calm, 4000);
    assert_eq!(state.notifications[0].message, "Civic order restored.");
    assert_eq!(state.notifications[1].message, "Food supply restored.");
}

#[test]
fn guards_on_a_new_colony() {
    let mut state = GameState::default();
    assert!(room_to_build(&state, StructureKind::Habitation, 0));
    assert!(room_to_build(&state, StructureKind::Service(ServiceType::Spiritual), 0));
    assert!(toggle_fits_exec(&state, "nothing"));
    assert!(removal_fits_exec(&state, "nothing"));
    assert!(upgrade_fits_exec(&state, "nothing"));
    assert!(assignment_fits_exec(&state, "nothing", u32::MAX));
    assert!(upgrade_well_defined_exec(&state, "nothing"));
    game_state::add_habitation_structure(&mut state, 0);
    assert!(assignment_fits_exec(&state, "struct_0", 1));
    assert!(upgrade_well_defined_exec(&state, "struct_0"));
}

#[test]
fn dashboard_lines() {
    let mut state = GameState::default();
    game_state::add_habitation_structure(&mut state, 0);
    game_state::add_service_building(&mut state, ServiceType::Wellness, 0);
    let (name, assigned, capacity, details) = get_building_display_info(&state.buildings[0]);
    assert_eq!((name.as_str(), assigned, capacity, details.as_str()), ("Basic Dwellings", 0, 1, "Inhabitants: 0/10"));
    let (name, assigned, capacity, details) = get_building_display_info(&state.buildings[1]);
    assert_eq!(
        (name.as_str(), assigned, capacity, details.as_str()),
        ("Wellness Clinic", 0, 2, "Coverage: 50 units, Radius: 50")
    );

    assert_eq!(upgrade_preview(&state.buildings[0]), Some(("Community Blocks".to_string(), 250, None)));
    assert!(can_upgrade_now(&state, 0));
    state.credits = 249;
    assert!(!can_upgrade_now(&state, 0));
    game_state::add_power_relay(&mut state);
    assert_eq!(upgrade_preview(&state.buildings[2]), None);
}

#[test]
fn dashboard_details_per_kind() {
    let mut state = GameState::default();
    game_state::add_extractor(&mut state);
    game_state::add_bio_dome(&mut state);
    game_state::add_power_relay(&mut state);
    game_state::add_research_institute(&mut state);
    game_state::add_storage_silo(&mut state);
    game_state::add_fabricator(&mut state, 0);
    game_state::add_zone(&mut state, ZoneType::Commercial, 0);
    game_state::add_zone(&mut state, ZoneType::LightIndustry, 0);
    state.unlocked_techs.push(Tech::IndustrialProcessing);
    game_state::add_processing_plant(&mut state, 0);
    game_state::add_processing_plant(&mut state, 1);
    let details: Vec<String> = state.buildings.iter().map(|b| get_building_display_info(b).3).collect();
    assert_eq!(
        details,
        vec![
            "Output: 2.5/s FerrocreteOre",
            "Output: 5.0/s Nutrient Paste",
            "Generation: 50 MW",
            "Research: 0.5/s",
            "Capacity: +500",
            "Produces: ManufacturedGoods (1/10s)",
            "Income: 50",
            "",
            "Output: RefinedXylos (0.5/s)",
            "Unlocks: RawQuantium",
        ]
    );
    assert_eq!(get_building_display_info(&state.buildings[6]).0, "Commercial Small Market Stalls");
}

#[test]
fn colony_status_reports_the_first_blocker() {
    let mut state = GameState::default();
    assert_eq!(population_status(&state, true), PopulationStatus::NoHousing);
    assert!(!diagnostic_ok(&state, DiagnosticType::Housing));
    assert!(diagnostic_ok(&state, DiagnosticType::NutrientPaste));
    assert!(diagnostic_ok(&state, DiagnosticType::Healthcare));
    game_state::add_habitation_structure(&mut state, 0);
    assert_eq!(population_status(&state, true), PopulationStatus::Growing);
    assert_eq!(population_status(&state, false), PopulationStatus::Unhappy);
    assert!(diagnostic_ok(&state, DiagnosticType::Housing));
    state.simulated_has_sufficient_nutrient_paste = false;
    assert_eq!(population_status(&state, true), PopulationStatus::NoFood);
}

#[test]
fn population_starts_at_five() {
    assert_eq!(PopulationResource::default().count, 5);
}

#[test]
fn assigning_then_unassigning_restores_the_buildings() {
    let mut state = GameState::default();
    game_state::add_research_institute(&mut state);
    state.total_inhabitants = 20;
    let before_active = state.buildings[0].is_active;
    game_state::assign_workforce_to_building_by_id(&mut state, "struct_0", 7);
    assert_eq!(state.assigned_specialists_total, 7);
    let taken = game_state::unassign_workforce_from_building_by_id(&mut state, "struct_0", 7);
    assert_eq!(taken, 7);
    assert_eq!(state.buildings[0].assigned_workforce, 0);
    assert_eq!(state.buildings[0].is_active, before_active);
    assert_eq!(state.assigned_specialists_total, 0);
}

#[test]
fn toggling_twice_restores_activity_and_sends_workers_home() {
    let mut state = GameState::default();
    game_state::add_habitation_structure(&mut state, 0);
    state.total_inhabitants = 5;
    game_state::assign_workforce_to_building_by_id(&mut state, "struct_0", 1);
    assert!(state.buildings[0].is_active);
    game_state::toggle_building_active_state_by_id(&mut state, "struct_0");
    game_state::toggle_building_active_state_by_id(&mut state, "struct_0");
    assert!(state.buildings[0].is_active);
    assert_eq!(state.buildings[0].assigned_workforce, 0);
    assert_eq!(state.buildings[0].current_tier_index, 0);
    assert_eq!(front(&state), "Basic Dwellings struct_0 activated.");
}

#[test]
fn removing_what_was_just_built_restores_the_list() {
    let mut state = GameState::default();
    game_state::add_power_relay(&mut state);
    game_state::add_storage_silo(&mut state);
    let ids: Vec<String> = state.buildings.iter().map(|b| b.id.clone()).collect();
    game_state::add_bio_dome(&mut state);
    assert_eq!(state.buildings[2].id, "struct_2");
    game_state::remove_building_by_id(&mut state, "struct_2");
    let after: Vec<String> = state.buildings.iter().map(|b| b.id.clone()).collect();
    assert_eq!(after, ids);
    assert_eq!(front(&state), "Building struct_2 removed.");
}

#[test]
fn building_details_panel() {
    let mut state = GameState::default();
    game_state::add_habitation_structure(&mut state, 0);
    game_state::add_service_building(&mut state, ServiceType::Security, 0);
    game_state::add_power_relay(&mut state);

    let p = building_panel(&state, 0);
    assert_eq!(p.name, "Basic Dwellings");
    assert_eq!((p.workers, p.capacity, p.upkeep, p.power, p.civic), (0, 1, 5, 2, 0));
    assert_eq!(p.details, "Inhabitants: 0/10");
    assert_eq!(
        p.upgrade,
        Some(UpgradeOffer { next_name: "Community Blocks".to_string(), cost: 250, missing_tech: None, enabled: true })
    );
    assert!(!p.max_tier_reached);
    assert_eq!(p.workforce, Some(WorkforceControls { is_active: true, can_assign: true, can_unassign: false }));

    let p = building_panel(&state, 1);
    assert_eq!(p.name, "Security Security Post");
    assert_eq!(p.civic, 5);
    let offer = p.upgrade.unwrap();
    assert_eq!(offer.next_name, "Precinct");
    assert_eq!(offer.missing_tech, Some(Tech::BasicConstructionProtocols));
    assert!(!offer.enabled);
    assert_eq!(p.workforce, Some(WorkforceControls { is_active: false, can_assign: true, can_unassign: false }));

    let p = building_panel(&state, 2);
    assert_eq!(p.details, "Generation: 50 MW");
    assert_eq!(p.upgrade, None);
    assert!(!p.max_tier_reached);
    assert_eq!(p.workforce, None);

    state.assigned_specialists_total = state.total_inhabitants;
    let p = building_panel(&state, 0);
    assert_eq!(p.workforce, Some(WorkforceControls { is_active: true, can_assign: false, can_unassign: false }));
}

#[test]
fn extractor_panel_shows_its_last_tier() {
    let mut state = GameState::default();
    game_state::add_extractor(&mut state);
    let p = building_panel(&state, 0);
    assert_eq!(p.upgrade, None);
    assert!(p.max_tier_reached);
}

#[test]
fn spire_panel_states() {
    let mut state = GameState::default();
    assert_eq!(spire_panel(&state), SpirePanel::NotConstructed { affordable: true });
    state.credits = 999;
    assert_eq!(spire_panel(&state), SpirePanel::NotConstructed { affordable: false });
    state.credits = 10000;
    game_state::construct_administrative_spire(&mut state);
    match spire_panel(&state) {
        SpirePanel::Constructed { tier_name, phase, next } => {
            assert_eq!(tier_name, "Spire Core");
            assert_eq!(phase, DevelopmentPhase::DP1);
            let next = next.unwrap();
            assert!(next.affordable);
            assert_eq!(next.cost, state.administrative_spire.as_ref().unwrap().available_tiers[1].upgrade_credits_cost);
        }
        other => panic!("unexpected panel {:?}", other),
    }
}

#[test]
fn legacy_panel_states() {
    let mut state = GameState::default();
    assert_eq!(legacy_panel(&state), LegacyPanel::Locked);
    state.current_development_phase = DevelopmentPhase::DP3;
    assert_eq!(
        legacy_panel(&state),
        LegacyPanel::Available { first: NextTier { name: "Ancient Monolith".to_string(), cost: 2000, affordable: true } }
    );
    assert_eq!(game_state::construct_legacy_structure(&mut state), 5);
    assert_eq!(
        legacy_panel(&state),
        LegacyPanel::Constructed {
            tier_name: "Ancient Monolith".to_string(),
            happiness_bonus: 5,
            income_bonus: 100,
            next: Some(NextTier { name: "Restored Monument".to_string(), cost: 5000, affordable: true }),
        }
    );
}

fn habitation_with_housing(id: &str, housing: u32, slots: u32) -> Building {
    let mut tiers = game_state::get_new_habitation_tiers();
    tiers[0].housing_capacity = housing;
    tiers[0].specialist_slots = slots;
    Building {
        id: id.to_string(),
        variant: BuildingVariant::Habitation { current_inhabitants: 0, available_tiers: tiers },
        current_tier_index: 0,
        is_active: true,
        assigned_workforce: 0,
    }
}

#[test]
fn guards_follow_the_totals_each_order_recomputes() {
    let mut state = GameState::default();
    let mut a = habitation_with_housing("a", u32::MAX - 10, 0);
    if let BuildingVariant::Habitation { available_tiers, .. } = &mut a.variant {
        available_tiers[1].housing_capacity = u32::MAX - 2;
    }
    state.buildings.push(a);
    state.buildings.push(habitation_with_housing("b", 5, 0));
    state.next_structure_serial = 2;
    // Another dwelling would take housing past u32::MAX.
    assert!(!room_to_build(&state, StructureKind::Habitation, 0));
    // Without the credits for it, nothing is built and nothing is recounted.
    state.credits = 0;
    assert!(room_to_build(&state, StructureKind::Habitation, 0));
    state.credits = 10000;
    // Services recount the civic index and job slots only.
    assert!(room_to_build(&state, StructureKind::Service(ServiceType::Wellness), 0));
    // Upgrading `a` would raise its housing past what the total can hold.
    assert!(!upgrade_fits_exec(&state, "a"));
    // Switching the habitation recounts job slots, which stay small.
    assert!(toggle_fits_exec(&state, "a"));
    assert!(removal_fits_exec(&state, "a"));
    game_state::toggle_building_active_state_by_id(&mut state, "a");
    assert!(!state.buildings[0].is_active);
}

#[test]
fn an_unused_huge_tier_does_not_block_orders() {
    let mut state = GameState::default();
    let mut b = habitation_with_housing("a", 10, 1);
    if let BuildingVariant::Habitation { available_tiers, .. } = &mut b.variant {
        available_tiers[2].housing_capacity = u32::MAX;
    }
    state.buildings.push(b);
    state.next_structure_serial = 1;
    assert!(toggle_fits_exec(&state, "a"));
    game_state::toggle_building_active_state_by_id(&mut state, "a");
    assert!(!state.buildings[0].is_active);
    assert!(removal_fits_exec(&state, "a"));
    game_state::remove_building_by_id(&mut state, "a");
    assert!(state.buildings.is_empty());
}

#[test]
fn toggling_an_unstaffed_service_twice_restores_the_colony() {
    let mut state = GameState::default();
    game_state::add_service_building(&mut state, ServiceType::Wellness, 0);
    game_state::toggle_building_active_state_by_id(&mut state, "struct_0");
    let (civic, slots, assigned, credits) =
        (state.civic_index, state.total_specialist_slots, state.assigned_specialists_total, state.credits);
    assert_eq!((civic, slots), (5, 2));
    game_state::toggle_building_active_state_by_id(&mut state, "struct_0");
    assert_eq!((state.civic_index, state.total_specialist_slots), (0, 0));
    game_state::toggle_building_active_state_by_id(&mut state, "struct_0");
    assert_eq!(
        (state.civic_index, state.total_specialist_slots, state.assigned_specialists_total, state.credits),
        (civic, slots, assigned, credits)
    );
    assert!(state.buildings[0].is_active);
}
