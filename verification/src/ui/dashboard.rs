use vstd::prelude::*;
use crate::components::building::{Building, BuildingVariant};
use crate::game_state::management::{sat_sub, upgrade_verdict, UpgradeOutcome};
use crate::game_state::tiers::get_legacy_structure_tiers;
use crate::game_state::text::{
    concat3, decimal, decimal_string, resource_label, resource_name, service_type_label, service_type_name,
    tenths_string, tenths_text, zone_type_label, zone_type_name,
};
use crate::game_state::{tech_unlocked, DevelopmentPhase, GameState, Tech, ZoneType};

verus! {

/// The name under which the structures panel lists a building.
pub open spec fn display_name(b: Building) -> Seq<char> {
    let k = b.current_tier_index as int;
    match b.variant {
        BuildingVariant::Service { service_type, .. } => service_type_label(service_type) + " "@
            + b.variant.tier(k).name,
        BuildingVariant::Zone { zone_type, .. } => zone_type_label(zone_type) + " "@ + b.variant.tier(k).name,
        BuildingVariant::AdministrativeSpire { .. } => "Admin Spire"@,
        BuildingVariant::LegacyStructure { .. } => "Legacy Structure"@,
        _ => b.variant.tier(k).name,
    }
}

/// The workers a building can take, as the structures panel shows them: a
/// habitation's specialist slots, the tier's requirement for the other
/// kinds, and none for landmarks.
pub open spec fn display_capacity(b: Building) -> u32 {
    let k = b.current_tier_index as int;
    match b.variant {
        BuildingVariant::Habitation { .. } => b.variant.tier(k).slots,
        BuildingVariant::AdministrativeSpire { .. } => 0,
        BuildingVariant::LegacyStructure { .. } => 0,
        _ => b.variant.tier(k).workforce,
    }
}

/// The line of kind-specific detail the structures panel shows under a
/// building standing at a valid tier. Rates given in thousandths per second
/// are written with one decimal place.
pub open spec fn display_details(b: Building) -> Seq<char> {
    let k = b.current_tier_index as int;
    match b.variant {
        BuildingVariant::Habitation { current_inhabitants, available_tiers } => "Inhabitants: "@
            + decimal(current_inhabitants as nat) + "/"@ + decimal(available_tiers@[k].housing_capacity as nat),
        BuildingVariant::Service { available_tiers, .. } => "Coverage: "@ + decimal(
            available_tiers@[k].service_capacity as nat,
        ) + " units, Radius: "@ + decimal(available_tiers@[k].service_radius as nat),
        BuildingVariant::Zone { zone_type, available_tiers } => if zone_type == ZoneType::Commercial {
            "Income: "@ + decimal(available_tiers@[k].income_generation as nat)
        } else {
            Seq::empty()
        },
        BuildingVariant::Extractor { available_tiers } => "Output: "@ + tenths_text(
            available_tiers@[k].extraction_rate_milli_per_sec as nat,
        ) + "/s "@ + resource_label(available_tiers@[k].resource_type),
        BuildingVariant::BioDome { available_tiers } => "Output: "@ + tenths_text(
            available_tiers@[k].nutrient_paste_output_milli_per_sec as nat,
        ) + "/s Nutrient Paste"@,
        BuildingVariant::PowerRelay { available_tiers } => "Generation: "@ + decimal(
            available_tiers@[k].power_generation as nat,
        ) + " MW"@,
        BuildingVariant::ResearchInstitute { available_tiers } => "Research: "@ + tenths_text(
            available_tiers@[k].research_points_milli_per_sec as nat,
        ) + "/s"@,
        BuildingVariant::StorageSilo { available_tiers } => "Capacity: +"@ + decimal(
            available_tiers@[k].storage_capacity_increase as nat,
        ),
        BuildingVariant::Fabricator { available_tiers } => {
            let t = available_tiers@[k];
            "Produces: "@ + resource_label(t.output_product) + " ("@ + decimal(t.output_quantity as nat) + "/"@
                + decimal(t.production_time_secs as nat) + "s)"@
        },
        BuildingVariant::ProcessingPlant { available_tiers } => {
            let t = available_tiers@[k];
            match (t.output_resource, t.unlocks_resource) {
                (Some(out), _) => "Output: "@ + resource_label(out.0) + " ("@ + tenths_text(
                    t.processing_rate_milli_per_sec.unwrap_or(0) as nat,
                ) + "/s)"@,
                (None, Some(u)) => "Unlocks: "@ + resource_label(u),
                (None, None) => Seq::empty(),
            }
        },
        BuildingVariant::AdministrativeSpire { .. } => Seq::empty(),
        BuildingVariant::LegacyStructure { .. } => Seq::empty(),
    }
}

fn details_of(building: &Building) -> (r: String)
    requires
        building.variant.has_tier(building.current_tier_index as int),
    ensures
        r@ == display_details(*building),
{
    let k = building.current_tier_index;
    match &building.variant {
        BuildingVariant::Habitation { current_inhabitants, available_tiers } => {
            let mut s = String::from_str("Inhabitants: ");
            s.append(decimal_string(*current_inhabitants).as_str());
            s.append("/");
            s.append(decimal_string(available_tiers[k].housing_capacity).as_str());
            s
        },
        BuildingVariant::Service { available_tiers, .. } => {
            let mut s = String::from_str("Coverage: ");
            s.append(decimal_string(available_tiers[k].service_capacity).as_str());
            s.append(" units, Radius: ");
            s.append(decimal_string(available_tiers[k].service_radius).as_str());
            s
        },
        BuildingVariant::Zone { zone_type, available_tiers } => {
            if *zone_type == ZoneType::Commercial {
                let mut s = String::from_str("Income: ");
                s.append(decimal_string(available_tiers[k].income_generation).as_str());
                s
            } else {
                String::new()
            }
        },
        BuildingVariant::Extractor { available_tiers } => {
            let mut s = String::from_str("Output: ");
            s.append(tenths_string(available_tiers[k].extraction_rate_milli_per_sec).as_str());
            s.append("/s ");
            s.append(resource_name(available_tiers[k].resource_type));
            s
        },
        BuildingVariant::BioDome { available_tiers } => {
            let mut s = String::from_str("Output: ");
            s.append(tenths_string(available_tiers[k].nutrient_paste_output_milli_per_sec).as_str());
            s.append("/s Nutrient Paste");
            s
        },
        BuildingVariant::PowerRelay { available_tiers } => {
            let mut s = String::from_str("Generation: ");
            s.append(decimal_string(available_tiers[k].power_generation).as_str());
            s.append(" MW");
            s
        },
        BuildingVariant::ResearchInstitute { available_tiers } => {
            let mut s = String::from_str("Research: ");
            s.append(tenths_string(available_tiers[k].research_points_milli_per_sec).as_str());
            s.append("/s");
            s
        },
        BuildingVariant::StorageSilo { available_tiers } => {
            let mut s = String::from_str("Capacity: +");
            s.append(decimal_string(available_tiers[k].storage_capacity_increase).as_str());
            s
        },
        BuildingVariant::Fabricator { available_tiers } => {
            let t = &available_tiers[k];
            let mut s = String::from_str("Produces: ");
            s.append(resource_name(t.output_product));
            s.append(" (");
            s.append(decimal_string(t.output_quantity).as_str());
            s.append("/");
            s.append(decimal_string(t.production_time_secs).as_str());
            s.append("s)");
            s
        },
        BuildingVariant::ProcessingPlant { available_tiers } => {
            let t = &available_tiers[k];
            match (t.output_resource, t.unlocks_resource) {
                (Some(out), _) => {
                    let rate = match t.processing_rate_milli_per_sec {
                        Some(r) => r,
                        None => 0,
                    };
                    let mut s = String::from_str("Output: ");
                    s.append(resource_name(out.0));
                    s.append(" (");
                    s.append(tenths_string(rate).as_str());
                    s.append("/s)");
                    s
                },
                (None, Some(u)) => {
                    let mut s = String::from_str("Unlocks: ");
                    s.append(resource_name(u));
                    s
                },
                (None, None) => String::new(),
            }
        },
        BuildingVariant::AdministrativeSpire { .. } => String::new(),
        BuildingVariant::LegacyStructure { .. } => String::new(),
    }
}

/// Name, assigned workers, worker capacity and kind-specific detail of a
/// building standing at a valid tier.
pub fn get_building_display_info(building: &Building) -> (r: (String, u32, u32, String))
    requires
        building.variant.has_tier(building.current_tier_index as int),
    ensures
        r.0@ == display_name(*building),
        r.1 == building.assigned_workforce,
        r.2 == display_capacity(*building),
        r.3@ == display_details(*building),
{
    let k = building.current_tier_index;
    let name = match building.variant.tier_name(k) {
        Some(n) => n,
        None => String::new(),
    };
    let (_, workforce, _) = match building.variant.tier_basics(k) {
        Some(t) => t,
        None => (0, 0, None),
    };
    let (_, _, habitation_slots, _) = building.variant.totals_at(k);
    let details = details_of(building);
    let (label, capacity) = match &building.variant {
        BuildingVariant::Service { service_type, .. } => (
            concat3(service_type_name(*service_type), " ", name.as_str()),
            workforce,
        ),
        BuildingVariant::Zone { zone_type, .. } => (concat3(zone_type_name(*zone_type), " ", name.as_str()), workforce),
        BuildingVariant::Habitation { .. } => (name, habitation_slots),
        BuildingVariant::AdministrativeSpire { .. } => (String::from_str("Admin Spire"), 0),
        BuildingVariant::LegacyStructure { .. } => (String::from_str("Legacy Structure"), 0),
        _ => (name, workforce),
    };
    (label, building.assigned_workforce, capacity, details)
}

/// The next tier an upgradable building can be upgraded to: its name, cost
/// and required tech.
pub fn upgrade_preview(building: &Building) -> (r: Option<(String, u32, Option<Tech>)>)
    ensures
        ({
            let k = building.current_tier_index as int;
            if building.variant.is_upgradable() && k + 1 < building.variant.tier_count() {
                r matches Some(p) && p.0@ == building.variant.tier(k + 1).name
                    && p.1 == building.variant.tier(k + 1).cost && p.2 == building.variant.tier(k + 1).tech
            } else {
                r is None
            }
        }),
{
    if !building.variant.is_upgradable_kind() {
        return None;
    }
    let k = building.current_tier_index;
    if k >= building.variant.tier_count_exec() || k + 1 >= building.variant.tier_count_exec() {
        return None;
    }
    match (building.variant.tier_name(k + 1), building.variant.tier_basics(k + 1)) {
        (Some(name), Some((cost, _, tech))) => Some((name, cost, tech)),
        _ => None,
    }
}

/// Whether an upgrade of the building at `building_index` would go through
/// now: the panel shows its button enabled exactly then.
pub fn can_upgrade_now(game_state: &GameState, building_index: usize) -> (r: bool)
    requires
        building_index < game_state.buildings@.len(),
    ensures
        ({
            let b = game_state.buildings@[building_index as int];
            let k = b.current_tier_index as int;
            r == (b.variant.is_upgradable() && k + 1 < b.variant.tier_count() && (b.variant.tier(k + 1).tech
                is None || game_state.unlocked_techs@.contains(b.variant.tier(k + 1).tech->0))
                && game_state.credits >= b.variant.tier(k + 1).cost)
        }),
{
    match upgrade_preview(&game_state.buildings[building_index]) {
        None => false,
        Some((_, cost, tech)) => {
            let tech_met = match tech {
                Some(t) => tech_unlocked(&game_state.unlocked_techs, t),
                None => true,
            };
            tech_met && game_state.credits >= cost as u64
        },
    }
}

} // verus!

verus! {

/// The upgrade a building's details panel offers: the next tier's name and
/// cost, the tech it still lacks, and whether the button is enabled.
#[derive(Debug, Clone, PartialEq)]
pub struct UpgradeOffer {
    pub next_name: String,
    pub cost: u32,
    pub missing_tech: Option<Tech>,
    pub enabled: bool,
}

/// The workforce controls of a building's details panel: whether the
/// building is active (the toggle reads "Deactivate" then), and whether one
/// more worker can be assigned or one taken off.
#[derive(Debug, Clone, Copy, PartialEq, Eq)]
pub struct WorkforceControls {
    pub is_active: bool,
    pub can_assign: bool,
    pub can_unassign: bool,
}

/// What the details panel of a selected building shows.
#[derive(Debug, Clone, PartialEq)]
pub struct BuildingPanel {
    pub name: String,
    pub workers: u32,
    pub capacity: u32,
    pub upkeep: u32,
    pub power: u32,
    pub civic: u32,
    pub details: String,
    pub upgrade: Option<UpgradeOffer>,
    pub max_tier_reached: bool,
    pub workforce: Option<WorkforceControls>,
}

/// The tech that tier `k` needs and the colony has not unlocked, if any.
pub open spec fn missing_tech(gs: GameState, tech: Option<Tech>) -> Option<Tech> {
    match tech {
        Some(t) => if gs.unlocked_techs@.contains(t) { None } else { Some(t) },
        None => None,
    }
}

/// The details panel of building `index`. An upgradable building below its
/// last tier offers the next one, enabled when its tech is unlocked and the
/// colony can pay; any other building that takes workers shows that it is
/// at its last tier. Buildings that take workers have workforce controls:
/// one more can be assigned below capacity while some inhabitant is idle,
/// and one taken off while any works there.
pub fn building_panel(game_state: &GameState, index: usize) -> (r: BuildingPanel)
    requires
        index < game_state.buildings@.len(),
        game_state.buildings@[index as int].variant.has_tier(
            game_state.buildings@[index as int].current_tier_index as int,
        ),
    ensures
        ({
            let b = game_state.buildings@[index as int];
            let k = b.current_tier_index as int;
            let cap = display_capacity(b);
            &&& r.name@ == display_name(b)
            &&& r.workers == b.assigned_workforce
            &&& r.capacity == cap
            &&& (r.upkeep, r.power) == b.variant.running_costs(k)
            &&& r.civic == b.variant.civic_at(k)
            &&& r.details@ == display_details(b)
            &&& if b.variant.is_upgradable() && k + 1 < b.variant.tier_count() {
                let next = b.variant.tier(k + 1);
                &&& r.upgrade matches Some(o) && o.next_name@ == next.name && o.cost == next.cost
                    && o.missing_tech == missing_tech(*game_state, next.tech)
                    && o.enabled == (o.missing_tech is None && game_state.credits >= next.cost)
                &&& !r.max_tier_reached
            } else {
                &&& r.upgrade is None
                &&& r.max_tier_reached == (cap > 0)
            }
            &&& if cap > 0 {
                r.workforce == Some(
                    WorkforceControls {
                        is_active: b.is_active,
                        can_assign: b.assigned_workforce < cap && sat_sub(
                            game_state.total_inhabitants,
                            game_state.assigned_specialists_total,
                        ) > 0,
                        can_unassign: b.assigned_workforce > 0,
                    },
                )
            } else {
                r.workforce is None
            }
        }),
{
    let b = &game_state.buildings[index];
    let k = b.current_tier_index;
    let (name, workers, capacity, details) = get_building_display_info(b);
    let (upkeep, power) = match b.variant.tier_running_costs(k) {
        Some(c) => c,
        None => (0, 0),
    };
    let (civic, _, _, _) = b.variant.totals_at(k);
    let upgrade = match upgrade_preview(b) {
        Some((next_name, cost, tech)) => {
            let missing = match tech {
                Some(t) => if tech_unlocked(&game_state.unlocked_techs, t) {
                    None
                } else {
                    Some(t)
                },
                None => None,
            };
            let enabled = missing.is_none() && game_state.credits >= cost as u64;
            Some(UpgradeOffer { next_name, cost, missing_tech: missing, enabled })
        },
        None => None,
    };
    let max_tier_reached = upgrade.is_none() && capacity > 0;
    let workforce = if capacity > 0 {
        let idle = game_state.total_inhabitants.saturating_sub(game_state.assigned_specialists_total);
        Some(
            WorkforceControls {
                is_active: b.is_active,
                can_assign: workers < capacity && idle > 0,
                can_unassign: workers > 0,
            },
        )
    } else {
        None
    };
    BuildingPanel {
        name,
        workers,
        capacity,
        upkeep,
        power,
        civic,
        details,
        upgrade,
        max_tier_reached,
        workforce,
    }
}

/// A landmark's next tier: its name, its cost, and whether the colony can
/// pay for it.
#[derive(Debug, Clone, PartialEq)]
pub struct NextTier {
    pub name: String,
    pub cost: u32,
    pub affordable: bool,
}

/// What the Administrative Spire panel shows.
#[derive(Debug, Clone, PartialEq)]
pub enum SpirePanel {
    /// Not built yet; the construct button is enabled when the colony has
    /// the thousand credits it costs.
    NotConstructed { affordable: bool },
    /// Built: its tier, the colony's phase, and the next tier, if any.
    Constructed { tier_name: String, phase: DevelopmentPhase, next: Option<NextTier> },
}

/// The Administrative Spire panel. The next tier is priced at its own
/// upgrade cost. Note that `upgrade_administrative_spire` charges the
/// current tier's upgrade cost, so the price shown and the price paid
/// differ (2500 shown and 1500 paid from Spire Core).
pub fn spire_panel(game_state: &GameState) -> (r: SpirePanel)
    requires
        game_state.administrative_spire matches Some(s) ==> s.current_tier_index < s.available_tiers@.len(),
    ensures
        match game_state.administrative_spire {
            None => r == SpirePanel::NotConstructed { affordable: game_state.credits >= 1000 },
            Some(s) => {
                let k = s.current_tier_index as int;
                r matches SpirePanel::Constructed { tier_name, phase, next }
                    && tier_name@ == s.available_tiers@[k].name@
                    && phase == game_state.current_development_phase
                    && if k + 1 < s.available_tiers@.len() {
                        let t = s.available_tiers@[k + 1];
                        next matches Some(n) && n.name@ == t.name@ && n.cost == t.upgrade_credits_cost
                            && n.affordable == (game_state.credits >= t.upgrade_credits_cost)
                    } else {
                        next is None
                    }
            },
        },
{
    match &game_state.administrative_spire {
        None => SpirePanel::NotConstructed { affordable: game_state.credits >= 1000 },
        Some(s) => {
            let k = s.current_tier_index;
            let n = s.available_tiers.len();
            let next = if k + 1 < n {
                let t = &s.available_tiers[k + 1];
                Some(
                    NextTier {
                        name: t.name.clone(),
                        cost: t.upgrade_credits_cost,
                        affordable: game_state.credits >= t.upgrade_credits_cost as u64,
                    },
                )
            } else {
                None
            };
            SpirePanel::Constructed {
                tier_name: s.available_tiers[k].name.clone(),
                phase: game_state.current_development_phase,
                next,
            }
        },
    }
}

/// What the Legacy Structure panel shows.
#[derive(Debug, Clone, PartialEq)]
pub enum LegacyPanel {
    /// Before Development Phase 3.
    Locked,
    /// Not built yet: the first tier, its cost, and whether it is affordable.
    Available { first: NextTier },
    /// Built: its tier's name and bonuses, and the next tier, if any.
    Constructed { tier_name: String, happiness_bonus: u32, income_bonus: u64, next: Option<NextTier> },
}

/// The Legacy Structure panel. Tiers are priced at their construction cost.
pub fn legacy_panel(game_state: &GameState) -> (r: LegacyPanel)
    requires
        game_state.legacy_structure matches Some(s) ==> s.current_tier_index < s.available_tiers@.len(),
    ensures
        game_state.current_development_phase != DevelopmentPhase::DP3 ==> r == LegacyPanel::Locked,
        game_state.current_development_phase == DevelopmentPhase::DP3 ==> match game_state.legacy_structure {
            None => r matches LegacyPanel::Available { first } && first.name@ == "Ancient Monolith"@
                && first.cost == 2000 && first.affordable == (game_state.credits >= 2000),
            Some(s) => {
                let k = s.current_tier_index as int;
                let cur = s.available_tiers@[k];
                r matches LegacyPanel::Constructed { tier_name, happiness_bonus, income_bonus, next }
                    && tier_name@ == cur.name@ && happiness_bonus == cur.happiness_bonus
                    && income_bonus == cur.income_bonus
                    && if k + 1 < s.available_tiers@.len() {
                        let t = s.available_tiers@[k + 1];
                        next matches Some(n) && n.name@ == t.name@ && n.cost == t.construction_credits_cost
                            && n.affordable == (game_state.credits >= t.construction_credits_cost)
                    } else {
                        next is None
                    }
            },
        },
{
    if game_state.current_development_phase != DevelopmentPhase::DP3 {
        return LegacyPanel::Locked;
    }
    match &game_state.legacy_structure {
        None => {
            let tiers = get_legacy_structure_tiers();
            let t = &tiers[0];
            LegacyPanel::Available {
                first: NextTier {
                    name: t.name.clone(),
                    cost: t.construction_credits_cost,
                    affordable: game_state.credits >= t.construction_credits_cost as u64,
                },
            }
        },
        Some(s) => {
            let k = s.current_tier_index;
            let cur = &s.available_tiers[k];
            let n = s.available_tiers.len();
            let next = if k + 1 < n {
                let t = &s.available_tiers[k + 1];
                Some(
                    NextTier {
                        name: t.name.clone(),
                        cost: t.construction_credits_cost,
                        affordable: game_state.credits >= t.construction_credits_cost as u64,
                    },
                )
            } else {
                None
            };
            LegacyPanel::Constructed {
                tier_name: cur.name.clone(),
                happiness_bonus: cur.happiness_bonus,
                income_bonus: cur.income_bonus,
                next,
            }
        },
    }
}

} // verus!
