use vstd::prelude::*;
use crate::game_state::{DevelopmentPhase, ResourceType, ServiceType, Tech, ZoneType};

verus! {

/// A placed structure of the colony.
///
/// Each building carries the full table of tiers of its kind, and the index
/// of the tier it stands at.
#[derive(Debug, Clone)]
pub struct Building {
    pub id: String,
    pub variant: BuildingVariant,
    pub current_tier_index: usize,
    pub is_active: bool,
    pub assigned_workforce: u32,
}

/// What kind of structure a building is, with its kind's tier table.
#[allow(inconsistent_fields)]
#[derive(Debug, Clone)]
pub enum BuildingVariant {
    Extractor { available_tiers: Vec<ExtractorTier> },
    BioDome { available_tiers: Vec<BioDomeTier> },
    PowerRelay { available_tiers: Vec<PowerRelayTier> },
    ResearchInstitute { available_tiers: Vec<ResearchInstituteTier> },
    StorageSilo { available_tiers: Vec<StorageSiloTier> },
    Habitation { current_inhabitants: u32, available_tiers: Vec<HabitationTier> },
    Service { service_type: ServiceType, available_tiers: Vec<ServiceTier> },
    Zone { zone_type: ZoneType, available_tiers: Vec<ZoneTier> },
    Fabricator { available_tiers: Vec<FabricatorTier> },
    ProcessingPlant { available_tiers: Vec<ProcessingPlantTier> },
    AdministrativeSpire { available_tiers: Vec<AdministrativeSpireTier> },
    LegacyStructure { available_tiers: Vec<LegacyStructureTier> },
}

/// Extractor tier. Rates are in thousandths of a unit per second.
#[derive(Debug, Clone)]
pub struct ExtractorTier {
    pub name: String,
    pub construction_credits_cost: u32,
    pub upkeep_cost: u32,
    pub power_requirement: u32,
    pub workforce_requirement: u32,
    pub required_tech: Option<Tech>,
    pub resource_type: ResourceType,
    pub extraction_rate_milli_per_sec: u32,
}

/// Bio-Dome tier. Output is in thousandths of a unit per second.
#[derive(Debug, Clone)]
pub struct BioDomeTier {
    pub name: String,
    pub construction_credits_cost: u32,
    pub upkeep_cost: u32,
    pub power_requirement: u32,
    pub workforce_requirement: u32,
    pub required_tech: Option<Tech>,
    pub nutrient_paste_output_milli_per_sec: u32,
}

/// Power Relay tier.
#[derive(Debug, Clone)]
pub struct PowerRelayTier {
    pub name: String,
    pub construction_credits_cost: u32,
    pub upkeep_cost: u32,
    pub power_requirement: u32,
    pub workforce_requirement: u32,
    pub required_tech: Option<Tech>,
    pub power_generation: u32,
}

/// Research Institute tier. Output is in thousandths of a point per second.
#[derive(Debug, Clone)]
pub struct ResearchInstituteTier {
    pub name: String,
    pub construction_credits_cost: u32,
    pub upkeep_cost: u32,
    pub power_requirement: u32,
    pub workforce_requirement: u32,
    pub required_tech: Option<Tech>,
    pub research_points_milli_per_sec: u32,
}

/// Storage Silo tier.
#[derive(Debug, Clone)]
pub struct StorageSiloTier {
    pub name: String,
    pub construction_credits_cost: u32,
    pub upkeep_cost: u32,
    pub power_requirement: u32,
    pub workforce_requirement: u32,
    pub required_tech: Option<Tech>,
    pub storage_capacity_increase: u32,
}

/// Habitation tier: homes, plus specialist slots.
#[derive(Debug, Clone)]
pub struct HabitationTier {
    pub name: String,
    pub construction_credits_cost: u32,
    pub upkeep_cost: u32,
    pub power_requirement: u32,
    pub workforce_requirement: u32,
    pub required_tech: Option<Tech>,
    pub housing_capacity: u32,
    pub specialist_slots: u32,
}

/// Service tier. The radius is in whole map units.
#[derive(Debug, Clone)]
pub struct ServiceTier {
    pub name: String,
    pub construction_credits_cost: u32,
    pub upkeep_cost: u32,
    pub power_requirement: u32,
    pub workforce_requirement: u32,
    pub required_tech: Option<Tech>,
    pub service_capacity: u32,
    pub service_radius: u32,
    pub civic_index_contribution: u32,
}

/// Zone tier; its workforce requirement is the number of jobs it offers.
#[derive(Debug, Clone)]
pub struct ZoneTier {
    pub name: String,
    pub construction_credits_cost: u32,
    pub upkeep_cost: u32,
    pub power_requirement: u32,
    pub workforce_requirement: u32,
    pub required_tech: Option<Tech>,
    pub civic_index_contribution: u32,
    pub income_generation: u32,
}

/// Fabricator tier: a recipe from input resources to one product.
#[derive(Debug, Clone)]
pub struct FabricatorTier {
    pub name: String,
    pub construction_credits_cost: u32,
    pub upkeep_cost: u32,
    pub power_requirement: u32,
    pub workforce_requirement: u32,
    pub required_tech: Option<Tech>,
    pub input_resources: Vec<(ResourceType, u32)>,
    pub output_product: ResourceType,
    pub output_quantity: u32,
    pub production_time_secs: u32,
}

/// Processing plant tier. The rate is in thousandths of a batch per second.
#[derive(Debug, Clone)]
pub struct ProcessingPlantTier {
    pub name: String,
    pub construction_credits_cost: u32,
    pub upkeep_cost: u32,
    pub power_requirement: u32,
    pub workforce_requirement: u32,
    pub required_tech: Option<Tech>,
    pub unlocks_resource: Option<ResourceType>,
    pub input_resource: Option<(ResourceType, u32)>,
    pub output_resource: Option<(ResourceType, u32)>,
    pub processing_rate_milli_per_sec: Option<u32>,
}

/// Administrative Spire tier.
#[derive(Debug, Clone)]
pub struct AdministrativeSpireTier {
    pub name: String,
    pub construction_credits_cost: u32,
    pub upgrade_credits_cost: u32,
    pub upkeep_cost: u32,
    pub power_requirement: u32,
    pub workforce_requirement: u32,
    pub required_tech: Option<Tech>,
    pub unlocks_phase: DevelopmentPhase,
    pub nutrient_paste_link_required: bool,
}

/// Legacy Structure tier. The happiness bonus is in whole points.
#[derive(Debug, Clone)]
pub struct LegacyStructureTier {
    pub name: String,
    pub construction_credits_cost: u32,
    pub upkeep_cost: u32,
    pub power_requirement: u32,
    pub workforce_requirement: u32,
    pub required_tech: Option<Tech>,
    pub happiness_bonus: u32,
    pub income_bonus: u64,
}

/// What the colony's bookkeeping reads of one tier, whatever the kind.
pub struct TierSummary {
    pub name: Seq<char>,
    pub cost: u32,
    pub workforce: u32,
    pub tech: Option<Tech>,
    /// Civic index contribution (services and zones).
    pub civic: u32,
    /// Housing capacity (habitation).
    pub housing: u32,
    /// Specialist slots (habitation).
    pub slots: u32,
}

/// The summary of a tier that adds nothing to the civic, housing or slot totals.
pub open spec fn summary(name: Seq<char>, cost: u32, workforce: u32, tech: Option<Tech>) -> TierSummary {
    TierSummary { name, cost, workforce, tech, civic: 0, housing: 0, slots: 0 }
}

impl BuildingVariant {
    /// Number of tiers of this kind.
    pub open spec fn tier_count(&self) -> nat {
        match self {
            BuildingVariant::Extractor { available_tiers } => available_tiers@.len(),
            BuildingVariant::BioDome { available_tiers } => available_tiers@.len(),
            BuildingVariant::PowerRelay { available_tiers } => available_tiers@.len(),
            BuildingVariant::ResearchInstitute { available_tiers } => available_tiers@.len(),
            BuildingVariant::StorageSilo { available_tiers } => available_tiers@.len(),
            BuildingVariant::Habitation { available_tiers, .. } => available_tiers@.len(),
            BuildingVariant::Service { available_tiers, .. } => available_tiers@.len(),
            BuildingVariant::Zone { available_tiers, .. } => available_tiers@.len(),
            BuildingVariant::Fabricator { available_tiers } => available_tiers@.len(),
            BuildingVariant::ProcessingPlant { available_tiers } => available_tiers@.len(),
            BuildingVariant::AdministrativeSpire { available_tiers } => available_tiers@.len(),
            BuildingVariant::LegacyStructure { available_tiers } => available_tiers@.len(),
        }
    }

    /// The summary of tier `i` (meaningful for `0 <= i < tier_count()`).
    pub open spec fn tier(&self, i: int) -> TierSummary {
        match self {
            BuildingVariant::Extractor { available_tiers } => {
                let t = available_tiers@[i];
                summary(t.name@, t.construction_credits_cost, t.workforce_requirement, t.required_tech)
            },
            BuildingVariant::BioDome { available_tiers } => {
                let t = available_tiers@[i];
                summary(t.name@, t.construction_credits_cost, t.workforce_requirement, t.required_tech)
            },
            BuildingVariant::PowerRelay { available_tiers } => {
                let t = available_tiers@[i];
                summary(t.name@, t.construction_credits_cost, t.workforce_requirement, t.required_tech)
            },
            BuildingVariant::ResearchInstitute { available_tiers } => {
                let t = available_tiers@[i];
                summary(t.name@, t.construction_credits_cost, t.workforce_requirement, t.required_tech)
            },
            BuildingVariant::StorageSilo { available_tiers } => {
                let t = available_tiers@[i];
                summary(t.name@, t.construction_credits_cost, t.workforce_requirement, t.required_tech)
            },
            BuildingVariant::Habitation { available_tiers, .. } => {
                let t = available_tiers@[i];
                TierSummary {
                    housing: t.housing_capacity,
                    slots: t.specialist_slots,
                    ..summary(t.name@, t.construction_credits_cost, t.workforce_requirement, t.required_tech)
                }
            },
            BuildingVariant::Service { available_tiers, .. } => {
                let t = available_tiers@[i];
                TierSummary {
                    civic: t.civic_index_contribution,
                    ..summary(t.name@, t.construction_credits_cost, t.workforce_requirement, t.required_tech)
                }
            },
            BuildingVariant::Zone { available_tiers, .. } => {
                let t = available_tiers@[i];
                TierSummary {
                    civic: t.civic_index_contribution,
                    ..summary(t.name@, t.construction_credits_cost, t.workforce_requirement, t.required_tech)
                }
            },
            BuildingVariant::Fabricator { available_tiers } => {
                let t = available_tiers@[i];
                summary(t.name@, t.construction_credits_cost, t.workforce_requirement, t.required_tech)
            },
            BuildingVariant::ProcessingPlant { available_tiers } => {
                let t = available_tiers@[i];
                summary(t.name@, t.construction_credits_cost, t.workforce_requirement, t.required_tech)
            },
            BuildingVariant::AdministrativeSpire { available_tiers } => {
                let t = available_tiers@[i];
                summary(t.name@, t.construction_credits_cost, t.workforce_requirement, t.required_tech)
            },
            BuildingVariant::LegacyStructure { available_tiers } => {
                let t = available_tiers@[i];
                summary(t.name@, t.construction_credits_cost, t.workforce_requirement, t.required_tech)
            },
        }
    }

    pub open spec fn has_tier(&self, i: int) -> bool {
        0 <= i < self.tier_count()
    }

    /// Workforce requirement of tier `i`, or 0 where there is no such tier.
    pub open spec fn workforce_at(&self, i: int) -> u32 {
        if self.has_tier(i) { self.tier(i).workforce } else { 0 }
    }

    /// Civic index contribution of tier `i` (0 where none).
    pub open spec fn civic_at(&self, i: int) -> u32 {
        if self.has_tier(i) { self.tier(i).civic } else { 0 }
    }

    /// Housing capacity of tier `i` (0 where none).
    pub open spec fn housing_at(&self, i: int) -> u32 {
        if self.has_tier(i) { self.tier(i).housing } else { 0 }
    }

    /// Specialist slots that tier `i` of a habitation offers (0 where none).
    pub open spec fn habitation_slots_at(&self, i: int) -> u32 {
        if self.has_tier(i) { self.tier(i).slots } else { 0 }
    }

    /// Jobs that tier `i` offers when the building is active: a habitation's
    /// specialist slots, the workforce requirement of the staffed kinds, and
    /// nothing for relays, silos and landmarks.
    pub open spec fn job_slots_at(&self, i: int) -> u32 {
        if !self.has_tier(i) {
            0
        } else {
            match self {
                BuildingVariant::Habitation { .. } => self.tier(i).slots,
                BuildingVariant::PowerRelay { .. } => 0,
                BuildingVariant::StorageSilo { .. } => 0,
                BuildingVariant::AdministrativeSpire { .. } => 0,
                BuildingVariant::LegacyStructure { .. } => 0,
                _ => self.tier(i).workforce,
            }
        }
    }

    pub open spec fn is_habitation(&self) -> bool {
        self is Habitation
    }

    /// Services and zones: the kinds that count towards the civic index.
    pub open spec fn is_civic(&self) -> bool {
        self is Service || self is Zone
    }

    /// Fabricators and processing plants.
    pub open spec fn is_production(&self) -> bool {
        self is Fabricator || self is ProcessingPlant
    }

    /// The kinds that can be upgraded to a further tier.
    pub open spec fn is_upgradable(&self) -> bool {
        self.is_habitation() || self.is_civic() || self.is_production()
    }

    /// The kinds whose active state affects the job slots.
    pub open spec fn is_staffed_kind(&self) -> bool {
        self.is_upgradable() || self is Extractor || self is BioDome || self is ResearchInstitute
    }
}

impl BuildingVariant {
    /// Number of tiers of this kind.
    pub fn tier_count_exec(&self) -> (r: usize)
        ensures
            r == self.tier_count(),
    {
        match self {
            BuildingVariant::Extractor { available_tiers } => available_tiers.len(),
            BuildingVariant::BioDome { available_tiers } => available_tiers.len(),
            BuildingVariant::PowerRelay { available_tiers } => available_tiers.len(),
            BuildingVariant::ResearchInstitute { available_tiers } => available_tiers.len(),
            BuildingVariant::StorageSilo { available_tiers } => available_tiers.len(),
            BuildingVariant::Habitation { available_tiers, .. } => available_tiers.len(),
            BuildingVariant::Service { available_tiers, .. } => available_tiers.len(),
            BuildingVariant::Zone { available_tiers, .. } => available_tiers.len(),
            BuildingVariant::Fabricator { available_tiers } => available_tiers.len(),
            BuildingVariant::ProcessingPlant { available_tiers } => available_tiers.len(),
            BuildingVariant::AdministrativeSpire { available_tiers } => available_tiers.len(),
            BuildingVariant::LegacyStructure { available_tiers } => available_tiers.len(),
        }
    }

    /// Cost, workforce requirement and required tech of tier `i`, if it exists.
    pub fn tier_basics(&self, i: usize) -> (r: Option<(u32, u32, Option<Tech>)>)
        ensures
            self.has_tier(i as int) ==> r == Some((
                self.tier(i as int).cost,
                self.tier(i as int).workforce,
                self.tier(i as int).tech,
            )),
            !self.has_tier(i as int) ==> r is None,
    {
        match self {
            BuildingVariant::Extractor { available_tiers } => if i < available_tiers.len() {
                let t = &available_tiers[i];
                Some((t.construction_credits_cost, t.workforce_requirement, t.required_tech))
            } else {
                None
            },
            BuildingVariant::BioDome { available_tiers } => if i < available_tiers.len() {
                let t = &available_tiers[i];
                Some((t.construction_credits_cost, t.workforce_requirement, t.required_tech))
            } else {
                None
            },
            BuildingVariant::PowerRelay { available_tiers } => if i < available_tiers.len() {
                let t = &available_tiers[i];
                Some((t.construction_credits_cost, t.workforce_requirement, t.required_tech))
            } else {
                None
            },
            BuildingVariant::ResearchInstitute { available_tiers } => if i < available_tiers.len() {
                let t = &available_tiers[i];
                Some((t.construction_credits_cost, t.workforce_requirement, t.required_tech))
            } else {
                None
            },
            BuildingVariant::StorageSilo { available_tiers } => if i < available_tiers.len() {
                let t = &available_tiers[i];
                Some((t.construction_credits_cost, t.workforce_requirement, t.required_tech))
            } else {
                None
            },
            BuildingVariant::Habitation { available_tiers, .. } => if i < available_tiers.len() {
                let t = &available_tiers[i];
                Some((t.construction_credits_cost, t.workforce_requirement, t.required_tech))
            } else {
                None
            },
            BuildingVariant::Service { available_tiers, .. } => if i < available_tiers.len() {
                let t = &available_tiers[i];
                Some((t.construction_credits_cost, t.workforce_requirement, t.required_tech))
            } else {
                None
            },
            BuildingVariant::Zone { available_tiers, .. } => if i < available_tiers.len() {
                let t = &available_tiers[i];
                Some((t.construction_credits_cost, t.workforce_requirement, t.required_tech))
            } else {
                None
            },
            BuildingVariant::Fabricator { available_tiers } => if i < available_tiers.len() {
                let t = &available_tiers[i];
                Some((t.construction_credits_cost, t.workforce_requirement, t.required_tech))
            } else {
                None
            },
            BuildingVariant::ProcessingPlant { available_tiers } => if i < available_tiers.len() {
                let t = &available_tiers[i];
                Some((t.construction_credits_cost, t.workforce_requirement, t.required_tech))
            } else {
                None
            },
            BuildingVariant::AdministrativeSpire { available_tiers } => if i < available_tiers.len() {
                let t = &available_tiers[i];
                Some((t.construction_credits_cost, t.workforce_requirement, t.required_tech))
            } else {
                None
            },
            BuildingVariant::LegacyStructure { available_tiers } => if i < available_tiers.len() {
                let t = &available_tiers[i];
                Some((t.construction_credits_cost, t.workforce_requirement, t.required_tech))
            } else {
                None
            },
        }
    }
}

} // verus!

verus! {

impl BuildingVariant {
    /// Name of tier `i`, if it exists.
    pub fn tier_name(&self, i: usize) -> (r: Option<String>)
        ensures
            self.has_tier(i as int) ==> (r matches Some(s) && s@ == self.tier(i as int).name),
            !self.has_tier(i as int) ==> r is None,
    {
        match self {
            BuildingVariant::Extractor { available_tiers } => if i < available_tiers.len() {
                Some(available_tiers[i].name.clone())
            } else {
                None
            },
            BuildingVariant::BioDome { available_tiers } => if i < available_tiers.len() {
                Some(available_tiers[i].name.clone())
            } else {
                None
            },
            BuildingVariant::PowerRelay { available_tiers } => if i < available_tiers.len() {
                Some(available_tiers[i].name.clone())
            } else {
                None
            },
            BuildingVariant::ResearchInstitute { available_tiers } => if i < available_tiers.len() {
                Some(available_tiers[i].name.clone())
            } else {
                None
            },
            BuildingVariant::StorageSilo { available_tiers } => if i < available_tiers.len() {
                Some(available_tiers[i].name.clone())
            } else {
                None
            },
            BuildingVariant::Habitation { available_tiers, .. } => if i < available_tiers.len() {
                Some(available_tiers[i].name.clone())
            } else {
                None
            },
            BuildingVariant::Service { available_tiers, .. } => if i < available_tiers.len() {
                Some(available_tiers[i].name.clone())
            } else {
                None
            },
            BuildingVariant::Zone { available_tiers, .. } => if i < available_tiers.len() {
                Some(available_tiers[i].name.clone())
            } else {
                None
            },
            BuildingVariant::Fabricator { available_tiers } => if i < available_tiers.len() {
                Some(available_tiers[i].name.clone())
            } else {
                None
            },
            BuildingVariant::ProcessingPlant { available_tiers } => if i < available_tiers.len() {
                Some(available_tiers[i].name.clone())
            } else {
                None
            },
            BuildingVariant::AdministrativeSpire { available_tiers } => if i < available_tiers.len() {
                Some(available_tiers[i].name.clone())
            } else {
                None
            },
            BuildingVariant::LegacyStructure { available_tiers } => if i < available_tiers.len() {
                Some(available_tiers[i].name.clone())
            } else {
                None
            },
        }
    }

    /// What tier `i` adds to the colony totals: civic index, housing,
    /// habitation specialist slots, and job slots when active.
    pub fn totals_at(&self, i: usize) -> (r: (u32, u32, u32, u32))
        ensures
            r == (
                self.civic_at(i as int),
                self.housing_at(i as int),
                self.habitation_slots_at(i as int),
                self.job_slots_at(i as int),
            ),
    {
        match self {
            BuildingVariant::Extractor { available_tiers } => if i < available_tiers.len() {
                let t = &available_tiers[i];
                (0, 0, 0, t.workforce_requirement)
            } else {
                (0, 0, 0, 0)
            },
            BuildingVariant::BioDome { available_tiers } => if i < available_tiers.len() {
                let t = &available_tiers[i];
                (0, 0, 0, t.workforce_requirement)
            } else {
                (0, 0, 0, 0)
            },
            BuildingVariant::PowerRelay { .. } => (0, 0, 0, 0),
            BuildingVariant::ResearchInstitute { available_tiers } => if i < available_tiers.len() {
                let t = &available_tiers[i];
                (0, 0, 0, t.workforce_requirement)
            } else {
                (0, 0, 0, 0)
            },
            BuildingVariant::StorageSilo { .. } => (0, 0, 0, 0),
            BuildingVariant::Habitation { available_tiers, .. } => if i < available_tiers.len() {
                let t = &available_tiers[i];
                (0, t.housing_capacity, t.specialist_slots, t.specialist_slots)
            } else {
                (0, 0, 0, 0)
            },
            BuildingVariant::Service { available_tiers, .. } => if i < available_tiers.len() {
                let t = &available_tiers[i];
                (t.civic_index_contribution, 0, 0, t.workforce_requirement)
            } else {
                (0, 0, 0, 0)
            },
            BuildingVariant::Zone { available_tiers, .. } => if i < available_tiers.len() {
                let t = &available_tiers[i];
                (t.civic_index_contribution, 0, 0, t.workforce_requirement)
            } else {
                (0, 0, 0, 0)
            },
            BuildingVariant::Fabricator { available_tiers } => if i < available_tiers.len() {
                let t = &available_tiers[i];
                (0, 0, 0, t.workforce_requirement)
            } else {
                (0, 0, 0, 0)
            },
            BuildingVariant::ProcessingPlant { available_tiers } => if i < available_tiers.len() {
                let t = &available_tiers[i];
                (0, 0, 0, t.workforce_requirement)
            } else {
                (0, 0, 0, 0)
            },
            BuildingVariant::AdministrativeSpire { .. } => (0, 0, 0, 0),
            BuildingVariant::LegacyStructure { .. } => (0, 0, 0, 0),
        }
    }
}

} // verus!

verus! {

impl BuildingVariant {
    pub fn is_habitation_kind(&self) -> (r: bool)
        ensures
            r == self.is_habitation(),
    {
        matches!(self, BuildingVariant::Habitation { .. })
    }

    pub fn is_civic_kind(&self) -> (r: bool)
        ensures
            r == self.is_civic(),
    {
        matches!(self, BuildingVariant::Service { .. } | BuildingVariant::Zone { .. })
    }

    pub fn is_production_kind(&self) -> (r: bool)
        ensures
            r == self.is_production(),
    {
        matches!(self, BuildingVariant::Fabricator { .. } | BuildingVariant::ProcessingPlant { .. })
    }

    pub fn is_upgradable_kind(&self) -> (r: bool)
        ensures
            r == self.is_upgradable(),
    {
        self.is_habitation_kind() || self.is_civic_kind() || self.is_production_kind()
    }

    pub fn is_staffed(&self) -> (r: bool)
        ensures
            r == self.is_staffed_kind(),
    {
        self.is_upgradable_kind() || matches!(
            self,
            BuildingVariant::Extractor { .. } | BuildingVariant::BioDome { .. }
                | BuildingVariant::ResearchInstitute { .. }
        )
    }
}

impl BuildingVariant {
    /// Upkeep cost and power requirement of tier `i` (meaningful for
    /// `0 <= i < tier_count()`).
    pub open spec fn running_costs(&self, i: int) -> (u32, u32) {
        match self {
            BuildingVariant::Extractor { available_tiers } => {
                let t = available_tiers@[i];
                (t.upkeep_cost, t.power_requirement)
            },
            BuildingVariant::BioDome { available_tiers } => {
                let t = available_tiers@[i];
                (t.upkeep_cost, t.power_requirement)
            },
            BuildingVariant::PowerRelay { available_tiers } => {
                let t = available_tiers@[i];
                (t.upkeep_cost, t.power_requirement)
            },
            BuildingVariant::ResearchInstitute { available_tiers } => {
                let t = available_tiers@[i];
                (t.upkeep_cost, t.power_requirement)
            },
            BuildingVariant::StorageSilo { available_tiers } => {
                let t = available_tiers@[i];
                (t.upkeep_cost, t.power_requirement)
            },
            BuildingVariant::Habitation { available_tiers, .. } => {
                let t = available_tiers@[i];
                (t.upkeep_cost, t.power_requirement)
            },
            BuildingVariant::Service { available_tiers, .. } => {
                let t = available_tiers@[i];
                (t.upkeep_cost, t.power_requirement)
            },
            BuildingVariant::Zone { available_tiers, .. } => {
                let t = available_tiers@[i];
                (t.upkeep_cost, t.power_requirement)
            },
            BuildingVariant::Fabricator { available_tiers } => {
                let t = available_tiers@[i];
                (t.upkeep_cost, t.power_requirement)
            },
            BuildingVariant::ProcessingPlant { available_tiers } => {
                let t = available_tiers@[i];
                (t.upkeep_cost, t.power_requirement)
            },
            BuildingVariant::AdministrativeSpire { available_tiers } => {
                let t = available_tiers@[i];
                (t.upkeep_cost, t.power_requirement)
            },
            BuildingVariant::LegacyStructure { available_tiers } => {
                let t = available_tiers@[i];
                (t.upkeep_cost, t.power_requirement)
            },
        }
    }

    /// Upkeep cost and power requirement of tier `i`, if it exists.
    pub fn tier_running_costs(&self, i: usize) -> (r: Option<(u32, u32)>)
        ensures
            self.has_tier(i as int) ==> r == Some(self.running_costs(i as int)),
            !self.has_tier(i as int) ==> r is None,
    {
        match self {
            BuildingVariant::Extractor { available_tiers } => if i < available_tiers.len() {
                Some((available_tiers[i].upkeep_cost, available_tiers[i].power_requirement))
            } else {
                None
            },
            BuildingVariant::BioDome { available_tiers } => if i < available_tiers.len() {
                Some((available_tiers[i].upkeep_cost, available_tiers[i].power_requirement))
            } else {
                None
            },
            BuildingVariant::PowerRelay { available_tiers } => if i < available_tiers.len() {
                Some((available_tiers[i].upkeep_cost, available_tiers[i].power_requirement))
            } else {
                None
            },
            BuildingVariant::ResearchInstitute { available_tiers } => if i < available_tiers.len() {
                Some((available_tiers[i].upkeep_cost, available_tiers[i].power_requirement))
            } else {
                None
            },
            BuildingVariant::StorageSilo { available_tiers } => if i < available_tiers.len() {
                Some((available_tiers[i].upkeep_cost, available_tiers[i].power_requirement))
            } else {
                None
            },
            BuildingVariant::Habitation { available_tiers, .. } => if i < available_tiers.len() {
                Some((available_tiers[i].upkeep_cost, available_tiers[i].power_requirement))
            } else {
                None
            },
            BuildingVariant::Service { available_tiers, .. } => if i < available_tiers.len() {
                Some((available_tiers[i].upkeep_cost, available_tiers[i].power_requirement))
            } else {
                None
            },
            BuildingVariant::Zone { available_tiers, .. } => if i < available_tiers.len() {
                Some((available_tiers[i].upkeep_cost, available_tiers[i].power_requirement))
            } else {
                None
            },
            BuildingVariant::Fabricator { available_tiers } => if i < available_tiers.len() {
                Some((available_tiers[i].upkeep_cost, available_tiers[i].power_requirement))
            } else {
                None
            },
            BuildingVariant::ProcessingPlant { available_tiers } => if i < available_tiers.len() {
                Some((available_tiers[i].upkeep_cost, available_tiers[i].power_requirement))
            } else {
                None
            },
            BuildingVariant::AdministrativeSpire { available_tiers } => if i < available_tiers.len() {
                Some((available_tiers[i].upkeep_cost, available_tiers[i].power_requirement))
            } else {
                None
            },
            BuildingVariant::LegacyStructure { available_tiers } => if i < available_tiers.len() {
                Some((available_tiers[i].upkeep_cost, available_tiers[i].power_requirement))
            } else {
                None
            },
        }
    }
}

} // verus!

verus! {

/// What tier `i` of each kind adds to the colony totals, read off the tier
/// table itself: services and zones add their civic contribution;
/// habitations add their housing and specialist slots, which are also
/// their jobs; extractors, Bio-Domes, research institutes, services, zones,
/// fabricators and processing plants offer as many jobs as they require
/// workers; relays, silos and landmarks add nothing.
pub proof fn law_tier_totals(v: BuildingVariant, i: int)
    requires
        v.has_tier(i),
    ensures
        match v {
            BuildingVariant::Habitation { available_tiers, .. } => {
                &&& v.housing_at(i) == available_tiers@[i].housing_capacity
                &&& v.habitation_slots_at(i) == available_tiers@[i].specialist_slots
                &&& v.job_slots_at(i) == available_tiers@[i].specialist_slots
                &&& v.civic_at(i) == 0
                &&& v.workforce_at(i) == available_tiers@[i].workforce_requirement
            },
            BuildingVariant::Service { available_tiers, .. } => {
                &&& v.civic_at(i) == available_tiers@[i].civic_index_contribution
                &&& v.job_slots_at(i) == available_tiers@[i].workforce_requirement
                &&& v.housing_at(i) == 0 && v.habitation_slots_at(i) == 0
            },
            BuildingVariant::Zone { available_tiers, .. } => {
                &&& v.civic_at(i) == available_tiers@[i].civic_index_contribution
                &&& v.job_slots_at(i) == available_tiers@[i].workforce_requirement
                &&& v.housing_at(i) == 0 && v.habitation_slots_at(i) == 0
            },
            BuildingVariant::Extractor { available_tiers } => v.job_slots_at(i)
                == available_tiers@[i].workforce_requirement && v.civic_at(i) == 0 && v.housing_at(i) == 0
                && v.habitation_slots_at(i) == 0,
            BuildingVariant::BioDome { available_tiers } => v.job_slots_at(i)
                == available_tiers@[i].workforce_requirement && v.civic_at(i) == 0 && v.housing_at(i) == 0
                && v.habitation_slots_at(i) == 0,
            BuildingVariant::ResearchInstitute { available_tiers } => v.job_slots_at(i)
                == available_tiers@[i].workforce_requirement && v.civic_at(i) == 0 && v.housing_at(i) == 0
                && v.habitation_slots_at(i) == 0,
            BuildingVariant::Fabricator { available_tiers } => v.job_slots_at(i)
                == available_tiers@[i].workforce_requirement && v.civic_at(i) == 0 && v.housing_at(i) == 0
                && v.habitation_slots_at(i) == 0,
            BuildingVariant::ProcessingPlant { available_tiers } => v.job_slots_at(i)
                == available_tiers@[i].workforce_requirement && v.civic_at(i) == 0 && v.housing_at(i) == 0
                && v.habitation_slots_at(i) == 0,
            _ => v.job_slots_at(i) == 0 && v.civic_at(i) == 0 && v.housing_at(i) == 0
                && v.habitation_slots_at(i) == 0,
        },
{
}

} // verus!

verus! {

/// Each tier's name, construction cost, workforce requirement and required
/// tech, and the number of tiers, are those of the kind's own tier table.
pub proof fn law_tier_basics(v: BuildingVariant, i: int)
    ensures
        match v {
            BuildingVariant::Extractor { available_tiers } => {
                &&& v.tier_count() == available_tiers@.len()
                &&& v.tier(i).name == available_tiers@[i].name@
                &&& v.tier(i).cost == available_tiers@[i].construction_credits_cost
                &&& v.tier(i).workforce == available_tiers@[i].workforce_requirement
                &&& v.tier(i).tech == available_tiers@[i].required_tech
            },
            BuildingVariant::BioDome { available_tiers } => {
                &&& v.tier_count() == available_tiers@.len()
                &&& v.tier(i).name == available_tiers@[i].name@
                &&& v.tier(i).cost == available_tiers@[i].construction_credits_cost
                &&& v.tier(i).workforce == available_tiers@[i].workforce_requirement
                &&& v.tier(i).tech == available_tiers@[i].required_tech
            },
            BuildingVariant::PowerRelay { available_tiers } => {
                &&& v.tier_count() == available_tiers@.len()
                &&& v.tier(i).name == available_tiers@[i].name@
                &&& v.tier(i).cost == available_tiers@[i].construction_credits_cost
                &&& v.tier(i).workforce == available_tiers@[i].workforce_requirement
                &&& v.tier(i).tech == available_tiers@[i].required_tech
            },
            BuildingVariant::ResearchInstitute { available_tiers } => {
                &&& v.tier_count() == available_tiers@.len()
                &&& v.tier(i).name == available_tiers@[i].name@
                &&& v.tier(i).cost == available_tiers@[i].construction_credits_cost
                &&& v.tier(i).workforce == available_tiers@[i].workforce_requirement
                &&& v.tier(i).tech == available_tiers@[i].required_tech
            },
            BuildingVariant::StorageSilo { available_tiers } => {
                &&& v.tier_count() == available_tiers@.len()
                &&& v.tier(i).name == available_tiers@[i].name@
                &&& v.tier(i).cost == available_tiers@[i].construction_credits_cost
                &&& v.tier(i).workforce == available_tiers@[i].workforce_requirement
                &&& v.tier(i).tech == available_tiers@[i].required_tech
            },
            BuildingVariant::Habitation { available_tiers, .. } => {
                &&& v.tier_count() == available_tiers@.len()
                &&& v.tier(i).name == available_tiers@[i].name@
                &&& v.tier(i).cost == available_tiers@[i].construction_credits_cost
                &&& v.tier(i).workforce == available_tiers@[i].workforce_requirement
                &&& v.tier(i).tech == available_tiers@[i].required_tech
            },
            BuildingVariant::Service { available_tiers, .. } => {
                &&& v.tier_count() == available_tiers@.len()
                &&& v.tier(i).name == available_tiers@[i].name@
                &&& v.tier(i).cost == available_tiers@[i].construction_credits_cost
                &&& v.tier(i).workforce == available_tiers@[i].workforce_requirement
                &&& v.tier(i).tech == available_tiers@[i].required_tech
            },
            BuildingVariant::Zone { available_tiers, .. } => {
                &&& v.tier_count() == available_tiers@.len()
                &&& v.tier(i).name == available_tiers@[i].name@
                &&& v.tier(i).cost == available_tiers@[i].construction_credits_cost
                &&& v.tier(i).workforce == available_tiers@[i].workforce_requirement
                &&& v.tier(i).tech == available_tiers@[i].required_tech
            },
            BuildingVariant::Fabricator { available_tiers } => {
                &&& v.tier_count() == available_tiers@.len()
                &&& v.tier(i).name == available_tiers@[i].name@
                &&& v.tier(i).cost == available_tiers@[i].construction_credits_cost
                &&& v.tier(i).workforce == available_tiers@[i].workforce_requirement
                &&& v.tier(i).tech == available_tiers@[i].required_tech
            },
            BuildingVariant::ProcessingPlant { available_tiers } => {
                &&& v.tier_count() == available_tiers@.len()
                &&& v.tier(i).name == available_tiers@[i].name@
                &&& v.tier(i).cost == available_tiers@[i].construction_credits_cost
                &&& v.tier(i).workforce == available_tiers@[i].workforce_requirement
                &&& v.tier(i).tech == available_tiers@[i].required_tech
            },
            BuildingVariant::AdministrativeSpire { available_tiers } => {
                &&& v.tier_count() == available_tiers@.len()
                &&& v.tier(i).name == available_tiers@[i].name@
                &&& v.tier(i).cost == available_tiers@[i].construction_credits_cost
                &&& v.tier(i).workforce == available_tiers@[i].workforce_requirement
                &&& v.tier(i).tech == available_tiers@[i].required_tech
            },
            BuildingVariant::LegacyStructure { available_tiers } => {
                &&& v.tier_count() == available_tiers@.len()
                &&& v.tier(i).name == available_tiers@[i].name@
                &&& v.tier(i).cost == available_tiers@[i].construction_credits_cost
                &&& v.tier(i).workforce == available_tiers@[i].workforce_requirement
                &&& v.tier(i).tech == available_tiers@[i].required_tech
            },
        },
{
}

} // verus!
