use vstd::prelude::*;
use crate::components::building::{
    TierSummary,
    AdministrativeSpireTier, BioDomeTier, ExtractorTier, FabricatorTier, HabitationTier,
    LegacyStructureTier, PowerRelayTier, ProcessingPlantTier, ResearchInstituteTier, ServiceTier,
    StorageSiloTier, ZoneTier,
};
use crate::game_state::{DevelopmentPhase, ResourceType, ServiceType, Tech, ZoneType};

verus! {

/// The habitation tier table.
pub open spec fn is_habitation_table(t: Seq<HabitationTier>) -> bool {
    &&& t.len() == 3
    &&& t[0].name@ == "Basic Dwellings"@
    &&& t[0].construction_credits_cost == 100
    &&& t[0].upkeep_cost == 5
    &&& t[0].power_requirement == 2
    &&& t[0].workforce_requirement == 1
    &&& t[0].required_tech is None
    &&& t[0].housing_capacity == 10
    &&& t[0].specialist_slots == 1
    &&& t[1].name@ == "Community Blocks"@
    &&& t[1].construction_credits_cost == 250
    &&& t[1].upkeep_cost == 10
    &&& t[1].power_requirement == 5
    &&& t[1].workforce_requirement == 2
    &&& t[1].required_tech is None
    &&& t[1].housing_capacity == 25
    &&& t[1].specialist_slots == 3
    &&& t[2].name@ == "Arcology Spires"@
    &&& t[2].construction_credits_cost == 1000
    &&& t[2].upkeep_cost == 25
    &&& t[2].power_requirement == 10
    &&& t[2].workforce_requirement == 5
    &&& t[2].required_tech == Some(Tech::ArcologyConstruction)
    &&& t[2].housing_capacity == 100
    &&& t[2].specialist_slots == 10
}

/// The service wellness tier table.
pub open spec fn is_service_wellness_table(t: Seq<ServiceTier>) -> bool {
    &&& t.len() == 2
    &&& t[0].name@ == "Clinic"@
    &&& t[0].construction_credits_cost == 150
    &&& t[0].upkeep_cost == 10
    &&& t[0].power_requirement == 5
    &&& t[0].workforce_requirement == 2
    &&& t[0].required_tech is None
    &&& t[0].service_capacity == 50
    &&& t[0].service_radius == 50
    &&& t[0].civic_index_contribution == 5
    &&& t[1].name@ == "Hospital"@
    &&& t[1].construction_credits_cost == 400
    &&& t[1].upkeep_cost == 30
    &&& t[1].power_requirement == 15
    &&& t[1].workforce_requirement == 5
    &&& t[1].required_tech is None
    &&& t[1].service_capacity == 250
    &&& t[1].service_radius == 75
    &&& t[1].civic_index_contribution == 15
}

/// The service security tier table.
pub open spec fn is_service_security_table(t: Seq<ServiceTier>) -> bool {
    &&& t.len() == 2
    &&& t[0].name@ == "Security Post"@
    &&& t[0].construction_credits_cost == 150
    &&& t[0].upkeep_cost == 15
    &&& t[0].power_requirement == 5
    &&& t[0].workforce_requirement == 3
    &&& t[0].required_tech is None
    &&& t[0].service_capacity == 50
    &&& t[0].service_radius == 50
    &&& t[0].civic_index_contribution == 5
    &&& t[1].name@ == "Precinct"@
    &&& t[1].construction_credits_cost == 450
    &&& t[1].upkeep_cost == 40
    &&& t[1].power_requirement == 10
    &&& t[1].workforce_requirement == 7
    &&& t[1].required_tech == Some(Tech::BasicConstructionProtocols)
    &&& t[1].service_capacity == 250
    &&& t[1].service_radius == 75
    &&& t[1].civic_index_contribution == 15
}

/// The service education tier table.
pub open spec fn is_service_education_table(t: Seq<ServiceTier>) -> bool {
    &&& t.len() == 1
    &&& t[0].name@ == "School"@
    &&& t[0].construction_credits_cost == 300
    &&& t[0].upkeep_cost == 25
    &&& t[0].power_requirement == 8
    &&& t[0].workforce_requirement == 4
    &&& t[0].required_tech is None
    &&& t[0].service_capacity == 100
    &&& t[0].service_radius == 60
    &&& t[0].civic_index_contribution == 10
}

/// The service recreation tier table.
pub open spec fn is_service_recreation_table(t: Seq<ServiceTier>) -> bool {
    &&& t.len() == 1
    &&& t[0].name@ == "Rec Center"@
    &&& t[0].construction_credits_cost == 250
    &&& t[0].upkeep_cost == 20
    &&& t[0].power_requirement == 7
    &&& t[0].workforce_requirement == 3
    &&& t[0].required_tech is None
    &&& t[0].service_capacity == 100
    &&& t[0].service_radius == 60
    &&& t[0].civic_index_contribution == 8
}

/// The service spiritual tier table.
pub open spec fn is_service_spiritual_table(t: Seq<ServiceTier>) -> bool {
    &&& t.len() == 1
    &&& t[0].name@ == "Sanctum"@
    &&& t[0].construction_credits_cost == 200
    &&& t[0].upkeep_cost == 10
    &&& t[0].power_requirement == 3
    &&& t[0].workforce_requirement == 2
    &&& t[0].required_tech is None
    &&& t[0].service_capacity == 100
    &&& t[0].service_radius == 60
    &&& t[0].civic_index_contribution == 3
}

/// The zone commercial tier table.
pub open spec fn is_zone_commercial_table(t: Seq<ZoneTier>) -> bool {
    &&& t.len() == 2
    &&& t[0].name@ == "Small Market Stalls"@
    &&& t[0].construction_credits_cost == 100
    &&& t[0].upkeep_cost == 10
    &&& t[0].power_requirement == 3
    &&& t[0].workforce_requirement == 5
    &&& t[0].required_tech is None
    &&& t[0].civic_index_contribution == 3
    &&& t[0].income_generation == 50
    &&& t[1].name@ == "Shopping Plaza"@
    &&& t[1].construction_credits_cost == 300
    &&& t[1].upkeep_cost == 30
    &&& t[1].power_requirement == 8
    &&& t[1].workforce_requirement == 15
    &&& t[1].required_tech == Some(Tech::ZoningOrdinances)
    &&& t[1].civic_index_contribution == 10
    &&& t[1].income_generation == 200
}

/// The zone light industry tier table.
pub open spec fn is_zone_light_industry_table(t: Seq<ZoneTier>) -> bool {
    &&& t.len() == 2
    &&& t[0].name@ == "Workshops"@
    &&& t[0].construction_credits_cost == 120
    &&& t[0].upkeep_cost == 15
    &&& t[0].power_requirement == 5
    &&& t[0].workforce_requirement == 8
    &&& t[0].required_tech is None
    &&& t[0].civic_index_contribution == 2
    &&& t[0].income_generation == 0
    &&& t[1].name@ == "Assembly Lines"@
    &&& t[1].construction_credits_cost == 350
    &&& t[1].upkeep_cost == 40
    &&& t[1].power_requirement == 12
    &&& t[1].workforce_requirement == 20
    &&& t[1].required_tech == Some(Tech::ZoningOrdinances)
    &&& t[1].civic_index_contribution == 8
    &&& t[1].income_generation == 0
}

/// The fabricator tier table.
pub open spec fn is_fabricator_table(t: Seq<FabricatorTier>) -> bool {
    &&& t.len() == 2
    &&& t[0].name@ == "Basic Fabricator"@
    &&& t[0].construction_credits_cost == 200
    &&& t[0].upkeep_cost == 10
    &&& t[0].power_requirement == 15
    &&& t[0].workforce_requirement == 1
    &&& t[0].required_tech is None
    &&& t[0].input_resources@ == seq![(ResourceType::FerrocreteOre, 2u32), (ResourceType::CuprumDeposits, 1u32)]
    &&& t[0].output_product == ResourceType::ManufacturedGoods
    &&& t[0].output_quantity == 1
    &&& t[0].production_time_secs == 10
    &&& t[1].name@ == "Advanced Fabricator"@
    &&& t[1].construction_credits_cost == 500
    &&& t[1].upkeep_cost == 25
    &&& t[1].power_requirement == 30
    &&& t[1].workforce_requirement == 2
    &&& t[1].required_tech == Some(Tech::AdvancedFabrication)
    &&& t[1].input_resources@ == seq![(ResourceType::ManufacturedGoods, 2u32), (ResourceType::RefinedXylos, 1u32)]
    &&& t[1].output_product == ResourceType::AdvancedComponents
    &&& t[1].output_quantity == 1
    &&& t[1].production_time_secs == 20
}

/// The processing plant tier table.
pub open spec fn is_processing_plant_table(t: Seq<ProcessingPlantTier>) -> bool {
    &&& t.len() == 3
    &&& t[0].name@ == "Xylos Purifier"@
    &&& t[0].construction_credits_cost == 150
    &&& t[0].upkeep_cost == 10
    &&& t[0].power_requirement == 20
    &&& t[0].workforce_requirement == 2
    &&& t[0].required_tech == Some(Tech::IndustrialProcessing)
    &&& t[0].unlocks_resource == Some(ResourceType::RawXylos)
    &&& t[0].input_resource == Some((ResourceType::RawXylos, 2u32))
    &&& t[0].output_resource == Some((ResourceType::RefinedXylos, 1u32))
    &&& t[0].processing_rate_milli_per_sec == Some(500u32)
    &&& t[1].name@ == "Quantium Resonator"@
    &&& t[1].construction_credits_cost == 200
    &&& t[1].upkeep_cost == 15
    &&& t[1].power_requirement == 25
    &&& t[1].workforce_requirement == 3
    &&& t[1].required_tech == Some(Tech::IndustrialProcessing)
    &&& t[1].unlocks_resource == Some(ResourceType::RawQuantium)
    &&& t[1].input_resource is None
    &&& t[1].output_resource is None
    &&& t[1].processing_rate_milli_per_sec is None
    &&& t[2].name@ == "Advanced Material Synthesizer"@
    &&& t[2].construction_credits_cost == 300
    &&& t[2].upkeep_cost == 20
    &&& t[2].power_requirement == 40
    &&& t[2].workforce_requirement == 4
    &&& t[2].required_tech == Some(Tech::IndustrialProcessing)
    &&& t[2].unlocks_resource is None
    &&& t[2].input_resource == Some((ResourceType::CuprumDeposits, 3u32))
    &&& t[2].output_resource == Some((ResourceType::ProcessedQuantium, 1u32))
    &&& t[2].processing_rate_milli_per_sec == Some(200u32)
}

/// The extractor tier table.
pub open spec fn is_extractor_table(t: Seq<ExtractorTier>) -> bool {
    &&& t.len() == 1
    &&& t[0].name@ == "Ferrocrete Extractor"@
    &&& t[0].construction_credits_cost == 75
    &&& t[0].upkeep_cost == 5
    &&& t[0].power_requirement == 15
    &&& t[0].workforce_requirement == 5
    &&& t[0].required_tech is None
    &&& t[0].resource_type == ResourceType::FerrocreteOre
    &&& t[0].extraction_rate_milli_per_sec == 2500
}

/// The biodome tier table.
pub open spec fn is_biodome_table(t: Seq<BioDomeTier>) -> bool {
    &&& t.len() == 1
    &&& t[0].name@ == "Bio-Dome"@
    &&& t[0].construction_credits_cost == 50
    &&& t[0].upkeep_cost == 3
    &&& t[0].power_requirement == 10
    &&& t[0].workforce_requirement == 10
    &&& t[0].required_tech is None
    &&& t[0].nutrient_paste_output_milli_per_sec == 5000
}

/// The power relay tier table.
pub open spec fn is_power_relay_table(t: Seq<PowerRelayTier>) -> bool {
    &&& t.len() == 1
    &&& t[0].name@ == "Power Relay"@
    &&& t[0].construction_credits_cost == 60
    &&& t[0].upkeep_cost == 1
    &&& t[0].power_requirement == 0
    &&& t[0].workforce_requirement == 0
    &&& t[0].required_tech is None
    &&& t[0].power_generation == 50
}

/// The research institute tier table.
pub open spec fn is_research_institute_table(t: Seq<ResearchInstituteTier>) -> bool {
    &&& t.len() == 1
    &&& t[0].name@ == "Research Institute"@
    &&& t[0].construction_credits_cost == 150
    &&& t[0].upkeep_cost == 10
    &&& t[0].power_requirement == 5
    &&& t[0].workforce_requirement == 15
    &&& t[0].required_tech is None
    &&& t[0].research_points_milli_per_sec == 500
}

/// The storage silo tier table.
pub open spec fn is_storage_silo_table(t: Seq<StorageSiloTier>) -> bool {
    &&& t.len() == 1
    &&& t[0].name@ == "Storage Silo"@
    &&& t[0].construction_credits_cost == 100
    &&& t[0].upkeep_cost == 2
    &&& t[0].power_requirement == 1
    &&& t[0].workforce_requirement == 0
    &&& t[0].required_tech is None
    &&& t[0].storage_capacity_increase == 500
}

/// The administrative spire tier table.
pub open spec fn is_administrative_spire_table(t: Seq<AdministrativeSpireTier>) -> bool {
    &&& t.len() == 3
    &&& t[0].name@ == "Spire Core"@
    &&& t[0].construction_credits_cost == 1000
    &&& t[0].upkeep_cost == 50
    &&& t[0].power_requirement == 50
    &&& t[0].workforce_requirement == 5
    &&& t[0].required_tech is None
    &&& t[0].upgrade_credits_cost == 1500
    &&& t[0].unlocks_phase == DevelopmentPhase::DP1
    &&& t[0].nutrient_paste_link_required == true
    &&& t[1].name@ == "Spire Nexus"@
    &&& t[1].construction_credits_cost == 0
    &&& t[1].upkeep_cost == 100
    &&& t[1].power_requirement == 100
    &&& t[1].workforce_requirement == 10
    &&& t[1].required_tech == Some(Tech::EfficientExtraction)
    &&& t[1].upgrade_credits_cost == 2500
    &&& t[1].unlocks_phase == DevelopmentPhase::DP2
    &&& t[1].nutrient_paste_link_required == true
    &&& t[2].name@ == "Spire Apex"@
    &&& t[2].construction_credits_cost == 0
    &&& t[2].upkeep_cost == 200
    &&& t[2].power_requirement == 200
    &&& t[2].workforce_requirement == 20
    &&& t[2].required_tech == Some(Tech::ArcologyConstruction)
    &&& t[2].upgrade_credits_cost == 0
    &&& t[2].unlocks_phase == DevelopmentPhase::DP3
    &&& t[2].nutrient_paste_link_required == false
}

/// The legacy structure tier table.
pub open spec fn is_legacy_structure_table(t: Seq<LegacyStructureTier>) -> bool {
    &&& t.len() == 3
    &&& t[0].name@ == "Ancient Monolith"@
    &&& t[0].construction_credits_cost == 2000
    &&& t[0].upkeep_cost == 20
    &&& t[0].power_requirement == 10
    &&& t[0].workforce_requirement == 0
    &&& t[0].required_tech is None
    &&& t[0].happiness_bonus == 5
    &&& t[0].income_bonus == 100
    &&& t[1].name@ == "Restored Monument"@
    &&& t[1].construction_credits_cost == 5000
    &&& t[1].upkeep_cost == 50
    &&& t[1].power_requirement == 25
    &&& t[1].workforce_requirement == 0
    &&& t[1].required_tech == Some(Tech::ZoningOrdinances)
    &&& t[1].happiness_bonus == 10
    &&& t[1].income_bonus == 250
    &&& t[2].name@ == "Nexus Beacon"@
    &&& t[2].construction_credits_cost == 10000
    &&& t[2].upkeep_cost == 100
    &&& t[2].power_requirement == 50
    &&& t[2].workforce_requirement == 0
    &&& t[2].required_tech == Some(Tech::ArcologyConstruction)
    &&& t[2].happiness_bonus == 20
    &&& t[2].income_bonus == 500
}

/// The tier table of a service type.
pub open spec fn is_service_table(s: ServiceType, t: Seq<ServiceTier>) -> bool {
    match s {
        ServiceType::Wellness => is_service_wellness_table(t),
        ServiceType::Security => is_service_security_table(t),
        ServiceType::Education => is_service_education_table(t),
        ServiceType::Recreation => is_service_recreation_table(t),
        ServiceType::Spiritual => is_service_spiritual_table(t),
    }
}

/// The tier table of a zone type.
pub open spec fn is_zone_table(z: ZoneType, t: Seq<ZoneTier>) -> bool {
    match z {
        ZoneType::Commercial => is_zone_commercial_table(t),
        ZoneType::LightIndustry => is_zone_light_industry_table(t),
    }
}

/// The habitation tiers.
pub fn get_new_habitation_tiers() -> (r: Vec<HabitationTier>)
    ensures
        is_habitation_table(r@),
{
    vec![
        HabitationTier { name: String::from_str("Basic Dwellings"), construction_credits_cost: 100, upkeep_cost: 5, power_requirement: 2, workforce_requirement: 1, required_tech: None, housing_capacity: 10, specialist_slots: 1 },
        HabitationTier { name: String::from_str("Community Blocks"), construction_credits_cost: 250, upkeep_cost: 10, power_requirement: 5, workforce_requirement: 2, required_tech: None, housing_capacity: 25, specialist_slots: 3 },
        HabitationTier { name: String::from_str("Arcology Spires"), construction_credits_cost: 1000, upkeep_cost: 25, power_requirement: 10, workforce_requirement: 5, required_tech: Some(Tech::ArcologyConstruction), housing_capacity: 100, specialist_slots: 10 },
    ]
}

/// The fabricator tiers.
pub fn get_new_fabricator_tiers() -> (r: Vec<FabricatorTier>)
    ensures
        is_fabricator_table(r@),
{
    vec![
        FabricatorTier { name: String::from_str("Basic Fabricator"), construction_credits_cost: 200, upkeep_cost: 10, power_requirement: 15, workforce_requirement: 1, required_tech: None, input_resources: vec![(ResourceType::FerrocreteOre, 2u32), (ResourceType::CuprumDeposits, 1u32)], output_product: ResourceType::ManufacturedGoods, output_quantity: 1, production_time_secs: 10 },
        FabricatorTier { name: String::from_str("Advanced Fabricator"), construction_credits_cost: 500, upkeep_cost: 25, power_requirement: 30, workforce_requirement: 2, required_tech: Some(Tech::AdvancedFabrication), input_resources: vec![(ResourceType::ManufacturedGoods, 2u32), (ResourceType::RefinedXylos, 1u32)], output_product: ResourceType::AdvancedComponents, output_quantity: 1, production_time_secs: 20 },
    ]
}

/// The processing plant tiers.
pub fn get_new_processing_plant_tiers() -> (r: Vec<ProcessingPlantTier>)
    ensures
        is_processing_plant_table(r@),
{
    vec![
        ProcessingPlantTier { name: String::from_str("Xylos Purifier"), construction_credits_cost: 150, upkeep_cost: 10, power_requirement: 20, workforce_requirement: 2, required_tech: Some(Tech::IndustrialProcessing), unlocks_resource: Some(ResourceType::RawXylos), input_resource: Some((ResourceType::RawXylos, 2u32)), output_resource: Some((ResourceType::RefinedXylos, 1u32)), processing_rate_milli_per_sec: Some(500u32) },
        ProcessingPlantTier { name: String::from_str("Quantium Resonator"), construction_credits_cost: 200, upkeep_cost: 15, power_requirement: 25, workforce_requirement: 3, required_tech: Some(Tech::IndustrialProcessing), unlocks_resource: Some(ResourceType::RawQuantium), input_resource: None, output_resource: None, processing_rate_milli_per_sec: None },
        ProcessingPlantTier { name: String::from_str("Advanced Material Synthesizer"), construction_credits_cost: 300, upkeep_cost: 20, power_requirement: 40, workforce_requirement: 4, required_tech: Some(Tech::IndustrialProcessing), unlocks_resource: None, input_resource: Some((ResourceType::CuprumDeposits, 3u32)), output_resource: Some((ResourceType::ProcessedQuantium, 1u32)), processing_rate_milli_per_sec: Some(200u32) },
    ]
}

/// The extractor tiers.
pub fn get_default_extractor_tiers() -> (r: Vec<ExtractorTier>)
    ensures
        is_extractor_table(r@),
{
    vec![
        ExtractorTier { name: String::from_str("Ferrocrete Extractor"), construction_credits_cost: 75, upkeep_cost: 5, power_requirement: 15, workforce_requirement: 5, required_tech: None, resource_type: ResourceType::FerrocreteOre, extraction_rate_milli_per_sec: 2500 },
    ]
}

/// The biodome tiers.
pub fn get_default_biodome_tiers() -> (r: Vec<BioDomeTier>)
    ensures
        is_biodome_table(r@),
{
    vec![
        BioDomeTier { name: String::from_str("Bio-Dome"), construction_credits_cost: 50, upkeep_cost: 3, power_requirement: 10, workforce_requirement: 10, required_tech: None, nutrient_paste_output_milli_per_sec: 5000 },
    ]
}

/// The power relay tiers.
pub fn get_default_power_relay_tiers() -> (r: Vec<PowerRelayTier>)
    ensures
        is_power_relay_table(r@),
{
    vec![
        PowerRelayTier { name: String::from_str("Power Relay"), construction_credits_cost: 60, upkeep_cost: 1, power_requirement: 0, workforce_requirement: 0, required_tech: None, power_generation: 50 },
    ]
}

/// The research institute tiers.
pub fn get_default_research_institute_tiers() -> (r: Vec<ResearchInstituteTier>)
    ensures
        is_research_institute_table(r@),
{
    vec![
        ResearchInstituteTier { name: String::from_str("Research Institute"), construction_credits_cost: 150, upkeep_cost: 10, power_requirement: 5, workforce_requirement: 15, required_tech: None, research_points_milli_per_sec: 500 },
    ]
}

/// The storage silo tiers.
pub fn get_default_storage_silo_tiers() -> (r: Vec<StorageSiloTier>)
    ensures
        is_storage_silo_table(r@),
{
    vec![
        StorageSiloTier { name: String::from_str("Storage Silo"), construction_credits_cost: 100, upkeep_cost: 2, power_requirement: 1, workforce_requirement: 0, required_tech: None, storage_capacity_increase: 500 },
    ]
}

/// The administrative spire tiers.
pub fn get_administrative_spire_tiers() -> (r: Vec<AdministrativeSpireTier>)
    ensures
        is_administrative_spire_table(r@),
{
    vec![
        AdministrativeSpireTier { name: String::from_str("Spire Core"), construction_credits_cost: 1000, upkeep_cost: 50, power_requirement: 50, workforce_requirement: 5, required_tech: None, upgrade_credits_cost: 1500, unlocks_phase: DevelopmentPhase::DP1, nutrient_paste_link_required: true },
        AdministrativeSpireTier { name: String::from_str("Spire Nexus"), construction_credits_cost: 0, upkeep_cost: 100, power_requirement: 100, workforce_requirement: 10, required_tech: Some(Tech::EfficientExtraction), upgrade_credits_cost: 2500, unlocks_phase: DevelopmentPhase::DP2, nutrient_paste_link_required: true },
        AdministrativeSpireTier { name: String::from_str("Spire Apex"), construction_credits_cost: 0, upkeep_cost: 200, power_requirement: 200, workforce_requirement: 20, required_tech: Some(Tech::ArcologyConstruction), upgrade_credits_cost: 0, unlocks_phase: DevelopmentPhase::DP3, nutrient_paste_link_required: false },
    ]
}

/// The legacy structure tiers.
pub fn get_legacy_structure_tiers() -> (r: Vec<LegacyStructureTier>)
    ensures
        is_legacy_structure_table(r@),
{
    vec![
        LegacyStructureTier { name: String::from_str("Ancient Monolith"), construction_credits_cost: 2000, upkeep_cost: 20, power_requirement: 10, workforce_requirement: 0, required_tech: None, happiness_bonus: 5, income_bonus: 100 },
        LegacyStructureTier { name: String::from_str("Restored Monument"), construction_credits_cost: 5000, upkeep_cost: 50, power_requirement: 25, workforce_requirement: 0, required_tech: Some(Tech::ZoningOrdinances), happiness_bonus: 10, income_bonus: 250 },
        LegacyStructureTier { name: String::from_str("Nexus Beacon"), construction_credits_cost: 10000, upkeep_cost: 100, power_requirement: 50, workforce_requirement: 0, required_tech: Some(Tech::ArcologyConstruction), happiness_bonus: 20, income_bonus: 500 },
    ]
}

/// The tiers of a service type.
pub fn get_new_service_tiers(service_type: ServiceType) -> (r: Vec<ServiceTier>)
    ensures
        is_service_table(service_type, r@),
{
    match service_type {
        ServiceType::Wellness => vec![
        ServiceTier { name: String::from_str("Clinic"), construction_credits_cost: 150, upkeep_cost: 10, power_requirement: 5, workforce_requirement: 2, required_tech: None, service_capacity: 50, service_radius: 50, civic_index_contribution: 5 },
        ServiceTier { name: String::from_str("Hospital"), construction_credits_cost: 400, upkeep_cost: 30, power_requirement: 15, workforce_requirement: 5, required_tech: None, service_capacity: 250, service_radius: 75, civic_index_contribution: 15 },
        ],
        ServiceType::Security => vec![
        ServiceTier { name: String::from_str("Security Post"), construction_credits_cost: 150, upkeep_cost: 15, power_requirement: 5, workforce_requirement: 3, required_tech: None, service_capacity: 50, service_radius: 50, civic_index_contribution: 5 },
        ServiceTier { name: String::from_str("Precinct"), construction_credits_cost: 450, upkeep_cost: 40, power_requirement: 10, workforce_requirement: 7, required_tech: Some(Tech::BasicConstructionProtocols), service_capacity: 250, service_radius: 75, civic_index_contribution: 15 },
        ],
        ServiceType::Education => vec![
        ServiceTier { name: String::from_str("School"), construction_credits_cost: 300, upkeep_cost: 25, power_requirement: 8, workforce_requirement: 4, required_tech: None, service_capacity: 100, service_radius: 60, civic_index_contribution: 10 },
        ],
        ServiceType::Recreation => vec![
        ServiceTier { name: String::from_str("Rec Center"), construction_credits_cost: 250, upkeep_cost: 20, power_requirement: 7, workforce_requirement: 3, required_tech: None, service_capacity: 100, service_radius: 60, civic_index_contribution: 8 },
        ],
        ServiceType::Spiritual => vec![
        ServiceTier { name: String::from_str("Sanctum"), construction_credits_cost: 200, upkeep_cost: 10, power_requirement: 3, workforce_requirement: 2, required_tech: None, service_capacity: 100, service_radius: 60, civic_index_contribution: 3 },
        ],
    }
}

/// The tiers of a zone type.
pub fn get_new_zone_tiers(zone_type: ZoneType) -> (r: Vec<ZoneTier>)
    ensures
        is_zone_table(zone_type, r@),
{
    match zone_type {
        ZoneType::Commercial => vec![
        ZoneTier { name: String::from_str("Small Market Stalls"), construction_credits_cost: 100, upkeep_cost: 10, power_requirement: 3, workforce_requirement: 5, required_tech: None, civic_index_contribution: 3, income_generation: 50 },
        ZoneTier { name: String::from_str("Shopping Plaza"), construction_credits_cost: 300, upkeep_cost: 30, power_requirement: 8, workforce_requirement: 15, required_tech: Some(Tech::ZoningOrdinances), civic_index_contribution: 10, income_generation: 200 },
        ],
        ZoneType::LightIndustry => vec![
        ZoneTier { name: String::from_str("Workshops"), construction_credits_cost: 120, upkeep_cost: 15, power_requirement: 5, workforce_requirement: 8, required_tech: None, civic_index_contribution: 2, income_generation: 0 },
        ZoneTier { name: String::from_str("Assembly Lines"), construction_credits_cost: 350, upkeep_cost: 40, power_requirement: 12, workforce_requirement: 20, required_tech: Some(Tech::ZoningOrdinances), civic_index_contribution: 8, income_generation: 0 },
        ],
    }
}

} // verus!

verus! {

/// What the bookkeeping reads of each habitation tier.
pub open spec fn habitation_catalog() -> Seq<TierSummary> {
    seq![
        TierSummary { name: "Basic Dwellings"@, cost: 100, workforce: 1, tech: None, civic: 0, housing: 10, slots: 1 },
        TierSummary { name: "Community Blocks"@, cost: 250, workforce: 2, tech: None, civic: 0, housing: 25, slots: 3 },
        TierSummary { name: "Arcology Spires"@, cost: 1000, workforce: 5, tech: Some(Tech::ArcologyConstruction), civic: 0, housing: 100, slots: 10 }
    ]
}

/// What the bookkeeping reads of each service wellness tier.
pub open spec fn service_wellness_catalog() -> Seq<TierSummary> {
    seq![
        TierSummary { name: "Clinic"@, cost: 150, workforce: 2, tech: None, civic: 5, housing: 0, slots: 0 },
        TierSummary { name: "Hospital"@, cost: 400, workforce: 5, tech: None, civic: 15, housing: 0, slots: 0 }
    ]
}

/// What the bookkeeping reads of each service security tier.
pub open spec fn service_security_catalog() -> Seq<TierSummary> {
    seq![
        TierSummary { name: "Security Post"@, cost: 150, workforce: 3, tech: None, civic: 5, housing: 0, slots: 0 },
        TierSummary { name: "Precinct"@, cost: 450, workforce: 7, tech: Some(Tech::BasicConstructionProtocols), civic: 15, housing: 0, slots: 0 }
    ]
}

/// What the bookkeeping reads of each service education tier.
pub open spec fn service_education_catalog() -> Seq<TierSummary> {
    seq![
        TierSummary { name: "School"@, cost: 300, workforce: 4, tech: None, civic: 10, housing: 0, slots: 0 }
    ]
}

/// What the bookkeeping reads of each service recreation tier.
pub open spec fn service_recreation_catalog() -> Seq<TierSummary> {
    seq![
        TierSummary { name: "Rec Center"@, cost: 250, workforce: 3, tech: None, civic: 8, housing: 0, slots: 0 }
    ]
}

/// What the bookkeeping reads of each service spiritual tier.
pub open spec fn service_spiritual_catalog() -> Seq<TierSummary> {
    seq![
        TierSummary { name: "Sanctum"@, cost: 200, workforce: 2, tech: None, civic: 3, housing: 0, slots: 0 }
    ]
}

/// What the bookkeeping reads of each zone commercial tier.
pub open spec fn zone_commercial_catalog() -> Seq<TierSummary> {
    seq![
        TierSummary { name: "Small Market Stalls"@, cost: 100, workforce: 5, tech: None, civic: 3, housing: 0, slots: 0 },
        TierSummary { name: "Shopping Plaza"@, cost: 300, workforce: 15, tech: Some(Tech::ZoningOrdinances), civic: 10, housing: 0, slots: 0 }
    ]
}

/// What the bookkeeping reads of each zone light industry tier.
pub open spec fn zone_light_industry_catalog() -> Seq<TierSummary> {
    seq![
        TierSummary { name: "Workshops"@, cost: 120, workforce: 8, tech: None, civic: 2, housing: 0, slots: 0 },
        TierSummary { name: "Assembly Lines"@, cost: 350, workforce: 20, tech: Some(Tech::ZoningOrdinances), civic: 8, housing: 0, slots: 0 }
    ]
}

/// What the bookkeeping reads of each fabricator tier.
pub open spec fn fabricator_catalog() -> Seq<TierSummary> {
    seq![
        TierSummary { name: "Basic Fabricator"@, cost: 200, workforce: 1, tech: None, civic: 0, housing: 0, slots: 0 },
        TierSummary { name: "Advanced Fabricator"@, cost: 500, workforce: 2, tech: Some(Tech::AdvancedFabrication), civic: 0, housing: 0, slots: 0 }
    ]
}

/// What the bookkeeping reads of each processing plant tier.
pub open spec fn processing_plant_catalog() -> Seq<TierSummary> {
    seq![
        TierSummary { name: "Xylos Purifier"@, cost: 150, workforce: 2, tech: Some(Tech::IndustrialProcessing), civic: 0, housing: 0, slots: 0 },
        TierSummary { name: "Quantium Resonator"@, cost: 200, workforce: 3, tech: Some(Tech::IndustrialProcessing), civic: 0, housing: 0, slots: 0 },
        TierSummary { name: "Advanced Material Synthesizer"@, cost: 300, workforce: 4, tech: Some(Tech::IndustrialProcessing), civic: 0, housing: 0, slots: 0 }
    ]
}

/// What the bookkeeping reads of each extractor tier.
pub open spec fn extractor_catalog() -> Seq<TierSummary> {
    seq![
        TierSummary { name: "Ferrocrete Extractor"@, cost: 75, workforce: 5, tech: None, civic: 0, housing: 0, slots: 0 }
    ]
}

/// What the bookkeeping reads of each biodome tier.
pub open spec fn biodome_catalog() -> Seq<TierSummary> {
    seq![
        TierSummary { name: "Bio-Dome"@, cost: 50, workforce: 10, tech: None, civic: 0, housing: 0, slots: 0 }
    ]
}

/// What the bookkeeping reads of each power relay tier.
pub open spec fn power_relay_catalog() -> Seq<TierSummary> {
    seq![
        TierSummary { name: "Power Relay"@, cost: 60, workforce: 0, tech: None, civic: 0, housing: 0, slots: 0 }
    ]
}

/// What the bookkeeping reads of each research institute tier.
pub open spec fn research_institute_catalog() -> Seq<TierSummary> {
    seq![
        TierSummary { name: "Research Institute"@, cost: 150, workforce: 15, tech: None, civic: 0, housing: 0, slots: 0 }
    ]
}

/// What the bookkeeping reads of each storage silo tier.
pub open spec fn storage_silo_catalog() -> Seq<TierSummary> {
    seq![
        TierSummary { name: "Storage Silo"@, cost: 100, workforce: 0, tech: None, civic: 0, housing: 0, slots: 0 }
    ]
}

/// What the bookkeeping reads of each tier of a service type.
pub open spec fn service_catalog(s: ServiceType) -> Seq<TierSummary> {
    match s {
        ServiceType::Wellness => service_wellness_catalog(),
        ServiceType::Security => service_security_catalog(),
        ServiceType::Education => service_education_catalog(),
        ServiceType::Recreation => service_recreation_catalog(),
        ServiceType::Spiritual => service_spiritual_catalog(),
    }
}

/// What the bookkeeping reads of each tier of a zone type.
pub open spec fn zone_catalog(z: ZoneType) -> Seq<TierSummary> {
    match z {
        ZoneType::Commercial => zone_commercial_catalog(),
        ZoneType::LightIndustry => zone_light_industry_catalog(),
    }
}

} // verus!
