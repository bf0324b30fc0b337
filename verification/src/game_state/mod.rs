use vstd::prelude::*;

pub mod text;
pub mod totals;
pub mod tiers;
pub mod construction;
pub mod management;
pub mod landmarks;
pub mod consistency;
pub mod laws;
pub mod guards;

use crate::components::building::{AdministrativeSpireTier, Building, LegacyStructureTier};

pub use self::construction::{
    add_bio_dome, add_extractor, add_fabricator, add_habitation_structure, add_power_relay,
    add_processing_plant, add_research_institute, add_service_building, add_storage_silo, add_zone,
    BuildOutcome,
};
pub use self::landmarks::{
    construct_administrative_spire, construct_legacy_structure, upgrade_administrative_spire,
    upgrade_legacy_structure,
};
pub use self::management::{
    assign_workforce_to_building_by_id, find_building_index, remove_building_by_id,
    toggle_building_active_state_by_id, unassign_workforce_from_building_by_id,
    upgrade_building_by_id, UpgradeOutcome,
};
pub use self::tiers::{
    get_administrative_spire_tiers, get_default_biodome_tiers, get_default_extractor_tiers,
    get_default_power_relay_tiers, get_default_research_institute_tiers,
    get_default_storage_silo_tiers, get_legacy_structure_tiers, get_new_fabricator_tiers,
    get_new_habitation_tiers, get_new_processing_plant_tiers, get_new_service_tiers,
    get_new_zone_tiers,
};
pub use self::totals::{
    update_civic_index, update_housing_and_specialist_slots, update_total_specialist_slots,
};

verus! {

/// The colony's development phase; the Administrative Spire advances it.
#[derive(Debug, Clone, Copy, PartialEq, Eq, Hash, Structural, PartialOrd, Ord)]
pub enum DevelopmentPhase {
    DP1,
    DP2,
    DP3,
}

impl Default for DevelopmentPhase {
    fn default() -> (r: Self)
        ensures
            r == DevelopmentPhase::DP1,
    {
        DevelopmentPhase::DP1
    }
}

/// Every resource the colony tracks.
#[derive(Debug, Clone, Copy, PartialEq, Eq, Hash, Structural, PartialOrd, Ord)]
pub enum ResourceType {
    FerrocreteOre,
    NutrientPaste,
    CuprumDeposits,
    Power,
    ManufacturedGoods,
    AdvancedComponents,
    RefinedXylos,
    ProcessedQuantium,
    RawXylos,
    RawQuantium,
}

/// Research topics.
#[derive(Debug, Clone, Copy, PartialEq, Eq, Hash, Structural)]
pub enum Tech {
    BasicConstructionProtocols,
    EfficientExtraction,
    AdvancedFabrication,
    IndustrialProcessing,
    ZoningOrdinances,
    ArcologyConstruction,
}

/// Kinds of civic service buildings.
#[derive(Debug, Clone, Copy, PartialEq, Eq, Hash, Structural)]
pub enum ServiceType {
    Wellness,
    Security,
    Education,
    Recreation,
    Spiritual,
}

/// Kinds of zones.
#[derive(Debug, Clone, Copy, PartialEq, Eq, Hash, Structural)]
pub enum ZoneType {
    Commercial,
    LightIndustry,
}

} // verus!

verus! {

/// The most notifications the log keeps; older ones fall off the end.
pub const NOTIFICATION_LOG_CAPACITY: usize = 20;

/// A message in the colony's event log, newest first.
/// The timestamp is in milliseconds of game time.
#[derive(Debug, Clone)]
pub struct NotificationEvent {
    pub message: String,
    pub timestamp_ms: u64,
}

/// `new` is `old` with a notice of `msg` at `ts` put in front, and the
/// oldest entry dropped once the log holds more than its capacity.
pub open spec fn logged(
    old: Seq<NotificationEvent>,
    new: Seq<NotificationEvent>,
    msg: Seq<char>,
    ts: u64,
) -> bool {
    &&& new.len() == (if old.len() + 1 > NOTIFICATION_LOG_CAPACITY { old.len() } else { old.len() + 1 })
    &&& new[0].message@ == msg
    &&& new[0].timestamp_ms == ts
    &&& forall|i: int| 1 <= i < new.len() ==> #[trigger] new[i] == old[i - 1]
}

/// Puts a notification at the front of the log, dropping the oldest entry
/// when the log grows beyond its capacity.
pub fn add_notification(
    notifications: &mut std::collections::VecDeque<NotificationEvent>,
    message: String,
    timestamp_ms: u64,
)
    ensures
        logged(old(notifications)@, final(notifications)@, message@, timestamp_ms),
{
    let ghost m = message@;
    notifications.push_front(NotificationEvent { message, timestamp_ms });
    if notifications.len() > NOTIFICATION_LOG_CAPACITY {
        notifications.pop_back();
    }
}

/// The identifier given to the `n`-th structure of a colony.
pub open spec fn structure_id(n: nat) -> Seq<char> {
    "struct_"@ + text::decimal(n)
}

/// Distinct serial numbers give distinct identifiers.
pub proof fn lemma_structure_id_injective(a: nat, b: nat)
    requires
        structure_id(a) == structure_id(b),
    ensures
        a == b,
{
    reveal_strlit("struct_");
    assert(structure_id(a).skip(7) =~= text::decimal(a));
    assert(structure_id(b).skip(7) =~= text::decimal(b));
    text::lemma_decimal_injective(a, b);
}

} // verus!

verus! {

/// The Administrative Spire, once constructed.
#[derive(Debug, Clone)]
pub struct AdministrativeSpire {
    pub current_tier_index: usize,
    pub available_tiers: Vec<AdministrativeSpireTier>,
}

/// The Legacy Structure, once constructed.
#[derive(Debug, Clone)]
pub struct LegacyStructure {
    pub current_tier_index: usize,
    pub available_tiers: Vec<LegacyStructureTier>,
}

/// The whole state of a colony.
///
/// Credits are whole credits. `next_structure_serial` numbers the
/// structures built so far, and gives each new one its identifier. The
/// unlocked techs and raw materials are sets kept as lists without
/// repetition, and `tech_costs` is a map kept as a list with one entry per
/// tech (both stated by `is_consistent`); lists keep the colony's state in
/// the collections the contracts reason about directly.
#[derive(Debug, Clone)]
pub struct GameState {
    pub administrative_spire: Option<AdministrativeSpire>,
    pub legacy_structure: Option<LegacyStructure>,
    pub current_development_phase: DevelopmentPhase,
    pub unlocked_techs: Vec<Tech>,
    pub research_progress: Option<(Tech, u32)>,
    pub tech_costs: Vec<(Tech, u32)>,
    pub total_inhabitants: u32,
    pub assigned_workforce: u32,
    pub available_housing_capacity: u32,
    pub total_specialist_slots: u32,
    pub assigned_specialists_total: u32,
    pub civic_index: u32,
    pub simulated_has_sufficient_nutrient_paste: bool,
    pub unlocked_raw_materials: Vec<ResourceType>,
    pub credits: u64,
    pub notifications: std::collections::VecDeque<NotificationEvent>,
    pub buildings: Vec<Building>,
    pub next_structure_serial: u32,
}

/// Sum of `f` over a sequence of buildings.
pub open spec fn sum_by(bs: Seq<Building>, f: spec_fn(Building) -> nat) -> nat
    decreases bs.len(),
{
    if bs.len() == 0 {
        0
    } else {
        sum_by(bs.drop_last(), f) + f(bs.last())
    }
}


} // verus!

verus! {

/// The serial number after `n`; the counter wraps around past `u32::MAX`.
pub open spec fn next_serial(n: u32) -> u32 {
    if n < u32::MAX { (n + 1) as u32 } else { 0 }
}

/// Hands out the identifier of the next structure, `struct_<serial>`, and
/// advances the serial counter.
pub fn generate_unique_id(game_state: &mut GameState) -> (r: String)
    ensures
        r@ == structure_id(old(game_state).next_structure_serial as nat),
        *final(game_state) == (GameState {
            next_structure_serial: next_serial(old(game_state).next_structure_serial),
            ..*old(game_state)
        }),
{
    let n = game_state.next_structure_serial;
    let digits = text::decimal_string(n);
    let mut id = String::from_str("struct_");
    id.append(digits.as_str());
    game_state.next_structure_serial = if n < u32::MAX { n + 1 } else { 0 };
    id
}

/// Whether `t` is among the unlocked techs.
pub fn tech_unlocked(techs: &Vec<Tech>, t: Tech) -> (r: bool)
    ensures
        r == techs@.contains(t),
{
    let mut i: usize = 0;
    while i < techs.len()
        invariant
            i <= techs@.len(),
            forall|j: int| 0 <= j < i ==> techs@[j] != t,
        decreases techs.len() - i,
    {
        if techs[i] == t {
            return true;
        }
        i = i + 1;
    }
    false
}

/// The research costs a new colony starts with.
pub open spec fn initial_tech_costs() -> Seq<(Tech, u32)> {
    seq![
        (Tech::BasicConstructionProtocols, 100u32),
        (Tech::EfficientExtraction, 250u32),
        (Tech::AdvancedFabrication, 500u32),
        (Tech::IndustrialProcessing, 500u32),
        (Tech::ZoningOrdinances, 400u32),
        (Tech::ArcologyConstruction, 1000u32),
    ]
}

impl GameState {
    /// The state in which a new colony starts.
    pub open spec fn is_new_colony(&self) -> bool {
        &&& self.administrative_spire is None
        &&& self.legacy_structure is None
        &&& self.current_development_phase == DevelopmentPhase::DP1
        &&& self.unlocked_techs@ == Seq::<Tech>::empty()
        &&& self.research_progress is None
        &&& self.tech_costs@ == initial_tech_costs()
        &&& self.total_inhabitants == 5
        &&& self.assigned_workforce == 0
        &&& self.available_housing_capacity == 0
        &&& self.total_specialist_slots == 0
        &&& self.assigned_specialists_total == 0
        &&& self.civic_index == 0
        &&& self.simulated_has_sufficient_nutrient_paste
        &&& self.unlocked_raw_materials@ == Seq::<ResourceType>::empty()
        &&& self.credits == 10000
        &&& logged(Seq::empty(), self.notifications@, "Colony established. Welcome, Commander!"@, 0)
        &&& self.buildings@ == Seq::<Building>::empty()
        &&& self.next_structure_serial == 0
    }
}

impl Default for GameState {
    /// A new colony: five inhabitants, ten thousand credits, nothing built,
    /// and a welcome message in the log.
    fn default() -> (r: Self)
        ensures
            r.is_new_colony(),
            r.is_consistent(),
    {
        let mut notifications = std::collections::VecDeque::new();
        add_notification(&mut notifications, String::from_str("Colony established. Welcome, Commander!"), 0);
        GameState {
            administrative_spire: None,
            legacy_structure: None,
            current_development_phase: DevelopmentPhase::DP1,
            unlocked_techs: Vec::new(),
            research_progress: None,
            tech_costs: vec![
                (Tech::BasicConstructionProtocols, 100),
                (Tech::EfficientExtraction, 250),
                (Tech::AdvancedFabrication, 500),
                (Tech::IndustrialProcessing, 500),
                (Tech::ZoningOrdinances, 400),
                (Tech::ArcologyConstruction, 1000),
            ],
            total_inhabitants: 5,
            assigned_workforce: 0,
            available_housing_capacity: 0,
            total_specialist_slots: 0,
            assigned_specialists_total: 0,
            civic_index: 0,
            simulated_has_sufficient_nutrient_paste: true,
            unlocked_raw_materials: Vec::new(),
            credits: 10000,
            notifications,
            buildings: Vec::new(),
            next_structure_serial: 0,
        }
    }
}

} // verus!
