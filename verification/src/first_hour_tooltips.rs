use vstd::prelude::*;
use crate::components::building::{Building, BuildingVariant};
use crate::game_state::{GameState, ServiceType};
use crate::systems::research::is_fully_staffed;

verus! {

/// Structures the tutorial looks for.
#[derive(Debug, Clone, Copy, PartialEq, Eq, Structural)]
pub enum EntityTag {
    OperationsHub,
    Extractor,
    BioDome,
    ResearchInstitute,
}

/// When a tutorial step comes up.
#[derive(Debug, Clone, Copy, PartialEq, Eq, Structural)]
pub enum TutorialTrigger {
    Always,
    HasEntity(EntityTag),
    ExtractorNeedsPower,
    ExtractorProducing,
    LacksAvailableSpecialists,
    PopulationIncreased,
    HappinessBelow(u32),
    AllServicesCovered,
    TechTreeOpened,
    LegacyStructureUnlocked,
}

/// What the tutorial reads of the colony beyond its state: whether power
/// runs a deficit, the colony's happiness rounded down to whole points, and
/// whether the research app is open.
pub struct ColonyReadings {
    pub power_deficit: bool,
    pub happiness_points: u32,
    pub research_app_open: bool,
}

/// One step of the first-hour tutorial.
pub struct TooltipStep {
    pub trigger: TutorialTrigger,
    pub title: &'static str,
    pub content: &'static str,
    pub ui_highlight: Option<&'static str>,
}

/// The tutorial's progress: the step it waits on, and which steps have
/// been shown.
#[derive(Debug, Clone)]
pub struct TutorialState {
    pub current_step: usize,
    pub completed_steps: Vec<bool>,
}

/// The number of tutorial steps.
pub const TUTORIAL_STEP_COUNT: usize = 12;

/// The trigger of each tutorial step, in order.
pub open spec fn step_trigger(i: int) -> TutorialTrigger {
    if i == 0 { TutorialTrigger::Always }
    else if i == 1 { TutorialTrigger::HasEntity(EntityTag::OperationsHub) }
    else if i == 2 { TutorialTrigger::ExtractorNeedsPower }
    else if i == 3 { TutorialTrigger::ExtractorProducing }
    else if i == 4 { TutorialTrigger::LacksAvailableSpecialists }
    else if i == 5 { TutorialTrigger::HasEntity(EntityTag::BioDome) }
    else if i == 6 { TutorialTrigger::PopulationIncreased }
    else if i == 7 { TutorialTrigger::HappinessBelow(70) }
    else if i == 8 { TutorialTrigger::AllServicesCovered }
    else if i == 9 { TutorialTrigger::HasEntity(EntityTag::ResearchInstitute) }
    else if i == 10 { TutorialTrigger::TechTreeOpened }
    else { TutorialTrigger::LegacyStructureUnlocked }
}

/// The title of each tutorial step, in order.
pub open spec fn step_title(i: int) -> Seq<char> {
    if i == 0 { "Welcome to Nexus Core"@ }
    else if i == 1 { "Power Online"@ }
    else if i == 2 { "Power Deficit"@ }
    else if i == 3 { "Resources Flowing"@ }
    else if i == 4 { "Need More Citizens"@ }
    else if i == 5 { "Food Production Started"@ }
    else if i == 6 { "Growth Begins"@ }
    else if i == 7 { "Civic Crisis"@ }
    else if i == 8 { "Civics Restored"@ }
    else if i == 9 { "Tech Unlocked"@ }
    else if i == 10 { "Research Begins"@ }
    else { "Legacy Awaits"@ }
}

/// The text of each tutorial step, in order.
pub open spec fn step_content(i: int) -> Seq<char> {
    if i == 0 { "Welcome, Colony Director. Let’s begin by placing your Operations Hub."@ }
    else if i == 1 { "Your Hub is now active and generating power. Time to gather materials."@ }
    else if i == 2 { "Not enough power. Build a Power Relay to bring your Extractor online."@ }
    else if i == 3 { "You are now producing Ferrocrete and Silica. Monitor your resource panel."@ }
    else if i == 4 { "You're out of workers. Build housing and food to grow your population."@ }
    else if i == 5 { "Bio-Dome producing Nutrient Paste. Ensure surplus to enable growth."@ }
    else if i == 6 { "Your population is increasing. Assign new Specialists to expand operations."@ }
    else if i == 7 { "Your citizens are uneasy. Build a Wellness Post and Security Station."@ }
    else if i == 8 { "Healthcare and Security restored. Happiness and growth resume."@ }
    else if i == 9 { "Research Institute active. Begin unlocking Development Phase 2."@ }
    else if i == 10 { "Select a research project to unlock new buildings and capabilities."@ }
    else { "Your colony is thriving. Begin preparation for the Genesis Monument."@ }
}

/// The interface element each tutorial step points at, in order.
pub open spec fn step_highlight(i: int) -> Seq<char> {
    if i == 0 { "build_menu.operations_hub"@ }
    else if i == 1 { "build_menu.extractor"@ }
    else if i == 2 { "build_menu.power_relay"@ }
    else if i == 3 { "ui.resources_panel"@ }
    else if i == 4 { "build_menu.basic_dwelling"@ }
    else if i == 5 { "ui.food_metrics"@ }
    else if i == 6 { "ui.specialists_available"@ }
    else if i == 7 { "build_menu.services"@ }
    else if i == 8 { "ui.happiness_chart"@ }
    else if i == 9 { "ui.tech_tree"@ }
    else if i == 10 { "tech_tree.initial_node"@ }
    else { "ui.legacy_panel"@ }
}

/// The tutorial's steps, in order.
pub fn get_tutorial_steps() -> (r: Vec<TooltipStep>)
    ensures
        r@.len() == TUTORIAL_STEP_COUNT,
        forall|i: int| 0 <= i < r@.len() ==> #[trigger] r@[i].trigger == step_trigger(i),
        forall|i: int| 0 <= i < r@.len() ==> #[trigger] r@[i].title@ == step_title(i),
        forall|i: int| 0 <= i < r@.len() ==> #[trigger] r@[i].content@ == step_content(i),
        forall|i: int|
            0 <= i < r@.len() ==> (#[trigger] r@[i].ui_highlight matches Some(h) && h@ == step_highlight(i)),
{
    vec![
        TooltipStep {
            trigger: TutorialTrigger::Always,
            title: "Welcome to Nexus Core",
            content: "Welcome, Colony Director. Let’s begin by placing your Operations Hub.",
            ui_highlight: Some("build_menu.operations_hub"),
        },
        TooltipStep {
            trigger: TutorialTrigger::HasEntity(EntityTag::OperationsHub),
            title: "Power Online",
            content: "Your Hub is now active and generating power. Time to gather materials.",
            ui_highlight: Some("build_menu.extractor"),
        },
        TooltipStep {
            trigger: TutorialTrigger::ExtractorNeedsPower,
            title: "Power Deficit",
            content: "Not enough power. Build a Power Relay to bring your Extractor online.",
            ui_highlight: Some("build_menu.power_relay"),
        },
        TooltipStep {
            trigger: TutorialTrigger::ExtractorProducing,
            title: "Resources Flowing",
            content: "You are now producing Ferrocrete and Silica. Monitor your resource panel.",
            ui_highlight: Some("ui.resources_panel"),
        },
        TooltipStep {
            trigger: TutorialTrigger::LacksAvailableSpecialists,
            title: "Need More Citizens",
            content: "You're out of workers. Build housing and food to grow your population.",
            ui_highlight: Some("build_menu.basic_dwelling"),
        },
        TooltipStep {
            trigger: TutorialTrigger::HasEntity(EntityTag::BioDome),
            title: "Food Production Started",
            content: "Bio-Dome producing Nutrient Paste. Ensure surplus to enable growth.",
            ui_highlight: Some("ui.food_metrics"),
        },
        TooltipStep {
            trigger: TutorialTrigger::PopulationIncreased,
            title: "Growth Begins",
            content: "Your population is increasing. Assign new Specialists to expand operations.",
            ui_highlight: Some("ui.specialists_available"),
        },
        TooltipStep {
            trigger: TutorialTrigger::HappinessBelow(70),
            title: "Civic Crisis",
            content: "Your citizens are uneasy. Build a Wellness Post and Security Station.",
            ui_highlight: Some("build_menu.services"),
        },
        TooltipStep {
            trigger: TutorialTrigger::AllServicesCovered,
            title: "Civics Restored",
            content: "Healthcare and Security restored. Happiness and growth resume.",
            ui_highlight: Some("ui.happiness_chart"),
        },
        TooltipStep {
            trigger: TutorialTrigger::HasEntity(EntityTag::ResearchInstitute),
            title: "Tech Unlocked",
            content: "Research Institute active. Begin unlocking Development Phase 2.",
            ui_highlight: Some("ui.tech_tree"),
        },
        TooltipStep {
            trigger: TutorialTrigger::TechTreeOpened,
            title: "Research Begins",
            content: "Select a research project to unlock new buildings and capabilities.",
            ui_highlight: Some("tech_tree.initial_node"),
        },
        TooltipStep {
            trigger: TutorialTrigger::LegacyStructureUnlocked,
            title: "Legacy Awaits",
            content: "Your colony is thriving. Begin preparation for the Genesis Monument.",
            ui_highlight: Some("ui.legacy_panel"),
        },
    ]
}

/// Whether a building is of the tagged kind (the Operations Hub is no
/// building of the list).
pub open spec fn is_tagged(b: Building, tag: EntityTag) -> bool {
    match tag {
        EntityTag::OperationsHub => false,
        EntityTag::Extractor => b.variant is Extractor,
        EntityTag::BioDome => b.variant is BioDome,
        EntityTag::ResearchInstitute => b.variant is ResearchInstitute,
    }
}

/// Some building is of the tagged kind.
pub open spec fn kind_present(bs: Seq<Building>, tag: EntityTag) -> bool {
    exists|i: int| 0 <= i < bs.len() && #[trigger] is_tagged(bs[i], tag)
}

/// Some extractor is fully staffed.
pub open spec fn staffed_extractor_present(bs: Seq<Building>) -> bool {
    exists|i: int| 0 <= i < bs.len() && bs[i].variant is Extractor && #[trigger] is_fully_staffed(bs[i])
}

/// Some service of type `s` exists.
pub open spec fn service_present(bs: Seq<Building>, s: ServiceType) -> bool {
    exists|i: int|
        0 <= i < bs.len() && (#[trigger] bs[i].variant matches BuildingVariant::Service { service_type, .. }
            && service_type == s)
}

/// Whether the colony has a structure of the tagged kind.
pub open spec fn has_entity(gs: GameState, tag: EntityTag) -> bool {
    match tag {
        EntityTag::OperationsHub => gs.administrative_spire is Some,
        _ => kind_present(gs.buildings@, tag),
    }
}

/// Whether a trigger fires in the given colony.
pub open spec fn fires(t: TutorialTrigger, gs: GameState, readings: ColonyReadings) -> bool {
    match t {
        TutorialTrigger::Always => true,
        TutorialTrigger::HasEntity(tag) => has_entity(gs, tag),
        TutorialTrigger::ExtractorNeedsPower => kind_present(gs.buildings@, EntityTag::Extractor)
            && readings.power_deficit,
        TutorialTrigger::ExtractorProducing => staffed_extractor_present(gs.buildings@),
        TutorialTrigger::LacksAvailableSpecialists => gs.assigned_workforce >= gs.total_inhabitants,
        TutorialTrigger::PopulationIncreased => gs.total_inhabitants > 5,
        TutorialTrigger::HappinessBelow(threshold) => readings.happiness_points < threshold,
        TutorialTrigger::AllServicesCovered => service_present(gs.buildings@, ServiceType::Wellness)
            && service_present(gs.buildings@, ServiceType::Security),
        TutorialTrigger::TechTreeOpened => readings.research_app_open,
        TutorialTrigger::LegacyStructureUnlocked => gs.legacy_structure is Some,
    }
}

/// What each tutorial trigger waits for, stated by the kinds of building:
/// the Operations Hub is the Administrative Spire; an extractor needs power
/// while some extractor stands and power runs a deficit; an extractor
/// produces once some extractor has all the workers its tier requires;
/// services are covered once both a wellness and a security service stand.
pub proof fn law_triggers(gs: GameState, readings: ColonyReadings)
    ensures
        fires(TutorialTrigger::Always, gs, readings),
        fires(TutorialTrigger::HasEntity(EntityTag::OperationsHub), gs, readings)
            <==> gs.administrative_spire is Some,
        fires(TutorialTrigger::HasEntity(EntityTag::Extractor), gs, readings) <==> exists|i: int|
            #![trigger gs.buildings@[i]]
            0 <= i < gs.buildings@.len() && gs.buildings@[i].variant is Extractor,
        fires(TutorialTrigger::HasEntity(EntityTag::BioDome), gs, readings) <==> exists|i: int|
            #![trigger gs.buildings@[i]]
            0 <= i < gs.buildings@.len() && gs.buildings@[i].variant is BioDome,
        fires(TutorialTrigger::HasEntity(EntityTag::ResearchInstitute), gs, readings) <==> exists|i: int|
            #![trigger gs.buildings@[i]]
            0 <= i < gs.buildings@.len() && gs.buildings@[i].variant is ResearchInstitute,
        fires(TutorialTrigger::ExtractorNeedsPower, gs, readings) <==> (exists|i: int|
            #![trigger gs.buildings@[i]]
            0 <= i < gs.buildings@.len() && gs.buildings@[i].variant is Extractor) && readings.power_deficit,
        fires(TutorialTrigger::ExtractorProducing, gs, readings) <==> exists|i: int|
            #![trigger gs.buildings@[i]]
            0 <= i < gs.buildings@.len() && gs.buildings@[i].variant is Extractor
                && gs.buildings@[i].assigned_workforce >= gs.buildings@[i].variant.workforce_at(
                gs.buildings@[i].current_tier_index as int,
            ),
        fires(TutorialTrigger::LacksAvailableSpecialists, gs, readings) <==> gs.assigned_workforce
            >= gs.total_inhabitants,
        fires(TutorialTrigger::PopulationIncreased, gs, readings) <==> gs.total_inhabitants > 5,
        forall|n: u32| #[trigger] fires(TutorialTrigger::HappinessBelow(n), gs, readings) <==> readings.happiness_points < n,
        fires(TutorialTrigger::AllServicesCovered, gs, readings) <==> (exists|i: int|
            #![trigger gs.buildings@[i]]
            0 <= i < gs.buildings@.len() && gs.buildings@[i].variant matches BuildingVariant::Service {
                service_type: ServiceType::Wellness,
                ..
            }) && (exists|j: int|
            #![trigger gs.buildings@[j]]
            0 <= j < gs.buildings@.len() && gs.buildings@[j].variant matches BuildingVariant::Service {
                service_type: ServiceType::Security,
                ..
            }),
        fires(TutorialTrigger::TechTreeOpened, gs, readings) <==> readings.research_app_open,
        fires(TutorialTrigger::LegacyStructureUnlocked, gs, readings) <==> gs.legacy_structure is Some,
{
    let bs = gs.buildings@;
    assert forall|tag: EntityTag| tag != EntityTag::OperationsHub implies (kind_present(bs, tag) <==> exists|i: int|
        #![trigger bs[i]]
        0 <= i < bs.len() && is_tagged(bs[i], tag)) by {
        if kind_present(bs, tag) {
            let i = choose|i: int| 0 <= i < bs.len() && #[trigger] is_tagged(bs[i], tag);
            assert(is_tagged(bs[i], tag));
        }
        if exists|i: int| #![trigger bs[i]] 0 <= i < bs.len() && is_tagged(bs[i], tag) {
            let i = choose|i: int| #![trigger bs[i]] 0 <= i < bs.len() && is_tagged(bs[i], tag);
            assert(is_tagged(bs[i], tag));
        }
    }
    if staffed_extractor_present(bs) {
        let i = choose|i: int| 0 <= i < bs.len() && bs[i].variant is Extractor && #[trigger] is_fully_staffed(bs[i]);
        assert(bs[i].variant is Extractor);
    }
    if exists|i: int|
        #![trigger bs[i]]
        0 <= i < bs.len() && bs[i].variant is Extractor && bs[i].assigned_workforce >= bs[i].variant.workforce_at(
            bs[i].current_tier_index as int,
        ) {
        let i = choose|i: int|
            #![trigger bs[i]]
            0 <= i < bs.len() && bs[i].variant is Extractor && bs[i].assigned_workforce >= bs[i].variant.workforce_at(
                bs[i].current_tier_index as int,
            );
        assert(is_fully_staffed(bs[i]));
    }
}

fn kind_present_exec(bs: &Vec<Building>, tag: EntityTag) -> (r: bool)
    ensures
        r == kind_present(bs@, tag),
{
    let mut i: usize = 0;
    while i < bs.len()
        invariant
            i <= bs@.len(),
            forall|j: int| 0 <= j < i ==> !#[trigger] is_tagged(bs@[j], tag),
        decreases bs.len() - i,
    {
        let tagged = match tag {
            EntityTag::OperationsHub => false,
            EntityTag::Extractor => matches!(bs[i].variant, BuildingVariant::Extractor { .. }),
            EntityTag::BioDome => matches!(bs[i].variant, BuildingVariant::BioDome { .. }),
            EntityTag::ResearchInstitute => matches!(bs[i].variant, BuildingVariant::ResearchInstitute { .. }),
        };
        if tagged {
            proof {
                assert(is_tagged(bs@[i as int], tag));
            }
            return true;
        }
        i = i + 1;
    }
    false
}

fn staffed_extractor_exec(bs: &Vec<Building>) -> (r: bool)
    ensures
        r == staffed_extractor_present(bs@),
{
    let mut i: usize = 0;
    while i < bs.len()
        invariant
            i <= bs@.len(),
            forall|j: int| 0 <= j < i ==> !(bs@[j].variant is Extractor && #[trigger] is_fully_staffed(bs@[j])),
        decreases bs.len() - i,
    {
        let b = &bs[i];
        if matches!(b.variant, BuildingVariant::Extractor { .. }) {
            let requirement = match b.variant.tier_basics(b.current_tier_index) {
                Some((_, w, _)) => w,
                None => 0,
            };
            if b.assigned_workforce >= requirement {
                proof {
                    assert(is_fully_staffed(bs@[i as int]));
                }
                return true;
            }
        }
        i = i + 1;
    }
    false
}

fn service_present_exec(bs: &Vec<Building>, s: ServiceType) -> (r: bool)
    ensures
        r == service_present(bs@, s),
{
    let mut i: usize = 0;
    while i < bs.len()
        invariant
            i <= bs@.len(),
            forall|j: int|
                0 <= j < i ==> !(#[trigger] bs@[j].variant matches BuildingVariant::Service { service_type, .. }
                    && service_type == s),
        decreases bs.len() - i,
    {
        if let BuildingVariant::Service { service_type, .. } = &bs[i].variant {
            if *service_type == s {
                return true;
            }
        }
        i = i + 1;
    }
    false
}

/// Whether a trigger fires in the given colony.
pub fn trigger_fires(t: TutorialTrigger, game_state: &GameState, readings: &ColonyReadings) -> (r: bool)
    ensures
        r == fires(t, *game_state, *readings),
{
    match t {
        TutorialTrigger::Always => true,
        TutorialTrigger::HasEntity(EntityTag::OperationsHub) => game_state.administrative_spire.is_some(),
        TutorialTrigger::HasEntity(tag) => kind_present_exec(&game_state.buildings, tag),
        TutorialTrigger::ExtractorNeedsPower => kind_present_exec(&game_state.buildings, EntityTag::Extractor)
            && readings.power_deficit,
        TutorialTrigger::ExtractorProducing => staffed_extractor_exec(&game_state.buildings),
        TutorialTrigger::LacksAvailableSpecialists => game_state.assigned_workforce >= game_state.total_inhabitants,
        TutorialTrigger::PopulationIncreased => game_state.total_inhabitants > 5,
        TutorialTrigger::HappinessBelow(threshold) => readings.happiness_points < threshold,
        TutorialTrigger::AllServicesCovered => service_present_exec(&game_state.buildings, ServiceType::Wellness)
            && service_present_exec(&game_state.buildings, ServiceType::Security),
        TutorialTrigger::TechTreeOpened => readings.research_app_open,
        TutorialTrigger::LegacyStructureUnlocked => game_state.legacy_structure.is_some(),
    }
}

impl TutorialState {
    /// A tutorial at its first step, with nothing shown yet.
    pub open spec fn is_fresh(&self) -> bool {
        &&& self.current_step == 0
        &&& self.completed_steps@.len() == TUTORIAL_STEP_COUNT
        &&& forall|i: int| 0 <= i < TUTORIAL_STEP_COUNT ==> !#[trigger] self.completed_steps@[i]
    }
}

impl Default for TutorialState {
    fn default() -> (r: Self)
        ensures
            r.is_fresh(),
    {
        let steps = get_tutorial_steps();
        let mut completed_steps: Vec<bool> = Vec::new();
        let mut i: usize = 0;
        while i < steps.len()
            invariant
                i <= steps@.len(),
                steps@.len() == TUTORIAL_STEP_COUNT,
                completed_steps@.len() == i,
                forall|j: int| 0 <= j < i ==> !#[trigger] completed_steps@[j],
            decreases steps.len() - i,
        {
            completed_steps.push(false);
            i = i + 1;
        }
        TutorialState { current_step: 0, completed_steps }
    }
}

/// One check of the tutorial. When the current step's trigger fires, the
/// step is shown (its index is returned, for its title and text to go on
/// screen), marked completed, and the tutorial moves on to the next step;
/// otherwise nothing changes. Past the last step nothing happens.
pub fn check_tutorial_triggers(
    state: &mut TutorialState,
    game_state: &GameState,
    readings: &ColonyReadings,
) -> (shown: Option<usize>)
    requires
        old(state).current_step < TUTORIAL_STEP_COUNT ==> old(state).completed_steps@.len() > old(state).current_step,
    ensures
        ({
            let k = old(state).current_step as int;
            if k < TUTORIAL_STEP_COUNT && fires(step_trigger(k), *game_state, *readings) {
                &&& shown == Some(k as usize)
                &&& *final(state) == (TutorialState {
                    current_step: (k + 1) as usize,
                    completed_steps: final(state).completed_steps,
                })
                &&& final(state).completed_steps@ == old(state).completed_steps@.update(k, true)
            } else {
                &&& shown is None
                &&& *final(state) == *old(state)
            }
        }),
{
    let steps = get_tutorial_steps();
    if state.current_step >= steps.len() {
        return None;
    }
    let k = state.current_step;
    if trigger_fires(steps[k].trigger, game_state, readings) {
        state.completed_steps.set(k, true);
        state.current_step = k + 1;
        Some(k)
    } else {
        None
    }
}

} // verus!
