use vstd::prelude::*;
use crate::game_state::GameState;

verus! {

/// The needs the colony status panel reports on.
#[derive(Debug, Clone, Copy, PartialEq, Eq, Structural)]
pub enum DiagnosticType {
    NutrientPaste,
    Housing,
    Healthcare,
    Security,
    Recreation,
    Education,
}

/// The population's state, as the status panel sums it up.
#[derive(Debug, Clone, Copy, PartialEq, Eq, Structural)]
pub enum PopulationStatus {
    NoFood,
    NoHousing,
    Unhappy,
    Growing,
}

/// What keeps the population from growing, the first that applies: food,
/// then housing, then happiness (`happy`: happiness above fifty).
pub fn population_status(game_state: &GameState, happy: bool) -> (r: PopulationStatus)
    ensures
        r == if !game_state.simulated_has_sufficient_nutrient_paste {
            PopulationStatus::NoFood
        } else if !(game_state.total_inhabitants < game_state.available_housing_capacity) {
            PopulationStatus::NoHousing
        } else if !happy {
            PopulationStatus::Unhappy
        } else {
            PopulationStatus::Growing
        },
{
    if !game_state.simulated_has_sufficient_nutrient_paste {
        PopulationStatus::NoFood
    } else if !(game_state.total_inhabitants < game_state.available_housing_capacity) {
        PopulationStatus::NoHousing
    } else if !happy {
        PopulationStatus::Unhappy
    } else {
        PopulationStatus::Growing
    }
}

/// Whether a need is met: nutrient paste in surplus, fewer inhabitants than
/// homes; the services are reported as met.
pub fn diagnostic_ok(game_state: &GameState, diagnostic: DiagnosticType) -> (r: bool)
    ensures
        r == match diagnostic {
            DiagnosticType::NutrientPaste => game_state.simulated_has_sufficient_nutrient_paste,
            DiagnosticType::Housing => game_state.available_housing_capacity > 0
                && game_state.total_inhabitants < game_state.available_housing_capacity,
            _ => true,
        },
{
    match diagnostic {
        DiagnosticType::NutrientPaste => game_state.simulated_has_sufficient_nutrient_paste,
        DiagnosticType::Housing => game_state.available_housing_capacity > 0
            && game_state.total_inhabitants < game_state.available_housing_capacity,
        _ => true,
    }
}

} // verus!
