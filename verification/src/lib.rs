//! Nexus Core colony management: the rules of the colony simulation
//! (construction, upgrades, workforce, civic bookkeeping, landmarks,
//! research and tutorial progression), with their contracts.

pub mod components;
pub mod game_state;
pub mod systems;
pub mod first_hour_tooltips;
pub mod alerts;
pub mod resources;
pub mod ui;
