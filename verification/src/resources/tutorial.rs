//! The tutorial's steps and progress, as the game's resources hold them;
//! the tutorial itself is defined in `first_hour_tooltips`.

pub use crate::first_hour_tooltips::{get_tutorial_steps, TooltipStep, TutorialState};
