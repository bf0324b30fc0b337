pub mod population;
pub mod tutorial;
