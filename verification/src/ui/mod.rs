pub mod colony_status;
pub mod dashboard;
pub mod research;
