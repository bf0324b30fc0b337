pub mod building;
