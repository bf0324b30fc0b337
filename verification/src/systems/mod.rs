pub mod research;
