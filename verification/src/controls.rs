pub mod control;
pub mod types;
