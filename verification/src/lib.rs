pub mod client;
pub mod dto;
pub mod fixtures;
pub mod generate;
pub mod laws;
pub mod random;
pub mod state;
