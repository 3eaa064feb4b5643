//! A weighted loot-roll simulator: repeated draws from a fixed table of five
//! rarities until the rarest one comes up or an attempt limit is reached.

pub mod config;
pub mod error;
pub mod lemmas;
pub mod rarity;
pub mod report;
pub mod sampler;
pub mod simulation;
pub mod tally;
