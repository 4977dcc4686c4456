//! A store that holds at most one value of each resource type, hands out
//! shared and exclusive handles that are checked when they are taken, and a
//! small protocol by which a system names the handles it needs.

pub mod system;
pub mod world;
