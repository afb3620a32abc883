//! A single-owner vending inventory: an owner stocks a closed set of snack
//! kinds, anyone may take one item at a time, and only the owner may refill.

pub mod contract;
pub mod errors;
pub mod lemmas;
pub mod msg;
pub mod state;
