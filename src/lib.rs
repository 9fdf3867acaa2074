//! A name registry: names map to owners, registering a name costs a
//! configured price, and an owner can hand a name on for the price it carries.

pub mod coin;
pub mod contract;
pub mod error;
pub mod laws;
pub mod msg;
pub mod name;
pub mod state;
