//! Support tickets: intake conversation, records and the idle sweep.

pub mod desk;
pub mod events;
pub mod laws;
pub mod structs;
pub mod sweep;
pub mod transcript;
