//! Personal voice rooms: created on joining a trigger room, handed over
//! when their owner leaves, deleted when the last person leaves.

pub mod events;
pub mod structs;
