//! Timed giveaways: creation, entries, the resolution sweep and the draw.

pub mod draw;
pub mod duration;
pub mod events;
pub mod laws;
pub mod store;
pub mod structs;
