//! The data of the voice flow.

use std::collections::HashMap;
use vstd::prelude::*;

verus! {

/// The rooms that the assistant created, each with its owner.
#[derive(Debug)]
pub struct VoiceStore {
    pub channels: HashMap<u64, u64>,
}

impl View for VoiceStore {
    type V = Map<u64, u64>;

    open spec fn view(&self) -> Map<u64, u64> {
        self.channels@
    }
}

impl VoiceStore {
    /// A store without rooms.
    pub fn new() -> (store: VoiceStore)
        ensures
            store@ == Map::<u64, u64>::empty(),
    {
        VoiceStore { channels: HashMap::new() }
    }
}

impl Default for VoiceStore {
    fn default() -> (store: VoiceStore)
        ensures
            store@ == Map::<u64, u64>::empty(),
    {
        VoiceStore::new()
    }
}

/// Someone present in a voice room.
#[derive(Debug, Clone, Copy, PartialEq, Eq, Structural)]
pub struct Occupant {
    pub user_id: u64,
    pub is_bot: bool,
}

} // verus!
