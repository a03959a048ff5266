//! The settings read once at startup.

use vstd::prelude::*;
use crate::ticket_system::structs::TicketCategory;

verus! {

/// The roles that the assistant knows.
#[derive(Debug, Clone)]
pub struct Roles {
    pub staff_role_id: u64,
    pub client_role_id: u64,
}

/// The channels that the assistant writes to or watches.
#[derive(Debug, Clone)]
pub struct Channels {
    pub log_channel_id: u64,
    pub jtc_channel_ids: Vec<u64>,
    pub voice_log_channel_id: u64,
    pub giveaway_log_channel_id: u64,
}

/// The containers under which channels are created.
#[derive(Debug, Clone)]
pub struct Categories {
    pub partnership: u64,
    pub recruitment: u64,
    pub support: u64,
    pub other: u64,
    pub voice_category_id: u64,
}

/// All the settings.
#[derive(Debug, Clone)]
pub struct Config {
    pub roles: Roles,
    pub channels: Channels,
    pub categories: Categories,
}

impl Categories {
    /// The container of the tickets of one category.
    pub open spec fn container(self, category: TicketCategory) -> u64 {
        match category {
            TicketCategory::Partnership => self.partnership,
            TicketCategory::Recruitment => self.recruitment,
            TicketCategory::Support => self.support,
            TicketCategory::Other => self.other,
        }
    }

    /// The container under which the channel of a ticket is created.
    pub fn container_of(&self, category: TicketCategory) -> (container: u64)
        ensures
            container == self.container(category),
    {
        match category {
            TicketCategory::Partnership => self.partnership,
            TicketCategory::Recruitment => self.recruitment,
            TicketCategory::Support => self.support,
            TicketCategory::Other => self.other,
        }
    }
}

/// Tells whether `id` is among `ids`.
pub fn contains_id(ids: &Vec<u64>, id: u64) -> (yes: bool)
    ensures
        yes == ids@.contains(id),
{
    let mut i: usize = 0;
    while i < ids.len()
        invariant
            i <= ids@.len(),
            forall|k: int| 0 <= k < i ==> ids@[k] != id,
        decreases ids@.len() - i,
    {
        if ids[i] == id {
            return true;
        }
        i = i + 1;
    }
    false
}

impl Config {
    /// Tells whether a member with these roles belongs to the staff.
    pub fn is_staff(&self, roles: &Vec<u64>) -> (yes: bool)
        ensures
            yes == roles@.contains(self.roles.staff_role_id),
    {
        contains_id(roles, self.roles.staff_role_id)
    }

    /// Tells whether a member with these roles is a client.
    pub fn is_client(&self, roles: &Vec<u64>) -> (yes: bool)
        ensures
            yes == roles@.contains(self.roles.client_role_id),
    {
        contains_id(roles, self.roles.client_role_id)
    }

    /// Tells whether joining `channel` calls for a personal voice room.
    pub fn is_trigger_channel(&self, channel: u64) -> (yes: bool)
        ensures
            yes == self.channels.jtc_channel_ids@.contains(channel),
    {
        contains_id(&self.channels.jtc_channel_ids, channel)
    }
}

} // verus!
