//! The profile card of a member.

use vstd::prelude::*;
use crate::config::Config;
use crate::ticket_system::desk::{blacklisted, TicketDesk};

verus! {

/// What the profile card says of a member.
#[derive(Debug, Clone, Copy, PartialEq, Eq, Structural)]
pub struct Standing {
    pub is_staff: bool,
    pub is_client: bool,
    pub is_blacklisted: bool,
}

/// Reads the standing of the member `user`, who has the roles `roles`.
pub fn profil(desk: &TicketDesk, config: &Config, roles: &Vec<u64>, user: i64) -> (standing:
    Standing)
    ensures
        standing.is_staff == roles@.contains(config.roles.staff_role_id),
        standing.is_client == roles@.contains(config.roles.client_role_id),
        standing.is_blacklisted == blacklisted(desk@.blacklist, user),
{
    Standing {
        is_staff: config.is_staff(roles),
        is_client: config.is_client(roles),
        is_blacklisted: desk.is_blacklisted(user),
    }
}

} // verus!
