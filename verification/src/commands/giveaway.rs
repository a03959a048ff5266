//! The giveaway panel.

use vstd::prelude::*;
use crate::commands::CommandError;
use crate::config::Config;

verus! {

/// Decides whether a member with these roles is shown the giveaway panel:
/// the staff only.
pub fn giveaway(config: &Config, roles: &Vec<u64>) -> (panel: Result<(), CommandError>)
    ensures
        panel == (if roles@.contains(config.roles.staff_role_id) {
            Ok::<(), CommandError>(())
        } else {
            Err::<(), CommandError>(CommandError::PermissionDenied)
        }),
{
    if config.is_staff(roles) {
        Ok(())
    } else {
        Err(CommandError::PermissionDenied)
    }
}

} // verus!
