//! The decisions behind the commands that members and staff invoke.

pub mod giveaway;
pub mod info;
pub mod moderation;
pub mod profile;
pub mod ticket;

use vstd::prelude::*;

verus! {

/// Why a command was not carried out. The invoker is told privately, and
/// nothing was changed.
#[derive(Debug, Clone, Copy, PartialEq, Eq, Structural)]
pub enum CommandError {
    /// The invoker does not belong to the staff.
    PermissionDenied,
    /// An argument is out of range.
    Validation,
    /// The channel is no active ticket.
    NotFound,
}

} // verus!
