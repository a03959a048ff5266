//! Bulk deletion of messages and the ticket blacklist.

use vstd::prelude::*;
use crate::commands::CommandError;
use crate::config::Config;
use crate::ticket_system::desk::{blacklisted, DeskView, TicketDesk};
use crate::ticket_system::structs::BlacklistView;

verus! {

/// The most messages that one bulk deletion takes.
pub const CLEAR_LIMIT: u64 = 99;

/// Decides how many of the latest messages a bulk deletion fetches.
///
/// Only the staff may delete, and only 1 to 99 messages at a time.
pub fn clear(config: &Config, roles: &Vec<u64>, amount: u64) -> (limit: Result<u8, CommandError>)
    ensures
        limit == (if !roles@.contains(config.roles.staff_role_id) {
            Err::<u8, CommandError>(CommandError::PermissionDenied)
        } else if amount < 1 || amount > CLEAR_LIMIT {
            Err::<u8, CommandError>(CommandError::Validation)
        } else {
            Ok::<u8, CommandError>(amount as u8)
        }),
{
    if !config.is_staff(roles) {
        Err(CommandError::PermissionDenied)
    } else if amount < 1 || amount > CLEAR_LIMIT {
        Err(CommandError::Validation)
    } else {
        Ok(amount as u8)
    }
}

/// What became of a request to bar a user.
#[derive(Debug, Clone, Copy, PartialEq, Eq, Structural)]
pub enum BarOutcome {
    /// The invoker does not belong to the staff.
    Denied,
    /// The user is barred now.
    Added,
    /// The user was barred already; the earlier entry stands.
    AlreadyBarred,
}

/// Bars `user` from opening tickets, at `now`, for `reason`, on behalf of
/// the staff member `by_staff` whose roles are `roles`.
pub fn blticket(
    desk: &mut TicketDesk,
    config: &Config,
    roles: &Vec<u64>,
    user: i64,
    reason: String,
    by_staff: i64,
    now: i64,
) -> (outcome: BarOutcome)
    requires
        old(desk).wf(),
    ensures
        final(desk).wf(),
        outcome == (if !roles@.contains(config.roles.staff_role_id) {
            BarOutcome::Denied
        } else if blacklisted(old(desk)@.blacklist, user) {
            BarOutcome::AlreadyBarred
        } else {
            BarOutcome::Added
        }),
        final(desk)@ == (if outcome == BarOutcome::Added {
            DeskView {
                blacklist: old(desk)@.blacklist.push(
                    BlacklistView { user_id: user, reason: reason@, by_staff, date: now },
                ),
                ..old(desk)@
            }
        } else {
            old(desk)@
        }),
{
    if !config.is_staff(roles) {
        BarOutcome::Denied
    } else if desk.bar(user, reason, by_staff, now) {
        BarOutcome::Added
    } else {
        BarOutcome::AlreadyBarred
    }
}

/// What became of a request to lift the bar on a user.
#[derive(Debug, Clone, Copy, PartialEq, Eq, Structural)]
pub enum UnbarOutcome {
    /// The invoker does not belong to the staff.
    Denied,
    /// The bar is lifted.
    Removed,
    /// The user was not barred.
    WasNotBarred,
}

/// Lifts the bar on `user`, on behalf of a staff member whose roles are
/// `roles`. Afterwards the user is not barred, whoever was before.
pub fn unblticket(desk: &mut TicketDesk, config: &Config, roles: &Vec<u64>, user: i64) -> (outcome:
    UnbarOutcome)
    requires
        old(desk).wf(),
    ensures
        final(desk).wf(),
        outcome == (if !roles@.contains(config.roles.staff_role_id) {
            UnbarOutcome::Denied
        } else if blacklisted(old(desk)@.blacklist, user) {
            UnbarOutcome::Removed
        } else {
            UnbarOutcome::WasNotBarred
        }),
        outcome != UnbarOutcome::Removed ==> final(desk)@ == old(desk)@,
        outcome == UnbarOutcome::Removed ==> !blacklisted(final(desk)@.blacklist, user)
            && exists|i: int|
            0 <= i < old(desk)@.blacklist.len() && (#[trigger] old(desk)@.blacklist[i]).user_id
                == user && final(desk)@ == (DeskView {
                blacklist: old(desk)@.blacklist.remove(i),
                ..old(desk)@
            }),
{
    if !config.is_staff(roles) {
        UnbarOutcome::Denied
    } else if desk.unbar(user) {
        UnbarOutcome::Removed
    } else {
        UnbarOutcome::WasNotBarred
    }
}

} // verus!
