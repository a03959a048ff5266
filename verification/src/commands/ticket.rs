//! The commands that staff invoke inside the channel of a ticket.

use vstd::prelude::*;
use crate::commands::CommandError;
use crate::config::Config;
use crate::ticket_system::desk::{is_ticket_channel, DeskView, TicketDesk};
use crate::ticket_system::structs::TicketInfo;

verus! {

/// Finds the user to whom a reply written in `channel` goes: the user of
/// the first ticket that lives there.
pub fn rep(desk: &TicketDesk, channel: i64) -> (user: Result<i64, CommandError>)
    ensures
        match user {
            Ok(user_id) => exists|i: int|
                {
                    &&& 0 <= i < desk@.tickets.len()
                    &&& (#[trigger] desk@.tickets[i]).channel_id == channel
                    &&& forall|k: int|
                        0 <= k < i ==> (#[trigger] desk@.tickets[k]).channel_id != channel
                    &&& desk@.tickets[i].user_id == user_id
                },
            Err(error) => error == CommandError::NotFound && !is_ticket_channel(
                desk@.tickets,
                channel,
            ),
        },
{
    match desk.find_channel(channel) {
        Some(at) => match desk.ticket(at) {
            Some(ticket) => Ok(ticket.user_id),
            None => Err(CommandError::NotFound),
        },
        None => Err(CommandError::NotFound),
    }
}

/// Closes the ticket that lives in `channel`, on behalf of a member whose
/// roles are `roles`, and hands it over for the transcript.
///
/// Only the staff may close. Once closed, the ticket is off the desk: the
/// next message of its user starts a new conversation.
pub fn close(desk: &mut TicketDesk, config: &Config, roles: &Vec<u64>, channel: i64) -> (closed:
    Result<TicketInfo, CommandError>)
    requires
        old(desk).wf(),
    ensures
        final(desk).wf(),
        match closed {
            Ok(ticket) => roles@.contains(config.roles.staff_role_id) && exists|i: int|
                {
                    &&& 0 <= i < old(desk)@.tickets.len()
                    &&& (#[trigger] old(desk)@.tickets[i]).channel_id == channel
                    &&& forall|k: int|
                        0 <= k < i ==> (#[trigger] old(desk)@.tickets[k]).channel_id != channel
                    &&& ticket@ == old(desk)@.tickets[i]
                    &&& final(desk)@ == (DeskView {
                        tickets: old(desk)@.tickets.remove(i),
                        ..old(desk)@
                    })
                },
            Err(error) => final(desk)@ == old(desk)@ && error == (if !roles@.contains(
                config.roles.staff_role_id,
            ) {
                CommandError::PermissionDenied
            } else {
                CommandError::NotFound
            }) && (error == CommandError::NotFound ==> !is_ticket_channel(
                old(desk)@.tickets,
                channel,
            )),
        },
{
    if !config.is_staff(roles) {
        return Err(CommandError::PermissionDenied);
    }
    match desk.close_channel(channel) {
        Some(ticket) => Ok(ticket),
        None => Err(CommandError::NotFound),
    }
}

/// Decides whether `channel` may be renamed: only the channel of a ticket.
pub fn rename(desk: &TicketDesk, channel: i64) -> (allowed: Result<(), CommandError>)
    ensures
        allowed == (if is_ticket_channel(desk@.tickets, channel) {
            Ok::<(), CommandError>(())
        } else {
            Err::<(), CommandError>(CommandError::NotFound)
        }),
{
    match desk.find_channel(channel) {
        Some(_) => Ok(()),
        None => Err(CommandError::NotFound),
    }
}

} // verus!
