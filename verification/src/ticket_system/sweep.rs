//! The idle sweep: tickets left silent are reminded once, then closed.

use vstd::prelude::*;
use crate::ticket_system::desk::{one_ticket_each, DeskView, TicketDesk};
use crate::ticket_system::structs::TicketView;

verus! {

/// Seconds of silence after which a ticket is closed: 48 hours.
pub const CLOSE_AFTER: i64 = 172800;

/// Seconds of silence after which its user is reminded: 24 hours.
pub const REMIND_AFTER: i64 = 86400;

/// What the sweep asks for, for one ticket.
#[derive(Debug, Clone, Copy, PartialEq, Eq, Structural)]
pub enum IdleAction {
    /// The ticket was closed: delete its channel and tell its user.
    Close { user_id: i64, channel_id: i64 },
    /// The ticket was marked reminded: remind its user.
    Remind { user_id: i64 },
}

/// The seconds since the last message of the ticket's user.
pub open spec fn idle_for(ticket: TicketView, now: i64) -> int {
    now - ticket.last_activity
}

/// The ticket has been silent for longer than `CLOSE_AFTER`.
pub open spec fn overdue(ticket: TicketView, now: i64) -> bool {
    idle_for(ticket, now) > CLOSE_AFTER
}

/// The ticket is not overdue, has been silent for longer than
/// `REMIND_AFTER`, and its user was not reminded yet.
pub open spec fn needs_reminder(ticket: TicketView, now: i64) -> bool {
    !overdue(ticket, now) && idle_for(ticket, now) > REMIND_AFTER && !ticket.has_been_reminded
}

/// The same ticket, marked reminded.
pub open spec fn reminded(ticket: TicketView) -> TicketView {
    TicketView { has_been_reminded: true, ..ticket }
}

/// The tickets after a sweep at `now`: the overdue ones are gone, those
/// that needed a reminder are marked, the others are as before.
pub open spec fn after_idle_sweep(tickets: Seq<TicketView>, now: i64) -> Seq<TicketView>
    decreases tickets.len(),
{
    if tickets.len() == 0 {
        Seq::<TicketView>::empty()
    } else {
        let earlier = after_idle_sweep(tickets.drop_last(), now);
        if overdue(tickets.last(), now) {
            earlier
        } else if needs_reminder(tickets.last(), now) {
            earlier.push(reminded(tickets.last()))
        } else {
            earlier.push(tickets.last())
        }
    }
}

/// What a sweep at `now` asks for, in the order of the tickets.
pub open spec fn idle_actions(tickets: Seq<TicketView>, now: i64) -> Seq<IdleAction>
    decreases tickets.len(),
{
    if tickets.len() == 0 {
        Seq::<IdleAction>::empty()
    } else {
        let earlier = idle_actions(tickets.drop_last(), now);
        if overdue(tickets.last(), now) {
            earlier.push(
                IdleAction::Close {
                    user_id: tickets.last().user_id,
                    channel_id: tickets.last().channel_id,
                },
            )
        } else if needs_reminder(tickets.last(), now) {
            earlier.push(IdleAction::Remind { user_id: tickets.last().user_id })
        } else {
            earlier
        }
    }
}

impl TicketDesk {
    /// Runs the idle sweep at `now`.
    ///
    /// A ticket silent for more than 48 hours is closed, reminded or not. A
    /// ticket silent for more than 24 hours whose user was not reminded is
    /// marked reminded. The actions come in the order of the tickets.
    pub fn idle_sweep(&mut self, now: i64) -> (actions: Vec<IdleAction>)
        requires
            old(self).wf(),
        ensures
            final(self).wf(),
            final(self)@ == (DeskView {
                tickets: after_idle_sweep(old(self)@.tickets, now),
                ..old(self)@
            }),
            actions@ == idle_actions(old(self)@.tickets, now),
    {
        let mut actions: Vec<IdleAction> = Vec::new();
        let mut i: usize = 0;
        let ghost before = self@.tickets;
        let ghost mut k: int = 0;
        proof {
            self.lemma_view();
            assert(before.take(0) =~= Seq::<TicketView>::empty());
            assert(before.skip(0) =~= before);
        }
        while i < self.tickets.len()
            invariant
                before == old(self)@.tickets,
                0 <= k <= before.len(),
                i == after_idle_sweep(before.take(k), now).len(),
                self@.tickets =~= after_idle_sweep(before.take(k), now) + before.skip(k),
                self@.tickets.len() == self.tickets@.len(),
                one_ticket_each(self@.tickets),
                self@.blacklist == old(self)@.blacklist,
                self@.counts == old(self)@.counts,
                self@.states == old(self)@.states,
                actions@ == idle_actions(before.take(k), now),
            decreases self.tickets@.len() - i,
        {
            let ghost current = self@.tickets;
            proof {
                self.lemma_view();
                let prefix = before.take(k + 1);
                assert(prefix.drop_last() =~= before.take(k));
                assert(prefix.last() == before[k]);
                assert(current[i as int] == before.skip(k)[0]);
                assert(before.skip(k + 1) =~= before.skip(k).skip(1));
            }
            let idle: i128 = now as i128 - self.tickets[i].last_activity as i128;
            if idle > CLOSE_AFTER as i128 {
                actions.push(
                    IdleAction::Close {
                        user_id: self.tickets[i].user_id,
                        channel_id: self.tickets[i].channel_id,
                    },
                );
                self.tickets.remove(i);
                proof {
                    self.lemma_view();
                    assert(self@.tickets =~= current.remove(i as int));
                    assert(self@.blacklist =~= old(self)@.blacklist);
                    assert(self@.states =~= old(self)@.states);
                    assert forall|a: int, b: int|
                        0 <= a < self@.tickets.len() && 0 <= b < self@.tickets.len() && a
                            != b implies (#[trigger] self@.tickets[a]).user_id != (
                    #[trigger] self@.tickets[b]).user_id by {
                        let ca = if a < i { a } else { a + 1 };
                        let cb = if b < i { b } else { b + 1 };
                        assert(self@.tickets[a] == current[ca]);
                        assert(self@.tickets[b] == current[cb]);
                    }
                }
            } else {
                if idle > REMIND_AFTER as i128 && !self.tickets[i].has_been_reminded {
                    actions.push(IdleAction::Remind { user_id: self.tickets[i].user_id });
                    self.tickets[i].has_been_reminded = true;
                }
                proof {
                    self.lemma_view();
                    let kept = if needs_reminder(before[k], now) {
                        reminded(before[k])
                    } else {
                        before[k]
                    };
                    assert(self@.tickets =~= current.update(i as int, kept));
                    assert(self@.blacklist =~= old(self)@.blacklist);
                    assert(self@.states =~= old(self)@.states);
                    assert forall|a: int, b: int|
                        0 <= a < self@.tickets.len() && 0 <= b < self@.tickets.len() && a
                            != b implies (#[trigger] self@.tickets[a]).user_id != (
                    #[trigger] self@.tickets[b]).user_id by {
                        assert(self@.tickets[a].user_id == current[a].user_id);
                        assert(self@.tickets[b].user_id == current[b].user_id);
                    }
                }
                i = i + 1;
            }
            proof {
                k = k + 1;
            }
        }
        proof {
            self.lemma_view();
            assert(before.take(k) =~= before);
        }
        actions
    }
}

/// Runs the idle sweep of `desk` at `now`.
pub fn check_inactive_tickets(desk: &mut TicketDesk, now: i64) -> (actions: Vec<IdleAction>)
    requires
        old(desk).wf(),
    ensures
        final(desk).wf(),
        final(desk)@ == (DeskView {
            tickets: after_idle_sweep(old(desk)@.tickets, now),
            ..old(desk)@
        }),
        actions@ == idle_actions(old(desk)@.tickets, now),
{
    desk.idle_sweep(now)
}

} // verus!
