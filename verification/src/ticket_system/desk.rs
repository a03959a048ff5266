//! The ticket desk: the open tickets, the blacklist, the per-category
//! counters and the conversations under way.

use std::collections::HashMap;
use vstd::prelude::*;
use crate::ticket_system::structs::{
    BlacklistEntry, BlacklistView, TicketCounts, TicketInfo, TicketState, TicketStateView,
    TicketView,
};

verus! {

/// The desk as contracts see it.
pub struct DeskView {
    /// The open tickets, oldest first.
    pub tickets: Seq<TicketView>,
    /// The blacklist, oldest entry first.
    pub blacklist: Seq<BlacklistView>,
    /// The tickets ever opened, by category.
    pub counts: TicketCounts,
    /// The conversation state of each user who has one.
    pub states: Map<i64, TicketStateView>,
}

/// Some ticket of `tickets` belongs to `user`.
pub open spec fn has_ticket(tickets: Seq<TicketView>, user: i64) -> bool {
    exists|i: int| 0 <= i < tickets.len() && (#[trigger] tickets[i]).user_id == user
}

/// Some ticket of `tickets` lives in `channel`.
pub open spec fn is_ticket_channel(tickets: Seq<TicketView>, channel: i64) -> bool {
    exists|i: int| 0 <= i < tickets.len() && (#[trigger] tickets[i]).channel_id == channel
}

/// Some entry of `entries` bars `user`.
pub open spec fn blacklisted(entries: Seq<BlacklistView>, user: i64) -> bool {
    exists|i: int| 0 <= i < entries.len() && (#[trigger] entries[i]).user_id == user
}

/// No user has two tickets.
pub open spec fn one_ticket_each(tickets: Seq<TicketView>) -> bool {
    forall|i: int, j: int|
        0 <= i < tickets.len() && 0 <= j < tickets.len() && i != j ==> (#[trigger] tickets[i]).user_id
            != (#[trigger] tickets[j]).user_id
}

/// No user is barred twice.
pub open spec fn one_entry_each(entries: Seq<BlacklistView>) -> bool {
    forall|i: int, j: int|
        0 <= i < entries.len() && 0 <= j < entries.len() && i != j ==> (#[trigger] entries[i]).user_id
            != (#[trigger] entries[j]).user_id
}

/// The ticket desk.
pub struct TicketDesk {
    pub(crate) tickets: Vec<TicketInfo>,
    pub(crate) blacklist: Vec<BlacklistEntry>,
    pub(crate) counts: TicketCounts,
    pub(crate) states: HashMap<i64, TicketState>,
}

impl View for TicketDesk {
    type V = DeskView;

    closed spec fn view(&self) -> DeskView {
        DeskView {
            tickets: Seq::new(self.tickets@.len(), |i: int| self.tickets@[i]@),
            blacklist: Seq::new(self.blacklist@.len(), |i: int| self.blacklist@[i]@),
            counts: self.counts,
            states: self.states@.map_values(|state: TicketState| state@),
        }
    }
}

impl TicketDesk {
    /// What the desk must always satisfy: no user has two tickets, and no
    /// user is barred twice.
    pub open spec fn wf(&self) -> bool {
        &&& one_ticket_each(self@.tickets)
        &&& one_entry_each(self@.blacklist)
    }

    /// The view read off the fields.
    pub(crate) proof fn lemma_view(&self)
        ensures
            self@.tickets.len() == self.tickets@.len(),
            forall|i: int| 0 <= i < self.tickets@.len() ==> self@.tickets[i] == self.tickets@[i]@,
            self@.blacklist.len() == self.blacklist@.len(),
            forall|i: int|
                0 <= i < self.blacklist@.len() ==> self@.blacklist[i] == self.blacklist@[i]@,
            self@.counts == self.counts,
            self@.states.dom() == self.states@.dom(),
            forall|user: i64| #[trigger]
                self.states@.contains_key(user) ==> self@.states[user] == self.states@[user]@,
    {
        assert(self@.states.dom() =~= self.states@.dom());
    }

    /// A desk without tickets, entries or conversations, its counters at 0.
    pub fn new() -> (desk: TicketDesk)
        ensures
            desk.wf(),
            desk@.tickets == Seq::<TicketView>::empty(),
            desk@.blacklist == Seq::<BlacklistView>::empty(),
            desk@.counts == (TicketCounts { partnership: 0, recruitment: 0, support: 0, other: 0 }),
            desk@.states == Map::<i64, TicketStateView>::empty(),
    {
        let desk = TicketDesk {
            tickets: Vec::new(),
            blacklist: Vec::new(),
            counts: TicketCounts { partnership: 0, recruitment: 0, support: 0, other: 0 },
            states: HashMap::new(),
        };
        proof {
            assert(desk@.tickets =~= Seq::<TicketView>::empty());
            assert(desk@.blacklist =~= Seq::<BlacklistView>::empty());
            assert(desk@.states =~= Map::<i64, TicketStateView>::empty());
        }
        desk
    }

    /// The place of the ticket of `user`.
    pub fn find_user(&self, user: i64) -> (place: Option<usize>)
        ensures
            match place {
                Some(at) => at < self@.tickets.len() && self@.tickets[at as int].user_id == user,
                None => !has_ticket(self@.tickets, user),
            },
    {
        let mut i: usize = 0;
        while i < self.tickets.len()
            invariant
                i <= self.tickets@.len(),
                forall|k: int| 0 <= k < i ==> (#[trigger] self@.tickets[k]).user_id != user,
            decreases self.tickets@.len() - i,
        {
            if self.tickets[i].user_id == user {
                return Some(i);
            }
            i = i + 1;
        }
        None
    }

    /// The place of the first ticket that lives in `channel`.
    pub fn find_channel(&self, channel: i64) -> (place: Option<usize>)
        ensures
            match place {
                Some(at) => {
                    &&& at < self@.tickets.len()
                    &&& self@.tickets[at as int].channel_id == channel
                    &&& forall|k: int|
                        0 <= k < at ==> (#[trigger] self@.tickets[k]).channel_id != channel
                },
                None => !is_ticket_channel(self@.tickets, channel),
            },
    {
        let mut i: usize = 0;
        while i < self.tickets.len()
            invariant
                i <= self.tickets@.len(),
                forall|k: int| 0 <= k < i ==> (#[trigger] self@.tickets[k]).channel_id != channel,
            decreases self.tickets@.len() - i,
        {
            if self.tickets[i].channel_id == channel {
                return Some(i);
            }
            i = i + 1;
        }
        None
    }

    /// The place of the entry that bars `user`.
    pub fn find_barred(&self, user: i64) -> (place: Option<usize>)
        ensures
            match place {
                Some(at) => at < self@.blacklist.len() && self@.blacklist[at as int].user_id
                    == user,
                None => !blacklisted(self@.blacklist, user),
            },
    {
        let mut i: usize = 0;
        while i < self.blacklist.len()
            invariant
                i <= self.blacklist@.len(),
                forall|k: int| 0 <= k < i ==> (#[trigger] self@.blacklist[k]).user_id != user,
            decreases self.blacklist@.len() - i,
        {
            if self.blacklist[i].user_id == user {
                return Some(i);
            }
            i = i + 1;
        }
        None
    }

    /// Tells whether `user` is barred from opening tickets.
    pub fn is_blacklisted(&self, user: i64) -> (yes: bool)
        ensures
            yes == blacklisted(self@.blacklist, user),
    {
        self.find_barred(user).is_some()
    }

    /// The number of open tickets.
    pub fn ticket_count(&self) -> (n: usize)
        ensures
            n == self@.tickets.len(),
    {
        self.tickets.len()
    }

    /// The ticket at `place`, oldest first; `None` beyond the last.
    pub fn ticket(&self, place: usize) -> (ticket: Option<&TicketInfo>)
        ensures
            match ticket {
                Some(found) => place < self@.tickets.len() && found@ == self@.tickets[place as int],
                None => place >= self@.tickets.len(),
            },
    {
        if place < self.tickets.len() {
            Some(&self.tickets[place])
        } else {
            None
        }
    }

    /// The tickets ever opened, by category.
    pub fn counts(&self) -> (counts: TicketCounts)
        ensures
            counts == self@.counts,
    {
        self.counts
    }
    /// Closes the first ticket that lives in `channel`: takes it off the
    /// desk and hands it over. `None`, and nothing changed, where no ticket
    /// lives there.
    pub fn close_channel(&mut self, channel: i64) -> (closed: Option<TicketInfo>)
        requires
            old(self).wf(),
        ensures
            final(self).wf(),
            match closed {
                Some(ticket) => exists|i: int|
                    {
                        &&& 0 <= i < old(self)@.tickets.len()
                        &&& (#[trigger] old(self)@.tickets[i]).channel_id == channel
                        &&& forall|k: int|
                            0 <= k < i ==> (#[trigger] old(self)@.tickets[k]).channel_id != channel
                        &&& ticket@ == old(self)@.tickets[i]
                        &&& final(self)@ == (DeskView {
                            tickets: old(self)@.tickets.remove(i),
                            ..old(self)@
                        })
                    },
                None => !is_ticket_channel(old(self)@.tickets, channel) && final(self)@ == old(
                    self,
                )@,
            },
    {
        match self.find_channel(channel) {
            Some(at) => {
                let ticket = self.tickets.remove(at);
                proof {
                    assert(self@.tickets =~= old(self)@.tickets.remove(at as int));
                    assert(self@.blacklist =~= old(self)@.blacklist);
                    assert(self@.states =~= old(self)@.states);
                    assert(old(self)@.tickets[at as int].channel_id == channel);
                }
                Some(ticket)
            },
            None => None,
        }
    }

    /// Bars `user` from opening tickets. `false`, and nothing changed, where
    /// they were barred already.
    pub fn bar(&mut self, user: i64, reason: String, by_staff: i64, date: i64) -> (added: bool)
        requires
            old(self).wf(),
        ensures
            final(self).wf(),
            added == !blacklisted(old(self)@.blacklist, user),
            added ==> final(self)@ == (DeskView {
                blacklist: old(self)@.blacklist.push(
                    BlacklistView { user_id: user, reason: reason@, by_staff, date },
                ),
                ..old(self)@
            }),
            !added ==> final(self)@ == old(self)@,
    {
        if self.is_blacklisted(user) {
            return false;
        }
        let entry = BlacklistEntry { user_id: user, reason, by_staff, date };
        self.blacklist.push(entry);
        proof {
            assert(self@.blacklist =~= old(self)@.blacklist.push(entry@));
            assert(self@.tickets =~= old(self)@.tickets);
            assert(self@.states =~= old(self)@.states);
        }
        true
    }

    /// Lifts the bar on `user`. `false`, and nothing changed, where they
    /// were not barred.
    pub fn unbar(&mut self, user: i64) -> (removed: bool)
        requires
            old(self).wf(),
        ensures
            final(self).wf(),
            removed == blacklisted(old(self)@.blacklist, user),
            !blacklisted(final(self)@.blacklist, user),
            removed ==> exists|i: int|
                0 <= i < old(self)@.blacklist.len() && (#[trigger] old(self)@.blacklist[i]).user_id
                    == user && final(self)@ == (DeskView {
                    blacklist: old(self)@.blacklist.remove(i),
                    ..old(self)@
                }),
            !removed ==> final(self)@ == old(self)@,
    {
        match self.find_barred(user) {
            Some(at) => {
                self.blacklist.remove(at);
                proof {
                    assert(self@.blacklist =~= old(self)@.blacklist.remove(at as int));
                    assert(self@.tickets =~= old(self)@.tickets);
                    assert(self@.states =~= old(self)@.states);
                    assert(old(self)@.blacklist[at as int].user_id == user);
                    assert forall|k: int| 0 <= k < self@.blacklist.len() implies (
                    #[trigger] self@.blacklist[k]).user_id != user by {
                        if k < at {
                            assert(self@.blacklist[k] == old(self)@.blacklist[k]);
                        } else {
                            assert(self@.blacklist[k] == old(self)@.blacklist[k + 1]);
                        }
                    }
                }
                true
            },
            None => false,
        }
    }
    /// Puts back a ticket read from durable storage. `false`, and nothing
    /// changed, where its user has a ticket on the desk already.
    pub fn restore(&mut self, ticket: TicketInfo) -> (added: bool)
        requires
            old(self).wf(),
        ensures
            final(self).wf(),
            added == !has_ticket(old(self)@.tickets, ticket.user_id),
            final(self)@ == (if added {
                DeskView { tickets: old(self)@.tickets.push(ticket@), ..old(self)@ }
            } else {
                old(self)@
            }),
    {
        if self.find_user(ticket.user_id).is_some() {
            return false;
        }
        self.tickets.push(ticket);
        proof {
            assert(self@.tickets =~= old(self)@.tickets.push(ticket@));
            assert(self@.blacklist =~= old(self)@.blacklist);
            assert(self@.states =~= old(self)@.states);
        }
        true
    }

    /// Puts back the counters read from durable storage.
    pub fn set_counts(&mut self, counts: TicketCounts)
        requires
            old(self).wf(),
        ensures
            final(self).wf(),
            final(self)@ == (DeskView { counts, ..old(self)@ }),
    {
        self.counts = counts;
        proof {
            assert(self@.tickets =~= old(self)@.tickets);
            assert(self@.blacklist =~= old(self)@.blacklist);
            assert(self@.states =~= old(self)@.states);
        }
    }
}

} // verus!