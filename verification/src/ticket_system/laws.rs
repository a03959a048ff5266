//! What holds of the ticket flow across several steps.

use vstd::prelude::*;
use crate::ticket_system::desk::{blacklisted, has_ticket, one_ticket_each, DeskView, TicketDesk};
use crate::ticket_system::events::{
    after_failed_opening, component_reported, dm_reported, is_ticket_control, opening_reported,
    state_of, touched, ComponentAction, DmAction, OpenOutcome,
};
use crate::ticket_system::structs::{TicketStateView, TicketView};
use crate::ticket_system::sweep::{
    after_idle_sweep, idle_actions, needs_reminder, overdue, reminded, IdleAction, CLOSE_AFTER,
    REMIND_AFTER,
};

verus! {

/// On a well-formed desk two tickets of one user are one and the same.
pub proof fn lemma_one_ticket_per_user(desk: &TicketDesk, user: i64, i: int, j: int)
    requires
        desk.wf(),
        0 <= i < desk@.tickets.len(),
        0 <= j < desk@.tickets.len(),
        desk@.tickets[i].user_id == user,
        desk@.tickets[j].user_id == user,
    ensures
        i == j,
{
}

/// Recording a ticket never gives a user a second one, and leaves a user
/// who had none with exactly the one recorded or with none.
pub proof fn lemma_opening_keeps_one_ticket_each(
    before: DeskView,
    after: DeskView,
    user: i64,
    channel: i64,
    content: Seq<char>,
    now: i64,
    outcome: OpenOutcome,
)
    requires
        one_ticket_each(before.tickets),
        opening_reported(before, after, user, channel, content, now, outcome),
    ensures
        one_ticket_each(after.tickets),
        has_ticket(before.tickets, user) ==> after.tickets == before.tickets,
        outcome is Opened ==> !has_ticket(before.tickets, user) && has_ticket(after.tickets, user),
{
    if outcome is Opened {
        assert(after.tickets[before.tickets.len() as int].user_id == user);
    }
}

/// A direct message never opens or closes a ticket: the tickets keep
/// their users, in their order.
pub proof fn lemma_dm_keeps_one_ticket_each(
    before: DeskView,
    after: DeskView,
    user: i64,
    now: i64,
    action: DmAction,
)
    requires
        one_ticket_each(before.tickets),
        dm_reported(before, after, user, now, action),
    ensures
        one_ticket_each(after.tickets),
        after.tickets.len() == before.tickets.len(),
        forall|i: int|
            0 <= i < before.tickets.len() ==> (#[trigger] after.tickets[i]).user_id
                == before.tickets[i].user_id,
{
}

/// A barred user who sends a direct message gets the refusal and nothing
/// else: no conversation state, no ticket, no number.
pub proof fn lemma_barred_dm_changes_nothing(
    before: DeskView,
    after: DeskView,
    user: i64,
    now: i64,
    action: DmAction,
)
    requires
        blacklisted(before.blacklist, user),
        dm_reported(before, after, user, now, action),
    ensures
        after == before,
        action is Refuse,
{
}

/// A barred user who presses a control changes nothing: a press of a
/// control of the conversation is refused, any other is ignored.
pub proof fn lemma_barred_press_changes_nothing(
    before: DeskView,
    after: DeskView,
    user: i64,
    custom_id: Seq<char>,
    values: Seq<String>,
    action: ComponentAction,
)
    requires
        blacklisted(before.blacklist, user),
        component_reported(before, after, user, custom_id, values, action),
    ensures
        after == before,
        is_ticket_control(custom_id, values) ==> action is Refuse,
        !is_ticket_control(custom_id, values) ==> action is Ignore,
{
}

/// No ticket is recorded for a barred user, whatever channel was created,
/// and no conversation state comes of it: the user leaves the
/// conversation where their ticket was being opened, and nothing changes
/// otherwise.
pub proof fn lemma_barred_opening_records_nothing(
    before: DeskView,
    after: DeskView,
    user: i64,
    channel: i64,
    content: Seq<char>,
    now: i64,
    outcome: OpenOutcome,
)
    requires
        blacklisted(before.blacklist, user),
        opening_reported(before, after, user, channel, content, now, outcome),
    ensures
        after.tickets == before.tickets,
        after.blacklist == before.blacklist,
        after.counts == before.counts,
        after.states == before.states || after.states == before.states.remove(user),
        !(outcome is Opened),
        outcome is Refuse ==> !after.states.contains_key(user),
{
}

/// A press never makes a conversation state: a user without one has none
/// afterwards, whatever they pressed.
pub proof fn lemma_press_makes_no_state(
    before: DeskView,
    after: DeskView,
    user: i64,
    custom_id: Seq<char>,
    values: Seq<String>,
    action: ComponentAction,
)
    requires
        !before.states.contains_key(user),
        component_reported(before, after, user, custom_id, values, action),
    ensures
        after == before,
        action is Ignore || action is Refuse,
{
}

/// The writing of the message is reached from the choice of category and
/// from nowhere else, and the choice of category from the choice of
/// language: whoever is at one of them after a press was at the one
/// before, or was there already.
pub proof fn lemma_presses_follow_the_order(
    before: DeskView,
    after: DeskView,
    user: i64,
    custom_id: Seq<char>,
    values: Seq<String>,
    action: ComponentAction,
)
    requires
        component_reported(before, after, user, custom_id, values, action),
    ensures
        state_of(after.states, user) matches Some(TicketStateView::WritingMessage { .. })
            ==> state_of(after.states, user) == state_of(before.states, user) || (state_of(
            before.states,
            user,
        ) matches Some(TicketStateView::ChoosingCategory { .. })),
        state_of(after.states, user) matches Some(TicketStateView::ChoosingCategory { .. })
            ==> state_of(after.states, user) == state_of(before.states, user) || state_of(
            before.states,
            user,
        ) == Some(TicketStateView::ChoosingLanguage),
{
}

/// Of two direct messages from a user who was asked for their message,
/// the first asks for the channel of one ticket and the second changes
/// nothing: one number is spent and one channel is asked for, until the
/// opening is reported done or failed.
pub proof fn lemma_one_opening_at_a_time(
    before: DeskView,
    between: DeskView,
    after: DeskView,
    user: i64,
    first: i64,
    second: i64,
    asked: DmAction,
    then: DmAction,
)
    requires
        !blacklisted(before.blacklist, user),
        !has_ticket(before.tickets, user),
        state_of(before.states, user) matches Some(TicketStateView::WritingMessage { category, .. })
            && before.counts.of(category) < u64::MAX,
        dm_reported(before, between, user, first, asked),
        dm_reported(between, after, user, second, then),
    ensures
        asked is OpenTicket,
        state_of(between.states, user) matches Some(TicketStateView::Opening { .. }),
        then is Ignore,
        after == between,
{
}

/// A failed opening leaves the tickets, the blacklist and the counters as
/// they were: the number that was given is not given again.
pub proof fn lemma_failed_opening_keeps_the_number(before: DeskView, user: i64)
    ensures
        after_failed_opening(before, user).tickets == before.tickets,
        after_failed_opening(before, user).blacklist == before.blacklist,
        after_failed_opening(before, user).counts == before.counts,
{
}

/// The reminder comes strictly before the closure: a ticket that is
/// overdue has been silent for longer than it takes to be reminded.
pub proof fn lemma_reminder_comes_first(ticket: TicketView, now: i64)
    ensures
        REMIND_AFTER < CLOSE_AFTER,
        overdue(ticket, now) ==> now - ticket.last_activity > REMIND_AFTER,
{
}

/// A ticket that was reminded needs no reminder at any time, until a
/// message of its user touches it; and whether a ticket is overdue does
/// not depend on the reminder.
pub proof fn lemma_reminded_once(ticket: TicketView, now: i64, later: i64)
    ensures
        !needs_reminder(reminded(ticket), later),
        overdue(reminded(ticket), later) == overdue(ticket, later),
        !touched(ticket, now).has_been_reminded,
{
}

/// After a sweep no remaining ticket is overdue or in need of a reminder
/// at the time of the sweep.
pub proof fn lemma_sweep_leaves_quiet(tickets: Seq<TicketView>, now: i64, i: int)
    requires
        0 <= i < after_idle_sweep(tickets, now).len(),
    ensures
        !overdue(after_idle_sweep(tickets, now)[i], now),
        !needs_reminder(after_idle_sweep(tickets, now)[i], now),
    decreases tickets.len(),
{
    let earlier = after_idle_sweep(tickets.drop_last(), now);
    if i < earlier.len() {
        lemma_sweep_leaves_quiet(tickets.drop_last(), now, i);
    }
}

/// A sweep over tickets that are neither overdue nor in need of a reminder
/// asks for nothing and changes nothing.
pub proof fn lemma_quiet_sweep(tickets: Seq<TicketView>, now: i64)
    requires
        forall|i: int|
            0 <= i < tickets.len() ==> !overdue(#[trigger] tickets[i], now) && !needs_reminder(
                tickets[i],
                now,
            ),
    ensures
        idle_actions(tickets, now) == Seq::<IdleAction>::empty(),
        after_idle_sweep(tickets, now) == tickets,
    decreases tickets.len(),
{
    if tickets.len() > 0 {
        lemma_quiet_sweep(tickets.drop_last(), now);
        assert(tickets.drop_last().push(tickets.last()) =~= tickets);
    } else {
        assert(after_idle_sweep(tickets, now) =~= tickets);
    }
}

/// A second sweep at the same time sends no reminder, closes nothing and
/// changes nothing.
pub proof fn lemma_second_sweep_is_silent(tickets: Seq<TicketView>, now: i64)
    ensures
        idle_actions(after_idle_sweep(tickets, now), now) == Seq::<IdleAction>::empty(),
        after_idle_sweep(after_idle_sweep(tickets, now), now) == after_idle_sweep(tickets, now),
{
    let swept = after_idle_sweep(tickets, now);
    assert forall|i: int| 0 <= i < swept.len() implies !overdue(#[trigger] swept[i], now)
        && !needs_reminder(swept[i], now) by {
        lemma_sweep_leaves_quiet(tickets, now, i);
    }
    lemma_quiet_sweep(swept, now);
}

/// A sweep keeps the tickets of distinct users distinct.
pub proof fn lemma_sweep_keeps_one_ticket_each(tickets: Seq<TicketView>, now: i64)
    requires
        one_ticket_each(tickets),
    ensures
        one_ticket_each(after_idle_sweep(tickets, now)),
        forall|i: int|
            0 <= i < after_idle_sweep(tickets, now).len() ==> has_ticket(
                tickets,
                (#[trigger] after_idle_sweep(tickets, now)[i]).user_id,
            ),
    decreases tickets.len(),
{
    if tickets.len() > 0 {
        let head = tickets.drop_last();
        let earlier = after_idle_sweep(head, now);
        let swept = after_idle_sweep(tickets, now);
        assert forall|i: int, j: int|
            0 <= i < head.len() && 0 <= j < head.len() && i != j implies (#[trigger] head[i]).user_id
            != (#[trigger] head[j]).user_id by {
            assert(head[i] == tickets[i]);
            assert(head[j] == tickets[j]);
        }
        lemma_sweep_keeps_one_ticket_each(head, now);
        assert forall|i: int| 0 <= i < swept.len() implies has_ticket(
            tickets,
            (#[trigger] swept[i]).user_id,
        ) by {
            if i < earlier.len() {
                assert(swept[i] == earlier[i]);
                let at = choose|at: int| 0 <= at < head.len() && (#[trigger] head[at]).user_id == earlier[i].user_id;
                assert(tickets[at].user_id == swept[i].user_id);
            } else {
                assert(tickets[tickets.len() - 1].user_id == swept[i].user_id);
            }
        }
        assert forall|i: int, j: int|
            0 <= i < swept.len() && 0 <= j < swept.len() && i != j implies (#[trigger] swept[i]).user_id
            != (#[trigger] swept[j]).user_id by {
            if i < earlier.len() && j < earlier.len() {
                assert(swept[i] == earlier[i]);
                assert(swept[j] == earlier[j]);
            } else {
                let low = if i < earlier.len() { i } else { j };
                assert(swept[low] == earlier[low]);
                let at = choose|at: int| 0 <= at < head.len() && (#[trigger] head[at]).user_id == earlier[low].user_id;
                assert(tickets[at] == head[at]);
                assert(tickets[tickets.len() - 1] == tickets.last());
            }
        }
    }
}

} // verus!
