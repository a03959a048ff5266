//! What holds of the giveaway flow across several steps.

use vstd::prelude::*;
use crate::giveaway_system::draw::{draw_size, lemma_picks_are_distinct_members, picked_from};
use crate::giveaway_system::store::{after_press, deletion_reported, due, swept};
use crate::giveaway_system::structs::{valid_draw, GiveawayView};

verus! {

/// Pressing the entry control twice leaves a giveaway as it was: the same
/// entrants, hence the same count on display. In between, the count is one
/// more where the user was not in, one less where they were.
pub proof fn lemma_toggle_twice_restores(giveaway: GiveawayView, user: i64)
    requires
        giveaway.participants.finite(),
    ensures
        giveaway.toggled(user).toggled(user) == giveaway,
        giveaway.toggled(user).toggled(user).participants.len() == giveaway.participants.len(),
        giveaway.toggled(user).participants.len() == if giveaway.participants.contains(user) {
            giveaway.participants.len() - 1
        } else {
            giveaway.participants.len() as int + 1
        },
{
    let once = giveaway.toggled(user);
    let twice = once.toggled(user);
    assert(twice.participants =~= giveaway.participants);
}

/// Two presses of the entry control by one user under one message leave
/// every giveaway of the store as it was.
pub proof fn lemma_double_press_restores(records: Seq<GiveawayView>, message: i64, user: i64)
    ensures
        after_press(after_press(records, message, user), message, user) == records,
{
    let once = after_press(records, message, user);
    let twice = after_press(once, message, user);
    assert forall|i: int| 0 <= i < records.len() implies twice[i] == records[i] by {
        if records[i].message_id == message && records[i].is_active() {
            assert(records[i].toggled(user).toggled(user).participants
                =~= records[i].participants);
        }
    }
    assert(twice =~= records);
}

/// A draw from entrants listed once each names distinct entrants: as many
/// as were asked for where that many had entered, all of them otherwise.
pub proof fn lemma_draw_is_valid(pool: Seq<i64>, winner_count: i32, winners: Seq<i64>)
    requires
        pool.no_duplicates(),
        picked_from(pool, winners),
        winners.len() == draw_size(pool.len(), winner_count),
    ensures
        valid_draw(pool.to_set(), winner_count, winners),
        0 <= winner_count <= pool.len() ==> winners.len() == winner_count,
        winner_count > pool.len() ==> winners.to_set() == pool.to_set(),
{
    lemma_picks_are_distinct_members(pool, winners);
    pool.unique_seq_to_set();
}

/// An ended giveaway is final: neither a press of the entry control nor a
/// sweep changes it, and a deletion in its channel does not take it.
pub proof fn lemma_ended_is_final(
    records: Seq<GiveawayView>,
    message: i64,
    user: i64,
    now: i64,
    i: int,
)
    requires
        0 <= i < records.len(),
        !records[i].is_active(),
    ensures
        after_press(records, message, user)[i] == records[i],
        swept(records, now)[i] == records[i],
        forall|after: Seq<GiveawayView>, channel: i64, deleted: GiveawayView|
            deletion_reported(records, after, channel, Some(deleted)) ==> after.contains(
                records[i],
            ),
{
    assert forall|after: Seq<GiveawayView>, channel: i64, deleted: GiveawayView|
        deletion_reported(records, after, channel, Some(deleted)) implies after.contains(
        records[i],
    ) by {
        let gone = choose|gone: int|
            0 <= gone < records.len() && (#[trigger] records[gone]).channel_id == channel
                && records[gone].is_active() && deleted == records[gone] && after
                == records.remove(gone);
        let at = if i < gone { i } else { i - 1 };
        assert(after[at] == records[i]);
    }
}

/// Whatever is due at some time is an active giveaway of the store.
pub proof fn lemma_due_are_active(records: Seq<GiveawayView>, now: i64, k: int)
    requires
        0 <= k < due(records, now).len(),
    ensures
        due(records, now)[k].is_due(now),
        records.contains(due(records, now)[k]),
    decreases records.len(),
{
    let earlier = due(records.drop_last(), now);
    if k < earlier.len() {
        lemma_due_are_active(records.drop_last(), now, k);
        let at = choose|at: int|
            0 <= at < records.drop_last().len() && records.drop_last()[at] == earlier[k];
        assert(records[at] == earlier[k]);
    } else {
        assert(records[records.len() - 1] == records.last());
    }
}

/// Nothing is due where no giveaway of the store is.
proof fn lemma_none_due(records: Seq<GiveawayView>, now: i64)
    requires
        forall|i: int| 0 <= i < records.len() ==> !(#[trigger] records[i]).is_due(now),
    ensures
        due(records, now) =~= Seq::<GiveawayView>::empty(),
    decreases records.len(),
{
    if records.len() > 0 {
        lemma_none_due(records.drop_last(), now);
    }
}

/// A giveaway that a sweep ended is due at no later time, and a second
/// sweep at the same time finds nothing due and changes nothing.
pub proof fn lemma_sweep_settles_once(records: Seq<GiveawayView>, now: i64)
    ensures
        forall|i: int, later: i64|
            0 <= i < records.len() && records[i].is_due(now) ==> !(#[trigger] swept(
                records,
                now,
            )[i].is_due(later)),
        due(swept(records, now), now) == Seq::<GiveawayView>::empty(),
        swept(swept(records, now), now) == swept(records, now),
{
    lemma_none_due(swept(records, now), now);
    assert(swept(swept(records, now), now) =~= swept(records, now));
}

} // verus!
