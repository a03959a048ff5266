//! The giveaways that the assistant keeps, with their entrants.

use vstd::prelude::*;
use crate::giveaway_system::draw::{draw, draw_size, lemma_picks_are_distinct_members};
use crate::giveaway_system::structs::{
    settle, GiveawayPlan, GiveawayRecord, GiveawayStatus, GiveawayView, Resolution,
};

verus! {

/// Some giveaway of `records` in `channel` takes entries.
pub open spec fn active_in(records: Seq<GiveawayView>, channel: i64) -> bool {
    exists|i: int|
        0 <= i < records.len() && (#[trigger] records[i]).channel_id == channel
            && records[i].is_active()
}

/// Some giveaway of `records` is announced by `message`.
pub open spec fn announced(records: Seq<GiveawayView>, message: i64) -> bool {
    exists|i: int| 0 <= i < records.len() && (#[trigger] records[i]).message_id == message
}

/// No two giveaways share a message, and no channel has two active ones.
pub open spec fn consistent(records: Seq<GiveawayView>) -> bool {
    &&& forall|i: int, j: int|
        0 <= i < records.len() && 0 <= j < records.len() && i != j ==> (#[trigger] records[i]).message_id
            != (#[trigger] records[j]).message_id
    &&& forall|i: int, j: int|
        0 <= i < records.len() && 0 <= j < records.len() && i != j && (#[trigger] records[i]).is_active()
            && (#[trigger] records[j]).is_active() ==> records[i].channel_id != records[j].channel_id
}

/// Some giveaway of `records` that `message` announces takes entries.
pub open spec fn accepting(records: Seq<GiveawayView>, message: i64) -> bool {
    exists|i: int|
        0 <= i < records.len() && (#[trigger] records[i]).message_id == message
            && records[i].is_active()
}

/// The giveaways after `user` pressed the entry control under `message`:
/// the active giveaway that the message announces has the user's entry
/// toggled, the others are as before.
pub open spec fn after_press(records: Seq<GiveawayView>, message: i64, user: i64) -> Seq<
    GiveawayView,
> {
    Seq::new(
        records.len(),
        |i: int|
            if records[i].message_id == message && records[i].is_active() {
                records[i].toggled(user)
            } else {
                records[i]
            },
    )
}

/// The giveaways after a sweep at `now`: those that were due are ended,
/// the others are as before.
pub open spec fn swept(records: Seq<GiveawayView>, now: i64) -> Seq<GiveawayView> {
    Seq::new(
        records.len(),
        |i: int|
            if records[i].is_due(now) {
                records[i].ended()
            } else {
                records[i]
            },
    )
}

/// The giveaways that are due at `now`, in the order of the store.
pub open spec fn due(records: Seq<GiveawayView>, now: i64) -> Seq<GiveawayView>
    decreases records.len(),
{
    if records.len() == 0 {
        Seq::<GiveawayView>::empty()
    } else {
        let earlier = due(records.drop_last(), now);
        if records.last().is_due(now) {
            earlier.push(records.last())
        } else {
            earlier
        }
    }
}

/// Why a giveaway could not be registered.
#[derive(Debug, Clone, Copy, PartialEq, Eq, Structural)]
pub enum RegisterError {
    /// The channel already has an active giveaway.
    ChannelBusy,
    /// The message already announces a giveaway.
    DuplicateMessage,
    /// The record lists an entrant twice.
    RepeatedEntrant,
}

/// What a press of the entry control did.
#[derive(Debug, Clone, Copy, PartialEq, Eq, Structural)]
pub enum EntryOutcome {
    /// The message announces no active giveaway.
    Closed,
    /// The user entered; the count is that of the entrants now.
    Joined { count: usize },
    /// The user withdrew; the count is that of the entrants now.
    Left { count: usize },
}

/// `outcome` tells truly what a press of the entry control by `user` under
/// `message` did to `records`: nothing where the message announces no
/// active giveaway, else whether the user entered or withdrew, with the
/// number of entrants afterwards.
pub open spec fn entry_reported(
    records: Seq<GiveawayView>,
    message: i64,
    user: i64,
    outcome: EntryOutcome,
) -> bool {
    match outcome {
        EntryOutcome::Closed => !accepting(records, message),
        EntryOutcome::Joined { count } => exists|i: int|
            0 <= i < records.len() && (#[trigger] records[i]).message_id == message
                && records[i].is_active() && !records[i].participants.contains(user) && count
                == records[i].participants.len() + 1,
        EntryOutcome::Left { count } => exists|i: int|
            0 <= i < records.len() && (#[trigger] records[i]).message_id == message
                && records[i].is_active() && records[i].participants.contains(user) && count
                == records[i].participants.len() - 1,
    }
}

/// `deleted` is the active giveaway of `channel` in `before`, and `after` is
/// `before` without it; or the channel had none and nothing changed.
pub open spec fn deletion_reported(
    before: Seq<GiveawayView>,
    after: Seq<GiveawayView>,
    channel: i64,
    deleted: Option<GiveawayView>,
) -> bool {
    match deleted {
        Some(record) => exists|i: int|
            0 <= i < before.len() && (#[trigger] before[i]).channel_id == channel
                && before[i].is_active() && record == before[i] && after == before.remove(i),
        None => !active_in(before, channel) && after == before,
    }
}

/// The giveaways, in the order of their registration.
pub struct GiveawayStore {
    records: Vec<GiveawayRecord>,
}

impl View for GiveawayStore {
    type V = Seq<GiveawayView>;

    closed spec fn view(&self) -> Seq<GiveawayView> {
        Seq::new(self.records@.len(), |i: int| self.records@[i]@)
    }
}

/// Adding `x` to a list that lacks it keeps the list without repeats.
proof fn lemma_push_keeps_distinct(s: Seq<i64>, x: i64)
    requires
        s.no_duplicates(),
        !s.contains(x),
    ensures
        s.push(x).no_duplicates(),
        s.push(x).to_set() =~= s.to_set().insert(x),
        s.push(x).to_set().len() == s.len() + 1,
{
    let t = s.push(x);
    assert forall|i: int, j: int| 0 <= i < t.len() && 0 <= j < t.len() && i != j implies t[i]
        != t[j] by {
        if i < s.len() && j < s.len() {
            assert(s[i] != s[j]);
        } else if i < s.len() {
            assert(s.contains(s[i]));
        } else {
            assert(s.contains(s[j]));
        }
    }
    assert forall|y: i64| t.to_set().contains(y) <==> s.to_set().insert(x).contains(y) by {
        if t.to_set().contains(y) {
            let k = choose|k: int| 0 <= k < t.len() && t[k] == y;
            if k < s.len() {
                assert(s[k] == y);
            }
        }
        if s.to_set().insert(x).contains(y) {
            if y == x {
                assert(t[s.len() as int] == x);
            } else {
                let k = choose|k: int| 0 <= k < s.len() && s[k] == y;
                assert(t[k] == y);
            }
        }
    }
    t.unique_seq_to_set();
}

/// Taking the item at `at` out of a list without repeats keeps it so.
proof fn lemma_remove_keeps_distinct(s: Seq<i64>, at: int)
    requires
        s.no_duplicates(),
        0 <= at < s.len(),
    ensures
        s.remove(at).no_duplicates(),
        s.remove(at).to_set() =~= s.to_set().remove(s[at]),
        s.remove(at).to_set().len() == s.len() - 1,
{
    let t = s.remove(at);
    assert forall|i: int, j: int| 0 <= i < t.len() && 0 <= j < t.len() && i != j implies t[i]
        != t[j] by {
        let si = if i < at { i } else { i + 1 };
        let sj = if j < at { j } else { j + 1 };
        assert(t[i] == s[si]);
        assert(t[j] == s[sj]);
    }
    assert forall|y: i64| t.to_set().contains(y) <==> s.to_set().remove(s[at]).contains(y) by {
        if t.to_set().contains(y) {
            let k = choose|k: int| 0 <= k < t.len() && t[k] == y;
            let sk = if k < at { k } else { k + 1 };
            assert(s[sk] == y);
        }
        if s.to_set().remove(s[at]).contains(y) {
            let k = choose|k: int| 0 <= k < s.len() && s[k] == y;
            assert(k != at);
            let tk = if k < at { k } else { k - 1 };
            assert(t[tk] == y);
        }
    }
    t.unique_seq_to_set();
}

/// The place of `user` in `list`, if it is there.
fn place_of(list: &Vec<i64>, user: i64) -> (place: Option<usize>)
    ensures
        match place {
            Some(at) => at < list@.len() && list@[at as int] == user,
            None => !list@.contains(user),
        },
{
    let mut i: usize = 0;
    while i < list.len()
        invariant
            i <= list@.len(),
            forall|k: int| 0 <= k < i ==> list@[k] != user,
        decreases list@.len() - i,
    {
        if list[i] == user {
            return Some(i);
        }
        i = i + 1;
    }
    None
}

/// Tells whether no item of `list` occurs twice.
pub fn all_distinct(list: &Vec<i64>) -> (yes: bool)
    ensures
        yes == list@.no_duplicates(),
{
    let mut i: usize = 0;
    while i < list.len()
        invariant
            i <= list@.len(),
            forall|a: int, b: int| 0 <= a < i && 0 <= b < a ==> list@[a] != list@[b],
        decreases list@.len() - i,
    {
        let mut j: usize = 0;
        while j < i
            invariant
                j <= i,
                i < list@.len(),
                forall|b: int| 0 <= b < j ==> list@[i as int] != list@[b],
            decreases i - j,
        {
            if list[i] == list[j] {
                return false;
            }
            j = j + 1;
        }
        i = i + 1;
    }
    assert forall|a: int, b: int|
        0 <= a < list@.len() && 0 <= b < list@.len() && a != b implies list@[a] != list@[b] by {
        if b < a {
            assert(list@[a] != list@[b]);
        } else {
            assert(list@[b] != list@[a]);
        }
    }
    true
}

impl GiveawayStore {
    /// What the store must always satisfy.
    pub closed spec fn wf(&self) -> bool {
        &&& consistent(self@)
        &&& forall|i: int| 0 <= i < self.records@.len() ==> (#[trigger] self.records@[i]).wf()
    }

    /// In a well-formed store no two giveaways share a message, no channel
    /// has two active giveaways, and the entrants of every giveaway are
    /// finitely many.
    pub proof fn lemma_wf_consistent(&self)
        requires
            self.wf(),
        ensures
            consistent(self@),
            forall|i: int| 0 <= i < self@.len() ==> (#[trigger] self@[i]).participants.finite(),
    {
        assert forall|i: int| 0 <= i < self@.len() implies (#[trigger] self@[i]).participants.finite() by {
            vstd::seq_lib::seq_to_set_is_finite(self.records@[i].participants@);
        }
    }

    /// A store without giveaways.
    pub fn new() -> (store: GiveawayStore)
        ensures
            store.wf(),
            store@ == Seq::<GiveawayView>::empty(),
    {
        GiveawayStore { records: Vec::new() }
    }

    /// The number of giveaways kept, ended ones included.
    pub fn len(&self) -> (n: usize)
        ensures
            n == self@.len(),
    {
        self.records.len()
    }

    /// The giveaway at `place`, in the order of registration; `None` beyond
    /// the last.
    pub fn record(&self, place: usize) -> (record: Option<&GiveawayRecord>)
        ensures
            match record {
                Some(found) => place < self@.len() && found@ == self@[place as int],
                None => place >= self@.len(),
            },
    {
        if place < self.records.len() {
            Some(&self.records[place])
        } else {
            None
        }
    }

    /// The place of the giveaway that `message` announces.
    pub fn find_message(&self, message: i64) -> (place: Option<usize>)
        ensures
            match place {
                Some(at) => at < self@.len() && self@[at as int].message_id == message,
                None => !announced(self@, message),
            },
    {
        let mut i: usize = 0;
        while i < self.records.len()
            invariant
                i <= self.records@.len(),
                forall|k: int| 0 <= k < i ==> (#[trigger] self@[k]).message_id != message,
            decreases self.records@.len() - i,
        {
            if self.records[i].message_id == message {
                return Some(i);
            }
            i = i + 1;
        }
        None
    }

    /// The place of the active giveaway of `channel`.
    pub fn find_active_in(&self, channel: i64) -> (place: Option<usize>)
        ensures
            match place {
                Some(at) => at < self@.len() && self@[at as int].channel_id == channel
                    && self@[at as int].is_active(),
                None => !active_in(self@, channel),
            },
    {
        let mut i: usize = 0;
        while i < self.records.len()
            invariant
                i <= self.records@.len(),
                forall|k: int|
                    0 <= k < i ==> !((#[trigger] self@[k]).channel_id == channel
                        && self@[k].is_active()),
            decreases self.records@.len() - i,
        {
            if self.records[i].channel_id == channel && self.records[i].status
                == GiveawayStatus::Active {
                return Some(i);
            }
            i = i + 1;
        }
        None
    }

    /// Tells whether `channel` has an active giveaway.
    pub fn has_active(&self, channel: i64) -> (yes: bool)
        ensures
            yes == active_in(self@, channel),
    {
        self.find_active_in(channel).is_some()
    }

    /// Registers the giveaway that `message` announces in `channel`, active
    /// and without entrants.
    ///
    /// Refused, and the store left as it was, where the channel already has
    /// an active giveaway or the message already announces one.
    pub fn register(
        &mut self,
        message: i64,
        channel: i64,
        host: i64,
        plan: GiveawayPlan,
    ) -> (outcome: Result<(), RegisterError>)
        requires
            old(self).wf(),
        ensures
            final(self).wf(),
            match outcome {
                Ok(()) => {
                    &&& !active_in(old(self)@, channel)
                    &&& !announced(old(self)@, message)
                    &&& final(self)@ == old(self)@.push(
                        (GiveawayView {
                            message_id: message,
                            channel_id: channel,
                            host_id: host,
                            title: plan.title@,
                            description: plan.description@,
                            reward: plan.reward@,
                            winner_count: plan.winner_count,
                            end_time: plan.end_time,
                            status: GiveawayStatus::Active,
                            participants: Set::<i64>::empty(),
                        }),
                    )
                },
                Err(RegisterError::ChannelBusy) => {
                    &&& active_in(old(self)@, channel)
                    &&& final(self)@ == old(self)@
                },
                Err(RegisterError::DuplicateMessage) => {
                    &&& !active_in(old(self)@, channel)
                    &&& announced(old(self)@, message)
                    &&& final(self)@ == old(self)@
                },
                Err(RegisterError::RepeatedEntrant) => false,
            },
    {
        if self.has_active(channel) {
            return Err(RegisterError::ChannelBusy);
        }
        if self.find_message(message).is_some() {
            return Err(RegisterError::DuplicateMessage);
        }
        let record = GiveawayRecord {
            message_id: message,
            channel_id: channel,
            host_id: host,
            title: plan.title,
            description: plan.description,
            reward: plan.reward,
            winner_count: plan.winner_count,
            end_time: plan.end_time,
            status: GiveawayStatus::Active,
            participants: Vec::new(),
        };
        assert(record.participants@.to_set() =~= Set::<i64>::empty());
        self.records.push(record);
        assert(self@ =~= old(self)@.push(record@));
        Ok(())
    }
    /// Toggles the entry of `user` in the active giveaway that `message`
    /// announces: enters them if they were not in, withdraws them if they
    /// were. The count in the outcome is that of the entrants afterwards.
    ///
    /// Where the message announces no active giveaway nothing changes.
    pub fn toggle_entry(&mut self, message: i64, user: i64) -> (outcome: EntryOutcome)
        requires
            old(self).wf(),
        ensures
            final(self).wf(),
            final(self)@ == after_press(old(self)@, message, user),
            entry_reported(old(self)@, message, user, outcome),
    {
        let at = match self.find_message(message) {
            Some(at) => at,
            None => {
                assert(self@ =~= after_press(self@, message, user));
                return EntryOutcome::Closed;
            },
        };
        if self.records[at].status != GiveawayStatus::Active {
            assert(self@ =~= after_press(self@, message, user));
            return EntryOutcome::Closed;
        }
        let ghost before = self.records@[at as int].participants@;
        proof {
            before.unique_seq_to_set();
        }
        let outcome = match place_of(&self.records[at].participants, user) {
            Some(place) => {
                proof {
                    lemma_remove_keeps_distinct(before, place as int);
                }
                self.records[at].participants.remove(place);
                EntryOutcome::Left { count: self.records[at].participants.len() }
            },
            None => {
                proof {
                    lemma_push_keeps_distinct(before, user);
                }
                self.records[at].participants.push(user);
                EntryOutcome::Joined { count: self.records[at].participants.len() }
            },
        };
        proof {
            assert(self.records@[at as int]@ == old(self)@[at as int].toggled(user));
            assert(self@ =~= after_press(old(self)@, message, user));
        }
        outcome
    }

    /// Takes the active giveaway of `channel` out of the store, with its
    /// entrants, and hands it over. `None`, and nothing changed, where the
    /// channel has none.
    pub fn delete_active(&mut self, channel: i64) -> (deleted: Option<GiveawayRecord>)
        requires
            old(self).wf(),
        ensures
            final(self).wf(),
            deletion_reported(
                old(self)@,
                final(self)@,
                channel,
                match deleted {
                    Some(record) => Some(record@),
                    None => None,
                },
            ),
    {
        match self.find_active_in(channel) {
            Some(at) => {
                let record = self.records.remove(at);
                assert(self@ =~= old(self)@.remove(at as int));
                assert(old(self)@[at as int].channel_id == channel);
                Some(record)
            },
            None => None,
        }
    }
    /// Ends every active giveaway whose end has come at `now`, and draws
    /// its winners.
    ///
    /// The resolutions come in the order of the store, one for each giveaway
    /// that was due. Whatever the chance in the draws, each names distinct
    /// entrants, as many as asked for or all of them where fewer had
    /// entered, and none where nobody had.
    pub fn sweep(&mut self, now: i64) -> (resolutions: Vec<Resolution>)
        requires
            old(self).wf(),
        ensures
            final(self).wf(),
            final(self)@ == swept(old(self)@, now),
            resolutions@.len() == due(old(self)@, now).len(),
            forall|k: int|
                0 <= k < resolutions@.len() ==> (#[trigger] resolutions@[k]).settles(
                    due(old(self)@, now)[k],
                ),
    {
        let mut resolutions: Vec<Resolution> = Vec::new();
        let n = self.records.len();
        let mut i: usize = 0;
        while i < n
            invariant
                i <= n,
                n == old(self).records@.len(),
                self.records@.len() == n,
                old(self).wf(),
                forall|j: int| 0 <= j < n ==> (#[trigger] self.records@[j]).wf(),
                forall|j: int|
                    0 <= j < n ==> (#[trigger] self@[j]) == if j < i && old(self)@[j].is_due(now) {
                        old(self)@[j].ended()
                    } else {
                        old(self)@[j]
                    },
                resolutions@.len() == due(old(self)@.take(i as int), now).len(),
                forall|k: int|
                    0 <= k < resolutions@.len() ==> (#[trigger] resolutions@[k]).settles(
                        due(old(self)@.take(i as int), now)[k],
                    ),
            decreases n - i,
        {
            proof {
                let prefix = old(self)@.take(i as int + 1);
                assert(prefix.drop_last() =~= old(self)@.take(i as int));
                assert(prefix.last() == old(self)@[i as int]);
                assert(self@[i as int] == old(self)@[i as int]);
            }
            if self.records[i].status == GiveawayStatus::Active && self.records[i].end_time <= now {
                let picked = if self.records[i].participants.len() == 0 {
                    Vec::new()
                } else {
                    draw(&self.records[i].participants, self.records[i].winner_count)
                };
                let resolution = settle(&self.records[i], picked);
                proof {
                    let pool = self.records@[i as int].participants@;
                    pool.unique_seq_to_set();
                    if pool.len() > 0 {
                        lemma_picks_are_distinct_members(pool, picked@);
                    }
                    assert(resolution.settles(old(self)@[i as int]));
                }
                let ghost earlier = resolutions@;
                resolutions.push(resolution);
                self.records[i].status = GiveawayStatus::Ended;
                proof {
                    assert(self@[i as int] == old(self)@[i as int].ended());
                    assert forall|k: int| 0 <= k < resolutions@.len() implies (
                    #[trigger] resolutions@[k]).settles(
                        due(old(self)@.take(i as int + 1), now)[k],
                    ) by {
                        if k < earlier.len() {
                            assert(resolutions@[k] == earlier[k]);
                        }
                    }
                }
            }
            i = i + 1;
        }
        proof {
            assert(old(self)@.take(n as int) =~= old(self)@);
            assert(self@ =~= swept(old(self)@, now));
        }
        resolutions
    }
    /// Puts back a giveaway read from durable storage, active or ended,
    /// with its entrants.
    ///
    /// Refused, and the store left as it was, where the record lists an
    /// entrant twice, its message already announces a giveaway, or it is
    /// active in a channel that has an active giveaway.
    pub fn restore(&mut self, record: GiveawayRecord) -> (outcome: Result<(), RegisterError>)
        requires
            old(self).wf(),
        ensures
            final(self).wf(),
            outcome == (if !record.wf() {
                Err::<(), RegisterError>(RegisterError::RepeatedEntrant)
            } else if announced(old(self)@, record.message_id) {
                Err::<(), RegisterError>(RegisterError::DuplicateMessage)
            } else if record@.is_active() && active_in(old(self)@, record.channel_id) {
                Err::<(), RegisterError>(RegisterError::ChannelBusy)
            } else {
                Ok::<(), RegisterError>(())
            }),
            final(self)@ == (if outcome is Ok {
                old(self)@.push(record@)
            } else {
                old(self)@
            }),
    {
        if !all_distinct(&record.participants) {
            return Err(RegisterError::RepeatedEntrant);
        }
        if self.find_message(record.message_id).is_some() {
            return Err(RegisterError::DuplicateMessage);
        }
        if record.status == GiveawayStatus::Active && self.has_active(record.channel_id) {
            return Err(RegisterError::ChannelBusy);
        }
        self.records.push(record);
        assert(self@ =~= old(self)@.push(record@));
        Ok(())
    }
}

} // verus!