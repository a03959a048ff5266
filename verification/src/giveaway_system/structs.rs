//! The data of the giveaway flow.

use vstd::prelude::*;
use vstd::string::*;
use crate::text::str_equals;
use crate::giveaway_system::draw::draw_size;

verus! {

/// Whether a giveaway still takes entries.
#[derive(Debug, Clone, Copy, PartialEq, Eq, Structural)]
pub enum GiveawayStatus {
    Active,
    Ended,
}

impl GiveawayStatus {
    /// The name under which the status is stored.
    pub open spec fn key(self) -> Seq<char> {
        match self {
            GiveawayStatus::Active => "active"@,
            GiveawayStatus::Ended => "ended"@,
        }
    }

    /// The status stored under `key`, if it is the name of one.
    pub open spec fn of_key(key: Seq<char>) -> Option<GiveawayStatus> {
        if key == "active"@ {
            Some(GiveawayStatus::Active)
        } else if key == "ended"@ {
            Some(GiveawayStatus::Ended)
        } else {
            None
        }
    }

    /// Renders the status as the name under which it is stored.
    pub fn storage_key(&self) -> (text: String)
        ensures
            text@ == self.key(),
    {
        match self {
            GiveawayStatus::Active => String::from_str("active"),
            GiveawayStatus::Ended => String::from_str("ended"),
        }
    }

    /// Reads the name under which a status is stored.
    pub fn from_key(key: &str) -> (status: Option<GiveawayStatus>)
        ensures
            status == GiveawayStatus::of_key(key@),
    {
        if str_equals(key, "active") {
            Some(GiveawayStatus::Active)
        } else if str_equals(key, "ended") {
            Some(GiveawayStatus::Ended)
        } else {
            None
        }
    }
}

/// Every status is read back from the name under which it is stored.
pub proof fn lemma_status_reads_back(status: GiveawayStatus)
    ensures
        GiveawayStatus::of_key(status.key()) == Some(status),
{
    reveal_strlit("active");
    reveal_strlit("ended");
    assert("active"@[0] == 'a');
    assert("ended"@[0] == 'e');
}

/// One giveaway, known by the message that announces it.
#[derive(Debug)]
pub struct GiveawayRecord {
    pub message_id: i64,
    pub channel_id: i64,
    pub host_id: i64,
    pub title: String,
    pub description: String,
    pub reward: String,
    pub winner_count: i32,
    pub end_time: i64,
    pub status: GiveawayStatus,
    pub participants: Vec<i64>,
}

/// A giveaway as contracts see it: texts as sequences of characters, the
/// entrants as a set.
pub struct GiveawayView {
    pub message_id: i64,
    pub channel_id: i64,
    pub host_id: i64,
    pub title: Seq<char>,
    pub description: Seq<char>,
    pub reward: Seq<char>,
    pub winner_count: i32,
    pub end_time: i64,
    pub status: GiveawayStatus,
    pub participants: Set<i64>,
}

impl View for GiveawayRecord {
    type V = GiveawayView;

    open spec fn view(&self) -> GiveawayView {
        GiveawayView {
            message_id: self.message_id,
            channel_id: self.channel_id,
            host_id: self.host_id,
            title: self.title@,
            description: self.description@,
            reward: self.reward@,
            winner_count: self.winner_count,
            end_time: self.end_time,
            status: self.status,
            participants: self.participants@.to_set(),
        }
    }
}

impl GiveawayRecord {
    /// No entrant is listed twice.
    pub open spec fn wf(&self) -> bool {
        self.participants@.no_duplicates()
    }
}

impl GiveawayView {
    /// The giveaway takes entries.
    pub open spec fn is_active(self) -> bool {
        self.status == GiveawayStatus::Active
    }

    /// The giveaway is active and its end has come at `now`.
    pub open spec fn is_due(self, now: i64) -> bool {
        self.is_active() && self.end_time <= now
    }

    /// The same giveaway, closed to entries.
    pub open spec fn ended(self) -> GiveawayView {
        GiveawayView { status: GiveawayStatus::Ended, ..self }
    }

    /// The same giveaway after `user` pressed the entry control: entered if
    /// they were not, withdrawn if they were.
    pub open spec fn toggled(self, user: i64) -> GiveawayView {
        GiveawayView {
            participants: if self.participants.contains(user) {
                self.participants.remove(user)
            } else {
                self.participants.insert(user)
            },
            ..self
        }
    }
}

/// The form a host fills in to start a giveaway, once it is read.
#[derive(Debug)]
pub struct GiveawayPlan {
    pub title: String,
    pub description: String,
    pub reward: String,
    pub winner_count: i32,
    pub end_time: i64,
}

/// How a giveaway ended.
#[derive(Debug)]
pub enum Verdict {
    /// Nobody had entered; nothing was drawn.
    NoParticipant,
    /// The winners, in the order of the draw.
    Winners(Vec<i64>),
}

/// What a sweep hands over for one giveaway that it ended.
#[derive(Debug)]
pub struct Resolution {
    pub message_id: i64,
    pub channel_id: i64,
    pub host_id: i64,
    pub title: String,
    pub description: String,
    pub reward: String,
    pub winner_count: i32,
    pub end_time: i64,
    pub participant_count: usize,
    pub verdict: Verdict,
}

/// `winners` are distinct entrants, as many as `draw_size` asks for.
pub open spec fn valid_draw(entrants: Set<i64>, winner_count: i32, winners: Seq<i64>) -> bool {
    &&& winners.no_duplicates()
    &&& winners.to_set().subset_of(entrants)
    &&& winners.len() == draw_size(entrants.len(), winner_count)
}

impl Resolution {
    /// The resolution describes `giveaway`, counts its entrants, and draws
    /// from them unless there are none.
    pub open spec fn settles(&self, giveaway: GiveawayView) -> bool {
        &&& self.message_id == giveaway.message_id
        &&& self.channel_id == giveaway.channel_id
        &&& self.host_id == giveaway.host_id
        &&& self.title@ == giveaway.title
        &&& self.description@ == giveaway.description
        &&& self.reward@ == giveaway.reward
        &&& self.winner_count == giveaway.winner_count
        &&& self.end_time == giveaway.end_time
        &&& self.participant_count == giveaway.participants.len()
        &&& match self.verdict {
            Verdict::NoParticipant => giveaway.participants.len() == 0,
            Verdict::Winners(winners) => giveaway.participants.len() > 0 && valid_draw(
                giveaway.participants,
                giveaway.winner_count,
                winners@,
            ),
        }
    }
}

/// Writes down how `record` ended, given what the draw picked: the verdict
/// is `NoParticipant` where nobody had entered, else the picks as they are.
pub fn settle(record: &GiveawayRecord, picked: Vec<i64>) -> (resolution: Resolution)
    ensures
        resolution.message_id == record.message_id,
        resolution.channel_id == record.channel_id,
        resolution.host_id == record.host_id,
        resolution.title@ == record.title@,
        resolution.description@ == record.description@,
        resolution.reward@ == record.reward@,
        resolution.winner_count == record.winner_count,
        resolution.end_time == record.end_time,
        resolution.participant_count == record.participants@.len(),
        record.participants@.len() == 0 ==> resolution.verdict is NoParticipant,
        record.participants@.len() > 0 ==> resolution.verdict == Verdict::Winners(picked),
{
    let verdict = if record.participants.len() == 0 {
        Verdict::NoParticipant
    } else {
        Verdict::Winners(picked)
    };
    Resolution {
        message_id: record.message_id,
        channel_id: record.channel_id,
        host_id: record.host_id,
        title: record.title.clone(),
        description: record.description.clone(),
        reward: record.reward.clone(),
        winner_count: record.winner_count,
        end_time: record.end_time,
        participant_count: record.participants.len(),
        verdict,
    }
}

} // verus!
