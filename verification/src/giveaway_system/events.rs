//! What the giveaway flow does on a press, on a submitted form and on a
//! tick of its timer.

use vstd::prelude::*;
use vstd::string::*;
use crate::giveaway_system::duration::{duration_of, parse_duration};
use crate::giveaway_system::store::{
    active_in, after_press, deletion_reported, due, entry_reported, swept, EntryOutcome,
    GiveawayStore,
};
use crate::giveaway_system::structs::{GiveawayPlan, GiveawayRecord, GiveawayView, Resolution};
use crate::text::{decimal_i32, parse_i32, str_equals};

verus! {

/// The control that offers to create a giveaway.
pub open spec fn create_control() -> Seq<char> {
    "giveaway_create_btn"@
}

/// The control that offers to delete the channel's giveaway.
pub open spec fn delete_control() -> Seq<char> {
    "giveaway_delete_btn"@
}

/// The entry control under an announcement.
pub open spec fn entry_control() -> Seq<char> {
    "giveaway_join"@
}

/// The form that creates a giveaway.
pub open spec fn creation_form() -> Seq<char> {
    "giveaway_create_modal"@
}

/// What a press of one of the giveaway controls led to.
#[derive(Debug)]
pub enum PressOutcome {
    /// The control is none of this flow.
    Ignored,
    /// Creation was asked for in a channel that has an active giveaway.
    ChannelBusy,
    /// Creation was asked for and the form is to be shown.
    OpenForm,
    /// The channel's active giveaway was deleted; this was it.
    Deleted(GiveawayRecord),
    /// Deletion was asked for in a channel without an active giveaway.
    NothingToDelete,
    /// The entry control was pressed.
    Entry(EntryOutcome),
}

/// `after` and `outcome` are what a press of the control `custom_id` by
/// `user`, in `channel`, under `message`, makes of `before`.
///
/// The creation control changes nothing: it opens the form unless the
/// channel has an active giveaway. The deletion control removes the
/// channel's active giveaway with its entrants. The entry control toggles
/// the user's entry in the active giveaway that the message announces. Any
/// other control is ignored.
pub open spec fn press_reported(
    before: Seq<GiveawayView>,
    after: Seq<GiveawayView>,
    custom_id: Seq<char>,
    channel: i64,
    message: i64,
    user: i64,
    outcome: PressOutcome,
) -> bool {
    if custom_id == create_control() {
        after == before && if active_in(before, channel) {
            outcome is ChannelBusy
        } else {
            outcome is OpenForm
        }
    } else if custom_id == delete_control() {
        match outcome {
            PressOutcome::Deleted(record) => deletion_reported(
                before,
                after,
                channel,
                Some(record@),
            ),
            PressOutcome::NothingToDelete => deletion_reported(before, after, channel, None),
            _ => false,
        }
    } else if custom_id == entry_control() {
        after == after_press(before, message, user) && match outcome {
            PressOutcome::Entry(entry) => entry_reported(before, message, user, entry),
            _ => false,
        }
    } else {
        outcome is Ignored && after == before
    }
}

/// Reacts to a press of the control `custom_id` by `user`, in `channel`,
/// under `message`.
pub fn handle_component(
    store: &mut GiveawayStore,
    custom_id: &str,
    channel: i64,
    message: i64,
    user: i64,
) -> (outcome: PressOutcome)
    requires
        old(store).wf(),
    ensures
        final(store).wf(),
        press_reported(old(store)@, final(store)@, custom_id@, channel, message, user, outcome),
{
    proof {
        reveal_strlit("giveaway_create_btn");
        reveal_strlit("giveaway_delete_btn");
        reveal_strlit("giveaway_join");
        assert("giveaway_create_btn"@[9] != "giveaway_delete_btn"@[9]);
        assert("giveaway_join"@.len() != "giveaway_create_btn"@.len());
    }
    if str_equals(custom_id, "giveaway_create_btn") {
        if store.has_active(channel) {
            PressOutcome::ChannelBusy
        } else {
            PressOutcome::OpenForm
        }
    } else if str_equals(custom_id, "giveaway_delete_btn") {
        match store.delete_active(channel) {
            Some(record) => PressOutcome::Deleted(record),
            None => PressOutcome::NothingToDelete,
        }
    } else if str_equals(custom_id, "giveaway_join") {
        PressOutcome::Entry(store.toggle_entry(message, user))
    } else {
        PressOutcome::Ignored
    }
}

/// One text input of a submitted form.
#[derive(Debug)]
pub struct FormField {
    pub id: String,
    pub value: Option<String>,
}

/// The text entered under `id`: that of the last field so named, empty
/// where it was left out or no field is so named.
pub open spec fn field_text(fields: Seq<FormField>, id: Seq<char>) -> Seq<char>
    decreases fields.len(),
{
    if fields.len() == 0 {
        Seq::<char>::empty()
    } else if fields.last().id@ == id {
        match fields.last().value {
            Some(text) => text@,
            None => Seq::<char>::empty(),
        }
    } else {
        field_text(fields.drop_last(), id)
    }
}

/// Reads the text entered under `id`.
pub fn read_field(fields: &Vec<FormField>, id: &str) -> (text: String)
    ensures
        text@ == field_text(fields@, id@),
{
    let mut i: usize = fields.len();
    proof {
        assert(fields@.take(i as int) =~= fields@);
    }
    while i > 0
        invariant
            i <= fields@.len(),
            field_text(fields@, id@) == field_text(fields@.take(i as int), id@),
        decreases i,
    {
        let ghost head = fields@.take(i as int);
        proof {
            assert(head.last() == fields@[i as int - 1]);
            assert(head.drop_last() =~= fields@.take(i as int - 1));
        }
        i = i - 1;
        if str_equals(fields[i].id.as_str(), id) {
            return match &fields[i].value {
                Some(text) => text.clone(),
                None => String::new(),
            };
        }
    }
    proof {
        assert(fields@.take(0) =~= Seq::<FormField>::empty());
    }
    String::new()
}

/// The number of winners that a form asks for: the `i32` written in the
/// field, 1 where it writes none.
pub open spec fn winners_asked(text: Seq<char>) -> i32 {
    match decimal_i32(text) {
        Some(count) => count,
        None => 1,
    }
}

/// What a submitted form led to.
#[derive(Debug)]
pub enum ModalOutcome {
    /// The form is none of this flow.
    Ignored,
    /// The duration stands for nothing, or the end would lie beyond the
    /// last second that an `i64` can count.
    BadDuration,
    /// The duration is good, but the channel already has an active
    /// giveaway.
    ChannelBusy,
    /// The giveaway is to be announced as planned, then registered.
    Announce(GiveawayPlan),
}

/// The end of a giveaway planned at `now` with the duration `text`: `now`
/// plus what the duration means, where it means something and the sum can
/// be held in an `i64`.
pub open spec fn planned_end(text: Seq<char>, now: i64) -> Option<i64> {
    match duration_of(text) {
        Some(seconds) if now + seconds <= i64::MAX => Some((now + seconds) as i64),
        _ => None,
    }
}

/// `outcome` is what the form `custom_id`, submitted in `channel` at `now`
/// with `fields`, leads to while the giveaways are `records`.
///
/// Another form is ignored. The creation form is refused for its duration
/// where that is not understood or the end cannot be held in an `i64`,
/// whatever the channel holds. With a good duration it is refused in a
/// channel that has an active giveaway. Otherwise it gives a plan that
/// ends at `now` plus the duration entered.
pub open spec fn form_reported(
    records: Seq<GiveawayView>,
    custom_id: Seq<char>,
    channel: i64,
    fields: Seq<FormField>,
    now: i64,
    outcome: ModalOutcome,
) -> bool {
    if custom_id != creation_form() {
        outcome is Ignored
    } else {
        match planned_end(field_text(fields, "duration"@), now) {
            None => outcome is BadDuration,
            Some(end_time) => if active_in(records, channel) {
                outcome is ChannelBusy
            } else {
                &&& outcome matches ModalOutcome::Announce(plan)
                &&& plan.title@ == field_text(fields, "title"@)
                &&& plan.description@ == field_text(fields, "description"@)
                &&& plan.reward@ == field_text(fields, "reward"@)
                &&& plan.winner_count == winners_asked(field_text(fields, "winners"@))
                &&& plan.end_time == end_time
            },
        }
    }
}

/// Reads the creation form submitted in `channel` at `now` into a plan.
pub fn handle_modal(
    store: &GiveawayStore,
    custom_id: &str,
    channel: i64,
    fields: &Vec<FormField>,
    now: i64,
) -> (outcome: ModalOutcome)
    ensures
        form_reported(store@, custom_id@, channel, fields@, now, outcome),
{
    if !str_equals(custom_id, "giveaway_create_modal") {
        return ModalOutcome::Ignored;
    }
    let duration_text = read_field(fields, "duration");
    let seconds = match parse_duration(duration_text.as_str()) {
        Some(seconds) => seconds,
        None => {
            return ModalOutcome::BadDuration;
        },
    };
    let end_time = match now.checked_add(seconds) {
        Some(end_time) => end_time,
        None => {
            return ModalOutcome::BadDuration;
        },
    };
    if store.has_active(channel) {
        return ModalOutcome::ChannelBusy;
    }
    let title = read_field(fields, "title");
    let description = read_field(fields, "description");
    let reward = read_field(fields, "reward");
    let winners_text = read_field(fields, "winners");
    let winner_count = match parse_i32(winners_text.as_str()) {
        Some(count) => count,
        None => 1,
    };
    ModalOutcome::Announce(GiveawayPlan { title, description, reward, winner_count, end_time })
}

/// Runs the resolution sweep at `now`: every active giveaway whose end has
/// come is ended and its winners are drawn.
pub fn check_giveaways(store: &mut GiveawayStore, now: i64) -> (resolutions: Vec<Resolution>)
    requires
        old(store).wf(),
    ensures
        final(store).wf(),
        final(store)@ == swept(old(store)@, now),
        resolutions@.len() == due(old(store)@, now).len(),
        forall|k: int|
            0 <= k < resolutions@.len() ==> (#[trigger] resolutions@[k]).settles(
                due(old(store)@, now)[k],
            ),
{
    store.sweep(now)
}

/// Something that happened on the platform, as far as giveaways care.
#[derive(Debug)]
pub enum GiveawayEvent {
    /// A control was pressed by `user`, in `channel`, under `message`.
    Component { custom_id: String, channel: i64, message: i64, user: i64 },
    /// A form was submitted in `channel`.
    Modal { custom_id: String, channel: i64, fields: Vec<FormField> },
    /// Anything else.
    Other,
}

/// What the giveaway flow asks for after an event.
#[derive(Debug)]
pub enum GiveawayAction {
    /// The event is none of this flow.
    Nothing,
    /// A press was handled.
    Press(PressOutcome),
    /// A form was read.
    Form(ModalOutcome),
}

/// Hands an event that came at `now` to the giveaway flow: presses go to
/// `handle_component`, forms to `handle_modal`.
pub fn handle_event(store: &mut GiveawayStore, event: &GiveawayEvent, now: i64) -> (action:
    GiveawayAction)
    requires
        old(store).wf(),
    ensures
        final(store).wf(),
        match *event {
            GiveawayEvent::Component { custom_id, channel, message, user } => action matches GiveawayAction::Press(
                outcome,
            ) && press_reported(
                old(store)@,
                final(store)@,
                custom_id@,
                channel,
                message,
                user,
                outcome,
            ),
            GiveawayEvent::Modal { custom_id, channel, fields } => {
                &&& final(store)@ == old(store)@
                &&& action matches GiveawayAction::Form(outcome)
                &&& form_reported(old(store)@, custom_id@, channel, fields@, now, outcome)
            },
            GiveawayEvent::Other => action is Nothing && final(store)@ == old(store)@,
        },
{
    match event {
        GiveawayEvent::Component { custom_id, channel, message, user } => GiveawayAction::Press(
            handle_component(store, custom_id.as_str(), *channel, *message, *user),
        ),
        GiveawayEvent::Modal { custom_id, channel, fields } => GiveawayAction::Form(
            handle_modal(store, custom_id.as_str(), *channel, fields, now),
        ),
        GiveawayEvent::Other => GiveawayAction::Nothing,
    }
}

} // verus!