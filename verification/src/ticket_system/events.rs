//! What the ticket desk does on a direct message, on a press of one of its
//! controls, and once the channel of a new ticket exists.

use vstd::prelude::*;
use vstd::std_specs::hash::group_hash_axioms;
use vstd::string::*;
use crate::text::{
    append_integer, append_natural, integer_text, natural_text, str_equals, str_starts_with,
};
use crate::ticket_system::desk::{blacklisted, has_ticket, DeskView, TicketDesk};
use crate::ticket_system::structs::{
    french, TicketCategory, TicketInfo, TicketState, TicketStateView, TicketView,
};

verus! {

/// What the desk asks for after a direct message.
#[derive(Debug)]
pub enum DmAction {
    /// The user is barred: tell them so, with the reason.
    Refuse { reason: String },
    /// The user has a ticket: forward the message into its channel.
    Relay { channel_id: i64 },
    /// The user described their request: create the channel of the ticket
    /// with this number, then report it with `ticket_opened`, or with
    /// `opening_failed` where the channel could not be created.
    OpenTicket { number: u64, category: TicketCategory, language: String },
    /// The category has no number left to give.
    CountersSpent,
    /// The user is in the middle of a choice, or their ticket is being
    /// opened: nothing to do.
    Ignore,
    /// A conversation began: ask for the language.
    AskLanguage,
}

/// The conversation state of `user`, if they have one.
pub open spec fn state_of(states: Map<i64, TicketStateView>, user: i64) -> Option<
    TicketStateView,
> {
    if states.contains_key(user) {
        Some(states[user])
    } else {
        None
    }
}

/// `ticket` after a message from its user at `now`: active again, and not
/// reminded.
pub open spec fn touched(ticket: TicketView, now: i64) -> TicketView {
    TicketView { last_activity: now, has_been_reminded: false, ..ticket }
}

/// `after` and `action` are what a direct message from `user` at `now`
/// makes of `before`.
///
/// A barred user is refused and nothing changes. A user with a ticket has
/// the message relayed and the ticket touched. A user who was asked for
/// their message gets the next number of the category and is from then on
/// a user whose ticket is being opened. A user in any other state is
/// ignored. Anyone else enters the conversation.
pub open spec fn dm_reported(
    before: DeskView,
    after: DeskView,
    user: i64,
    now: i64,
    action: DmAction,
) -> bool {
    if blacklisted(before.blacklist, user) {
        &&& after == before
        &&& action matches DmAction::Refuse { reason }
        &&& exists|i: int|
            0 <= i < before.blacklist.len() && (#[trigger] before.blacklist[i]).user_id == user
                && before.blacklist[i].reason == reason@
    } else if has_ticket(before.tickets, user) {
        &&& action matches DmAction::Relay { channel_id }
        &&& exists|i: int|
            0 <= i < before.tickets.len() && (#[trigger] before.tickets[i]).user_id == user
                && before.tickets[i].channel_id == channel_id && after == (DeskView {
                tickets: before.tickets.update(i, touched(before.tickets[i], now)),
                ..before
            })
    } else {
        match state_of(before.states, user) {
            Some(TicketStateView::WritingMessage { language, category }) => {
                if before.counts.of(category) < u64::MAX {
                    &&& after == (DeskView {
                        counts: before.counts.with(
                            category,
                            (before.counts.of(category) + 1) as u64,
                        ),
                        states: before.states.insert(
                            user,
                            TicketStateView::Opening { language, category },
                        ),
                        ..before
                    })
                    &&& action matches DmAction::OpenTicket {
                        number,
                        category: given,
                        language: spoken,
                    }
                    &&& number == before.counts.of(category) + 1
                    &&& given == category
                    &&& spoken@ == language
                } else {
                    after == before && action is CountersSpent
                }
            },
            Some(_) => after == before && action is Ignore,
            None => {
                &&& after == (DeskView {
                    states: before.states.insert(user, TicketStateView::ChoosingLanguage),
                    ..before
                })
                &&& action is AskLanguage
            },
        }
    }
}

/// What the desk asks for after a press of one of its controls.
#[derive(Debug)]
pub enum ComponentAction {
    /// The user is barred: tell them so, with the reason.
    Refuse { reason: String },
    /// The language is chosen: ask for the category.
    AskCategory { language: String },
    /// The category is chosen: ask for the message.
    AskMessage { language: String, category: TicketCategory },
    /// The control is none of this flow, the menu came back empty, or the
    /// press came out of turn.
    Ignore,
}

/// The language that a language control stands for: French for `lang_fr`,
/// English for any other.
pub open spec fn chosen_language(custom_id: Seq<char>) -> Seq<char> {
    if custom_id == "lang_fr"@ {
        french()
    } else {
        "EN"@
    }
}

/// A control whose name begins with `lang_`.
pub open spec fn is_language_control(custom_id: Seq<char>) -> bool {
    "lang_"@.is_prefix_of(custom_id)
}

/// The category menu.
pub open spec fn is_category_menu(custom_id: Seq<char>) -> bool {
    custom_id == "category_select"@
}

/// The press is of a control of the conversation: a language control, or
/// the category menu with a choice made.
pub open spec fn is_ticket_control(custom_id: Seq<char>, values: Seq<String>) -> bool {
    is_language_control(custom_id) || (is_category_menu(custom_id) && values.len() > 0)
}

/// `after` and `action` are what a press by `user` of the control
/// `custom_id`, with the choices `values`, makes of `before`.
///
/// A press of any other control is ignored. A barred user is refused and
/// nothing changes. A language control moves a user who was asked for
/// their language to the choice of category. The category menu moves a
/// user who was asked for a category to the writing of their message, in
/// the language they chose. A press out of turn is ignored: no state is
/// ever made by a press.
pub open spec fn component_reported(
    before: DeskView,
    after: DeskView,
    user: i64,
    custom_id: Seq<char>,
    values: Seq<String>,
    action: ComponentAction,
) -> bool {
    if !is_ticket_control(custom_id, values) {
        after == before && action is Ignore
    } else if blacklisted(before.blacklist, user) {
        &&& after == before
        &&& action matches ComponentAction::Refuse { reason }
        &&& exists|i: int|
            0 <= i < before.blacklist.len() && (#[trigger] before.blacklist[i]).user_id == user
                && before.blacklist[i].reason == reason@
    } else if is_language_control(custom_id) {
        match state_of(before.states, user) {
            Some(TicketStateView::ChoosingLanguage) => {
                &&& after == (DeskView {
                    states: before.states.insert(
                        user,
                        TicketStateView::ChoosingCategory {
                            language: chosen_language(custom_id),
                        },
                    ),
                    ..before
                })
                &&& action matches ComponentAction::AskCategory { language }
                &&& language@ == chosen_language(custom_id)
            },
            _ => after == before && action is Ignore,
        }
    } else {
        match state_of(before.states, user) {
            Some(TicketStateView::ChoosingCategory { language }) => {
                &&& after == (DeskView {
                    states: before.states.insert(
                        user,
                        TicketStateView::WritingMessage {
                            language,
                            category: TicketCategory::of_choice(values[0]@),
                        },
                    ),
                    ..before
                })
                &&& action matches ComponentAction::AskMessage { language: spoken, category }
                &&& spoken@ == language
                &&& category == TicketCategory::of_choice(values[0]@)
            },
            _ => after == before && action is Ignore,
        }
    }
}

/// What became of a ticket whose channel was created.
#[derive(Debug)]
pub enum OpenOutcome {
    /// The user was barred meanwhile: no ticket was recorded.
    Refuse { reason: String },
    /// No ticket of the user was being opened, or they have one already:
    /// no ticket was recorded.
    Stale,
    /// The ticket is recorded: confirm it in this language.
    Opened { language: String },
}

/// `after` and `outcome` are what the creation of `channel` for `user` at
/// `now`, with `content` as their request, makes of `before`.
///
/// Where no ticket of the user was being opened nothing changes. Otherwise
/// the opening is over, and the ticket is recorded unless the user was
/// barred meanwhile or has a ticket already.
pub open spec fn opening_reported(
    before: DeskView,
    after: DeskView,
    user: i64,
    channel: i64,
    content: Seq<char>,
    now: i64,
    outcome: OpenOutcome,
) -> bool {
    match state_of(before.states, user) {
        Some(TicketStateView::Opening { language, category }) => {
            if blacklisted(before.blacklist, user) {
                &&& after == (DeskView { states: before.states.remove(user), ..before })
                &&& outcome matches OpenOutcome::Refuse { reason }
                &&& exists|i: int|
                    0 <= i < before.blacklist.len() && (#[trigger] before.blacklist[i]).user_id
                        == user && before.blacklist[i].reason == reason@
            } else if has_ticket(before.tickets, user) {
                &&& after == (DeskView { states: before.states.remove(user), ..before })
                &&& outcome is Stale
            } else {
                &&& after == (DeskView {
                    tickets: before.tickets.push(
                        TicketView {
                            user_id: user,
                            channel_id: channel,
                            category: category.key(),
                            created_at: now,
                            initial_message: content,
                            last_activity: now,
                            has_been_reminded: false,
                        },
                    ),
                    states: before.states.remove(user),
                    ..before
                })
                &&& outcome matches OpenOutcome::Opened { language: spoken }
                &&& spoken@ == language
            }
        },
        _ => after == before && outcome is Stale,
    }
}

/// The desk after the channel of the ticket of `user` could not be
/// created: a user whose ticket was being opened is asked for their
/// message again, or is out of the conversation where they were barred
/// meanwhile; for anyone else nothing changes.
pub open spec fn after_failed_opening(before: DeskView, user: i64) -> DeskView {
    match state_of(before.states, user) {
        Some(TicketStateView::Opening { language, category }) => if blacklisted(
            before.blacklist,
            user,
        ) {
            DeskView { states: before.states.remove(user), ..before }
        } else {
            DeskView {
                states: before.states.insert(
                    user,
                    TicketStateView::WritingMessage { language, category },
                ),
                ..before
            }
        },
        _ => before,
    }
}

/// Where a user stands, read off their conversation state.
enum Pending {
    Nothing,
    Language,
    Choosing(String),
    Writing(String, TicketCategory),
    Opening(String, TicketCategory),
    Other,
}

impl TicketDesk {
    /// Reads the conversation state of `user`.
    fn pending(&self, user: i64) -> (pending: Pending)
        ensures
            match state_of(self@.states, user) {
                None => pending is Nothing,
                Some(TicketStateView::ChoosingLanguage) => pending is Language,
                Some(TicketStateView::ChoosingCategory { language }) => pending matches Pending::Choosing(
                    spoken,
                ) && spoken@ == language,
                Some(TicketStateView::WritingMessage { language, category }) => pending matches Pending::Writing(
                    spoken,
                    given,
                ) && spoken@ == language && given == category,
                Some(TicketStateView::Opening { language, category }) => pending matches Pending::Opening(
                    spoken,
                    given,
                ) && spoken@ == language && given == category,
                Some(TicketStateView::InTicket { .. }) => pending is Other,
            },
    {
        proof {
            broadcast use group_hash_axioms;
            self.lemma_view();
        }
        match self.states.get(&user) {
            None => Pending::Nothing,
            Some(TicketState::ChoosingLanguage) => Pending::Language,
            Some(TicketState::ChoosingCategory { language }) => Pending::Choosing(language.clone()),
            Some(TicketState::WritingMessage { language, category }) => Pending::Writing(
                language.clone(),
                *category,
            ),
            Some(TicketState::Opening { language, category }) => Pending::Opening(
                language.clone(),
                *category,
            ),
            Some(TicketState::InTicket { .. }) => Pending::Other,
        }
    }

    /// The conversation state of `user`, if they have one.
    pub fn conversation(&self, user: i64) -> (state: Option<&TicketState>)
        ensures
            match state {
                Some(found) => state_of(self@.states, user) == Some(found@),
                None => state_of(self@.states, user) is None,
            },
    {
        proof {
            broadcast use group_hash_axioms;
            self.lemma_view();
        }
        self.states.get(&user)
    }

    /// Puts `user` in the conversation state `state`.
    fn set_state(&mut self, user: i64, state: TicketState)
        ensures
            final(self)@ == (DeskView {
                states: old(self)@.states.insert(user, state@),
                ..old(self)@
            }),
    {
        proof {
            broadcast use group_hash_axioms;
            self.lemma_view();
        }
        self.states.insert(user, state);
        proof {
            self.lemma_view();
            assert(self@.tickets =~= old(self)@.tickets);
            assert(self@.blacklist =~= old(self)@.blacklist);
            assert(self@.states =~= old(self)@.states.insert(user, state@));
        }
    }

    /// Takes `user` out of the conversation.
    fn clear_state(&mut self, user: i64)
        ensures
            final(self)@ == (DeskView { states: old(self)@.states.remove(user), ..old(self)@ }),
    {
        proof {
            broadcast use group_hash_axioms;
            self.lemma_view();
        }
        self.states.remove(&user);
        proof {
            self.lemma_view();
            assert(self@.tickets =~= old(self)@.tickets);
            assert(self@.blacklist =~= old(self)@.blacklist);
            assert(self@.states =~= old(self)@.states.remove(user));
        }
    }

    /// Reacts to a direct message from `user` at `now`.
    pub fn handle_dm(&mut self, user: i64, now: i64) -> (action: DmAction)
        requires
            old(self).wf(),
        ensures
            final(self).wf(),
            dm_reported(old(self)@, final(self)@, user, now, action),
    {
        proof {
            self.lemma_view();
        }
        if let Some(at) = self.find_barred(user) {
            return DmAction::Refuse { reason: self.blacklist[at].reason.clone() };
        }
        if let Some(at) = self.find_user(user) {
            let channel_id = self.tickets[at].channel_id;
            self.tickets[at].last_activity = now;
            self.tickets[at].has_been_reminded = false;
            proof {
                self.lemma_view();
                assert(self@.blacklist =~= old(self)@.blacklist);
                assert(self@.states =~= old(self)@.states);
                assert(self@.tickets =~= old(self)@.tickets.update(
                    at as int,
                    touched(old(self)@.tickets[at as int], now),
                ));
            }
            return DmAction::Relay { channel_id };
        }
        match self.pending(user) {
            Pending::Writing(language, category) => {
                let count = self.counts.get(category);
                if count == u64::MAX {
                    return DmAction::CountersSpent;
                }
                self.counts.set(category, count + 1);
                proof {
                    self.lemma_view();
                    assert(self@.tickets =~= old(self)@.tickets);
                    assert(self@.blacklist =~= old(self)@.blacklist);
                    assert(self@.states =~= old(self)@.states);
                }
                self.set_state(user, TicketState::Opening { language: language.clone(), category });
                DmAction::OpenTicket { number: count + 1, category, language }
            },
            Pending::Nothing => {
                self.set_state(user, TicketState::ChoosingLanguage);
                DmAction::AskLanguage
            },
            _ => DmAction::Ignore,
        }
    }

    /// Reacts to a press by `user` of the control `custom_id`; `values` are
    /// the choices made, where the control is a menu.
    pub fn handle_component(&mut self, user: i64, custom_id: &str, values: &Vec<String>) -> (action:
        ComponentAction)
        requires
            old(self).wf(),
        ensures
            final(self).wf(),
            component_reported(old(self)@, final(self)@, user, custom_id@, values@, action),
    {
        proof {
            self.lemma_view();
        }
        let language_control = str_starts_with(custom_id, "lang_");
        let category_menu = str_equals(custom_id, "category_select") && values.len() > 0;
        if !language_control && !category_menu {
            return ComponentAction::Ignore;
        }
        if let Some(at) = self.find_barred(user) {
            return ComponentAction::Refuse { reason: self.blacklist[at].reason.clone() };
        }
        if language_control {
            match self.pending(user) {
                Pending::Language => {
                    let language = if str_equals(custom_id, "lang_fr") {
                        String::from_str("FR")
                    } else {
                        String::from_str("EN")
                    };
                    self.set_state(
                        user,
                        TicketState::ChoosingCategory { language: language.clone() },
                    );
                    ComponentAction::AskCategory { language }
                },
                _ => ComponentAction::Ignore,
            }
        } else {
            match self.pending(user) {
                Pending::Choosing(language) => {
                    let category = TicketCategory::from_choice(values[0].as_str());
                    self.set_state(
                        user,
                        TicketState::WritingMessage { language: language.clone(), category },
                    );
                    ComponentAction::AskMessage { language, category }
                },
                _ => ComponentAction::Ignore,
            }
        }
    }

    /// Records the ticket of `user` once its channel exists: `channel` was
    /// created at `now` for the request `content`.
    pub fn ticket_opened(&mut self, user: i64, channel: i64, content: String, now: i64) -> (outcome:
        OpenOutcome)
        requires
            old(self).wf(),
        ensures
            final(self).wf(),
            opening_reported(old(self)@, final(self)@, user, channel, content@, now, outcome),
    {
        proof {
            self.lemma_view();
        }
        let (language, category) = match self.pending(user) {
            Pending::Opening(language, category) => (language, category),
            _ => {
                return OpenOutcome::Stale;
            },
        };
        if let Some(at) = self.find_barred(user) {
            let reason = self.blacklist[at].reason.clone();
            self.clear_state(user);
            return OpenOutcome::Refuse { reason };
        }
        if self.find_user(user).is_some() {
            self.clear_state(user);
            return OpenOutcome::Stale;
        }
        let ticket = TicketInfo {
            user_id: user,
            channel_id: channel,
            category: category.storage_key(),
            created_at: now,
            initial_message: content,
            last_activity: now,
            has_been_reminded: false,
        };
        self.tickets.push(ticket);
        proof {
            self.lemma_view();
            assert(self@.blacklist =~= old(self)@.blacklist);
            assert(self@.states =~= old(self)@.states);
            assert(self@.tickets =~= old(self)@.tickets.push(ticket@));
        }
        self.clear_state(user);
        OpenOutcome::Opened { language }
    }

    /// Takes note that the channel of the ticket of `user` could not be
    /// created. Tells whether the user is asked for their message again.
    pub fn opening_failed(&mut self, user: i64) -> (resumed: bool)
        requires
            old(self).wf(),
        ensures
            final(self).wf(),
            final(self)@ == after_failed_opening(old(self)@, user),
            resumed == (state_of(old(self)@.states, user) is Some && state_of(
                old(self)@.states,
                user,
            )->0 is Opening && !blacklisted(old(self)@.blacklist, user)),
    {
        proof {
            self.lemma_view();
        }
        match self.pending(user) {
            Pending::Opening(language, category) => {
                if self.is_blacklisted(user) {
                    self.clear_state(user);
                    false
                } else {
                    self.set_state(user, TicketState::WritingMessage { language, category });
                    true
                }
            },
            _ => false,
        }
    }
}

/// Something that happened on the platform, as far as the desk cares.
#[derive(Debug)]
pub enum TicketEvent {
    /// A message was sent.
    Message { author_is_bot: bool, in_guild: bool, user: i64 },
    /// A control was pressed, with these choices where it is a menu.
    Component { user: i64, custom_id: String, values: Vec<String> },
    /// Anything else.
    Other,
}

/// What the desk asks for after an event.
#[derive(Debug)]
pub enum TicketAction {
    /// The event is none of the desk's.
    Nothing,
    /// A direct message was handled.
    Dm(DmAction),
    /// A press was handled.
    Component(ComponentAction),
}

/// Hands an event that came at `now` to the desk.
///
/// Only direct messages written by people, and presses of controls, reach
/// the desk: messages of bots and messages in a guild change nothing.
pub fn handle_event(desk: &mut TicketDesk, event: &TicketEvent, now: i64) -> (action: TicketAction)
    requires
        old(desk).wf(),
    ensures
        final(desk).wf(),
        match *event {
            TicketEvent::Message { author_is_bot, in_guild, user } => if author_is_bot || in_guild {
                action is Nothing && final(desk)@ == old(desk)@
            } else {
                action matches TicketAction::Dm(done) && dm_reported(
                    old(desk)@,
                    final(desk)@,
                    user,
                    now,
                    done,
                )
            },
            TicketEvent::Component { user, custom_id, values } => action matches TicketAction::Component(
                done,
            ) && component_reported(old(desk)@, final(desk)@, user, custom_id@, values@, done),
            TicketEvent::Other => action is Nothing && final(desk)@ == old(desk)@,
        },
{
    match event {
        TicketEvent::Message { author_is_bot, in_guild, user } => {
            if *author_is_bot || *in_guild {
                TicketAction::Nothing
            } else {
                TicketAction::Dm(desk.handle_dm(*user, now))
            }
        },
        TicketEvent::Component { user, custom_id, values } => TicketAction::Component(
            desk.handle_component(*user, custom_id.as_str(), values),
        ),
        TicketEvent::Other => TicketAction::Nothing,
    }
}

/// The name of the channel of a ticket: its author, a hyphen, its number.
pub fn ticket_channel_name(author: &str, number: u64) -> (name: String)
    ensures
        name@ == author@ + "-"@ + natural_text(number as nat),
{
    let mut name = String::new();
    name.append(author);
    name.append("-");
    append_natural(&mut name, number);
    assert(name@ =~= author@ + "-"@ + natural_text(number as nat));
    name
}

/// The topic of the channel of a ticket.
pub fn ticket_topic(author: &str, user: i64) -> (topic: String)
    ensures
        topic@ == "Ticket de "@ + author@ + " | ID: "@ + integer_text(user as int),
{
    let mut topic = String::new();
    topic.append("Ticket de ");
    topic.append(author);
    topic.append(" | ID: ");
    append_integer(&mut topic, user);
    assert(topic@ =~= "Ticket de "@ + author@ + " | ID: "@ + integer_text(user as int));
    topic
}

} // verus!