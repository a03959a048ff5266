//! The data of the ticket flow.

use vstd::prelude::*;
use vstd::string::*;

verus! {

/// What a ticket is about.
#[derive(Debug, Clone, Copy, PartialEq, Eq, Structural)]
pub enum TicketCategory {
    Partnership,
    Recruitment,
    Support,
    Other,
}

impl TicketCategory {
    /// The label shown to French-speaking users.
    pub open spec fn label(self) -> Seq<char> {
        match self {
            TicketCategory::Partnership => "Partenariat"@,
            TicketCategory::Recruitment => "Recrutement"@,
            TicketCategory::Support => "Support"@,
            TicketCategory::Other => "Autres"@,
        }
    }

    /// The name under which the category is stored and counted.
    pub open spec fn key(self) -> Seq<char> {
        match self {
            TicketCategory::Partnership => "Partnership"@,
            TicketCategory::Recruitment => "Recruitment"@,
            TicketCategory::Support => "Support"@,
            TicketCategory::Other => "Other"@,
        }
    }

    /// The category that a choice of the category menu stands for; any
    /// unknown choice stands for `Other`.
    pub open spec fn of_choice(choice: Seq<char>) -> TicketCategory {
        if choice == "cat_partnership"@ {
            TicketCategory::Partnership
        } else if choice == "cat_recruitment"@ {
            TicketCategory::Recruitment
        } else if choice == "cat_support"@ {
            TicketCategory::Support
        } else {
            TicketCategory::Other
        }
    }

    /// Renders the category as its French label.
    pub fn to_string(&self) -> (text: String)
        ensures
            text@ == self.label(),
    {
        match self {
            TicketCategory::Partnership => String::from_str("Partenariat"),
            TicketCategory::Recruitment => String::from_str("Recrutement"),
            TicketCategory::Support => String::from_str("Support"),
            TicketCategory::Other => String::from_str("Autres"),
        }
    }

    /// Renders the category as the name under which it is stored.
    pub fn storage_key(&self) -> (text: String)
        ensures
            text@ == self.key(),
    {
        match self {
            TicketCategory::Partnership => String::from_str("Partnership"),
            TicketCategory::Recruitment => String::from_str("Recruitment"),
            TicketCategory::Support => String::from_str("Support"),
            TicketCategory::Other => String::from_str("Other"),
        }
    }

    /// The category stored under `key`, if it is the name of one.
    pub open spec fn of_key(key: Seq<char>) -> Option<TicketCategory> {
        if key == "Partnership"@ {
            Some(TicketCategory::Partnership)
        } else if key == "Recruitment"@ {
            Some(TicketCategory::Recruitment)
        } else if key == "Support"@ {
            Some(TicketCategory::Support)
        } else if key == "Other"@ {
            Some(TicketCategory::Other)
        } else {
            None
        }
    }

    /// Reads the name under which a category is stored.
    pub fn from_key(key: &str) -> (category: Option<TicketCategory>)
        ensures
            category == TicketCategory::of_key(key@),
    {
        if crate::text::str_equals(key, "Partnership") {
            Some(TicketCategory::Partnership)
        } else if crate::text::str_equals(key, "Recruitment") {
            Some(TicketCategory::Recruitment)
        } else if crate::text::str_equals(key, "Support") {
            Some(TicketCategory::Support)
        } else if crate::text::str_equals(key, "Other") {
            Some(TicketCategory::Other)
        } else {
            None
        }
    }

    /// Reads a choice of the category menu.
    pub fn from_choice(choice: &str) -> (category: TicketCategory)
        ensures
            category == TicketCategory::of_choice(choice@),
    {
        if crate::text::str_equals(choice, "cat_partnership") {
            TicketCategory::Partnership
        } else if crate::text::str_equals(choice, "cat_recruitment") {
            TicketCategory::Recruitment
        } else if crate::text::str_equals(choice, "cat_support") {
            TicketCategory::Support
        } else {
            TicketCategory::Other
        }
    }
}

/// Every category is read back from the name under which it is stored.
pub proof fn lemma_key_reads_back(category: TicketCategory)
    ensures
        TicketCategory::of_key(category.key()) == Some(category),
{
    reveal_strlit("Partnership");
    reveal_strlit("Recruitment");
    reveal_strlit("Support");
    reveal_strlit("Other");
    assert("Partnership"@[0] == 'P');
    assert("Recruitment"@[0] == 'R');
    assert("Support"@[0] == 'S');
    assert("Other"@[0] == 'O');
}

/// The language in which a user is written to where it is not English.
pub open spec fn french() -> Seq<char> {
    "FR"@
}

/// Tells whether a user who chose `language` is written to in French;
/// every other language is answered in English.
pub fn is_french(language: &str) -> (yes: bool)
    ensures
        yes == (language@ == french()),
{
    crate::text::str_equals(language, "FR")
}

impl TicketCategory {
    /// The name of the category as a user who chose `language` reads it:
    /// the French label in French, the stored name otherwise.
    pub fn shown_in(&self, language: &str) -> (text: String)
        ensures
            text@ == (if language@ == french() {
                self.label()
            } else {
                self.key()
            }),
    {
        if is_french(language) {
            self.to_string()
        } else {
            self.storage_key()
        }
    }
}

/// Where a user stands in the intake conversation.
#[derive(Debug, Clone)]
pub enum TicketState {
    /// The user was asked for their language.
    ChoosingLanguage,
    /// The user chose their language and was asked for a category.
    ChoosingCategory { language: String },
    /// The user chose a category and was asked to describe their request.
    WritingMessage { language: String, category: TicketCategory },
    /// The user described their request: the channel of their ticket is
    /// being created, and what they write meanwhile is not heard.
    Opening { language: String, category: TicketCategory },
    /// The user has a ticket in this channel.
    InTicket { channel_id: u64 },
}

/// A conversation state as contracts see it.
pub enum TicketStateView {
    ChoosingLanguage,
    ChoosingCategory { language: Seq<char> },
    WritingMessage { language: Seq<char>, category: TicketCategory },
    Opening { language: Seq<char>, category: TicketCategory },
    InTicket { channel_id: u64 },
}

impl View for TicketState {
    type V = TicketStateView;

    open spec fn view(&self) -> TicketStateView {
        match self {
            TicketState::ChoosingLanguage => TicketStateView::ChoosingLanguage,
            TicketState::ChoosingCategory { language } => TicketStateView::ChoosingCategory {
                language: language@,
            },
            TicketState::WritingMessage { language, category } => TicketStateView::WritingMessage {
                language: language@,
                category: *category,
            },
            TicketState::Opening { language, category } => TicketStateView::Opening {
                language: language@,
                category: *category,
            },
            TicketState::InTicket { channel_id } => TicketStateView::InTicket {
                channel_id: *channel_id,
            },
        }
    }
}

/// An open ticket, known by the user who opened it.
#[derive(Debug, Clone)]
pub struct TicketInfo {
    pub user_id: i64,
    pub channel_id: i64,
    pub category: String,
    pub created_at: i64,
    pub initial_message: String,
    pub last_activity: i64,
    pub has_been_reminded: bool,
}

/// A ticket as contracts see it.
pub struct TicketView {
    pub user_id: i64,
    pub channel_id: i64,
    pub category: Seq<char>,
    pub created_at: i64,
    pub initial_message: Seq<char>,
    pub last_activity: i64,
    pub has_been_reminded: bool,
}

impl View for TicketInfo {
    type V = TicketView;

    open spec fn view(&self) -> TicketView {
        TicketView {
            user_id: self.user_id,
            channel_id: self.channel_id,
            category: self.category@,
            created_at: self.created_at,
            initial_message: self.initial_message@,
            last_activity: self.last_activity,
            has_been_reminded: self.has_been_reminded,
        }
    }
}

/// A user barred from opening tickets.
#[derive(Debug, Clone)]
pub struct BlacklistEntry {
    pub user_id: i64,
    pub reason: String,
    pub by_staff: i64,
    pub date: i64,
}

/// A blacklist entry as contracts see it.
pub struct BlacklistView {
    pub user_id: i64,
    pub reason: Seq<char>,
    pub by_staff: i64,
    pub date: i64,
}

impl View for BlacklistEntry {
    type V = BlacklistView;

    open spec fn view(&self) -> BlacklistView {
        BlacklistView {
            user_id: self.user_id,
            reason: self.reason@,
            by_staff: self.by_staff,
            date: self.date,
        }
    }
}

/// How many tickets each category has ever had.
#[derive(Debug, Clone, Copy, PartialEq, Eq, Structural)]
pub struct TicketCounts {
    pub partnership: u64,
    pub recruitment: u64,
    pub support: u64,
    pub other: u64,
}

impl TicketCounts {
    /// The count of one category.
    pub open spec fn of(self, category: TicketCategory) -> u64 {
        match category {
            TicketCategory::Partnership => self.partnership,
            TicketCategory::Recruitment => self.recruitment,
            TicketCategory::Support => self.support,
            TicketCategory::Other => self.other,
        }
    }

    /// The counts with that of one category set to `count`.
    pub open spec fn with(self, category: TicketCategory, count: u64) -> TicketCounts {
        match category {
            TicketCategory::Partnership => TicketCounts { partnership: count, ..self },
            TicketCategory::Recruitment => TicketCounts { recruitment: count, ..self },
            TicketCategory::Support => TicketCounts { support: count, ..self },
            TicketCategory::Other => TicketCounts { other: count, ..self },
        }
    }

    /// The count of one category.
    pub fn get(&self, category: TicketCategory) -> (count: u64)
        ensures
            count == self.of(category),
    {
        match category {
            TicketCategory::Partnership => self.partnership,
            TicketCategory::Recruitment => self.recruitment,
            TicketCategory::Support => self.support,
            TicketCategory::Other => self.other,
        }
    }

    /// Sets the count of one category.
    pub fn set(&mut self, category: TicketCategory, count: u64)
        ensures
            *final(self) == old(self).with(category, count),
    {
        match category {
            TicketCategory::Partnership => {
                self.partnership = count;
            },
            TicketCategory::Recruitment => {
                self.recruitment = count;
            },
            TicketCategory::Support => {
                self.support = count;
            },
            TicketCategory::Other => {
                self.other = count;
            },
        }
    }
}

} // verus!
