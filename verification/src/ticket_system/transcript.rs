//! The transcript written when a ticket is closed.

use vstd::prelude::*;
use vstd::string::*;
use crate::clock::{clock_pattern, clock_text, date_pattern, date_text, utc_text};
use crate::text::{append_integer, integer_text};
use crate::ticket_system::structs::TicketInfo;

verus! {

/// The most messages that a transcript holds.
pub const TRANSCRIPT_LIMIT: usize = 100;

/// One message of the channel of a ticket.
#[derive(Debug, Clone)]
pub struct TranscriptLine {
    /// When it was sent, in seconds after the Unix epoch.
    pub time: i64,
    pub author: String,
    pub content: String,
}

/// The head of a transcript: who, what about, from when to when, and the
/// first request.
pub open spec fn header_text(
    user: i64,
    category: Seq<char>,
    opened: Seq<char>,
    closed: Seq<char>,
    request: Seq<char>,
) -> Seq<char> {
    "=== TRANSCRIPT TICKET ===\n"@ + "Utilisateur : "@ + integer_text(user as int) + " (ID: "@
        + integer_text(user as int) + ")\n"@ + "Catégorie : "@ + category + "\n"@ + "Ouvert le : "@
        + opened + "\n"@ + "Fermé le : "@ + closed + "\n"@ + "Message Initial : "@ + request
        + "\n"@ + "=========================\n\n"@
}

/// One message as the transcript shows it, `clock` being its time of day;
/// a message without text is left out.
pub open spec fn line_text(clock: Seq<char>, author: Seq<char>, content: Seq<char>) -> Seq<char> {
    if content.len() == 0 {
        Seq::<char>::empty()
    } else {
        "["@ + clock + "] "@ + author + ": "@ + content + "\n"@
    }
}

/// Messages given newest first, written oldest first, each with its time
/// of day in UTC.
pub open spec fn lines_text(newest_first: Seq<TranscriptLine>) -> Seq<char>
    decreases newest_first.len(),
{
    if newest_first.len() == 0 {
        Seq::<char>::empty()
    } else {
        lines_text(newest_first.drop_first()) + line_text(
            utc_text(newest_first.first().time, clock_pattern()),
            newest_first.first().author@,
            newest_first.first().content@,
        )
    }
}

/// The messages that a transcript holds: the `TRANSCRIPT_LIMIT` newest.
pub open spec fn kept_lines(newest_first: Seq<TranscriptLine>) -> Seq<TranscriptLine> {
    if newest_first.len() > TRANSCRIPT_LIMIT {
        newest_first.take(TRANSCRIPT_LIMIT as int)
    } else {
        newest_first
    }
}

/// The whole transcript of a ticket of `user`, opened at `created_at` and
/// closed at the date written `closed`.
pub open spec fn transcript_text(
    user: i64,
    category: Seq<char>,
    created_at: i64,
    closed: Seq<char>,
    request: Seq<char>,
    newest_first: Seq<TranscriptLine>,
) -> Seq<char> {
    header_text(user, category, utc_text(created_at, date_pattern()), closed, request)
        + lines_text(kept_lines(newest_first))
}

/// The number of messages that the transcript of `fetched` messages counts.
pub fn transcript_count(fetched: usize) -> (count: usize)
    ensures
        count == if fetched > TRANSCRIPT_LIMIT {
            TRANSCRIPT_LIMIT
        } else {
            fetched
        },
{
    if fetched > TRANSCRIPT_LIMIT {
        TRANSCRIPT_LIMIT
    } else {
        fetched
    }
}

/// Writes the head of a transcript at the end of `out`; `opened` and
/// `closed` are the two dates as they are to be shown.
pub fn append_header(
    out: &mut String,
    user: i64,
    category: &str,
    opened: &str,
    closed: &str,
    request: &str,
)
    ensures
        final(out)@ == old(out)@ + header_text(user, category@, opened@, closed@, request@),
{
    let ghost before = out@;
    out.append("=== TRANSCRIPT TICKET ===\n");
    out.append("Utilisateur : ");
    append_integer(out, user);
    out.append(" (ID: ");
    append_integer(out, user);
    out.append(")\n");
    out.append("Catégorie : ");
    out.append(category);
    out.append("\n");
    out.append("Ouvert le : ");
    out.append(opened);
    out.append("\n");
    out.append("Fermé le : ");
    out.append(closed);
    out.append("\n");
    out.append("Message Initial : ");
    out.append(request);
    out.append("\n");
    out.append("=========================\n\n");
    assert(out@ =~= before + header_text(user, category@, opened@, closed@, request@));
}

/// Writes one message at the end of `out`, `clock` being its time of day
/// as it is to be shown; a message without text is left out.
pub fn append_line(out: &mut String, clock: &str, author: &str, content: &str)
    ensures
        final(out)@ == old(out)@ + line_text(clock@, author@, content@),
{
    let ghost before = out@;
    if !content.is_empty() {
        out.append("[");
        out.append(clock);
        out.append("] ");
        out.append(author);
        out.append(": ");
        out.append(content);
        out.append("\n");
    }
    assert(out@ =~= before + line_text(clock@, author@, content@));
}

/// Writes the transcript of `ticket`, closed at the date `closed_at`, from
/// the messages of its channel given newest first.
///
/// At most the `TRANSCRIPT_LIMIT` newest messages are written, oldest
/// first, and those without text are left out. The date of opening and the
/// times of day are those of UTC.
pub fn render_transcript(ticket: &TicketInfo, closed_at: &str, newest_first: &Vec<TranscriptLine>) -> (text:
    String)
    ensures
        text@ == transcript_text(
            ticket.user_id,
            ticket.category@,
            ticket.created_at,
            closed_at@,
            ticket.initial_message@,
            newest_first@,
        ),
{
    let mut text = String::new();
    let opened = date_text(ticket.created_at);
    append_header(
        &mut text,
        ticket.user_id,
        ticket.category.as_str(),
        opened.as_str(),
        closed_at,
        ticket.initial_message.as_str(),
    );
    let ghost head = text@;
    let ghost kept = kept_lines(newest_first@);
    let mut i: usize = transcript_count(newest_first.len());
    proof {
        assert(kept.skip(i as int) =~= Seq::<TranscriptLine>::empty());
        assert(head =~= head + lines_text(kept.skip(i as int)));
    }
    while i > 0
        invariant
            i <= kept.len(),
            kept == kept_lines(newest_first@),
            kept.len() <= newest_first@.len(),
            text@ == head + lines_text(kept.skip(i as int)),
        decreases i,
    {
        i = i - 1;
        let line = &newest_first[i];
        proof {
            assert(kept[i as int] == newest_first@[i as int]);
            let tail = kept.skip(i as int);
            assert(tail.first() == kept[i as int]);
            assert(tail.drop_first() =~= kept.skip(i as int + 1));
        }
        let ghost before = text@;
        let clock = clock_text(line.time);
        append_line(&mut text, clock.as_str(), line.author.as_str(), line.content.as_str());
        proof {
            let shown = line_text(clock@, line.author@, line.content@);
            assert(before + shown =~= head + (lines_text(kept.skip(i as int + 1)) + shown));
        }
    }
    proof {
        assert(kept.skip(0) =~= kept);
    }
    text
}

/// The name of the file that holds the transcript of the ticket of `user`.
pub fn transcript_file_name(user: i64) -> (name: String)
    ensures
        name@ == "transcript-"@ + integer_text(user as int) + ".txt"@,
{
    let mut name = String::new();
    name.append("transcript-");
    append_integer(&mut name, user);
    name.append(".txt");
    assert(name@ =~= "transcript-"@ + integer_text(user as int) + ".txt"@);
    name
}

} // verus!
