//! Reading the cross build's structured output, one line at a time.
use vstd::prelude::*;
use crate::events::{BuildEvent, EventView};

verus! {

/// What `cargo_metadata` reads from the first line of `text`: `None` where
/// there is nothing to read.
pub uninterp spec fn first_message_of(text: Seq<char>) -> Option<EventView>;

/// The view of an optional event.
pub open spec fn parsed_view(parsed: Option<BuildEvent>) -> Option<EventView> {
    match parsed {
        Some(event) => Some(event@),
        None => None,
    }
}

/// The event that a line of the output stands for: what the reader makes of
/// it, and the line as plain text where the reader finds nothing in it.
pub open spec fn event_of_line(line: Seq<char>) -> EventView {
    match first_message_of(line) {
        Some(event) => event,
        None => EventView::TextLine { line },
    }
}

/// Reads the first message of `text` with `cargo_metadata`'s
/// `Message::parse_stream` and keeps of it what this library reads: of an
/// artifact the target's name and the executable, of a compiler message the
/// rendered text, of a plain line the line. The result is taken to depend on
/// the text alone, and to be absent exactly where the text is empty; what
/// the message holds is not stated.
#[verifier::external_body]
fn first_message(text: &str) -> (parsed: Option<BuildEvent>)
    ensures
        parsed_view(parsed) == first_message_of(text@),
        parsed.is_some() == (text@.len() > 0),
{
    match cargo_metadata::Message::parse_stream(text.as_bytes()).next() {
        Some(Ok(cargo_metadata::Message::CompilerArtifact(artifact))) => Some(
            BuildEvent::CompilerArtifact {
                name: artifact.target.name,
                executable: artifact.executable.map(|path| path.into_string()),
            },
        ),
        Some(Ok(cargo_metadata::Message::CompilerMessage(said))) => Some(
            BuildEvent::CompilerMessage { message: said.message.to_string() },
        ),
        Some(Ok(cargo_metadata::Message::TextLine(line))) => Some(BuildEvent::TextLine { line }),
        Some(_) => Some(BuildEvent::Other),
        None => None,
    }
}

/// Settles what a line stands for once it was read: the event that was
/// found, or the line itself as plain text where none was.
pub fn event_or_text(parsed: Option<BuildEvent>, line: &str) -> (event: BuildEvent)
    ensures
        event@ == match parsed {
            Some(found) => found@,
            None => (EventView::TextLine { line: line@ }),
        },
{
    match parsed {
        Some(found) => found,
        None => BuildEvent::TextLine { line: String::from_str(line) },
    }
}

/// Reads one line of the structured output, given without its line end.
pub fn parse_event(line: &str) -> (event: BuildEvent)
    ensures
        event@ == event_of_line(line@),
        line@.len() == 0 ==> event@ == (EventView::TextLine { line: line@ }),
{
    let parsed = first_message(line);
    event_or_text(parsed, line)
}

} // verus!
