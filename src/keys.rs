use vstd::prelude::*;
use vstd::string::*;
use crate::panel::{Event, Key, Operation, UiSection};
use crate::text::{trim, trimmed};

verus! {

/// What the key reader does with one key.
///
/// A delete is confirmed by the reader itself: after `Input(Delete)` it reads
/// further keys until one answers the question (see `confirm_answer`), and
/// only then sends the commit or the cancel.
#[derive(PartialEq, Eq, Debug)]
pub enum KeyAction {
    /// Send this event.
    Emit(Event),
    /// Send `Event::Input(op)`, read one line of text, then send the event
    /// that `commit_event` makes of it.
    AskText(Operation),
    /// Send `Event::Input(Operation::Delete)`, then read keys until one answers.
    AskConfirm,
}

/// The fixed key table.
pub open spec fn key_table(key: Key) -> KeyAction {
    match key {
        Key::Char('q') | Key::Esc => KeyAction::Emit(Event::Quit),
        Key::Up => KeyAction::Emit(Event::HighlightUp),
        Key::Down => KeyAction::Emit(Event::HighlightDown),
        Key::Right => KeyAction::Emit(Event::MoveUp),
        Key::Left => KeyAction::Emit(Event::MoveDown),
        Key::Char('\n') => KeyAction::Emit(Event::Toggle),
        Key::Char('s') => KeyAction::Emit(Event::Save),
        Key::Char('a') => KeyAction::AskText(Operation::Create),
        Key::Char('e') => KeyAction::AskText(Operation::Update),
        Key::Char('d') => KeyAction::AskConfirm,
        _ => KeyAction::Emit(Event::KeyPressed(key)),
    }
}

/// What the reader does with `key`.
pub fn key_action(key: Key) -> (r: KeyAction)
    ensures
        r == key_table(key),
{
    match key {
        Key::Char('q') | Key::Esc => KeyAction::Emit(Event::Quit),
        Key::Up => KeyAction::Emit(Event::HighlightUp),
        Key::Down => KeyAction::Emit(Event::HighlightDown),
        Key::Right => KeyAction::Emit(Event::MoveUp),
        Key::Left => KeyAction::Emit(Event::MoveDown),
        Key::Char('\n') => KeyAction::Emit(Event::Toggle),
        Key::Char('s') => KeyAction::Emit(Event::Save),
        Key::Char('a') => KeyAction::AskText(Operation::Create),
        Key::Char('e') => KeyAction::AskText(Operation::Update),
        Key::Char('d') => KeyAction::AskConfirm,
        _ => KeyAction::Emit(Event::KeyPressed(key)),
    }
}

/// The answer that a key read after the delete question gives: `y` confirms,
/// `n` declines, a failed read (`None`) declines, and any other key is no
/// answer yet.
pub fn confirm_answer(read: Option<Key>) -> (r: Option<bool>)
    ensures
        r == match read {
            Some(Key::Char('y')) => Some(true),
            Some(Key::Char('n')) => Some(false),
            None => Some(false),
            Some(_) => None::<bool>,
        },
{
    match read {
        Some(Key::Char('y')) => Some(true),
        Some(Key::Char('n')) => Some(false),
        None => Some(false),
        Some(_) => None,
    }
}

/// The event sent once the delete question is answered: the commit of the
/// delete, or clearing the question off the status line.
pub fn confirmation_event(confirmed: bool) -> (r: Event)
    ensures
        confirmed ==> (r matches Event::Commit(Operation::Delete, s) && s@.len() == 0),
        !confirmed ==> r == Event::Clear(Some(UiSection::Status)),
{
    if confirmed {
        Event::Commit(Operation::Delete, String::new())
    } else {
        Event::Clear(Some(UiSection::Status))
    }
}

/// The commit of `op` with a line of text read from the user, trimmed.
pub fn commit_event(op: Operation, line: &str) -> (r: Event)
    ensures
        r matches Event::Commit(o, s) && o == op && s@ == trimmed(line@),
{
    Event::Commit(op, trim(line))
}

} // verus!
