//! What a key press asks of the frame loop.
use vstd::prelude::*;

verus! {

/// What the frame loop is to do next.
#[derive(Clone, Copy, Debug, PartialEq, Eq, Structural)]
pub enum Action {
    /// Go on.
    Continue,
    /// Leave the loop.
    Exit,
}

/// The key of a key press, as far as the loop tells keys apart.
#[derive(Clone, Copy, Debug, PartialEq, Eq, Structural)]
pub enum KeyCode {
    /// The key of a character.
    Char(char),
    /// The escape key.
    Esc,
    /// Any other key.
    Other,
}

/// An event of the terminal, as far as the loop tells events apart.
#[derive(Clone, Copy, Debug, PartialEq, Eq, Structural)]
pub enum Event {
    /// A key went down. `control` says that the control key, and no other
    /// modifier, was held.
    Press { code: KeyCode, control: bool },
    /// Anything else: a key that is held or released, the mouse, a resize.
    Other,
}

/// Whether a key press asks to leave: `q` or escape with any modifiers, or
/// `c` with the control key alone.
pub open spec fn asks_exit(code: KeyCode, control: bool) -> bool {
    code == KeyCode::Char('q') || code == KeyCode::Esc || (code == KeyCode::Char('c') && control)
}

/// The action that a key press asks for.
pub fn handle_key_event(code: KeyCode, control: bool) -> (action: Action)
    ensures
        action == (if asks_exit(code, control) {
            Action::Exit
        } else {
            Action::Continue
        }),
{
    match code {
        KeyCode::Char(c) => {
            if c == 'q' || (c == 'c' && control) {
                Action::Exit
            } else {
                Action::Continue
            }
        },
        KeyCode::Esc => Action::Exit,
        KeyCode::Other => Action::Continue,
    }
}

/// The action that an event asks for: that of the key for a key press,
/// none for any other event.
pub fn handle_event(event: Event) -> (action: Action)
    ensures
        action == (match event {
            Event::Press { code, control } => if asks_exit(code, control) {
                Action::Exit
            } else {
                Action::Continue
            },
            Event::Other => Action::Continue,
        }),
{
    match event {
        Event::Press { code, control } => handle_key_event(code, control),
        Event::Other => Action::Continue,
    }
}

} // verus!
