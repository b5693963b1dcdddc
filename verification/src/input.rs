//! Normalization of typed characters into workflow events.
//!
//! The terminal layer reads raw keys and asks this module what a typed
//! character means under the category of input the current state expects:
//! when free text is expected a character is text, otherwise single letters
//! double as navigation and clipboard shortcuts.

use crate::model::EventV;
use crate::state::{Event, ExpectedEvent};
use vstd::prelude::*;

verus! {

/// An event as the terminal layer sees it: either an event for the state
/// machine, or one of the clipboard actions the terminal handles itself.
pub enum TuiEvent {
    StateEvent(Event),
    CopyClipboard,
    PasteClipboard,
}

/// Mathematical view of a [`TuiEvent`].
pub ghost enum TuiEventV {
    StateEvent(EventV),
    CopyClipboard,
    PasteClipboard,
}

impl View for TuiEvent {
    type V = TuiEventV;

    open spec fn view(&self) -> TuiEventV {
        match self {
            TuiEvent::StateEvent(e) => TuiEventV::StateEvent(e@),
            TuiEvent::CopyClipboard => TuiEventV::CopyClipboard,
            TuiEvent::PasteClipboard => TuiEventV::PasteClipboard,
        }
    }
}

/// What one typed character means under the given expectation: free text
/// goes through verbatim; otherwise letters are overloaded as navigation
/// and clipboard shortcuts, and anything unassigned is text again.
pub open spec fn char_event(c: char, ev: ExpectedEvent) -> TuiEventV {
    if ev is Char {
        TuiEventV::StateEvent(EventV::PrintableString(seq![c]))
    } else if c == 'q' {
        TuiEventV::StateEvent(EventV::Exit)
    } else if c == 'h' {
        TuiEventV::StateEvent(EventV::Left)
    } else if c == 'l' {
        TuiEventV::StateEvent(EventV::Right)
    } else if c == 'j' {
        TuiEventV::StateEvent(EventV::Down)
    } else if c == 'k' {
        TuiEventV::StateEvent(EventV::Up)
    } else if c == 'y' {
        TuiEventV::CopyClipboard
    } else {
        TuiEventV::StateEvent(EventV::PrintableString(seq![c]))
    }
}

/// Relies on `char`'s `ToString` through the standard library: the returned
/// string holds exactly the one character `c`.
#[verifier::external_body]
fn char_to_string(c: char) -> (r: String)
    ensures
        r@ == seq![c],
{
    c.to_string()
}

/// Map one typed character to the event it means under the given
/// expectation.
pub fn char_to_event(c: char, ev: ExpectedEvent) -> (r: TuiEvent)
    ensures
        r@ == char_event(c, ev),
{
    if matches!(ev, ExpectedEvent::Char) {
        TuiEvent::StateEvent(Event::PrintableString(char_to_string(c)))
    } else {
        match c {
            'q' => TuiEvent::StateEvent(Event::Exit),
            'h' => TuiEvent::StateEvent(Event::Left),
            'l' => TuiEvent::StateEvent(Event::Right),
            'j' => TuiEvent::StateEvent(Event::Down),
            'k' => TuiEvent::StateEvent(Event::Up),
            'y' => TuiEvent::CopyClipboard,
            other => TuiEvent::StateEvent(Event::PrintableString(char_to_string(other))),
        }
    }
}

} // verus!
