//! The part of a DOM event that event construction sets: its type, its
//! bubbles and cancelable flags, whether it was initialized and whether it
//! is trusted.
use vstd::prelude::*;

verus! {

/// What an event is, as far as construction sets it.
pub ghost struct EventState {
    pub type_: Seq<char>,
    pub bubbles: bool,
    pub cancelable: bool,
    pub initialized: bool,
    pub trusted: bool,
}

/// A DOM event.
pub struct Event {
    type_: String,
    bubbles: bool,
    cancelable: bool,
    initialized: bool,
    trusted: bool,
}

impl View for Event {
    type V = EventState;

    closed spec fn view(&self) -> EventState {
        EventState {
            type_: self.type_@,
            bubbles: self.bubbles,
            cancelable: self.cancelable,
            initialized: self.initialized,
            trusted: self.trusted,
        }
    }
}

#[allow(non_snake_case)]
impl Event {
    /// A fresh event: empty type, no flag set.
    pub fn new_inherited() -> (e: Event)
        ensures
            e@ == (EventState {
                type_: Seq::empty(),
                bubbles: false,
                cancelable: false,
                initialized: false,
                trusted: false,
            }),
    {
        Event { type_: String::new(), bubbles: false, cancelable: false, initialized: false, trusted: false }
    }

    /// `initEvent`: sets the type and the two flags, marks the event
    /// initialized and untrusted.
    pub fn init_event(&mut self, type_: String, bubbles: bool, cancelable: bool)
        ensures
            final(self)@ == (EventState {
                type_: type_@,
                bubbles: bubbles,
                cancelable: cancelable,
                initialized: true,
                trusted: false,
            }),
    {
        self.initialized = true;
        self.trusted = false;
        self.type_ = type_;
        self.bubbles = bubbles;
        self.cancelable = cancelable;
    }

    /// The event's type.
    pub fn Type(&self) -> (r: String)
        ensures
            r@ == self@.type_,
    {
        self.type_.clone()
    }

    /// Whether the event bubbles.
    pub fn Bubbles(&self) -> (r: bool)
        ensures
            r == self@.bubbles,
    {
        self.bubbles
    }

    /// Whether the event is cancelable.
    pub fn Cancelable(&self) -> (r: bool)
        ensures
            r == self@.cancelable,
    {
        self.cancelable
    }

    /// Whether the event was dispatched by the user agent.
    pub fn IsTrusted(&self) -> (r: bool)
        ensures
            r == self@.trusted,
    {
        self.trusted
    }
}

} // verus!
