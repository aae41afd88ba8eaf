//! `TransitionEvent`: the event fired when a CSS transition runs.
use vstd::prelude::*;
use crate::event::{Event, EventState};

verus! {

/// The dictionary members that every event constructor takes.
pub struct EventInit {
    pub bubbles: bool,
    pub cancelable: bool,
}

/// The dictionary that the `TransitionEvent` constructor takes (its
/// `elapsedTime` member, a float, stays with the caller).
#[allow(non_snake_case)]
pub struct TransitionEventInit {
    pub parent: EventInit,
    pub propertyName: String,
    pub pseudoElement: String,
}

/// A transition event.
pub struct TransitionEvent {
    event: Event,
    property_name: String,
    pseudo_element: String,
}

#[allow(non_snake_case)]
impl TransitionEvent {
    /// The underlying event.
    pub closed spec fn event_state(&self) -> EventState {
        self.event@
    }

    /// The name of the CSS property the transition is for.
    pub closed spec fn spec_property_name(&self) -> Seq<char> {
        self.property_name@
    }

    /// The pseudo-element the transition runs on, or empty.
    pub closed spec fn spec_pseudo_element(&self) -> Seq<char> {
        self.pseudo_element@
    }

    fn new_inherited(init: &TransitionEventInit) -> (t: TransitionEvent)
        ensures
            t.event_state().initialized == false,
            t.event_state().trusted == false,
            t.spec_property_name() == init.propertyName@,
            t.spec_pseudo_element() == init.pseudoElement@,
    {
        TransitionEvent {
            event: Event::new_inherited(),
            property_name: init.propertyName.clone(),
            pseudo_element: init.pseudoElement.clone(),
        }
    }

    /// A transition event of type `type_`, initialized from `init`.
    pub fn new(type_: String, init: &TransitionEventInit) -> (t: TransitionEvent)
        ensures
            t.event_state() == (EventState {
                type_: type_@,
                bubbles: init.parent.bubbles,
                cancelable: init.parent.cancelable,
                initialized: true,
                trusted: false,
            }),
            t.spec_property_name() == init.propertyName@,
            t.spec_pseudo_element() == init.pseudoElement@,
    {
        let mut ev = TransitionEvent::new_inherited(init);
        ev.event.init_event(type_, init.parent.bubbles, init.parent.cancelable);
        ev
    }

    /// The `TransitionEvent(type, init)` constructor; it never fails.
    pub fn Constructor(type_: String, init: &TransitionEventInit) -> (t: TransitionEvent)
        ensures
            t.event_state() == (EventState {
                type_: type_@,
                bubbles: init.parent.bubbles,
                cancelable: init.parent.cancelable,
                initialized: true,
                trusted: false,
            }),
            t.spec_property_name() == init.propertyName@,
            t.spec_pseudo_element() == init.pseudoElement@,
    {
        TransitionEvent::new(type_, init)
    }

    /// The underlying event.
    pub fn upcast(&self) -> (e: &Event)
        ensures
            e@ == self.event_state(),
    {
        &self.event
    }

    /// The `propertyName` attribute.
    pub fn PropertyName(&self) -> (r: String)
        ensures
            r@ == self.spec_property_name(),
    {
        self.property_name.clone()
    }

    /// The `pseudoElement` attribute.
    pub fn PseudoElement(&self) -> (r: String)
        ensures
            r@ == self.spec_pseudo_element(),
    {
        self.pseudo_element.clone()
    }

    /// The `isTrusted` attribute of the underlying event.
    pub fn IsTrusted(&self) -> (r: bool)
        ensures
            r == self.event_state().trusted,
    {
        self.event.IsTrusted()
    }
}

} // verus!
