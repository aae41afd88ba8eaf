use script::event::Event;
use script::transition::{EventInit, TransitionEvent, TransitionEventInit};

fn init() -> TransitionEventInit {
    TransitionEventInit {
        parent: EventInit { bubbles: true, cancelable: false },
        propertyName: "opacity".to_string(),
        pseudoElement: "::before".to_string(),
    }
}

#[test]
fn constructor_copies_init() {
    let t = TransitionEvent::Constructor("transitionend".to_string(), &init());
    assert_eq!(t.PropertyName(), "opacity");
    assert_eq!(t.PseudoElement(), "::before");
    assert!(!t.IsTrusted());
    assert_eq!(t.upcast().Type(), "transitionend");
    assert!(t.upcast().Bubbles());
    assert!(!t.upcast().Cancelable());
}

#[test]
fn new_event_then_init() {
    let mut e = Event::new_inherited();
    assert_eq!(e.Type(), "");
    e.init_event("click".to_string(), false, true);
    assert_eq!(e.Type(), "click");
    assert!(!e.Bubbles());
    assert!(e.Cancelable());
    assert!(!e.IsTrusted());
}
