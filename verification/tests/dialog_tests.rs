use script::dialog::HTMLDialogElement;

fn s(x: &str) -> String {
    x.to_string()
}

#[test]
fn new_dialog_is_closed_with_empty_return_value() {
    let d = HTMLDialogElement::new(s("dialog"), None);
    assert!(!d.Open());
    assert_eq!(d.ReturnValue(), "");
    assert_eq!(d.upcast().local_name(), "dialog");
}

#[test]
fn set_open_and_read_back() {
    let mut d = HTMLDialogElement::new(s("dialog"), None);
    d.SetOpen(true);
    assert!(d.Open());
    assert_eq!(d.upcast().get_attribute(&s("open")), Some(s("")));
    d.SetOpen(false);
    assert!(!d.Open());
}

#[test]
fn return_value_round_trip() {
    let mut d = HTMLDialogElement::new(s("dialog"), None);
    d.SetReturnValue(s("cancel"));
    assert_eq!(d.ReturnValue(), "cancel");
}

#[test]
fn close_on_closed_dialog_does_nothing() {
    let mut d = HTMLDialogElement::new(s("dialog"), None);
    d.SetReturnValue(s("keep"));
    assert!(!d.Close(Some(s("new"))));
    assert_eq!(d.ReturnValue(), "keep");
    assert!(!d.Open());
}

#[test]
fn close_open_dialog_with_value() {
    let mut d = HTMLDialogElement::new(s("dialog"), None);
    d.SetOpen(true);
    assert!(d.Close(Some(s("ok"))));
    assert!(!d.Open());
    assert_eq!(d.ReturnValue(), "ok");
    assert!(!d.Close(Some(s("again"))));
    assert_eq!(d.ReturnValue(), "ok");
}

#[test]
fn close_open_dialog_without_value_keeps_return_value() {
    let mut d = HTMLDialogElement::new(s("dialog"), None);
    d.SetReturnValue(s("prior"));
    d.SetOpen(true);
    assert!(d.Close(None));
    assert_eq!(d.ReturnValue(), "prior");
}

#[test]
fn calls_keep_local_name_and_prefix() {
    let mut d = HTMLDialogElement::new(s("dialog"), Some(s("x")));
    d.SetOpen(true);
    d.SetReturnValue(s("v"));
    d.Close(None);
    assert_eq!(d.upcast().local_name(), "dialog");
    assert_eq!(d.upcast().prefix().map(|p| p.as_str()), Some("x"));
}

#[test]
fn return_value_survives_calls_that_do_not_write_it() {
    let mut d = HTMLDialogElement::new(s("dialog"), None);
    d.SetReturnValue(s("kept"));
    d.SetOpen(true);
    d.SetOpen(false);
    d.Close(Some(s("ignored")));
    d.SetOpen(true);
    d.Close(None);
    assert!(!d.Open());
    assert_eq!(d.ReturnValue(), "kept");
}
