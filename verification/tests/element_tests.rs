use script::element::HTMLElement;

fn s(x: &str) -> String {
    x.to_string()
}

#[test]
fn new_element_has_no_attributes() {
    let e = HTMLElement::new_inherited(s("p"), Some(s("svg")));
    assert_eq!(e.local_name(), "p");
    assert_eq!(e.prefix().map(|p| p.as_str()), Some("svg"));
    assert_eq!(e.get_attribute(&s("id")), None);
    assert!(!e.has_attribute(&s("id")));
}

#[test]
fn get_after_set_and_replace() {
    let mut e = HTMLElement::new_inherited(s("div"), None);
    e.set_attribute(s("id"), s("a"));
    e.set_attribute(s("class"), s("c"));
    assert_eq!(e.get_attribute(&s("id")), Some(s("a")));
    e.set_attribute(s("id"), s("b"));
    assert_eq!(e.get_attribute(&s("id")), Some(s("b")));
    assert_eq!(e.get_attribute(&s("class")), Some(s("c")));
}

#[test]
fn remove_returns_old_value() {
    let mut e = HTMLElement::new_inherited(s("div"), None);
    e.set_attribute(s("id"), s("a"));
    e.set_attribute(s("title"), s("t"));
    assert_eq!(e.remove_attribute(&s("id")), Some(s("a")));
    assert_eq!(e.remove_attribute(&s("id")), None);
    assert_eq!(e.get_attribute(&s("title")), Some(s("t")));
}

#[test]
fn string_and_bool_reflection() {
    let mut e = HTMLElement::new_inherited(s("div"), None);
    assert_eq!(e.get_string_attribute(&s("name")), "");
    e.set_bool_attribute(s("hidden"), true);
    assert_eq!(e.get_attribute(&s("hidden")), Some(s("")));
    e.set_attribute(s("hidden"), s("x"));
    e.set_bool_attribute(s("hidden"), true);
    assert_eq!(e.get_attribute(&s("hidden")), Some(s("x")));
    e.set_bool_attribute(s("hidden"), false);
    assert!(!e.has_attribute(&s("hidden")));
}
