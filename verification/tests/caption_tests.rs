use script::caption::HTMLTableCaptionElement;

#[test]
fn new_caption() {
    let c = HTMLTableCaptionElement::new("caption".to_string(), None);
    assert_eq!(c.upcast().local_name(), "caption");
    assert!(c.upcast().prefix().is_none());
    assert!(!c.upcast().has_attribute(&"id".to_string()));
}
