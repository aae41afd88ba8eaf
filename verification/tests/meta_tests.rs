use script::meta::{CssomLookup, HTMLMetaElement, MetaName, Origin, ParentKind, PlainAttributeParse, QuirksMode};

fn s(x: &str) -> String {
    x.to_string()
}

fn meta_named(name: &str) -> HTMLMetaElement {
    let mut m = HTMLMetaElement::new(s("meta"), None);
    m.SetName(s(name));
    m
}

#[test]
fn name_viewport_and_referrer() {
    assert!(matches!(meta_named("viewport").process_attributes(), MetaName::Viewport));
    assert!(matches!(meta_named(" \tViewPort\n").process_attributes(), MetaName::Viewport));
    assert!(matches!(meta_named("REFERRER ").process_attributes(), MetaName::Referrer));
    assert!(matches!(meta_named("description").process_attributes(), MetaName::Other));
    assert!(matches!(meta_named("view port").process_attributes(), MetaName::Other));
    let m = HTMLMetaElement::new(s("meta"), None);
    assert!(matches!(m.process_attributes(), MetaName::Other));
}

#[test]
fn referrer_processing() {
    assert!(meta_named(" referrer").process_referrer_attribute());
    assert!(!meta_named("viewport").process_referrer_attribute());
    assert!(meta_named("Referrer").attribute_mutated());
}

#[test]
fn bind_only_in_document() {
    let m = meta_named("viewport");
    assert!(matches!(m.bind_to_tree(true), MetaName::Viewport));
    assert!(matches!(m.bind_to_tree(false), MetaName::Other));
}

#[test]
fn viewport_content_conditions() {
    let mut m = meta_named("viewport");
    assert_eq!(m.apply_viewport(true), None);
    m.SetContent(s(""));
    assert_eq!(m.apply_viewport(true), None);
    m.SetContent(s("width=device-width"));
    assert_eq!(m.apply_viewport(true), Some(s("width=device-width")));
    assert_eq!(m.apply_viewport(false), None);
    assert_eq!(m.Content(), "width=device-width");
}

#[test]
fn name_and_content_reflection() {
    let mut m = HTMLMetaElement::new(s("meta"), None);
    assert_eq!(m.Name(), "");
    assert_eq!(m.Content(), "");
    m.SetName(s("author"));
    assert_eq!(m.Name(), "author");
}

#[test]
fn cssom_stylesheet_is_made_once() {
    let mut m = meta_named("viewport");
    assert!(matches!(m.get_cssom_stylesheet(), CssomLookup::NoStylesheet));
    assert_eq!(m.keep_viewport_stylesheet(None), None);
    assert_eq!(m.get_stylesheet(), None);
    assert_eq!(m.keep_viewport_stylesheet(Some(7)), Some(7));
    assert_eq!(m.get_stylesheet(), Some(7));
    assert!(matches!(m.get_cssom_stylesheet(), CssomLookup::Create(7)));
    assert_eq!(m.or_init_cssom_stylesheet(40), 40);
    assert!(matches!(m.get_cssom_stylesheet(), CssomLookup::Existing(40)));
    assert_eq!(m.or_init_cssom_stylesheet(41), 40);
}

#[test]
fn unbind_takes_stylesheet() {
    let mut m = meta_named("referrer");
    m.keep_viewport_stylesheet(Some(3));
    let out = m.unbind_from_tree(false);
    assert!(!out.apply_referrer);
    assert_eq!(out.removed_stylesheet, None);
    assert_eq!(m.get_stylesheet(), Some(3));
    let out = m.unbind_from_tree(true);
    assert!(out.apply_referrer);
    assert_eq!(out.removed_stylesheet, Some(3));
    assert_eq!(m.get_stylesheet(), None);
}

#[test]
fn plain_attribute_parsing() {
    assert!(matches!(HTMLMetaElement::parse_plain_attribute(&s("name")), PlainAttributeParse::Atom));
    assert!(matches!(HTMLMetaElement::parse_plain_attribute(&s("content")), PlainAttributeParse::Inherited));
}

#[test]
fn viewport_stylesheet_parameters() {
    let p = HTMLMetaElement::viewport_stylesheet_params(QuirksMode::LimitedQuirks, s("https://a.test/"));
    assert!(matches!(p.origin, Origin::Author));
    assert!(matches!(p.quirks_mode, QuirksMode::LimitedQuirks));
    assert_eq!(p.url, "https://a.test/");
    assert_eq!(p.source_map_url, None);
    assert_eq!(p.source_url, None);
    assert_eq!(p.media_queries, 0);
    assert!(!p.disabled);
}

#[test]
fn cssom_stylesheet_parameters() {
    let p = HTMLMetaElement::cssom_stylesheet_params(12);
    assert_eq!(p.sheet, 12);
    assert_eq!(p.type_, "text/css");
    assert_eq!(p.href, None);
    assert_eq!(p.title, None);
}

#[test]
fn referrer_applies_only_under_head() {
    assert!(HTMLMetaElement::apply_referrer(ParentKind::HeadElement));
    assert!(!HTMLMetaElement::apply_referrer(ParentKind::OtherElement));
    assert!(!HTMLMetaElement::apply_referrer(ParentKind::NoParentElement));
}
