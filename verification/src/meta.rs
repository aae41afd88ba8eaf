//! The `<meta>` element: processing of its `name` attribute (`viewport` and
//! `referrer`), its viewport stylesheet and the CSSOM object for it.
use vstd::prelude::*;
use crate::element::HTMLElement;
use crate::text::{lemma_lowercase_trim_idempotent, ascii_lowercase, trim_html_space, to_ascii_lowercase, trim_html_space_str};

verus! {

/// A `name` attribute value as the element compares it: ASCII lower-cased,
/// HTML space characters trimmed from both ends.
pub open spec fn normalize_name(s: Seq<char>) -> Seq<char> {
    trim_html_space(ascii_lowercase(s))
}

/// What the `name` attribute asks of the element.
pub enum MetaName {
    /// `viewport`: apply the viewport rule in `content`.
    Viewport,
    /// `referrer`: apply the referrer policy.
    Referrer,
    /// No `name` attribute, or another name: nothing to do.
    Other,
}

/// The kind of a meta element with the given attributes.
pub open spec fn meta_name_of(attributes: Map<Seq<char>, Seq<char>>) -> MetaName {
    if attributes.dom().contains("name"@) {
        let n = normalize_name(attributes["name"@]);
        if n == "viewport"@ {
            MetaName::Viewport
        } else if n == "referrer"@ {
            MetaName::Referrer
        } else {
            MetaName::Other
        }
    } else {
        MetaName::Other
    }
}

/// Giving the `name` attribute its normalized form changes nothing: the
/// element reads names without regard to ASCII case or surrounding HTML
/// space characters.
pub proof fn lemma_meta_name_normalized(attributes: Map<Seq<char>, Seq<char>>, name: Seq<char>)
    ensures
        meta_name_of(attributes.insert("name"@, normalize_name(name))) == meta_name_of(
            attributes.insert("name"@, name),
        ),
{
    lemma_lowercase_trim_idempotent(name);
}

/// What the `name` attribute decides: without it, nothing; when it reads
/// `viewport` once lower-cased and trimmed, the viewport rule; when it reads
/// `referrer`, the referrer policy; otherwise nothing. No other attribute
/// plays a part: two elements with the same `name` attribute decide alike.
pub proof fn lemma_meta_name_law(attributes: Map<Seq<char>, Seq<char>>, other: Map<Seq<char>, Seq<char>>)
    ensures
        !attributes.dom().contains("name"@) ==> meta_name_of(attributes) is Other,
        (attributes.dom().contains("name"@) && trim_html_space(ascii_lowercase(attributes["name"@]))
            == "viewport"@) ==> meta_name_of(attributes) is Viewport,
        (attributes.dom().contains("name"@) && trim_html_space(ascii_lowercase(attributes["name"@]))
            == "referrer"@) ==> meta_name_of(attributes) is Referrer,
        (attributes.dom().contains("name"@) && trim_html_space(ascii_lowercase(attributes["name"@]))
            != "viewport"@ && trim_html_space(ascii_lowercase(attributes["name"@])) != "referrer"@)
            ==> meta_name_of(attributes) is Other,
        (attributes.dom().contains("name"@) == other.dom().contains("name"@) && (attributes.dom().contains(
            "name"@,
        ) ==> attributes["name"@] == other["name"@])) ==> meta_name_of(attributes) == meta_name_of(other),
{
    lemma_viewport_is_not_referrer();
}

/// The two names the element acts on differ.
proof fn lemma_viewport_is_not_referrer()
    ensures
        "viewport"@ != "referrer"@,
{
    reveal_strlit("viewport");
    reveal_strlit("referrer");
    assert("viewport"@[0] != "referrer"@[0]);
}

/// What the viewport step hands on: when viewport processing is enabled and
/// the `content` attribute is present and not empty, exactly that attribute's
/// value; nothing when processing is disabled, the attribute is absent or it
/// is empty.
pub proof fn lemma_viewport_content_law(attributes: Map<Seq<char>, Seq<char>>, viewport_enabled: bool)
    ensures
        (viewport_enabled && attributes.dom().contains("content"@) && attributes["content"@].len() > 0)
            ==> viewport_content(attributes, viewport_enabled) == Some(attributes["content"@]),
        (!viewport_enabled || !attributes.dom().contains("content"@) || attributes["content"@].len() == 0)
            ==> viewport_content(attributes, viewport_enabled) is None,
{
}

/// The content that the viewport rule is parsed from: the `content`
/// attribute, when viewport processing is enabled and the attribute is
/// present and not empty.
pub open spec fn viewport_content(attributes: Map<Seq<char>, Seq<char>>, viewport_enabled: bool) -> Option<Seq<char>> {
    if viewport_enabled && attributes.dom().contains("content"@) && attributes["content"@].len() > 0 {
        Some(attributes["content"@])
    } else {
        None
    }
}

/// What a `<meta>` element is, as far as its own methods read and change it.
pub ghost struct MetaState {
    /// The element's local name.
    pub local_name: Seq<char>,
    /// The element's namespace prefix.
    pub prefix: Option<Seq<char>>,
    /// The content attributes, by name.
    pub attributes: Map<Seq<char>, Seq<char>>,
    /// The stylesheet built from the viewport rule, by the handle under which
    /// the caller keeps it.
    pub stylesheet: Option<u64>,
    /// The CSSOM object for that stylesheet, by its handle.
    pub cssom_stylesheet: Option<u64>,
}

/// The answer to a request for the CSSOM stylesheet object.
pub enum CssomLookup {
    /// The element has no stylesheet, so there is no CSSOM object.
    NoStylesheet,
    /// The CSSOM object made before.
    Existing(u64),
    /// None was made yet: the caller makes one for this stylesheet and hands
    /// it to `or_init_cssom_stylesheet`.
    Create(u64),
}

/// The answer to a request for the CSSOM object in state `s`.
pub open spec fn cssom_lookup(s: MetaState) -> CssomLookup {
    match s.stylesheet {
        None => CssomLookup::NoStylesheet,
        Some(sheet) => match s.cssom_stylesheet {
            Some(c) => CssomLookup::Existing(c),
            None => CssomLookup::Create(sheet),
        },
    }
}

/// Keeping `created` as the CSSOM object unless one is kept already: the new
/// state and the object kept.
pub open spec fn or_init_cssom(s: MetaState, created: u64) -> (MetaState, u64) {
    let kept = match s.cssom_stylesheet {
        Some(c) => c,
        None => created,
    };
    (MetaState { cssom_stylesheet: Some(kept), ..s }, kept)
}

/// Once made, the CSSOM object is the one every later request returns, and a
/// second initialisation keeps it.
pub proof fn lemma_cssom_stylesheet_stable(s: MetaState, created: u64, again: u64)
    ensures
        or_init_cssom(or_init_cssom(s, created).0, again) == or_init_cssom(s, created),
        s.stylesheet matches Some(_) ==> cssom_lookup(or_init_cssom(s, created).0)
            == CssomLookup::Existing(or_init_cssom(s, created).1),
{
}

/// The state after the viewport rule was parsed: a sheet built from it is
/// kept, a failed parse changes nothing.
pub open spec fn keep_viewport(s: MetaState, parsed: Option<u64>) -> MetaState {
    match parsed {
        Some(sheet) => MetaState { stylesheet: Some(sheet), ..s },
        None => s,
    }
}

/// What unbinding the element from its tree leaves to the caller.
pub struct MetaUnbind {
    /// The referrer policy is to be applied.
    pub apply_referrer: bool,
    /// This stylesheet is to be removed from the document.
    pub removed_stylesheet: Option<u64>,
}

/// Unbinding from a tree: in a document, the stylesheet is taken out and the
/// referrer policy may need to be applied; outside one, nothing happens.
pub open spec fn unbind_outcome(s: MetaState, tree_in_doc: bool) -> (MetaState, MetaUnbind) {
    if tree_in_doc {
        (
            MetaState { stylesheet: None, ..s },
            MetaUnbind {
                apply_referrer: meta_name_of(s.attributes) is Referrer,
                removed_stylesheet: s.stylesheet,
            },
        )
    } else {
        (s, MetaUnbind { apply_referrer: false, removed_stylesheet: None })
    }
}

/// The sheet kept after a successful viewport parse is the one that
/// unbinding from the document hands back for removal, after which the
/// element keeps no sheet; a failed parse leaves nothing to remove that was
/// not there before.
pub proof fn lemma_viewport_sheet_round_trip(s: MetaState, sheet: u64)
    ensures
        unbind_outcome(keep_viewport(s, Some(sheet)), true).1.removed_stylesheet == Some(sheet),
        unbind_outcome(keep_viewport(s, Some(sheet)), true).0 == (MetaState { stylesheet: None, ..s }),
        unbind_outcome(keep_viewport(s, None), true).1.removed_stylesheet == s.stylesheet,
{
}

/// The origin of a stylesheet in the cascade.
#[derive(Clone, Copy)]
pub enum Origin {
    UserAgent,
    User,
    Author,
}

/// The quirks mode of a document.
#[derive(Clone, Copy)]
pub enum QuirksMode {
    Quirks,
    LimitedQuirks,
    NoQuirks,
}

/// How the stylesheet for a parsed viewport rule is built. Besides these
/// values the sheet holds the parsed viewport rule as its one rule, default
/// namespaces and the document's shared lock.
pub struct ViewportStylesheetParams {
    pub origin: Origin,
    pub quirks_mode: QuirksMode,
    /// The URL that relative URLs in the sheet resolve against.
    pub url: String,
    pub source_map_url: Option<String>,
    pub source_url: Option<String>,
    /// The number of media queries of the sheet's media list.
    pub media_queries: usize,
    pub disabled: bool,
}

/// How the CSSOM object for the stylesheet is made. Its owner is the meta
/// element itself.
pub struct CssomStylesheetParams {
    /// The stylesheet the object stands for.
    pub sheet: u64,
    /// The stylesheet's type.
    pub type_: String,
    /// Its location.
    pub href: Option<String>,
    /// Its title.
    pub title: Option<String>,
}

/// What the parent of the element is, as the referrer processing sees it.
pub enum ParentKind {
    NoParentElement,
    HeadElement,
    OtherElement,
}

/// What the stylesheet steps do to the element: keeping a parsed sheet
/// replaces the kept sheet by it and touches nothing else, a failed parse
/// changes nothing; the CSSOM object is the one kept first; unbinding in a
/// document hands back exactly the kept sheet, keeps no sheet afterwards,
/// asks for the referrer policy exactly when the name reads `referrer`, and
/// touches nothing else; unbinding outside a document does nothing.
pub proof fn lemma_meta_stylesheet_law(s: MetaState, sheet: u64, created: u64)
    ensures
        keep_viewport(s, Some(sheet)).stylesheet == Some(sheet),
        keep_viewport(s, Some(sheet)).attributes == s.attributes,
        keep_viewport(s, Some(sheet)).cssom_stylesheet == s.cssom_stylesheet,
        keep_viewport(s, Some(sheet)).local_name == s.local_name,
        keep_viewport(s, Some(sheet)).prefix == s.prefix,
        keep_viewport(s, None) == s,
        s.cssom_stylesheet is None ==> or_init_cssom(s, created).1 == created,
        s.cssom_stylesheet matches Some(c) ==> or_init_cssom(s, created).1 == c,
        or_init_cssom(s, created).0.cssom_stylesheet == Some(or_init_cssom(s, created).1),
        or_init_cssom(s, created).0.stylesheet == s.stylesheet,
        or_init_cssom(s, created).0.attributes == s.attributes,
        s.stylesheet is None ==> cssom_lookup(s) is NoStylesheet,
        (s.stylesheet is Some && s.cssom_stylesheet is None) ==> cssom_lookup(s) == CssomLookup::Create(
            s.stylesheet->0,
        ),
        (s.stylesheet is Some && s.cssom_stylesheet is Some) ==> cssom_lookup(s) == CssomLookup::Existing(
            s.cssom_stylesheet->0,
        ),
        unbind_outcome(s, true).1.removed_stylesheet == s.stylesheet,
        unbind_outcome(s, true).0.stylesheet is None,
        unbind_outcome(s, true).1.apply_referrer == (s.attributes.dom().contains("name"@)
            && trim_html_space(ascii_lowercase(s.attributes["name"@])) == "referrer"@),
        unbind_outcome(s, true).0.attributes == s.attributes,
        unbind_outcome(s, true).0.cssom_stylesheet == s.cssom_stylesheet,
        unbind_outcome(s, true).0.local_name == s.local_name,
        unbind_outcome(s, true).0.prefix == s.prefix,
        unbind_outcome(s, false).0 == s,
        !unbind_outcome(s, false).1.apply_referrer,
        unbind_outcome(s, false).1.removed_stylesheet is None,
{
    lemma_viewport_is_not_referrer();
}

/// How a plain attribute of the element is parsed.
pub enum PlainAttributeParse {
    /// As an atom (the `name` attribute).
    Atom,
    /// As the parent element kind parses it.
    Inherited,
}

/// A `<meta>` element.
pub struct HTMLMetaElement {
    htmlelement: HTMLElement,
    stylesheet: Option<u64>,
    cssom_stylesheet: Option<u64>,
}

impl View for HTMLMetaElement {
    type V = MetaState;

    closed spec fn view(&self) -> MetaState {
        MetaState {
            local_name: self.htmlelement.spec_local_name(),
            prefix: self.htmlelement.spec_prefix(),
            attributes: self.htmlelement.attributes(),
            stylesheet: self.stylesheet,
            cssom_stylesheet: self.cssom_stylesheet,
        }
    }
}

#[allow(non_snake_case)]
impl HTMLMetaElement {
    /// A new meta element: no attributes, no stylesheet, no CSSOM object.
    pub fn new(local_name: String, prefix: Option<String>) -> (m: HTMLMetaElement)
        ensures
            m@ == (MetaState {
                local_name: local_name@,
                prefix: match prefix {
                    Some(p) => Some(p@),
                    None => None,
                },
                attributes: Map::empty(),
                stylesheet: None,
                cssom_stylesheet: None,
            }),
    {
        HTMLMetaElement {
            htmlelement: HTMLElement::new_inherited(local_name, prefix),
            stylesheet: None,
            cssom_stylesheet: None,
        }
    }

    /// The underlying element.
    pub fn upcast(&self) -> (e: &HTMLElement)
        ensures
            e.attributes() == self@.attributes,
            e.spec_local_name() == self@.local_name,
            e.spec_prefix() == self@.prefix,
    {
        &self.htmlelement
    }

    /// The stylesheet built from the viewport rule, if any.
    pub fn get_stylesheet(&self) -> (r: Option<u64>)
        ensures
            r == self@.stylesheet,
    {
        self.stylesheet
    }

    /// The CSSOM object for the stylesheet: none without a stylesheet, the one
    /// made before, or a request to make one.
    pub fn get_cssom_stylesheet(&self) -> (r: CssomLookup)
        ensures
            r == cssom_lookup(self@),
    {
        match self.stylesheet {
            None => CssomLookup::NoStylesheet,
            Some(sheet) => match self.cssom_stylesheet {
                Some(c) => CssomLookup::Existing(c),
                None => CssomLookup::Create(sheet),
            },
        }
    }

    /// Keeps `created` as the CSSOM object unless one is kept already;
    /// returns the one kept.
    pub fn or_init_cssom_stylesheet(&mut self, created: u64) -> (r: u64)
        ensures
            (final(self)@, r) == or_init_cssom(old(self)@, created),
    {
        match self.cssom_stylesheet {
            Some(c) => c,
            None => {
                self.cssom_stylesheet = Some(created);
                created
            },
        }
    }

    /// The `name` attribute, lower-cased and trimmed, if present.
    fn normalized_name(&self) -> (r: Option<String>)
        ensures
            r is Some <==> self@.attributes.dom().contains("name"@),
            r matches Some(n) ==> n@ == normalize_name(self@.attributes["name"@]),
    {
        match self.htmlelement.get_attribute(&String::from_str("name")) {
            Some(name) => {
                let lower = to_ascii_lowercase(name.as_str());
                Some(trim_html_space_str(lower.as_str()))
            },
            None => None,
        }
    }

    /// Processing of the `name` attribute: `Viewport` asks the caller to apply
    /// the viewport rule, `Referrer` to apply the referrer policy.
    pub fn process_attributes(&self) -> (r: MetaName)
        ensures
            r == meta_name_of(self@.attributes),
    {
        match self.normalized_name() {
            Some(name) => {
                if name == String::from_str("viewport") {
                    MetaName::Viewport
                } else if name == String::from_str("referrer") {
                    MetaName::Referrer
                } else {
                    MetaName::Other
                }
            },
            None => MetaName::Other,
        }
    }

    /// The first step of applying the viewport rule: the content to parse it
    /// from, or `None` when viewport processing is disabled or the `content`
    /// attribute is absent or empty.
    pub fn apply_viewport(&self, viewport_enabled: bool) -> (r: Option<String>)
        ensures
            r is Some <==> viewport_content(self@.attributes, viewport_enabled) is Some,
            r matches Some(c) ==> viewport_content(self@.attributes, viewport_enabled) == Some(c@),
    {
        if !viewport_enabled {
            return None;
        }
        match self.htmlelement.get_attribute(&String::from_str("content")) {
            Some(content) => {
                if content.as_str().is_empty() {
                    None
                } else {
                    Some(content)
                }
            },
            None => None,
        }
    }

    /// The last step of applying the viewport rule, given what parsing gave:
    /// a stylesheet built from the rule is kept and returned, to be added to
    /// the document; after a failed parse nothing changes and nothing is to
    /// be added.
    pub fn keep_viewport_stylesheet(&mut self, parsed: Option<u64>) -> (to_add: Option<u64>)
        ensures
            to_add == parsed,
            final(self)@ == keep_viewport(old(self)@, parsed),
    {
        if let Some(sheet) = parsed {
            self.stylesheet = Some(sheet);
        }
        parsed
    }

    /// How the stylesheet for a parsed viewport rule is built, in a document
    /// of the given quirks mode whose window has the given URL: author origin,
    /// no source map or source URL, an empty media list, enabled.
    pub fn viewport_stylesheet_params(quirks_mode: QuirksMode, url: String) -> (p: ViewportStylesheetParams)
        ensures
            p.origin is Author,
            p.quirks_mode == quirks_mode,
            p.url@ == url@,
            p.source_map_url is None,
            p.source_url is None,
            p.media_queries == 0,
            !p.disabled,
    {
        ViewportStylesheetParams {
            origin: Origin::Author,
            quirks_mode,
            url,
            source_map_url: None,
            source_url: None,
            media_queries: 0,
            disabled: false,
        }
    }

    /// How the CSSOM object for `sheet` is made: of type `text/css`, with no
    /// location and no title.
    pub fn cssom_stylesheet_params(sheet: u64) -> (p: CssomStylesheetParams)
        ensures
            p.sheet == sheet,
            p.type_@ == "text/css"@,
            p.href is None,
            p.title is None,
    {
        CssomStylesheetParams { sheet, type_: String::from_str("text/css"), href: None, title: None }
    }

    /// Applying the referrer policy: the document's referrer is updated
    /// exactly when the element's parent is a `<head>` element.
    pub fn apply_referrer(parent: ParentKind) -> (update: bool)
        ensures
            update == (parent is HeadElement),
    {
        match parent {
            ParentKind::HeadElement => true,
            _ => false,
        }
    }

    /// Whether the `name` attribute asks for the referrer policy to be applied.
    pub fn process_referrer_attribute(&self) -> (r: bool)
        ensures
            r == (meta_name_of(self@.attributes) is Referrer),
    {
        match self.process_attributes() {
            MetaName::Referrer => true,
            _ => false,
        }
    }

    /// Binding to a tree: when the tree is in a document, the `name` attribute
    /// is processed; otherwise there is nothing to do.
    pub fn bind_to_tree(&self, tree_in_doc: bool) -> (r: MetaName)
        ensures
            r == (if tree_in_doc {
                meta_name_of(self@.attributes)
            } else {
                MetaName::Other
            }),
    {
        if tree_in_doc {
            self.process_attributes()
        } else {
            MetaName::Other
        }
    }

    /// How a plain attribute called `name` is parsed: the `name` attribute as
    /// an atom, every other one as the parent element kind parses it.
    pub fn parse_plain_attribute(name: &String) -> (r: PlainAttributeParse)
        ensures
            r == (if name@ == "name"@ {
                PlainAttributeParse::Atom
            } else {
                PlainAttributeParse::Inherited
            }),
    {
        if *name == String::from_str("name") {
            PlainAttributeParse::Atom
        } else {
            PlainAttributeParse::Inherited
        }
    }

    /// After an attribute changed: whether the referrer policy is to be applied.
    pub fn attribute_mutated(&self) -> (r: bool)
        ensures
            r == (meta_name_of(self@.attributes) is Referrer),
    {
        self.process_referrer_attribute()
    }

    /// Unbinding from a tree in a document: the referrer policy may need to be
    /// applied, and the stylesheet is taken out to be removed from the
    /// document. Outside a document nothing changes.
    pub fn unbind_from_tree(&mut self, tree_in_doc: bool) -> (r: MetaUnbind)
        ensures
            (final(self)@, r) == unbind_outcome(old(self)@, tree_in_doc),
    {
        if tree_in_doc {
            let apply_referrer = self.process_referrer_attribute();
            let removed_stylesheet = self.stylesheet.take();
            MetaUnbind { apply_referrer, removed_stylesheet }
        } else {
            MetaUnbind { apply_referrer: false, removed_stylesheet: None }
        }
    }

    /// The `name` IDL attribute: the `name` content attribute, or empty.
    pub fn Name(&self) -> (r: String)
        ensures
            r@ == (if self@.attributes.dom().contains("name"@) {
                self@.attributes["name"@]
            } else {
                Seq::<char>::empty()
            }),
    {
        self.htmlelement.get_string_attribute(&String::from_str("name"))
    }

    /// Sets the `name` content attribute.
    pub fn SetName(&mut self, value: String)
        ensures
            final(self)@ == (MetaState {
                attributes: old(self)@.attributes.insert("name"@, value@),
                ..old(self)@
            }),
    {
        self.htmlelement.set_attribute(String::from_str("name"), value);
    }

    /// The `content` IDL attribute: the `content` content attribute, or empty.
    pub fn Content(&self) -> (r: String)
        ensures
            r@ == (if self@.attributes.dom().contains("content"@) {
                self@.attributes["content"@]
            } else {
                Seq::<char>::empty()
            }),
    {
        self.htmlelement.get_string_attribute(&String::from_str("content"))
    }

    /// Sets the `content` content attribute.
    pub fn SetContent(&mut self, value: String)
        ensures
            final(self)@ == (MetaState {
                attributes: old(self)@.attributes.insert("content"@, value@),
                ..old(self)@
            }),
    {
        self.htmlelement.set_attribute(String::from_str("content"), value);
    }
}

} // verus!
