//! The `<caption>` element of a table.
use vstd::prelude::*;
use crate::element::HTMLElement;

verus! {

/// A `<caption>` element.
pub struct HTMLTableCaptionElement {
    htmlelement: HTMLElement,
}

impl HTMLTableCaptionElement {
    /// A new caption element with the given local name and prefix and no
    /// attributes.
    pub fn new(local_name: String, prefix: Option<String>) -> (c: HTMLTableCaptionElement)
        ensures
            c.upcast_spec().spec_local_name() == local_name@,
            c.upcast_spec().spec_prefix() == (match prefix {
                Some(p) => Some(p@),
                None => None::<Seq<char>>,
            }),
            c.upcast_spec().attributes() == Map::<Seq<char>, Seq<char>>::empty(),
    {
        HTMLTableCaptionElement { htmlelement: HTMLElement::new_inherited(local_name, prefix) }
    }

    /// The underlying element.
    pub closed spec fn upcast_spec(&self) -> HTMLElement {
        self.htmlelement
    }

    /// The underlying element.
    pub fn upcast(&self) -> (e: &HTMLElement)
        ensures
            *e == self.upcast_spec(),
    {
        &self.htmlelement
    }
}

} // verus!
