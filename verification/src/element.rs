//! The part of an HTML element that the element kinds of this crate read:
//! its local name, its namespace prefix and its content attributes.
use vstd::prelude::*;

verus! {

/// One content attribute: its local name and its value.
pub struct Attr {
    pub name: String,
    pub value: String,
}

/// The attributes of a list as (name, value) pairs, in order.
pub open spec fn attr_pairs(s: Seq<Attr>) -> Seq<(Seq<char>, Seq<char>)> {
    s.map_values(|a: Attr| (a.name@, a.value@))
}

/// No attribute name occurs twice.
pub open spec fn names_distinct(p: Seq<(Seq<char>, Seq<char>)>) -> bool {
    forall|i: int, j: int| 0 <= i < j < p.len() ==> #[trigger] p[i].0 != #[trigger] p[j].0
}

/// The map from attribute name to attribute value that a list of pairs stands for.
pub open spec fn pairs_map(p: Seq<(Seq<char>, Seq<char>)>) -> Map<Seq<char>, Seq<char>>
    decreases p.len(),
{
    if p.len() == 0 {
        Map::empty()
    } else {
        pairs_map(p.drop_last()).insert(p.last().0, p.last().1)
    }
}

/// A name is a key of the map exactly when some pair carries it.
proof fn lemma_pairs_map_dom(p: Seq<(Seq<char>, Seq<char>)>, k: Seq<char>)
    ensures
        pairs_map(p).dom().contains(k) <==> exists|i: int| 0 <= i < p.len() && #[trigger] p[i].0 == k,
    decreases p.len(),
{
    if p.len() > 0 {
        lemma_pairs_map_dom(p.drop_last(), k);
        if pairs_map(p).dom().contains(k) && k != p.last().0 {
            let i = choose|i: int| 0 <= i < p.drop_last().len() && #[trigger] p.drop_last()[i].0 == k;
            assert(p[i].0 == k);
        }
        if exists|i: int| 0 <= i < p.len() && #[trigger] p[i].0 == k {
            let i = choose|i: int| 0 <= i < p.len() && #[trigger] p[i].0 == k;
            if i < p.len() - 1 {
                assert(p.drop_last()[i].0 == k);
            }
        }
    }
}

/// With distinct names, the map gives each pair's value for that pair's name.
proof fn lemma_pairs_map_value(p: Seq<(Seq<char>, Seq<char>)>, i: int)
    requires
        names_distinct(p),
        0 <= i < p.len(),
    ensures
        pairs_map(p).dom().contains(p[i].0),
        pairs_map(p)[p[i].0] == p[i].1,
    decreases p.len(),
{
    if i < p.len() - 1 {
        let q = p.drop_last();
        assert(q[i] == p[i]);
        assert(names_distinct(q)) by {
            assert forall|a: int, b: int| 0 <= a < b < q.len() implies #[trigger] q[a].0 != #[trigger] q[b].0 by {
                assert(q[a] == p[a] && q[b] == p[b]);
            }
        }
        lemma_pairs_map_value(q, i);
        assert(p[i].0 != p.last().0);
    }
}

/// Replacing the value of the pair at `i` replaces the value of its name.
proof fn lemma_pairs_map_update(p: Seq<(Seq<char>, Seq<char>)>, i: int, v: Seq<char>)
    requires
        names_distinct(p),
        0 <= i < p.len(),
    ensures
        names_distinct(p.update(i, (p[i].0, v))),
        pairs_map(p.update(i, (p[i].0, v))) == pairs_map(p).insert(p[i].0, v),
{
    let q = p.update(i, (p[i].0, v));
    assert(names_distinct(q)) by {
        assert forall|a: int, b: int| 0 <= a < b < q.len() implies #[trigger] q[a].0 != #[trigger] q[b].0 by {
            assert(q[a].0 == p[a].0 && q[b].0 == p[b].0);
        }
    }
    let m = pairs_map(p).insert(p[i].0, v);
    assert forall|k: Seq<char>| pairs_map(q).dom().contains(k) <==> m.dom().contains(k) by {
        lemma_pairs_map_dom(p, k);
        lemma_pairs_map_dom(q, k);
        if exists|j: int| 0 <= j < p.len() && #[trigger] p[j].0 == k {
            let j = choose|j: int| 0 <= j < p.len() && #[trigger] p[j].0 == k;
            assert(q[j].0 == k);
        }
        if exists|j: int| 0 <= j < q.len() && #[trigger] q[j].0 == k {
            let j = choose|j: int| 0 <= j < q.len() && #[trigger] q[j].0 == k;
            assert(p[j].0 == k);
        }
    }
    assert forall|k: Seq<char>| #[trigger] pairs_map(q).dom().contains(k) implies pairs_map(q)[k] == m[k] by {
        lemma_pairs_map_dom(q, k);
        let j = choose|j: int| 0 <= j < q.len() && #[trigger] q[j].0 == k;
        lemma_pairs_map_value(q, j);
        if j != i {
            assert(p[j] == q[j]);
            lemma_pairs_map_value(p, j);
        }
    }
    assert(pairs_map(q) =~= m);
}

/// Appending a pair with a new name inserts it.
proof fn lemma_pairs_map_push(p: Seq<(Seq<char>, Seq<char>)>, k: Seq<char>, v: Seq<char>)
    requires
        names_distinct(p),
        forall|j: int| 0 <= j < p.len() ==> #[trigger] p[j].0 != k,
    ensures
        names_distinct(p.push((k, v))),
        pairs_map(p.push((k, v))) == pairs_map(p).insert(k, v),
{
    let q = p.push((k, v));
    assert(q.drop_last() == p);
    assert(names_distinct(q)) by {
        assert forall|a: int, b: int| 0 <= a < b < q.len() implies #[trigger] q[a].0 != #[trigger] q[b].0 by {
            assert(q[a] == p[a]);
            if b < p.len() {
                assert(q[b] == p[b]);
            }
        }
    }
}

/// Removing the pair at `i` removes its name.
proof fn lemma_pairs_map_remove(p: Seq<(Seq<char>, Seq<char>)>, i: int)
    requires
        names_distinct(p),
        0 <= i < p.len(),
    ensures
        names_distinct(p.remove(i)),
        pairs_map(p.remove(i)) == pairs_map(p).remove(p[i].0),
{
    let q = p.remove(i);
    assert forall|j: int| 0 <= j < q.len() implies #[trigger] q[j] == (if j < i { p[j] } else { p[j + 1] }) by {}
    assert(names_distinct(q)) by {
        assert forall|a: int, b: int| 0 <= a < b < q.len() implies #[trigger] q[a].0 != #[trigger] q[b].0 by {
            let a2 = if a < i { a } else { a + 1 };
            let b2 = if b < i { b } else { b + 1 };
            assert(q[a] == p[a2] && q[b] == p[b2]);
        }
    }
    let m = pairs_map(p).remove(p[i].0);
    assert forall|k: Seq<char>| pairs_map(q).dom().contains(k) <==> m.dom().contains(k) by {
        lemma_pairs_map_dom(p, k);
        lemma_pairs_map_dom(q, k);
        if exists|j: int| 0 <= j < q.len() && #[trigger] q[j].0 == k {
            let j = choose|j: int| 0 <= j < q.len() && #[trigger] q[j].0 == k;
            let j2 = if j < i { j } else { j + 1 };
            assert(p[j2].0 == k);
        }
        if m.dom().contains(k) {
            let j = choose|j: int| 0 <= j < p.len() && #[trigger] p[j].0 == k;
            assert(j != i);
            let j2 = if j < i { j } else { j - 1 };
            assert(q[j2].0 == k);
        }
    }
    assert forall|k: Seq<char>| #[trigger] pairs_map(q).dom().contains(k) implies pairs_map(q)[k] == m[k] by {
        lemma_pairs_map_dom(q, k);
        let j = choose|j: int| 0 <= j < q.len() && #[trigger] q[j].0 == k;
        let j2 = if j < i { j } else { j + 1 };
        lemma_pairs_map_value(q, j);
        lemma_pairs_map_value(p, j2);
    }
    assert(pairs_map(q) =~= m);
}

/// Reading an attribute after setting it gives the value set, and setting
/// one attribute leaves every other attribute as it was.
pub proof fn lemma_get_after_set(
    attributes: Map<Seq<char>, Seq<char>>,
    name: Seq<char>,
    value: Seq<char>,
    other: Seq<char>,
)
    requires
        other != name,
    ensures
        attributes.insert(name, value).dom().contains(name),
        attributes.insert(name, value)[name] == value,
        attributes.insert(name, value).dom().contains(other) == attributes.dom().contains(other),
        attributes.dom().contains(other) ==> attributes.insert(name, value)[other] == attributes[other],
{
}

/// After removing an attribute it is absent, every other attribute is as it
/// was, and removing it again changes nothing.
pub proof fn lemma_get_after_remove(attributes: Map<Seq<char>, Seq<char>>, name: Seq<char>, other: Seq<char>)
    requires
        other != name,
    ensures
        !attributes.remove(name).dom().contains(name),
        attributes.remove(name).dom().contains(other) == attributes.dom().contains(other),
        attributes.dom().contains(other) ==> attributes.remove(name)[other] == attributes[other],
        attributes.remove(name).remove(name) == attributes.remove(name),
{
    assert(attributes.remove(name).remove(name) =~= attributes.remove(name));
}

/// An HTML element: local name, optional namespace prefix and attribute list.
pub struct HTMLElement {
    local_name: String,
    prefix: Option<String>,
    attrs: Vec<Attr>,
}

impl HTMLElement {
    /// The attributes as (name, value) pairs, in document order.
    pub closed spec fn pairs(&self) -> Seq<(Seq<char>, Seq<char>)> {
        attr_pairs(self.attrs@)
    }

    /// The element's local name.
    pub closed spec fn spec_local_name(&self) -> Seq<char> {
        self.local_name@
    }

    /// The element's namespace prefix.
    pub closed spec fn spec_prefix(&self) -> Option<Seq<char>> {
        match self.prefix {
            Some(p) => Some(p@),
            None => None,
        }
    }

    /// The element's local name.
    pub fn local_name(&self) -> (r: &String)
        ensures
            r@ == self.spec_local_name(),
    {
        &self.local_name
    }

    /// The element's namespace prefix.
    pub fn prefix(&self) -> (r: Option<&String>)
        ensures
            self.spec_prefix() is None ==> r is None,
            self.spec_prefix() matches Some(p) ==> r matches Some(q) && q@ == p,
    {
        match &self.prefix {
            Some(p) => Some(p),
            None => None,
        }
    }

    /// Well-formedness, kept by every operation: no attribute name occurs
    /// twice.
    #[verifier::type_invariant]
    spec fn wf(self) -> bool {
        names_distinct(attr_pairs(self.attrs@))
    }

    /// The attributes as a map from name to value.
    pub open spec fn attributes(&self) -> Map<Seq<char>, Seq<char>> {
        pairs_map(self.pairs())
    }

    /// A new element with the given local name and prefix and no attributes.
    pub fn new_inherited(local_name: String, prefix: Option<String>) -> (e: HTMLElement)
        ensures
            e.spec_local_name() == local_name@,
            e.spec_prefix() == (match prefix {
                Some(p) => Some(p@),
                None => None::<Seq<char>>,
            }),
            e.attributes() == Map::<Seq<char>, Seq<char>>::empty(),
    {
        let e = HTMLElement { local_name, prefix, attrs: Vec::new() };
        assert(e.pairs() =~= Seq::<(Seq<char>, Seq<char>)>::empty());
        e
    }

    /// The position of the attribute called `name`, if there is one.
    fn find_attribute(&self, name: &String) -> (r: Option<usize>)
        ensures
            r matches Some(i) ==> i < self.pairs().len() && self.pairs()[i as int].0 == name@,
            r is None ==> forall|j: int| 0 <= j < self.pairs().len() ==> #[trigger] self.pairs()[j].0 != name@,
    {
        let mut i: usize = 0;
        while i < self.attrs.len()
            invariant
                i <= self.attrs@.len(),
                self.pairs().len() == self.attrs@.len(),
                forall|j: int| 0 <= j < i ==> #[trigger] self.pairs()[j].0 != name@,
            decreases self.attrs@.len() - i,
        {
            if self.attrs[i].name == *name {
                return Some(i);
            }
            i = i + 1;
        }
        None
    }

    /// The value of the attribute called `name`, if the element has one.
    pub fn get_attribute(&self, name: &String) -> (r: Option<String>)
        ensures
            r is Some <==> self.attributes().dom().contains(name@),
            r matches Some(v) ==> v@ == self.attributes()[name@],
    {
        proof {
            use_type_invariant(self);
            lemma_pairs_map_dom(self.pairs(), name@);
        }
        match self.find_attribute(name) {
            Some(i) => {
                proof {
                    lemma_pairs_map_value(self.pairs(), i as int);
                }
                Some(self.attrs[i].value.clone())
            },
            None => None,
        }
    }

    /// Whether the element has an attribute called `name`.
    pub fn has_attribute(&self, name: &String) -> (b: bool)
        ensures
            b == self.attributes().dom().contains(name@),
    {
        proof {
            lemma_pairs_map_dom(self.pairs(), name@);
        }
        self.find_attribute(name).is_some()
    }

    /// Sets the attribute called `name` to `value`, adding it when absent.
    pub fn set_attribute(&mut self, name: String, value: String)
        ensures
            final(self).spec_local_name() == old(self).spec_local_name(),
            final(self).spec_prefix() == old(self).spec_prefix(),
            final(self).attributes() == old(self).attributes().insert(name@, value@),
    {
        proof {
            use_type_invariant(&*self);
        }
        let ghost p = self.pairs();
        let ghost k = name@;
        let ghost v = value@;
        let found = self.find_attribute(&name);
        let mut attrs: Vec<Attr> = Vec::new();
        std::mem::swap(&mut attrs, &mut self.attrs);
        match found {
            Some(i) => {
                attrs.set(i, Attr { name, value });
                proof {
                    assert(attr_pairs(attrs@) =~= p.update(i as int, (p[i as int].0, v)));
                    lemma_pairs_map_update(p, i as int, v);
                }
            },
            None => {
                attrs.push(Attr { name, value });
                proof {
                    assert(attr_pairs(attrs@) =~= p.push((k, v)));
                    lemma_pairs_map_push(p, k, v);
                }
            },
        }
        self.attrs = attrs;
    }

    /// Removes the attribute called `name`; returns its value if it was there.
    pub fn remove_attribute(&mut self, name: &String) -> (r: Option<String>)
        ensures
            final(self).spec_local_name() == old(self).spec_local_name(),
            final(self).spec_prefix() == old(self).spec_prefix(),
            r is Some <==> old(self).attributes().dom().contains(name@),
            r matches Some(v) ==> v@ == old(self).attributes()[name@],
            final(self).attributes() == old(self).attributes().remove(name@),
    {
        proof {
            use_type_invariant(&*self);
        }
        let ghost p = self.pairs();
        proof {
            lemma_pairs_map_dom(p, name@);
        }
        match self.find_attribute(name) {
            Some(i) => {
                proof {
                    lemma_pairs_map_value(p, i as int);
                    lemma_pairs_map_remove(p, i as int);
                }
                let mut attrs: Vec<Attr> = Vec::new();
                std::mem::swap(&mut attrs, &mut self.attrs);
                let a = attrs.remove(i);
                assert(attr_pairs(attrs@) =~= p.remove(i as int));
                self.attrs = attrs;
                Some(a.value)
            },
            None => {
                assert(pairs_map(p).remove(name@) =~= pairs_map(p));
                None
            },
        }
    }

    /// The value of the attribute called `name`, or the empty string when it
    /// is absent (the reflection of a string attribute).
    pub fn get_string_attribute(&self, name: &String) -> (r: String)
        ensures
            r@ == (if self.attributes().dom().contains(name@) {
                self.attributes()[name@]
            } else {
                Seq::<char>::empty()
            }),
    {
        match self.get_attribute(name) {
            Some(v) => v,
            None => String::new(),
        }
    }

    /// Reflects a boolean attribute: `true` adds the attribute with the empty
    /// string as value unless it is already present (its value is then kept),
    /// `false` removes it.
    pub fn set_bool_attribute(&mut self, name: String, value: bool)
        ensures
            final(self).spec_local_name() == old(self).spec_local_name(),
            final(self).spec_prefix() == old(self).spec_prefix(),
            final(self).attributes() == (if !value {
                old(self).attributes().remove(name@)
            } else if old(self).attributes().dom().contains(name@) {
                old(self).attributes()
            } else {
                old(self).attributes().insert(name@, Seq::<char>::empty())
            }),
    {
        if self.has_attribute(&name) == value {
            proof {
                if !value {
                    assert(old(self).attributes().remove(name@) =~= old(self).attributes());
                }
            }
            return;
        }
        if value {
            self.set_attribute(name, String::new());
        } else {
            self.remove_attribute(&name);
        }
    }
}

} // verus!
