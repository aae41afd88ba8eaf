//! `RadioNodeList`: the list of form controls that share a name, and its
//! `value` attribute.
use vstd::prelude::*;

verus! {

/// The type of an `<input>` element.
pub enum InputType {
    Button,
    Checkbox,
    Color,
    Date,
    DatetimeLocal,
    Email,
    File,
    Hidden,
    Image,
    Month,
    Number,
    Password,
    Radio,
    Range,
    Reset,
    Search,
    Submit,
    Tel,
    Text,
    Time,
    Url,
    Week,
}

/// What the list reads of an `<input>` element: its type, its checkedness
/// and its `value` content attribute (`None` when the attribute is absent).
pub struct InputElement {
    pub input_type: InputType,
    pub checked: bool,
    pub value: Option<String>,
}

/// A node of the list: an `<input>` element, or another node.
pub enum ListedNode {
    Input(InputElement),
    Other,
}

/// The node is a radio button.
pub open spec fn is_radio(n: ListedNode) -> bool {
    n matches ListedNode::Input(e) && e.input_type is Radio
}

/// The node is a checked radio button.
pub open spec fn is_checked_radio(n: ListedNode) -> bool {
    n matches ListedNode::Input(e) && e.input_type is Radio && e.checked
}

/// The value of a radio button (its `value` IDL attribute): its `value`
/// content attribute, or `on` when that attribute is absent.
pub open spec fn radio_value(n: ListedNode) -> Seq<char> {
    match n {
        ListedNode::Input(e) => match e.value {
            Some(v) => v@,
            None => "on"@,
        },
        ListedNode::Other => Seq::empty(),
    }
}

/// The `value` of a list: that of its first checked radio button (`on` when
/// that button has no `value` attribute), or the empty string when none is
/// checked.
pub open spec fn list_value(nodes: Seq<ListedNode>) -> Seq<char>
    decreases nodes.len(),
{
    if nodes.len() == 0 {
        Seq::empty()
    } else if is_checked_radio(nodes[0]) {
        radio_value(nodes[0])
    } else {
        list_value(nodes.drop_first())
    }
}

/// Setting the list's value to `value` selects this node: it is a radio
/// button whose value equals `value`. For `on` that is a button without a
/// `value` attribute or with the attribute `on`; for any other string, a
/// button whose `value` attribute is present and equal to it.
pub open spec fn selects(n: ListedNode, value: Seq<char>) -> bool {
    match n {
        ListedNode::Input(e) => e.input_type is Radio && match e.value {
            Some(v) => v@ == value,
            None => value == "on"@,
        },
        ListedNode::Other => false,
    }
}

/// Node `i` is the first node that `value` selects.
pub open spec fn is_first_selected(nodes: Seq<ListedNode>, value: Seq<char>, i: int) -> bool {
    &&& 0 <= i < nodes.len()
    &&& selects(nodes[i], value)
    &&& forall|j: int| 0 <= j < i ==> !#[trigger] selects(nodes[j], value)
}

/// The node with its checkedness set to `checked` (other nodes unchanged).
pub open spec fn with_checked(n: ListedNode, checked: bool) -> ListedNode {
    match n {
        ListedNode::Input(e) => ListedNode::Input(
            InputElement { input_type: e.input_type, checked: checked, value: e.value },
        ),
        ListedNode::Other => n,
    }
}

/// The list after node `i` is checked and, as in one radio button group,
/// every other radio button is unchecked.
pub open spec fn check_only(nodes: Seq<ListedNode>, i: int) -> Seq<ListedNode> {
    Seq::new(
        nodes.len(),
        |j: int|
            if j == i {
                with_checked(nodes[j], true)
            } else if is_radio(nodes[j]) {
                with_checked(nodes[j], false)
            } else {
                nodes[j]
            },
    )
}

/// The value of a list is that of its first checked radio button.
proof fn lemma_list_value_first(nodes: Seq<ListedNode>, i: int)
    requires
        0 <= i < nodes.len(),
        is_checked_radio(nodes[i]),
        forall|j: int| 0 <= j < i ==> !#[trigger] is_checked_radio(nodes[j]),
    ensures
        list_value(nodes) == radio_value(nodes[i]),
    decreases i,
{
    if i > 0 {
        let rest = nodes.drop_first();
        assert forall|j: int| 0 <= j < i - 1 implies !#[trigger] is_checked_radio(rest[j]) by {
            assert(rest[j] == nodes[j + 1]);
        }
        lemma_list_value_first(rest, i - 1);
    }
}

/// No checked radio button: the list's value is empty.
proof fn lemma_list_value_none(nodes: Seq<ListedNode>)
    requires
        forall|j: int| 0 <= j < nodes.len() ==> !#[trigger] is_checked_radio(nodes[j]),
    ensures
        list_value(nodes) == Seq::<char>::empty(),
    decreases nodes.len(),
{
    if nodes.len() > 0 {
        let rest = nodes.drop_first();
        assert forall|j: int| 0 <= j < rest.len() implies !#[trigger] is_checked_radio(rest[j]) by {
            assert(rest[j] == nodes[j + 1]);
        }
        lemma_list_value_none(rest);
    }
}

/// What the list's `value` is: the empty string when no node is a checked
/// radio button; otherwise the `value` IDL attribute of the first checked
/// radio button (its `value` content attribute, or `on` without one).
/// Unchecked radio buttons, other inputs and other nodes never give it.
pub proof fn lemma_list_value_law(nodes: Seq<ListedNode>, k: int)
    ensures
        (forall|j: int|
            0 <= j < nodes.len() ==> !(#[trigger] nodes[j] matches ListedNode::Input(e) && e.input_type is Radio
                && e.checked)) ==> list_value(nodes) == Seq::<char>::empty(),
        (0 <= k < nodes.len() && (nodes[k] matches ListedNode::Input(e) && e.input_type is Radio && e.checked)
            && (forall|j: int|
            0 <= j < k ==> !(#[trigger] nodes[j] matches ListedNode::Input(e) && e.input_type is Radio
                && e.checked))) ==> list_value(nodes) == (match nodes[k] {
            ListedNode::Input(e) => match e.value {
                Some(a) => a@,
                None => "on"@,
            },
            ListedNode::Other => Seq::<char>::empty(),
        }),
{
    if forall|j: int|
        0 <= j < nodes.len() ==> !(#[trigger] nodes[j] matches ListedNode::Input(e) && e.input_type is Radio
            && e.checked) {
        assert forall|j: int| 0 <= j < nodes.len() implies !#[trigger] is_checked_radio(nodes[j]) by {
            assert(!(nodes[j] matches ListedNode::Input(e) && e.input_type is Radio && e.checked));
        }
        lemma_list_value_none(nodes);
    }
    if 0 <= k < nodes.len() && (nodes[k] matches ListedNode::Input(e) && e.input_type is Radio && e.checked)
        && (forall|j: int|
        0 <= j < k ==> !(#[trigger] nodes[j] matches ListedNode::Input(e) && e.input_type is Radio
            && e.checked)) {
        assert forall|j: int| 0 <= j < k implies !#[trigger] is_checked_radio(nodes[j]) by {
            assert(!(nodes[j] matches ListedNode::Input(e) && e.input_type is Radio && e.checked));
        }
        lemma_list_value_first(nodes, k);
    }
}

/// Which buttons a value selects: exactly the radio buttons whose `value` IDL
/// attribute (the content attribute, or `on` without one) equals it.
pub proof fn lemma_selects_law(n: ListedNode, value: Seq<char>)
    ensures
        selects(n, value) <==> (n matches ListedNode::Input(e) && e.input_type is Radio && (match e.value {
            Some(a) => a@,
            None => "on"@,
        }) == value),
{
}

/// Which button setting the value chooses: the first radio button whose
/// `value` IDL attribute (the content attribute, or `on` without one) equals
/// the value; at most one button is chosen.
pub proof fn lemma_first_selected_law(nodes: Seq<ListedNode>, value: Seq<char>, i: int, other: int)
    ensures
        is_first_selected(nodes, value, i) <==> {
            &&& 0 <= i < nodes.len()
            &&& nodes[i] matches ListedNode::Input(e) && e.input_type is Radio && (match e.value {
                Some(a) => a@,
                None => "on"@,
            }) == value
            &&& forall|j: int|
                0 <= j < i ==> !(#[trigger] nodes[j] matches ListedNode::Input(e) && e.input_type is Radio
                    && (match e.value {
                    Some(a) => a@,
                    None => "on"@,
                }) == value)
        },
        (is_first_selected(nodes, value, i) && is_first_selected(nodes, value, other)) ==> i == other,
{
    if is_first_selected(nodes, value, i) && is_first_selected(nodes, value, other) {
        if i < other {
            assert(!selects(nodes[i], value));
        } else if other < i {
            assert(!selects(nodes[other], value));
        }
    }
    assert forall|j: int| 0 <= j < nodes.len() implies selects(#[trigger] nodes[j], value) == (nodes[j] matches ListedNode::Input(e) && e.input_type is Radio && (match e.value {
        Some(a) => a@,
        None => "on"@,
    }) == value) by {
        lemma_selects_law(nodes[j], value);
    }
}

/// Reading back a written value: when setting the value to `value` selects
/// node `i`, and node `i` becomes the only checked radio button of the list
/// (the buttons forming one radio button group), the list's value is `value`.
pub proof fn lemma_set_value_then_value(nodes: Seq<ListedNode>, value: Seq<char>, i: int)
    requires
        is_first_selected(nodes, value, i),
    ensures
        list_value(check_only(nodes, i)) == value,
{
    let after = check_only(nodes, i);
    assert forall|j: int| 0 <= j < i implies !#[trigger] is_checked_radio(after[j]) by {}
    lemma_list_value_first(after, i);
}

/// Setting the same value again does what setting it once did: the button
/// chosen the first time is still the first one `value` selects, and
/// checking it again leaves every checkedness as it was.
pub proof fn lemma_set_value_idempotent(nodes: Seq<ListedNode>, value: Seq<char>, i: int)
    requires
        is_first_selected(nodes, value, i),
    ensures
        is_first_selected(check_only(nodes, i), value, i),
        check_only(check_only(nodes, i), i) == check_only(nodes, i),
{
    let once = check_only(nodes, i);
    assert forall|j: int| 0 <= j < nodes.len() implies selects(#[trigger] once[j], value) == selects(nodes[j], value) by {}
    assert(check_only(once, i) =~= once);
}

/// A radio node list.
pub struct RadioNodeList {
    nodes: Vec<ListedNode>,
}

impl View for RadioNodeList {
    type V = Seq<ListedNode>;

    closed spec fn view(&self) -> Seq<ListedNode> {
        self.nodes@
    }
}

#[allow(non_snake_case)]
impl RadioNodeList {
    /// A list of the given nodes, in order.
    pub fn new(nodes: Vec<ListedNode>) -> (l: RadioNodeList)
        ensures
            l@ == nodes@,
    {
        RadioNodeList { nodes }
    }

    /// A list of the nodes that an iteration produced, in order.
    pub fn new_simple_list(nodes: Vec<ListedNode>) -> (l: RadioNodeList)
        ensures
            l@ == nodes@,
    {
        RadioNodeList::new(nodes)
    }

    /// The number of nodes, converted to `u32` as the DOM binding does.
    pub fn Length(&self) -> (n: u32)
        ensures
            n == self@.len() as u32,
    {
        self.nodes.len() as u32
    }

    /// The node at `index`, if there is one.
    pub fn IndexedGetter(&self, index: u32) -> (r: Option<&ListedNode>)
        ensures
            (index as int) < self@.len() ==> r == Some(&self@[index as int]),
            (index as int) >= self@.len() ==> r is None,
    {
        if (index as usize) < self.nodes.len() {
            Some(&self.nodes[index as usize])
        } else {
            None
        }
    }

    /// The `value` IDL attribute: the value of the first checked radio button
    /// (`on` when its value is empty), or the empty string.
    pub fn Value(&self) -> (r: String)
        ensures
            r@ == list_value(self@),
    {
        let n = self.nodes.len();
        let mut i: usize = 0;
        assert(self@.subrange(0, n as int) == self@);
        while i < n
            invariant
                n == self@.len(),
                i <= n,
                list_value(self@) == list_value(self@.subrange(i as int, n as int)),
            decreases n - i,
        {
            let ghost rest = self@.subrange(i as int, n as int);
            assert(rest[0] == self@[i as int]);
            // Step 1
            if let ListedNode::Input(input) = &self.nodes[i] {
                if let InputType::Radio = input.input_type {
                    if input.checked {
                        // Steps 3 and 4
                        match &input.value {
                            Some(v) => return v.clone(),
                            None => return String::from_str("on"),
                        }
                    }
                }
            }
            assert(rest.drop_first() == self@.subrange(i + 1, n as int));
            i = i + 1;
        }
        // Step 2
        String::new()
    }

    /// Setting the `value` IDL attribute: the position of the first radio
    /// button that `value` selects, which the caller then checks; `None` when
    /// there is none.
    pub fn SetValue(&self, value: String) -> (r: Option<usize>)
        ensures
            r matches Some(i) ==> is_first_selected(self@, value@, i as int),
            r is None ==> forall|j: int| 0 <= j < self@.len() ==> !#[trigger] selects(self@[j], value@),
    {
        let on = String::from_str("on");
        let value_is_on = value == on;
        let n = self.nodes.len();
        let mut i: usize = 0;
        while i < n
            invariant
                n == self@.len(),
                i <= n,
                value_is_on == (value@ == "on"@),
                forall|j: int| 0 <= j < i ==> !#[trigger] selects(self@[j], value@),
            decreases n - i,
        {
            // Step 1
            if let ListedNode::Input(input) = &self.nodes[i] {
                if let InputType::Radio = input.input_type {
                    // Step 2
                    match &input.value {
                        Some(v) => {
                            if *v == value {
                                return Some(i);
                            }
                        },
                        None => {
                            if value_is_on {
                                return Some(i);
                            }
                        },
                    }
                }
            }
            i = i + 1;
        }
        None
    }
}

} // verus!
