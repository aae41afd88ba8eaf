//! The `<dialog>` element: its `open` attribute, its return value and the
//! steps of `close()`.
use vstd::prelude::*;
use crate::element::HTMLElement;

verus! {

/// What a `<dialog>` element is, as far as its own methods read and change it.
pub ghost struct DialogState {
    /// The element's local name.
    pub local_name: Seq<char>,
    /// The element's namespace prefix.
    pub prefix: Option<Seq<char>>,
    /// The content attributes, by name.
    pub attributes: Map<Seq<char>, Seq<char>>,
    /// The dialog's return value.
    pub return_value: Seq<char>,
}

/// The result of `close(argument)` on a dialog in state `s`: the new state
/// and whether a `close` event is queued.
pub open spec fn close_outcome(s: DialogState, argument: Option<Seq<char>>) -> (DialogState, bool) {
    if !s.attributes.dom().contains("open"@) {
        (s, false)
    } else {
        (
            DialogState {
                attributes: s.attributes.remove("open"@),
                return_value: match argument {
                    Some(v) => v,
                    None => s.return_value,
                },
                ..s
            },
            true,
        )
    }
}

/// Closing twice in a row: the second call changes nothing and queues no event.
pub proof fn lemma_close_idempotent(s: DialogState, first: Option<Seq<char>>, second: Option<Seq<char>>)
    ensures
        close_outcome(close_outcome(s, first).0, second) == (close_outcome(s, first).0, false),
{
}

/// After `close`, the dialog is not open, and the event is queued exactly
/// when it was open before.
pub proof fn lemma_close_closes(s: DialogState, argument: Option<Seq<char>>)
    ensures
        !close_outcome(s, argument).0.attributes.dom().contains("open"@),
        close_outcome(s, argument).1 == s.attributes.dom().contains("open"@),
{
}

/// What `close` does: on an open dialog it queues the `close` event, removes
/// the `open` attribute and no other, keeps the names, and makes the return
/// value the argument when one is given (whatever it was before) and keeps it
/// otherwise; on a dialog that is not open it changes nothing and queues
/// nothing.
pub proof fn lemma_close_law(s: DialogState, v: Seq<char>, k: Seq<char>)
    ensures
        s.attributes.dom().contains("open"@) ==> {
            &&& close_outcome(s, Some(v)).1
            &&& close_outcome(s, Some(v)).0.return_value == v
            &&& close_outcome(s, None).1
            &&& close_outcome(s, None).0.return_value == s.return_value
            &&& !close_outcome(s, Some(v)).0.attributes.dom().contains("open"@)
            &&& !close_outcome(s, None).0.attributes.dom().contains("open"@)
            &&& close_outcome(s, Some(v)).0.local_name == s.local_name
            &&& close_outcome(s, Some(v)).0.prefix == s.prefix
            &&& k != "open"@ ==> (close_outcome(s, Some(v)).0.attributes.dom().contains(k)
                == s.attributes.dom().contains(k))
            &&& (k != "open"@ && s.attributes.dom().contains(k)) ==> close_outcome(
                s,
                Some(v),
            ).0.attributes[k] == s.attributes[k]
        },
        !s.attributes.dom().contains("open"@) ==> close_outcome(s, Some(v)) == (s, false)
            && close_outcome(s, None) == (s, false),
{
}

/// What `SetOpen` does: afterwards the `open` attribute is present exactly
/// when asked; an `open` attribute already present keeps its value, a new one
/// is empty; every other attribute, the names and the return value stay.
pub proof fn lemma_set_open_law(s: DialogState, value: bool, k: Seq<char>)
    ensures
        set_open(s, value).attributes.dom().contains("open"@) == value,
        (value && s.attributes.dom().contains("open"@)) ==> set_open(s, value).attributes["open"@]
            == s.attributes["open"@],
        (value && !s.attributes.dom().contains("open"@)) ==> set_open(s, value).attributes["open"@].len()
            == 0,
        k != "open"@ ==> set_open(s, value).attributes.dom().contains(k) == s.attributes.dom().contains(k),
        (k != "open"@ && s.attributes.dom().contains(k)) ==> set_open(s, value).attributes[k]
            == s.attributes[k],
        set_open(s, value).return_value == s.return_value,
        set_open(s, value).local_name == s.local_name,
        set_open(s, value).prefix == s.prefix,
{
}

/// The state after `SetReturnValue(v)`.
pub open spec fn set_return_value(s: DialogState, v: Seq<char>) -> DialogState {
    DialogState { return_value: v, ..s }
}

/// The state after `SetOpen(value)`: `true` adds the `open` attribute with
/// the empty value unless it is present, `false` removes it.
pub open spec fn set_open(s: DialogState, value: bool) -> DialogState {
    DialogState {
        attributes: if !value {
            s.attributes.remove("open"@)
        } else if s.attributes.dom().contains("open"@) {
            s.attributes
        } else {
            s.attributes.insert("open"@, Seq::<char>::empty())
        },
        ..s
    }
}

/// What `SetReturnValue` does: the return value becomes `v`, nothing else
/// changes.
pub proof fn lemma_set_return_value_law(s: DialogState, v: Seq<char>)
    ensures
        set_return_value(s, v).return_value == v,
        set_return_value(s, v).attributes == s.attributes,
        set_return_value(s, v).local_name == s.local_name,
        set_return_value(s, v).prefix == s.prefix,
{
}

/// A call of the dialog's methods, with its arguments.
pub ghost enum DialogCall {
    Open,
    SetOpen(bool),
    ReturnValue,
    SetReturnValue(Seq<char>),
    Close(Option<Seq<char>>),
}

/// The state after one call.
pub open spec fn apply_call(s: DialogState, call: DialogCall) -> DialogState {
    match call {
        DialogCall::Open => s,
        DialogCall::SetOpen(value) => set_open(s, value),
        DialogCall::ReturnValue => s,
        DialogCall::SetReturnValue(v) => set_return_value(s, v),
        DialogCall::Close(argument) => close_outcome(s, argument).0,
    }
}

/// The state after a sequence of calls, in order.
pub open spec fn apply_calls(s: DialogState, calls: Seq<DialogCall>) -> DialogState
    decreases calls.len(),
{
    if calls.len() == 0 {
        s
    } else {
        apply_calls(apply_call(s, calls[0]), calls.drop_first())
    }
}

/// The call writes the return value in state `s`: it sets it, or it closes
/// the open dialog with a value.
pub open spec fn writes_return_value(s: DialogState, call: DialogCall) -> bool {
    match call {
        DialogCall::SetReturnValue(_) => true,
        DialogCall::Close(Some(_)) => s.attributes.dom().contains("open"@),
        _ => false,
    }
}

/// No call of the sequence, made in order from state `s`, writes the return value.
pub open spec fn no_return_value_write(s: DialogState, calls: Seq<DialogCall>) -> bool
    decreases calls.len(),
{
    calls.len() == 0 || (!writes_return_value(s, calls[0]) && no_return_value_write(
        apply_call(s, calls[0]),
        calls.drop_first(),
    ))
}

/// Calls that do not write the return value keep it.
pub proof fn lemma_return_value_kept(s: DialogState, calls: Seq<DialogCall>)
    requires
        no_return_value_write(s, calls),
    ensures
        apply_calls(s, calls).return_value == s.return_value,
    decreases calls.len(),
{
    if calls.len() > 0 {
        lemma_return_value_kept(apply_call(s, calls[0]), calls.drop_first());
    }
}

/// The return value reads back what was last written: after
/// `SetReturnValue(v)` and any calls that do not write the return value
/// (no `SetReturnValue`, no `close` with a value while open), it is `v`.
pub proof fn lemma_return_value_read_back(s: DialogState, v: Seq<char>, calls: Seq<DialogCall>)
    requires
        no_return_value_write(set_return_value(s, v), calls),
    ensures
        apply_calls(set_return_value(s, v), calls).return_value == v,
{
    lemma_return_value_kept(set_return_value(s, v), calls);
}

/// A `<dialog>` element.
pub struct HTMLDialogElement {
    htmlelement: HTMLElement,
    return_value: String,
}

impl View for HTMLDialogElement {
    type V = DialogState;

    closed spec fn view(&self) -> DialogState {
        DialogState {
            local_name: self.htmlelement.spec_local_name(),
            prefix: self.htmlelement.spec_prefix(),
            attributes: self.htmlelement.attributes(),
            return_value: self.return_value@,
        }
    }
}

#[allow(non_snake_case)]
impl HTMLDialogElement {
    /// A new dialog element: no attributes, an empty return value.
    pub fn new(local_name: String, prefix: Option<String>) -> (d: HTMLDialogElement)
        ensures
            d@ == (DialogState {
                local_name: local_name@,
                prefix: match prefix {
                    Some(p) => Some(p@),
                    None => None,
                },
                attributes: Map::empty(),
                return_value: Seq::empty(),
            }),
    {
        HTMLDialogElement {
            htmlelement: HTMLElement::new_inherited(local_name, prefix),
            return_value: String::new(),
        }
    }

    /// The underlying element.
    pub fn upcast(&self) -> (e: &HTMLElement)
        ensures
            e.attributes() == self@.attributes,
            e.spec_local_name() == self@.local_name,
            e.spec_prefix() == self@.prefix,
    {
        &self.htmlelement
    }

    /// The `open` IDL attribute: whether the `open` content attribute is present.
    pub fn Open(&self) -> (b: bool)
        ensures
            b == self@.attributes.dom().contains("open"@),
    {
        self.htmlelement.has_attribute(&String::from_str("open"))
    }

    /// Sets the `open` IDL attribute: adds the `open` content attribute (empty
    /// value, or its present value kept) or removes it.
    pub fn SetOpen(&mut self, value: bool)
        ensures
            final(self)@ == set_open(old(self)@, value),
            final(self)@.attributes.dom().contains("open"@) == value,
    {
        self.htmlelement.set_bool_attribute(String::from_str("open"), value);
    }

    /// The dialog's return value.
    pub fn ReturnValue(&self) -> (r: String)
        ensures
            r@ == self@.return_value,
    {
        self.return_value.clone()
    }

    /// Sets the dialog's return value.
    pub fn SetReturnValue(&mut self, return_value: String)
        ensures
            final(self)@ == set_return_value(old(self)@, return_value@),
    {
        self.return_value = return_value;
    }

    /// `close(returnValue)`: when the dialog is not open, nothing happens and
    /// `false` is returned. Otherwise the `open` attribute is removed, the
    /// return value is set to the argument when one is given, and `true` is
    /// returned: the caller then queues a simple event named `close` at the
    /// dialog on the DOM manipulation task source.
    pub fn Close(&mut self, return_value: Option<String>) -> (queue_close_event: bool)
        ensures
            (final(self)@, queue_close_event) == close_outcome(
                old(self)@,
                match return_value {
                    Some(v) => Some(v@),
                    None => None,
                },
            ),
    {
        // Steps 1 and 2: nothing to do when the dialog is not open.
        if self.htmlelement.remove_attribute(&String::from_str("open")).is_none() {
            assert(self.htmlelement.attributes() =~= old(self).htmlelement.attributes());
            return false;
        }
        // Step 3
        if let Some(new_value) = return_value {
            self.return_value = new_value;
        }
        // Step 5: the caller queues the `close` event.
        true
    }
}

} // verus!
