//! Values of the host's dynamic slots, decoded and encoded.
//!
//! A slot that carries a list of strings arrives as one of four things:
//! the host's null, the host's undefined, a sequence of strings, or anything
//! else. Decoding turns the first two into an absent list and rejects the
//! last; encoding writes an absent list as null.

use vstd::prelude::*;

verus! {

/// What the host placed in a slot that is meant to hold a list of strings.
#[derive(Debug, PartialEq, Eq)]
pub enum HostValue {
    /// The host's null.
    Null,
    /// The host's undefined.
    Undefined,
    /// A sequence whose members are all strings.
    Strings(Vec<String>),
    /// Any other value: a number, a plain object, a sequence with a member
    /// that is no string.
    Other,
}

/// The mathematical content of a [`HostValue`].
pub enum HostView {
    Null,
    Undefined,
    Strings(Seq<Seq<char>>),
    Other,
}

impl View for HostValue {
    type V = HostView;

    open spec fn view(&self) -> HostView {
        match *self {
            HostValue::Null => HostView::Null,
            HostValue::Undefined => HostView::Undefined,
            HostValue::Strings(items) => HostView::Strings(items.deep_view()),
            HostValue::Other => HostView::Other,
        }
    }
}

/// The list that a slot stands for: `None` where the slot is malformed,
/// `Some(None)` where the list is absent, `Some(Some(s))` for the list `s`.
pub open spec fn decoded(value: HostView) -> Option<Option<Seq<Seq<char>>>> {
    match value {
        HostView::Null => Some(None),
        HostView::Undefined => Some(None),
        HostView::Strings(items) => Some(Some(items)),
        HostView::Other => None,
    }
}

/// The host value that an optional list is written as.
pub open spec fn encoded(list: Option<Seq<Seq<char>>>) -> HostView {
    match list {
        None => HostView::Null,
        Some(items) => HostView::Strings(items),
    }
}

/// The two slots of a holiday record that the host fills with dynamic values.
#[derive(Clone, Copy, Debug, PartialEq, Eq, Structural)]
pub enum Slot {
    Counties,
    Types,
}

/// The one failure of this crate: a slot held a value that is neither null,
/// undefined nor a sequence of strings.
#[derive(Clone, Copy, Debug, PartialEq, Eq, Structural)]
pub struct DecodingError {
    /// The slot that held the value.
    pub slot: Slot,
}

/// Decodes the value of `slot` into an optional list of strings.
///
/// Null and undefined both give the absent list, never an empty one. A
/// sequence of strings gives its members in order. Anything else is refused
/// with an error that names `slot`.
pub fn decode_strings(value: HostValue, slot: Slot) -> (out: Result<
    Option<Vec<String>>,
    DecodingError,
>)
    ensures
        match out {
            Ok(list) => decoded(value@) == Some(list.deep_view()),
            Err(error) => decoded(value@) is None && error.slot == slot,
        },
{
    match value {
        HostValue::Null => Ok(None),
        HostValue::Undefined => Ok(None),
        HostValue::Strings(items) => Ok(Some(items)),
        HostValue::Other => Err(DecodingError { slot }),
    }
}

/// Encodes an optional list of strings for the host: the absent list becomes
/// null, a present one a sequence with the same members in the same order.
pub fn encode_strings(list: &Option<Vec<String>>) -> (out: HostValue)
    ensures
        out@ == encoded(list.deep_view()),
{
    match list {
        None => HostValue::Null,
        Some(items) => HostValue::Strings(items.clone()),
    }
}

} // verus!
