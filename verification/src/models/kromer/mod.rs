pub mod auth;
pub mod responses;
pub mod subs;
pub mod wallets;
pub mod websockets;

use vstd::prelude::*;

verus! {

/// Update semantics for one field of a partial update.
///
/// A request can leave a field alone, clear it, or give it a new value; an
/// `Option` cannot tell the first two apart.
#[derive(Debug, Clone, Copy, PartialEq, Eq)]
pub enum Patch<T> {
    /// A new value to update the field to.
    Value(T),
    /// No value was passed, do not update the field.
    Unset,
    /// The value was explicitly `null`: clear the field.
    Null,
}

impl<T> Default for Patch<T> {
    /// A field that a request does not mention is left alone.
    fn default() -> (r: Self)
        ensures
            r is Unset,
    {
        Patch::Unset
    }
}

impl<T> Patch<T> {
    /// Whether the field was left out of the request.
    pub fn is_none(&self) -> (r: bool)
        ensures
            r == (*self is Unset),
    {
        matches!(self, Patch::Unset)
    }

    /// Reads a field that was present in the request: a value sets the
    /// field, an explicit `null` clears it. A field that was absent is
    /// `Patch::Unset` and never passes through here.
    pub fn from_present(value: Option<T>) -> (r: Patch<T>)
        ensures
            r == match value {
                Option::Some(v) => Patch::Value(v),
                Option::None => Patch::Null,
            },
    {
        match value {
            Option::Some(v) => Patch::Value(v),
            Option::None => Patch::Null,
        }
    }

    /// Lifts an optional value: nothing given means nothing to update.
    pub fn from_option(opt: Option<T>) -> (r: Patch<T>)
        ensures
            r == match opt {
                Option::Some(v) => Patch::Value(v),
                Option::None => Patch::Unset,
            },
    {
        match opt {
            Option::Some(v) => Patch::Value(v),
            Option::None => Patch::Unset,
        }
    }

    /// The new value, if the patch carries one.
    pub open spec fn spec_value(self) -> Option<T> {
        match self {
            Patch::Value(v) => Option::Some(v),
            _ => Option::None,
        }
    }

    /// The new value, if the patch carries one.
    pub fn into_option(self) -> (r: Option<T>)
        ensures
            r == self.spec_value(),
    {
        match self {
            Patch::Value(v) => Option::Some(v),
            _ => Option::None,
        }
    }

    /// What a field holding `current` holds once this patch is applied.
    pub open spec fn spec_apply(self, current: Option<T>) -> Option<T> {
        match self {
            Patch::Value(v) => Option::Some(v),
            Patch::Unset => current,
            Patch::Null => Option::None,
        }
    }

    /// Applies the patch to a nullable field.
    pub fn apply(self, current: Option<T>) -> (r: Option<T>)
        ensures
            r == self.spec_apply(current),
    {
        match self {
            Patch::Value(v) => Option::Some(v),
            Patch::Unset => current,
            Patch::Null => Option::None,
        }
    }
}

} // verus!
