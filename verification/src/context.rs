//! The context wrapper: a response value optionally paired with the slot
//! it was read at.  The two shapes are told apart structurally — by the
//! presence of a `context` key — not by a tag.

use vstd::prelude::*;

verus! {

use crate::jsonext::{json_object_entries, json_object_of, json_u64, json_u64_of, lookup, find_key, entries_view};
use crate::types::{Slot, SolanaContext};

/// A value, together with the slot it was read at when the request asked
/// for one.
#[derive(Clone, Debug, PartialEq)]
pub enum MaybeContext<T> {
    With { context: SolanaContext, value: T },
    Without(T),
}

impl<T> MaybeContext<T> {
    /// Splits the wrapper into the optional slot and the bare value.
    pub fn into_slot_and_value(self) -> (r: (Option<Slot>, T))
        ensures
            match self {
                MaybeContext::With { context, value } => r.0 == Some(context.slot) && r.1 == value,
                MaybeContext::Without(value) => r.0 is None && r.1 == value,
            },
    {
        match self {
            MaybeContext::With { context, value } => (Some(context.slot), value),
            MaybeContext::Without(value) => (None, value),
        }
    }
}

/// The shape a raw JSON span stands for, at spec level: either a slot
/// context with the raw span of the inner value, or the whole span as a
/// bare value.
pub enum ContextShape {
    With { slot: Slot, value: Seq<char> },
    Without(Seq<char>),
}

/// The ordered two-attempt decoding: when the span is an object with a
/// well-formed `context` (an object with a numeric `slot`) and a `value`,
/// it is the context-bearing shape; any other span is a bare value.
pub open spec fn spec_context_wrapper(s: Seq<char>) -> ContextShape {
    match json_object_of(s) {
        None => ContextShape::Without(s),
        Some(obj) => match (lookup(obj, "context"@), lookup(obj, "value"@)) {
            (Some(c), Some(v)) => match json_object_of(c) {
                None => ContextShape::Without(s),
                Some(cobj) => match lookup(cobj, "slot"@) {
                    None => ContextShape::Without(s),
                    Some(sl) => match json_u64_of(sl) {
                        None => ContextShape::Without(s),
                        Some(n) => ContextShape::With { slot: n, value: v },
                    },
                },
            },
            _ => ContextShape::Without(s),
        },
    }
}

/// Decodes a raw response span through the structural discriminator.  The
/// value side is handed on as its raw sub-span, not interpreted here.
pub fn decode_context_wrapper(s: &str) -> (r: MaybeContext<String>)
    ensures
        match spec_context_wrapper(s@) {
            ContextShape::With { slot, value } => r matches MaybeContext::With {
                context,
                value: v,
            } && context.slot == slot && v@ == value,
            ContextShape::Without(w) => r matches MaybeContext::Without(v) && v@ == w,
        },
{
    let entries = match json_object_entries(s) {
        Some(e) => e,
        None => {
            return MaybeContext::Without(String::from_str(s));
        },
    };
    proof {
        assert(entries_view(entries@) =~= json_object_of(s@).unwrap());
    }
    let cspan = match find_key(&entries, &String::from_str("context")) {
        Some(c) => c,
        None => {
            return MaybeContext::Without(String::from_str(s));
        },
    };
    let vspan = match find_key(&entries, &String::from_str("value")) {
        Some(v) => v,
        None => {
            return MaybeContext::Without(String::from_str(s));
        },
    };
    let cobj = match json_object_entries(cspan.as_str()) {
        Some(c) => c,
        None => {
            return MaybeContext::Without(String::from_str(s));
        },
    };
    proof {
        assert(entries_view(cobj@) =~= json_object_of(cspan@).unwrap());
    }
    let slot = match find_key(&cobj, &String::from_str("slot")) {
        Some(sl) => match json_u64(sl.as_str()) {
            Some(n) => n,
            None => {
                return MaybeContext::Without(String::from_str(s));
            },
        },
        None => {
            return MaybeContext::Without(String::from_str(s));
        },
    };
    MaybeContext::With { context: SolanaContext { slot }, value: vspan.clone() }
}

} // verus!
