//! Labels: the optional names that resources carry for debugging.

use vstd::prelude::*;

verus! {

/// The characters of an optional label that is owned.
pub open spec fn label_view(label: Option<String>) -> Option<Seq<char>> {
    match label {
        Some(name) => Some(name@),
        None => None,
    }
}

/// The characters of an optional label that is borrowed.
pub open spec fn text_view(label: Option<&str>) -> Option<Seq<char>> {
    match label {
        Some(text) => Some(text@),
        None => None,
    }
}

/// The owned copy of an optional label.
pub fn owned_label(label: Option<&str>) -> (name: Option<String>)
    ensures
        label_view(name) == text_view(label),
{
    match label {
        Some(text) => Some(text.to_owned()),
        None => None,
    }
}

/// The label as it is borrowed from its owner.
pub fn borrowed_label(label: &Option<String>) -> (text: Option<&str>)
    ensures
        text_view(text) == label_view(*label),
{
    match label {
        Some(name) => Some(name.as_str()),
        None => None,
    }
}

} // verus!
