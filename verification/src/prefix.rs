//! The prefix that an encoded address carries.

use crate::text::str_eq;
use vstd::prelude::*;
use vstd::std_specs::cmp::PartialEqSpecImpl;

verus! {

/// The leading part of an encoded address that tells the network, and
/// sometimes the format. A prefix is plain data: whether it is valid depends
/// on the network that is asked.
#[derive(Debug, Eq, PartialOrd, Ord, Hash)]
pub enum Prefix {
    /// The single byte in front of the payload of a checksum-encoded address.
    VersionByte(u8),
    /// The textual tag in front of a Bech32-style address.
    HumanReadablePart(String),
}

/// What a [`Prefix`] holds, with the tag as a sequence of characters.
pub enum PrefixView {
    VersionByte(u8),
    HumanReadablePart(Seq<char>),
}

impl View for Prefix {
    type V = PrefixView;

    open spec fn view(&self) -> PrefixView {
        match self {
            Prefix::VersionByte(byte) => PrefixView::VersionByte(*byte),
            Prefix::HumanReadablePart(tag) => PrefixView::HumanReadablePart(tag@),
        }
    }
}

impl Clone for Prefix {
    fn clone(&self) -> (copy: Self)
        ensures
            copy == *self,
    {
        match self {
            Prefix::VersionByte(byte) => Prefix::VersionByte(*byte),
            Prefix::HumanReadablePart(tag) => Prefix::HumanReadablePart(tag.clone()),
        }
    }
}

impl PartialEq for Prefix {
    /// Two prefixes are equal when they are of the same kind and hold the
    /// same byte or the same characters.
    fn eq(&self, other: &Self) -> (equal: bool) {
        match (self, other) {
            (Prefix::VersionByte(a), Prefix::VersionByte(b)) => *a == *b,
            (Prefix::HumanReadablePart(a), Prefix::HumanReadablePart(b)) => str_eq(
                a.as_str(),
                b.as_str(),
            ),
            _ => false,
        }
    }
}

impl PartialEqSpecImpl for Prefix {
    open spec fn obeys_eq_spec() -> bool {
        true
    }

    open spec fn eq_spec(&self, other: &Self) -> bool {
        self@ == other@
    }
}

} // verus!
