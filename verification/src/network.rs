//! What every network provides, and what follows from it.

use crate::error::{AddressError, AddressErrorView, NetworkError, NetworkErrorView};
use crate::format::AddressFormat;
use crate::prefix::{Prefix, PrefixView};
use crate::text::is_lowercase;
use vstd::prelude::*;

verus! {

/// The error for a prefix that a network does not accept: it goes by the
/// kind of the prefix and carries the network's name.
pub open spec fn rejection(prefix: PrefixView, network: Seq<char>) -> AddressErrorView {
    match prefix {
        PrefixView::VersionByte(byte) => AddressErrorView::InvalidVersionByte(byte, network),
        PrefixView::HumanReadablePart(_) => AddressErrorView::InvalidHumanReadablePrefix(network),
    }
}

/// A network of the Bitcoin family: a marker type with one value, a name, a
/// table from address formats to prefixes, and the set of prefixes that it
/// accepts back.
///
/// The `spec` functions are the network's rule set. The `proof` functions
/// are what an implementation owes about its rule set, and the executable
/// functions are held to the rule set by their contracts.
pub trait BitcoinNetwork: Sized {
    /// The one value of the network's type.
    spec fn network() -> Self;

    /// The canonical name of the network.
    spec fn name_spec() -> Seq<char>;

    /// The prefix that an address of the given format carries, or `None`
    /// where the network does not support the format.
    spec fn prefix_of(format: AddressFormat) -> Option<PrefixView>;

    /// Whether a decoded prefix belongs to the network.
    spec fn accepts(prefix: PrefixView) -> bool;

    /// The name of the network is written in lower case.
    proof fn lemma_name_is_lowercase()
        ensures
            is_lowercase(Self::name_spec()),
    ;

    /// The tags that the network accepts are written in lower case.
    proof fn lemma_accepted_tag_is_lowercase(tag: Seq<char>)
        ensures
            Self::accepts(PrefixView::HumanReadablePart(tag)) ==> is_lowercase(tag),
    ;

    /// The network's type has no other value than [`Self::network`].
    proof fn lemma_one_value(network: Self)
        ensures
            network == Self::network(),
    ;

    /// Every prefix that the network emits, it accepts.
    proof fn lemma_emitted_is_accepted(format: AddressFormat)
        ensures
            Self::prefix_of(format) matches Some(prefix) ==> Self::accepts(prefix),
    ;

    /// Every version byte that the network accepts, it emits for some
    /// format.
    proof fn lemma_accepted_version_is_emitted(byte: u8)
        ensures
            Self::accepts(PrefixView::VersionByte(byte)) ==> exists|format: AddressFormat|
                Self::prefix_of(format) == Some(PrefixView::VersionByte(byte)),
    ;

    /// The canonical name of the network.
    fn name() -> (name: &'static str)
        ensures
            name@ == Self::name_spec(),
    ;

    /// The prefix for an address of the given format; `UnsupportedFormat`
    /// where the network has none.
    fn to_address_prefix(format: AddressFormat) -> (result: Result<Prefix, AddressError>)
        ensures
            match result {
                Ok(prefix) => Self::prefix_of(format) == Some(prefix@),
                Err(error) => Self::prefix_of(format) is None && error@
                    == AddressErrorView::UnsupportedFormat(format, Self::name_spec()),
            },
    ;

    /// The network, where the prefix belongs to it; otherwise the error for
    /// the kind of prefix that was given.
    fn from_address_prefix(prefix: Prefix) -> (result: Result<Self, AddressError>)
        ensures
            match result {
                Ok(network) => Self::accepts(prefix@) && network == Self::network(),
                Err(error) => !Self::accepts(prefix@) && error@ == rejection(
                    prefix@,
                    Self::name_spec(),
                ),
            },
    ;

    /// The network, where the text is exactly its name; otherwise
    /// `UnknownNetwork` with the text.
    fn from_str(text: &str) -> (result: Result<Self, NetworkError>)
        ensures
            match result {
                Ok(network) => text@ == Self::name_spec() && network == Self::network(),
                Err(error) => text@ != Self::name_spec() && error@
                    == NetworkErrorView::UnknownNetwork(text@),
            },
    ;

    /// The text that stands for the network: its name.
    fn to_string(&self) -> (text: String)
        ensures
            text@ == Self::name_spec(),
    ;
}

/// The version bytes that a network accepts are exactly those that it emits
/// for some format.
pub proof fn lemma_accepted_versions_are_the_emitted<N: BitcoinNetwork>(byte: u8)
    ensures
        N::accepts(PrefixView::VersionByte(byte)) <==> exists|format: AddressFormat|
            N::prefix_of(format) == Some(PrefixView::VersionByte(byte)),
{
    N::lemma_accepted_version_is_emitted(byte);
    if exists|format: AddressFormat| N::prefix_of(format) == Some(PrefixView::VersionByte(byte)) {
        let format = choose|format: AddressFormat|
            N::prefix_of(format) == Some(PrefixView::VersionByte(byte));
        N::lemma_emitted_is_accepted(format);
    }
}

/// A prefix that `to_address_prefix` gives for a format is resolved by
/// `from_address_prefix` to the network.
pub proof fn lemma_prefix_round_trip<N: BitcoinNetwork>(
    format: AddressFormat,
    prefix: Prefix,
    resolved: Result<N, AddressError>,
)
    requires
        call_ensures(N::to_address_prefix, (format,), Ok::<Prefix, AddressError>(prefix)),
        call_ensures(N::from_address_prefix, (prefix,), resolved),
    ensures
        resolved == Ok::<N, AddressError>(N::network()),
{
    N::lemma_emitted_is_accepted(format);
}

/// The text that `to_string` gives for a network is parsed by `from_str` to
/// the same network.
pub proof fn lemma_name_round_trip<N: BitcoinNetwork>(
    network: N,
    shown: String,
    text: &str,
    parsed: Result<N, NetworkError>,
)
    requires
        call_ensures(N::to_string, (&network,), shown),
        text@ == shown@,
        call_ensures(N::from_str, (text,), parsed),
    ensures
        parsed == Ok::<N, NetworkError>(network),
{
    N::lemma_one_value(network);
}

/// The forward mapping depends on the format alone: whatever two calls of
/// `to_address_prefix` return for one format is the same.
pub proof fn lemma_forward_deterministic<N: BitcoinNetwork>(
    format: AddressFormat,
    first: Result<Prefix, AddressError>,
    second: Result<Prefix, AddressError>,
)
    requires
        call_ensures(N::to_address_prefix, (format,), first),
        call_ensures(N::to_address_prefix, (format,), second),
    ensures
        match (first, second) {
            (Ok(a), Ok(b)) => a@ == b@,
            (Err(a), Err(b)) => a@ == b@,
            _ => false,
        },
{
}

} // verus!
