//! The Bitcoin main network.

use crate::error::{AddressError, NetworkError};
use crate::format::AddressFormat;
use crate::network::BitcoinNetwork;
use crate::prefix::{Prefix, PrefixView};
use crate::text::str_eq;
use vstd::prelude::*;
use vstd::string::*;

verus! {

/// The Bitcoin main network.
#[derive(Debug, Copy, Clone, PartialEq, Eq, Structural, PartialOrd, Ord, Hash)]
pub struct Bitcoin;

impl BitcoinNetwork for Bitcoin {
    open spec fn network() -> Bitcoin {
        Bitcoin
    }

    open spec fn name_spec() -> Seq<char> {
        "bitcoin"@
    }

    open spec fn prefix_of(format: AddressFormat) -> Option<PrefixView> {
        match format {
            AddressFormat::P2PKH => Some(PrefixView::VersionByte(0x00)),
            AddressFormat::P2WSH => Some(PrefixView::VersionByte(0x00)),
            AddressFormat::P2SH_P2WPKH => Some(PrefixView::VersionByte(0x05)),
            AddressFormat::Bech32 => Some(PrefixView::HumanReadablePart("bc"@)),
            AddressFormat::CashAddr => None,
        }
    }

    open spec fn accepts(prefix: PrefixView) -> bool {
        match prefix {
            PrefixView::VersionByte(byte) => byte == 0x00 || byte == 0x05,
            PrefixView::HumanReadablePart(tag) => tag == "bc"@,
        }
    }

    proof fn lemma_name_is_lowercase() {
        reveal_strlit("bitcoin");
    }

    proof fn lemma_accepted_tag_is_lowercase(tag: Seq<char>) {
        reveal_strlit("bc");
    }

    proof fn lemma_one_value(network: Bitcoin) {
    }

    proof fn lemma_emitted_is_accepted(format: AddressFormat) {
    }

    proof fn lemma_accepted_version_is_emitted(byte: u8) {
        if byte == 0x00 {
            assert(Self::prefix_of(AddressFormat::P2PKH) == Some(PrefixView::VersionByte(byte)));
        } else if byte == 0x05 {
            assert(Self::prefix_of(AddressFormat::P2SH_P2WPKH) == Some(
                PrefixView::VersionByte(byte),
            ));
        }
    }

    fn name() -> (name: &'static str) {
        "bitcoin"
    }

    fn to_address_prefix(format: AddressFormat) -> (result: Result<Prefix, AddressError>) {
        match format {
            AddressFormat::P2PKH => Ok(Prefix::VersionByte(0x00)),
            AddressFormat::P2WSH => Ok(Prefix::VersionByte(0x00)),
            AddressFormat::P2SH_P2WPKH => Ok(Prefix::VersionByte(0x05)),
            AddressFormat::Bech32 => Ok(Prefix::HumanReadablePart(String::from_str("bc"))),
            AddressFormat::CashAddr => Err(
                AddressError::UnsupportedFormat(format, Self::name()),
            ),
        }
    }

    fn from_address_prefix(prefix: Prefix) -> (result: Result<Bitcoin, AddressError>) {
        match prefix {
            Prefix::VersionByte(version) => match version {
                0x00 | 0x05 => Ok(Bitcoin),
                _ => Err(AddressError::InvalidVersionByte(version, Self::name())),
            },
            Prefix::HumanReadablePart(tag) => {
                if str_eq(tag.as_str(), "bc") {
                    Ok(Bitcoin)
                } else {
                    Err(AddressError::InvalidHumanReadablePrefix(Self::name()))
                }
            },
        }
    }

    fn from_str(text: &str) -> (result: Result<Bitcoin, NetworkError>) {
        if str_eq(text, Self::name()) {
            Ok(Bitcoin)
        } else {
            Err(NetworkError::UnknownNetwork(String::from_str(text)))
        }
    }

    fn to_string(&self) -> (text: String) {
        String::from_str(Self::name())
    }
}

} // verus!
