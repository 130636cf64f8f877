//! The address encoding schemes a network may support.

use vstd::prelude::*;

verus! {

/// An address encoding scheme. It carries no data and only selects an entry
/// of a network's prefix table.
#[allow(non_camel_case_types)]
#[derive(Clone, Copy, Debug, PartialEq, Eq, Structural, PartialOrd, Ord, Hash)]
pub enum AddressFormat {
    /// Legacy pay-to-public-key-hash.
    P2PKH,
    /// Native segwit pay-to-witness-script-hash.
    P2WSH,
    /// Segwit pay-to-witness-public-key-hash wrapped in pay-to-script-hash.
    P2SH_P2WPKH,
    /// Native segwit in Bech32 encoding.
    Bech32,
    /// The CashAddr encoding of Bitcoin Cash.
    CashAddr,
}

impl AddressFormat {
    /// The display name of the format, as a sequence of characters.
    pub open spec fn name_spec(self) -> Seq<char> {
        match self {
            AddressFormat::P2PKH => "p2pkh"@,
            AddressFormat::P2WSH => "p2wsh"@,
            AddressFormat::P2SH_P2WPKH => "p2sh_p2wpkh"@,
            AddressFormat::Bech32 => "bech32"@,
            AddressFormat::CashAddr => "cash_addr"@,
        }
    }

    /// The stable display name of the format.
    pub fn name(&self) -> (name: &'static str)
        ensures
            name@ == self.name_spec(),
    {
        match self {
            AddressFormat::P2PKH => "p2pkh",
            AddressFormat::P2WSH => "p2wsh",
            AddressFormat::P2SH_P2WPKH => "p2sh_p2wpkh",
            AddressFormat::Bech32 => "bech32",
            AddressFormat::CashAddr => "cash_addr",
        }
    }
}

} // verus!
