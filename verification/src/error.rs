//! The errors of name parsing and of prefix resolution.

use crate::format::AddressFormat;
use crate::text::{hex_literal, hex_string};
use vstd::prelude::*;
use vstd::string::*;

verus! {

/// Why a name was not resolved to a network.
#[derive(Debug, PartialEq, Eq)]
pub enum NetworkError {
    /// The text is not the name of the network; it is carried as given.
    UnknownNetwork(String),
}

/// What a [`NetworkError`] holds, with text as sequences of characters.
pub enum NetworkErrorView {
    UnknownNetwork(Seq<char>),
}

impl NetworkErrorView {
    /// The message of the error: it holds the rejected text.
    pub open spec fn message(self) -> Seq<char> {
        match self {
            NetworkErrorView::UnknownNetwork(text) => "invalid network: "@ + text,
        }
    }
}

impl View for NetworkError {
    type V = NetworkErrorView;

    open spec fn view(&self) -> NetworkErrorView {
        match self {
            NetworkError::UnknownNetwork(text) => NetworkErrorView::UnknownNetwork(text@),
        }
    }
}

impl Clone for NetworkError {
    fn clone(&self) -> (copy: Self)
        ensures
            copy == *self,
    {
        match self {
            NetworkError::UnknownNetwork(text) => NetworkError::UnknownNetwork(text.clone()),
        }
    }
}

impl NetworkError {
    /// The message of the error, for a user to read.
    pub fn message(&self) -> (text: String)
        ensures
            text@ == self@.message(),
    {
        match self {
            NetworkError::UnknownNetwork(name) => {
                let mut text = String::from_str("invalid network: ");
                text.append(name.as_str());
                text
            },
        }
    }
}

/// Why a prefix was not resolved, in either direction. Each error carries the
/// name of the network that was asked.
#[derive(Debug, PartialEq, Eq)]
pub enum AddressError {
    /// The network does not accept this version byte.
    InvalidVersionByte(u8, &'static str),
    /// The network does not accept the human-readable part that was given.
    InvalidHumanReadablePrefix(&'static str),
    /// The network has no prefix for this format.
    UnsupportedFormat(AddressFormat, &'static str),
}

/// What an [`AddressError`] holds, with the network's name as a sequence of
/// characters.
pub enum AddressErrorView {
    InvalidVersionByte(u8, Seq<char>),
    InvalidHumanReadablePrefix(Seq<char>),
    UnsupportedFormat(AddressFormat, Seq<char>),
}

impl AddressErrorView {
    /// The message of the error: it holds the network's name and the
    /// offending value, a version byte in hexadecimal.
    pub open spec fn message(self) -> Seq<char> {
        match self {
            AddressErrorView::InvalidVersionByte(byte, network) => "Invalid version byte "@
                + hex_literal(byte) + " for network "@ + network,
            AddressErrorView::InvalidHumanReadablePrefix(network) =>
                "Invalid Bech32 prefix for network "@ + network,
            AddressErrorView::UnsupportedFormat(format, network) => network
                + " does not support address format "@ + format.name_spec(),
        }
    }
}

impl View for AddressError {
    type V = AddressErrorView;

    open spec fn view(&self) -> AddressErrorView {
        match self {
            AddressError::InvalidVersionByte(byte, network) => AddressErrorView::InvalidVersionByte(
                *byte,
                network@,
            ),
            AddressError::InvalidHumanReadablePrefix(network) =>
                AddressErrorView::InvalidHumanReadablePrefix(network@),
            AddressError::UnsupportedFormat(format, network) => AddressErrorView::UnsupportedFormat(
                *format,
                network@,
            ),
        }
    }
}

impl Clone for AddressError {
    fn clone(&self) -> (copy: Self)
        ensures
            copy == *self,
    {
        match self {
            AddressError::InvalidVersionByte(byte, network) => AddressError::InvalidVersionByte(
                *byte,
                network,
            ),
            AddressError::InvalidHumanReadablePrefix(network) =>
                AddressError::InvalidHumanReadablePrefix(network),
            AddressError::UnsupportedFormat(format, network) => AddressError::UnsupportedFormat(
                *format,
                network,
            ),
        }
    }
}

impl AddressError {
    /// The message of the error, for a user to read.
    pub fn message(&self) -> (text: String)
        ensures
            text@ == self@.message(),
    {
        match self {
            AddressError::InvalidVersionByte(byte, network) => {
                let mut text = String::from_str("Invalid version byte ");
                let hex = hex_string(*byte);
                text.append(hex.as_str());
                text.append(" for network ");
                text.append(network);
                text
            },
            AddressError::InvalidHumanReadablePrefix(network) => {
                let mut text = String::from_str("Invalid Bech32 prefix for network ");
                text.append(network);
                text
            },
            AddressError::UnsupportedFormat(format, network) => {
                let mut text = String::from_str(network);
                text.append(" does not support address format ");
                text.append(format.name());
                text
            },
        }
    }
}

} // verus!
