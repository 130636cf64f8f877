//! Address prefix resolution for Bitcoin-family networks.
//!
//! A network is a marker type that implements [`BitcoinNetwork`]: it maps an
//! [`AddressFormat`] to the [`Prefix`] that an encoded address of that format
//! carries, and maps a decoded prefix back to the network, rejecting what the
//! network never emits.

pub mod bitcoin;
pub mod error;
pub mod format;
pub mod network;
pub mod prefix;
pub mod text;

pub use crate::bitcoin::Bitcoin;
pub use crate::error::{AddressError, AddressErrorView, NetworkError, NetworkErrorView};
pub use crate::format::AddressFormat;
pub use crate::network::BitcoinNetwork;
pub use crate::prefix::{Prefix, PrefixView};
