//! Core of a user-mode Bluetooth LE host stack: the HCI codec and event
//! routing rules, the GATT attribute schema with its access checks, and the
//! LE Secure Connections key derivation functions.

use vstd::prelude::*;

pub mod att;
pub mod codec;
pub mod crypto;
pub mod ecdh;
pub mod gap;
pub mod gatt;
pub mod hci;
pub mod le;

verus! {

/// Interface to persistent peer data storage.
pub trait PeerStore: core::fmt::Debug + Send + Sync {
    /// Type of stored data.
    type Value;

    /// Saves peer data and returns `true` if the operation was successful.
    fn save(&self, peer: le::Addr, v: &Self::Value) -> bool;

    /// Loads peer data.
    fn load(&self, peer: le::Addr) -> Option<Self::Value>;

    /// Removes peer data.
    fn remove(&self, peer: le::Addr);
}

} // verus!
