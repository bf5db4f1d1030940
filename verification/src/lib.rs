//! Management keys (MGM) for authenticating to the YubiKey management applet.
//!
//! A key is made from bytes, from a salt and the PIN, or from random bytes ([`key`]). It answers
//! and checks challenges. To make it the key of a device, and to find the key that a device keeps,
//! the library tells one operation on the device at a time ([`update`], [`lookup`]).

pub mod algorithm;
pub mod card;
pub mod cipher;
pub mod error;
pub mod faults;
pub mod key;
pub mod lookup;
pub mod primitives;
pub mod request;
pub mod update;
pub mod weak;

pub use algorithm::{MgmAlgorithmId, MgmType};
pub use error::Error;
pub use key::MgmKey;
