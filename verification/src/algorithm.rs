//! Management key types, algorithms and the firmware versions that prefer them.

use crate::error::Error;
use vstd::prelude::*;

verus! {

/// Management Key (MGM) key types (manual/derived/protected).
#[derive(Copy, Clone, Debug, Eq, PartialEq, Structural)]
pub enum MgmType {
    /// Manual
    Manual,

    /// Derived
    Derived,

    /// Protected
    Protected,
}

/// Management key algorithm identifiers
#[derive(Copy, Clone, Debug, Eq, PartialEq, Structural)]
pub enum MgmAlgorithmId {
    /// Triple DES (3DES) in EDE mode
    ThreeDes,

    /// AES-128
    Aes128,

    /// AES-192
    Aes192,

    /// AES-256
    Aes256,
}

impl MgmAlgorithmId {
    /// The number that stands for the algorithm in APDU packets.
    pub open spec fn code(self) -> u8 {
        match self {
            MgmAlgorithmId::ThreeDes => 0x03,
            MgmAlgorithmId::Aes128 => 0x08,
            MgmAlgorithmId::Aes192 => 0x0a,
            MgmAlgorithmId::Aes256 => 0x0c,
        }
    }

    /// The size of a key in bytes.
    pub open spec fn key_len_spec(self) -> nat {
        match self {
            MgmAlgorithmId::ThreeDes => 24,
            MgmAlgorithmId::Aes128 => 16,
            MgmAlgorithmId::Aes192 => 24,
            MgmAlgorithmId::Aes256 => 32,
        }
    }

    /// The size of a block in bytes.
    pub open spec fn block_len_spec(self) -> nat {
        match self {
            MgmAlgorithmId::ThreeDes => 8,
            _ => 16,
        }
    }
}

/// What `MgmAlgorithmId::try_from` makes of a number: the algorithm that it stands for, and
/// `Error::AlgorithmError` if it stands for none.
pub open spec fn algorithm_of_code(value: u8) -> Result<MgmAlgorithmId, Error> {
    if value == 0x03 {
        Ok(MgmAlgorithmId::ThreeDes)
    } else if value == 0x08 {
        Ok(MgmAlgorithmId::Aes128)
    } else if value == 0x0a {
        Ok(MgmAlgorithmId::Aes192)
    } else if value == 0x0c {
        Ok(MgmAlgorithmId::Aes256)
    } else {
        Err(Error::AlgorithmError)
    }
}

impl TryFrom<u8> for MgmAlgorithmId {
    type Error = Error;

    fn try_from(value: u8) -> (r: Result<Self, Error>) {
        match value {
            0x03 => Ok(MgmAlgorithmId::ThreeDes),
            0x08 => Ok(MgmAlgorithmId::Aes128),
            0x0a => Ok(MgmAlgorithmId::Aes192),
            0x0c => Ok(MgmAlgorithmId::Aes256),
            _ => Err(Error::AlgorithmError),
        }
    }
}

impl vstd::std_specs::convert::TryFromSpecImpl<u8> for MgmAlgorithmId {
    open spec fn obeys_try_from_spec() -> bool {
        true
    }

    open spec fn try_from_spec(value: u8) -> Result<Self, Error> {
        algorithm_of_code(value)
    }
}

impl From<MgmAlgorithmId> for u8 {
    fn from(id: MgmAlgorithmId) -> (r: u8) {
        match id {
            MgmAlgorithmId::ThreeDes => 0x03,
            MgmAlgorithmId::Aes128 => 0x08,
            MgmAlgorithmId::Aes192 => 0x0a,
            MgmAlgorithmId::Aes256 => 0x0c,
        }
    }
}

impl vstd::std_specs::convert::FromSpecImpl<MgmAlgorithmId> for u8 {
    open spec fn obeys_from_spec() -> bool {
        true
    }

    open spec fn from_spec(id: MgmAlgorithmId) -> u8 {
        id.code()
    }
}

/// The algorithm that the metadata of a slot names, as the device reports it.
#[derive(Copy, Clone, Debug, Eq, PartialEq, Structural)]
pub enum ManagementAlgorithmId {
    /// Used on PIN and PUK slots
    PinPuk,

    /// Triple DES (3DES) in EDE mode
    ThreeDes,

    /// AES-128
    Aes128,

    /// AES-192
    Aes192,

    /// AES-256
    Aes256,

    /// Used on slots that hold an asymmetric key, whose algorithm the number stands for
    Asymmetric(u8),
}

/// The algorithm of the current management key, given what the device answered when asked for
/// the metadata of the management slot.
pub open spec fn queried_algorithm(
    metadata: Result<ManagementAlgorithmId, Error>,
) -> Result<MgmAlgorithmId, Error> {
    match metadata {
        Ok(ManagementAlgorithmId::ThreeDes) => Ok(MgmAlgorithmId::ThreeDes),
        Ok(ManagementAlgorithmId::Aes128) => Ok(MgmAlgorithmId::Aes128),
        Ok(ManagementAlgorithmId::Aes192) => Ok(MgmAlgorithmId::Aes192),
        Ok(ManagementAlgorithmId::Aes256) => Ok(MgmAlgorithmId::Aes256),
        Ok(_) => Err(Error::InvalidObject),
        Err(Error::NotSupported) => Ok(MgmAlgorithmId::ThreeDes),
        Err(Error::AlgorithmError) => Err(Error::NotSupported),
        Err(e) => Err(e),
    }
}

impl MgmAlgorithmId {
    /// Looks up the algorithm for a YubiKey's current management key, given its answer to a
    /// request for the metadata of the management slot.
    pub fn query(metadata: Result<ManagementAlgorithmId, Error>) -> (r: Result<Self, Error>)
        ensures
            r == queried_algorithm(metadata),
    {
        match metadata {
            Ok(algorithm) => match algorithm {
                ManagementAlgorithmId::ThreeDes => Ok(MgmAlgorithmId::ThreeDes),
                ManagementAlgorithmId::Aes128 => Ok(MgmAlgorithmId::Aes128),
                ManagementAlgorithmId::Aes192 => Ok(MgmAlgorithmId::Aes192),
                ManagementAlgorithmId::Aes256 => Ok(MgmAlgorithmId::Aes256),
                // The management key slot was asked for; getting a known
                // non-management algorithm back from the YubiKey is invalid.
                _ => Err(Error::InvalidObject),
            },
            // Firmware versions without `GET METADATA` only support 3DES.
            Err(Error::NotSupported) => Ok(MgmAlgorithmId::ThreeDes),
            // `Error::AlgorithmError` only occurs when a new algorithm is encountered.
            Err(Error::AlgorithmError) => Err(Error::NotSupported),
            // Raise other errors as-is.
            Err(e) => Err(e),
        }
    }

    /// The size in bytes of a key for this algorithm.
    pub fn key_len(self) -> (len: usize)
        ensures
            len == self.key_len_spec(),
    {
        match self {
            MgmAlgorithmId::ThreeDes => 24,
            MgmAlgorithmId::Aes128 => 16,
            MgmAlgorithmId::Aes192 => 24,
            MgmAlgorithmId::Aes256 => 32,
        }
    }

    /// The size in bytes of a block of this algorithm.
    pub fn block_len(self) -> (len: usize)
        ensures
            len == self.block_len_spec(),
    {
        match self {
            MgmAlgorithmId::ThreeDes => 8,
            _ => 16,
        }
    }
}

/// Firmware version of a YubiKey.
#[derive(Copy, Clone, Debug, Eq, PartialEq, Structural)]
pub struct Version {
    /// Major version component
    pub major: u8,

    /// Minor version component
    pub minor: u8,

    /// Patch version component
    pub patch: u8,
}

impl Version {
    /// Is this firmware 5.7.0 or above?
    pub open spec fn at_least_5_7(self) -> bool {
        self.major > 5 || (self.major == 5 && self.minor >= 7)
    }

    /// The algorithm that management keys have by default: 3DES in initial firmware versions,
    /// AES-192 in firmware 5.7.0 and above.
    pub open spec fn default_algorithm_spec(self) -> MgmAlgorithmId {
        if self.at_least_5_7() {
            MgmAlgorithmId::Aes192
        } else {
            MgmAlgorithmId::ThreeDes
        }
    }

    /// The algorithm that management keys have by default on this firmware.
    pub fn default_algorithm(self) -> (r: MgmAlgorithmId)
        ensures
            r == self.default_algorithm_spec(),
            r == MgmAlgorithmId::Aes192 <==> self.major > 5 || (self.major == 5 && self.minor >= 7),
            r == MgmAlgorithmId::ThreeDes <==> self.major < 5 || (self.major == 5 && self.minor
                < 7),
    {
        // Initial firmware versions default to 3DES.
        if self.major <= 4 || (self.major == 5 && self.minor <= 6) {
            MgmAlgorithmId::ThreeDes
        } else {
            // Firmware 5.7.0 and above default to AES-192.
            MgmAlgorithmId::Aes192
        }
    }
}

/// The number that stands for an algorithm is read as that algorithm.
pub proof fn law_code_is_read_back(id: MgmAlgorithmId)
    ensures
        algorithm_of_code(id.code()) == Ok::<MgmAlgorithmId, Error>(id),
{
}

/// A number that is read as an algorithm is the one that stands for it.
pub proof fn law_code_is_unique(value: u8)
    ensures
        algorithm_of_code(value) matches Ok(id) ==> id.code() == value,
{
}

/// Keys of the default algorithm have the same size on every firmware.
pub proof fn law_default_key_len(version: Version)
    ensures
        version.default_algorithm_spec().key_len_spec() == 24,
{
}

/// The default algorithm is AES-192 from firmware 5.7 on, and 3DES before.
pub proof fn law_default_algorithm_changes_at_5_7(version: Version)
    ensures
        version.major > 5 || (version.major == 5 && version.minor >= 7)
            ==> version.default_algorithm_spec() == MgmAlgorithmId::Aes192,
        version.major < 5 || (version.major == 5 && version.minor < 7)
            ==> version.default_algorithm_spec() == MgmAlgorithmId::ThreeDes,
{
}

/// The numbers 3, 8, 10 and 12 stand for the algorithms, and no others do.
pub proof fn law_codes(value: u8)
    ensures
        MgmAlgorithmId::ThreeDes.code() == 3,
        MgmAlgorithmId::Aes128.code() == 8,
        MgmAlgorithmId::Aes192.code() == 10,
        MgmAlgorithmId::Aes256.code() == 12,
        algorithm_of_code(value) is Ok <==> value == 3 || value == 8 || value == 10 || value == 12,
        algorithm_of_code(value) matches Err(e) ==> e == Error::AlgorithmError,
{
}

/// Keys of 3DES and AES-192 have 24 bytes, those of AES-128 have 16, and those of AES-256 have 32.
/// Blocks of 3DES have 8 bytes, and those of AES have 16.
pub proof fn law_sizes(alg: MgmAlgorithmId)
    ensures
        alg.key_len_spec() == 24 <==> alg == MgmAlgorithmId::ThreeDes || alg
            == MgmAlgorithmId::Aes192,
        alg.key_len_spec() == 16 <==> alg == MgmAlgorithmId::Aes128,
        alg.key_len_spec() == 32 <==> alg == MgmAlgorithmId::Aes256,
        alg.block_len_spec() == 8 <==> alg == MgmAlgorithmId::ThreeDes,
        alg.block_len_spec() == 16 <==> alg != MgmAlgorithmId::ThreeDes,
{
}

/// The metadata of the management slot give an algorithm exactly if they name it, and are invalid
/// if they name one that management keys do not have.
pub proof fn law_metadata_name_the_algorithm(
    metadata: ManagementAlgorithmId,
    alg: MgmAlgorithmId,
)
    ensures
        queried_algorithm(Ok(metadata)) == Ok::<MgmAlgorithmId, Error>(alg) <==> {
            ||| metadata == ManagementAlgorithmId::ThreeDes && alg == MgmAlgorithmId::ThreeDes
            ||| metadata == ManagementAlgorithmId::Aes128 && alg == MgmAlgorithmId::Aes128
            ||| metadata == ManagementAlgorithmId::Aes192 && alg == MgmAlgorithmId::Aes192
            ||| metadata == ManagementAlgorithmId::Aes256 && alg == MgmAlgorithmId::Aes256
        },
        queried_algorithm(Ok(metadata)) matches Err(e) ==> e == Error::InvalidObject,
{
}

/// A device that does not offer metadata has a 3DES key, one that names an unknown algorithm is
/// not supported, and any other failure to get the metadata is passed on.
pub proof fn law_metadata_failures_are_passed_on(e: Error)
    ensures
        queried_algorithm(Err(Error::NotSupported)) == Ok::<MgmAlgorithmId, Error>(
            MgmAlgorithmId::ThreeDes,
        ),
        queried_algorithm(Err(Error::AlgorithmError)) == Err::<MgmAlgorithmId, Error>(
            Error::NotSupported,
        ),
        e != Error::NotSupported && e != Error::AlgorithmError ==> queried_algorithm(Err(e))
            == Err::<MgmAlgorithmId, Error>(e),
{
}

} // verus!
