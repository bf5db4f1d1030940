//! Management keys.

use crate::algorithm::{MgmAlgorithmId, Version};
use crate::cipher::{
    aes128_decrypt_block, aes128_encrypt_block, aes192_decrypt_block, aes192_encrypt_block,
    aes256_decrypt_block, aes256_encrypt_block, tdes_decrypt_block, tdes_encrypt_block,
};
use crate::error::Error;
use crate::primitives::{ct_eq, os_draw, pbkdf2_hmac_sha1_tdes};
use crate::weak::is_weak_key;
use vstd::prelude::*;
use vstd::slice::slice_to_vec;

verus! {

/// YubiKey MGMT Applet Name
pub const APPLET_NAME: &'static str = "YubiKey MGMT";

/// MGMT Applet ID.
///
/// <https://developers.yubico.com/PIV/Introduction/Admin_access.html>
pub const APPLET_ID: [u8; 8] = [0xa0, 0x00, 0x00, 0x05, 0x27, 0x47, 0x11, 0x17];

/// Size of the salt that a derived management key is made with.
pub const CB_ADMIN_SALT: usize = 16;

/// Number of PBKDF2 iterations to use when deriving from a password
pub const ITER_MGM_PBKDF2: u32 = 10000;

/// The default MGM key loaded for both Triple-DES and AES keys
pub const DEFAULT_MGM_KEY: [u8; 24] = [
    1, 2, 3, 4, 5, 6, 7, 8, 1, 2, 3, 4, 5, 6, 7, 8, 1, 2, 3, 4, 5, 6, 7, 8,
];

/// What a management key is: an algorithm and the bytes of a key for it.
#[verifier::ext_equal]
pub struct KeyModel {
    pub algorithm: MgmAlgorithmId,
    pub bytes: Seq<u8>,
}

impl KeyModel {
    /// The key is as long as its algorithm demands.
    pub open spec fn well_formed(self) -> bool {
        self.bytes.len() == self.algorithm.key_len_spec()
    }

    /// The key is a weak 3DES key.
    pub open spec fn is_weak(self) -> bool {
        self.algorithm == MgmAlgorithmId::ThreeDes && crate::weak::is_weak_tdes(self.bytes)
    }

    /// The block encrypted under this key.
    pub open spec fn encrypted(self, block: Seq<u8>) -> Seq<u8> {
        match self.algorithm {
            MgmAlgorithmId::ThreeDes => crate::cipher::tdes_encrypted(self.bytes, block),
            MgmAlgorithmId::Aes128 => crate::cipher::aes128_encrypted(self.bytes, block),
            MgmAlgorithmId::Aes192 => crate::cipher::aes192_encrypted(self.bytes, block),
            MgmAlgorithmId::Aes256 => crate::cipher::aes256_encrypted(self.bytes, block),
        }
    }

    /// The block decrypted under this key.
    pub open spec fn decrypted(self, block: Seq<u8>) -> Seq<u8> {
        match self.algorithm {
            MgmAlgorithmId::ThreeDes => crate::cipher::tdes_decrypted(self.bytes, block),
            MgmAlgorithmId::Aes128 => crate::cipher::aes128_decrypted(self.bytes, block),
            MgmAlgorithmId::Aes192 => crate::cipher::aes192_decrypted(self.bytes, block),
            MgmAlgorithmId::Aes256 => crate::cipher::aes256_decrypted(self.bytes, block),
        }
    }

    /// `auth_data` is the right answer to `challenge` under this key: its encryption.
    pub open spec fn authenticates(self, challenge: Seq<u8>, auth_data: Seq<u8>) -> bool {
        &&& challenge.len() == self.algorithm.block_len_spec()
        &&& auth_data == self.encrypted(challenge)
    }
}

/// The model of what a function that makes a key returns.
pub open spec fn outcome(r: Result<MgmKey, Error>) -> Result<KeyModel, Error> {
    match r {
        Ok(key) => Ok(key@),
        Err(e) => Err(e),
    }
}

/// The key for an algorithm that bytes stand for: `Error::SizeError` if their number is not that
/// of the algorithm's keys, `Error::KeyError` if they are a weak 3DES key.
pub open spec fn parsed(algorithm: MgmAlgorithmId, bytes: Seq<u8>) -> Result<KeyModel, Error> {
    let key = KeyModel { algorithm, bytes };
    if !key.well_formed() {
        Err(Error::SizeError)
    } else if key.is_weak() {
        Err(Error::KeyError)
    } else {
        Ok(key)
    }
}

/// The algorithm whose keys have this size, if there is exactly one.
pub open spec fn algorithm_of_len(len: nat) -> Option<MgmAlgorithmId> {
    if len == MgmAlgorithmId::Aes128.key_len_spec() {
        Some(MgmAlgorithmId::Aes128)
    } else if len == MgmAlgorithmId::Aes256.key_len_spec() {
        Some(MgmAlgorithmId::Aes256)
    } else {
        None
    }
}

/// The key that a salt and the PIN give: `Error::GenericError` if the salt has the wrong size,
/// `Error::KeyError` if the key is weak.
pub open spec fn derived_key(salt: Seq<u8>, pin: Seq<u8>) -> Result<KeyModel, Error> {
    if salt.len() != CB_ADMIN_SALT {
        Err(Error::GenericError)
    } else {
        parsed(
            MgmAlgorithmId::ThreeDes,
            crate::primitives::pbkdf2_hmac_sha1(pin, salt, ITER_MGM_PBKDF2, 24),
        )
    }
}

/// The key that bytes from the protected data stand for. Of a wrong size they are a failure to
/// authenticate.
pub open spec fn protected_key(
    algorithm: MgmAlgorithmId,
    item: Seq<u8>,
) -> Result<KeyModel, Error> {
    match parsed(algorithm, item) {
        Err(Error::SizeError) => Err(Error::AuthenticationError),
        other => other,
    }
}

/// Management Key (MGM).
///
/// This key is used to authenticate to the management applet running on
/// a YubiKey in order to perform administrative functions.
///
/// The only supported algorithm for MGM keys are 3DES and AES.
///
/// No key is a weak 3DES key.
pub struct MgmKey(MgmKeyKind);

enum MgmKeyKind {
    Tdes([u8; 24]),
    Aes128([u8; 16]),
    Aes192([u8; 24]),
    Aes256([u8; 32]),
}

impl MgmKey {
    /// The key is not weak.
    #[verifier::type_invariant]
    pub open spec fn is_not_weak(self) -> bool {
        !self@.is_weak()
    }
}

impl View for MgmKey {
    type V = KeyModel;

    closed spec fn view(&self) -> KeyModel {
        match self.0 {
            MgmKeyKind::Tdes(k) => KeyModel { algorithm: MgmAlgorithmId::ThreeDes, bytes: k@ },
            MgmKeyKind::Aes128(k) => KeyModel { algorithm: MgmAlgorithmId::Aes128, bytes: k@ },
            MgmKeyKind::Aes192(k) => KeyModel { algorithm: MgmAlgorithmId::Aes192, bytes: k@ },
            MgmKeyKind::Aes256(k) => KeyModel { algorithm: MgmAlgorithmId::Aes256, bytes: k@ },
        }
    }
}

impl Clone for MgmKey {
    fn clone(&self) -> (r: Self)
        ensures
            r == *self,
    {
        proof {
            use_type_invariant(self);
        }
        match &self.0 {
            MgmKeyKind::Tdes(k) => MgmKey(MgmKeyKind::Tdes(*k)),
            MgmKeyKind::Aes128(k) => MgmKey(MgmKeyKind::Aes128(*k)),
            MgmKeyKind::Aes192(k) => MgmKey(MgmKeyKind::Aes192(*k)),
            MgmKeyKind::Aes256(k) => MgmKey(MgmKeyKind::Aes256(*k)),
        }
    }
}

/// Copies bytes into an array of their number.
fn array_from<const N: usize>(bytes: &[u8]) -> (r: [u8; N])
    requires
        bytes@.len() == N,
    ensures
        r@ == bytes@,
{
    let mut r: [u8; N] = [0u8; N];
    let mut i: usize = 0;
    while i < N
        invariant
            i <= N,
            bytes@.len() == N,
            forall|j: int| 0 <= j < i ==> r@[j] == bytes@[j],
        decreases N - i,
    {
        r[i] = bytes[i];
        i = i + 1;
    }
    assert(r@ =~= bytes@);
    r
}

/// Checks an answer to a challenge against the answer that was expected.
///
/// The time that this takes tells nothing about where the two differ.
pub fn check_response(response: &[u8], auth_data: &[u8]) -> (r: Result<(), Error>)
    ensures
        r == if response@ == auth_data@ {
            Ok::<(), Error>(())
        } else {
            Err::<(), Error>(Error::AuthenticationError)
        },
{
    if ct_eq(response, auth_data) != 1 {
        return Err(Error::AuthenticationError);
    }
    Ok(())
}

impl MgmKey {
    /// Generate a random 3DES MGM key
    ///
    /// The bytes come from the random source of the operating system and can be any. Returns an
    /// error if the source fails, or gives a weak key.
    pub fn generate() -> (r: Result<Self, Error>)
        ensures
            match r {
                Ok(key) => {
                    &&& key@.algorithm == MgmAlgorithmId::ThreeDes
                    &&& key@.well_formed()
                    &&& !key@.is_weak()
                },
                Err(e) => e == Error::GenericError || e == Error::KeyError,
            },
            exists|drawn: Option<[u8; 24]>|
                {
                    &&& #[trigger] crate::primitives::os_source_gives(drawn)
                    &&& match (drawn, r) {
                        (Some(key_bytes), Ok(key)) => key@ == (KeyModel {
                            algorithm: MgmAlgorithmId::ThreeDes,
                            bytes: key_bytes@,
                        }),
                        (Some(key_bytes), Err(e)) => {
                            &&& e == Error::KeyError
                            &&& crate::weak::is_weak_tdes(key_bytes@)
                        },
                        (None, Ok(_)) => false,
                        (None, Err(e)) => e == Error::GenericError,
                    }
                },
    {
        proof {
            assert forall|drawn: Option<[u8; 24]>| #[trigger]
                call_ensures(os_draw, (), drawn) implies crate::primitives::os_source_gives(
                drawn,
            ) by {
                crate::primitives::law_source_gives_what_a_call_leaves(drawn);
            }
        }
        Self::generate_from(os_draw)
    }

    /// Generates a random 3DES MGM key out of the bytes that a random source gives, or `None` if
    /// it fails.
    fn generate_from<F: FnOnce() -> Option<[u8; 24]>>(source: F) -> (r: Result<Self, Error>)
        requires
            source.requires(()),
        ensures
            r matches Ok(key) ==> !key@.is_weak(),
            exists|drawn: Option<[u8; 24]>|
                {
                    &&& #[trigger] source.ensures((), drawn)
                    &&& match (drawn, r) {
                        (Some(key_bytes), Ok(key)) => key@ == (KeyModel {
                            algorithm: MgmAlgorithmId::ThreeDes,
                            bytes: key_bytes@,
                        }),
                        (Some(key_bytes), Err(e)) => {
                            &&& e == Error::KeyError
                            &&& crate::weak::is_weak_tdes(key_bytes@)
                        },
                        (None, Ok(_)) => false,
                        (None, Err(e)) => e == Error::GenericError,
                    }
                },
    {
        let drawn = source();
        Self::generated(drawn)
    }

    /// Makes a random 3DES MGM key out of bytes that a random source gave, or `None` if it failed.
    ///
    /// Returns an error if the source failed, or the key is weak.
    pub fn generated(drawn: Option<[u8; 24]>) -> (r: Result<Self, Error>)
        ensures
            outcome(r) == match drawn {
                Some(key_bytes) => parsed(MgmAlgorithmId::ThreeDes, key_bytes@),
                None => Err(Error::GenericError),
            },
            match (drawn, r) {
                (Some(key_bytes), Ok(key)) => key@ == (KeyModel {
                    algorithm: MgmAlgorithmId::ThreeDes,
                    bytes: key_bytes@,
                }),
                (Some(key_bytes), Err(e)) => e == Error::KeyError && crate::weak::is_weak_tdes(
                    key_bytes@,
                ),
                (None, Ok(_)) => false,
                (None, Err(e)) => e == Error::GenericError,
            },
    {
        match drawn {
            Some(key_bytes) => Self::generate_alg(MgmAlgorithmId::ThreeDes, &key_bytes),
            None => Err(Error::GenericError),
        }
    }

    /// Makes a random MGM key for the given algorithm out of bytes that a random source gave.
    ///
    /// Returns an error if they are not as many as a key of the algorithm has, or the key is weak.
    pub fn generate_alg(alg: MgmAlgorithmId, key_bytes: &[u8]) -> (r: Result<Self, Error>)
        ensures
            outcome(r) == parsed(alg, key_bytes@),
            r matches Ok(key) ==> key@ == (KeyModel { algorithm: alg, bytes: key_bytes@ }),
    {
        Self::parse_key(alg, key_bytes)
    }

    /// Makes a random MGM key using the preferred algorithm for the given firmware version out of
    /// bytes that a random source gave. Keys of all preferred algorithms have the same size.
    ///
    /// Returns an error if the key is weak.
    pub fn generate_for(version: Version, key_bytes: [u8; 24]) -> (r: Result<Self, Error>)
        ensures
            outcome(r) == parsed(version.default_algorithm_spec(), key_bytes@),
            r matches Ok(key) ==> {
                &&& key@.bytes == key_bytes@
                &&& key@.algorithm == if version.major > 5 || (version.major == 5 && version.minor
                    >= 7) {
                    MgmAlgorithmId::Aes192
                } else {
                    MgmAlgorithmId::ThreeDes
                }
            },
            r is Err <==> version.default_algorithm_spec() == MgmAlgorithmId::ThreeDes
                && crate::weak::is_weak_tdes(key_bytes@),
    {
        Self::generate_alg(version.default_algorithm(), &key_bytes)
    }

    /// Create a 3DES MGM key from the given byte array.
    ///
    /// Returns an error if the key is weak.
    pub fn new(key_bytes: [u8; 24]) -> (r: Result<Self, Error>)
        ensures
            outcome(r) == parsed(MgmAlgorithmId::ThreeDes, key_bytes@),
            match r {
                Ok(key) => key@ == (KeyModel {
                    algorithm: MgmAlgorithmId::ThreeDes,
                    bytes: key_bytes@,
                }),
                Err(e) => e == Error::KeyError,
            },
            r is Err <==> crate::weak::is_weak_tdes(key_bytes@),
    {
        Self::from_bytes(&key_bytes, Some(MgmAlgorithmId::ThreeDes))
    }

    /// Parses an MGM key from the given byte slice.
    ///
    /// Returns an error if the slice is an invalid size or the key is weak.
    ///
    /// If `alg` is `None`, the algorithm will be selected based on the length of the
    /// slice, returning an error if there is not a unique match.
    pub fn from_bytes(bytes: &[u8], alg: Option<MgmAlgorithmId>) -> (r: Result<Self, Error>)
        ensures
            outcome(r) == match alg {
                Some(alg) => parsed(alg, bytes@),
                None => match algorithm_of_len(bytes@.len()) {
                    Some(alg) => parsed(alg, bytes@),
                    None => Err(Error::ParseError),
                },
            },
            match r {
                Ok(key) => {
                    &&& key@.bytes == bytes@
                    &&& alg is Some ==> alg == Some(key@.algorithm)
                    &&& alg is None ==> {
                        ||| bytes@.len() == 16 && key@.algorithm == MgmAlgorithmId::Aes128
                        ||| bytes@.len() == 32 && key@.algorithm == MgmAlgorithmId::Aes256
                    }
                },
                Err(e) => match alg {
                    Some(alg) => {
                        ||| e == Error::SizeError && bytes@.len() != alg.key_len_spec()
                        ||| {
                            &&& e == Error::KeyError
                            &&& alg == MgmAlgorithmId::ThreeDes
                            &&& bytes@.len() == 24
                            &&& crate::weak::is_weak_tdes(bytes@)
                        }
                    },
                    None => e == Error::ParseError && bytes@.len() != 16 && bytes@.len() != 32,
                },
            },
    {
        match alg {
            Some(alg) => Self::parse_key(alg, bytes),
            None => match bytes.len() {
                16 => Self::parse_key(MgmAlgorithmId::Aes128, bytes),
                32 => Self::parse_key(MgmAlgorithmId::Aes256, bytes),
                // Keys of 24 bytes are 3DES keys and AES-192 keys alike.
                _ => Err(Error::ParseError),
            },
        }
    }

    /// Gets the default management key for the given firmware version.
    ///
    /// Returns an error if the default algorithm is unsupported, which none is.
    pub fn get_default(version: Version) -> (r: Result<Self, Error>)
        ensures
            outcome(r) == Ok::<KeyModel, Error>(
                KeyModel { algorithm: version.default_algorithm_spec(), bytes: DEFAULT_MGM_KEY@ },
            ),
            match r {
                Ok(key) => {
                    &&& key@.algorithm == if version.major > 5 || (version.major == 5
                        && version.minor >= 7) {
                        MgmAlgorithmId::Aes192
                    } else {
                        MgmAlgorithmId::ThreeDes
                    }
                    &&& key@.bytes.len() == 24
                    &&& forall|i: int|
                        0 <= i < 24 ==> #[trigger] key@.bytes[i] == i % 8 + 1
                },
                Err(_) => false,
            },
    {
        proof {
            law_default_key_is_not_weak(MgmAlgorithmId::ThreeDes);
        }
        match version.default_algorithm() {
            MgmAlgorithmId::Aes192 => Ok(Self(MgmKeyKind::Aes192(DEFAULT_MGM_KEY))),
            _ => Ok(Self(MgmKeyKind::Tdes(DEFAULT_MGM_KEY))),
        }
    }

    /// Derives a 3DES management key (MGM) from a salt and the PIN.
    ///
    /// Returns an error if the salt is the wrong size, or the key is weak.
    pub fn derive(salt: &[u8], pin: &[u8]) -> (r: Result<Self, Error>)
        ensures
            outcome(r) == derived_key(salt@, pin@),
            salt@.len() == CB_ADMIN_SALT ==> (r is Ok || r->Err_0 == Error::KeyError),
            match r {
                Ok(key) => {
                    &&& salt@.len() == 16
                    &&& key@.algorithm == MgmAlgorithmId::ThreeDes
                    &&& key@.bytes == crate::primitives::pbkdf2_hmac_sha1(pin@, salt@, 10000, 24)
                    &&& !crate::weak::is_weak_tdes(key@.bytes)
                },
                Err(e) => if salt@.len() == 16 {
                    &&& e == Error::KeyError
                    &&& crate::weak::is_weak_tdes(
                        crate::primitives::pbkdf2_hmac_sha1(pin@, salt@, 10000, 24),
                    )
                } else {
                    e == Error::GenericError
                },
            },
    {
        if salt.len() != CB_ADMIN_SALT {
            return Err(Error::GenericError);
        }
        let mgm = pbkdf2_hmac_sha1_tdes(pin, salt, ITER_MGM_PBKDF2);
        Self::new(mgm)
    }

    /// Parses the management key (MGM) for the given algorithm from the item for it in the
    /// protected data.
    ///
    /// Returns an error if the item is the wrong size, or the key is weak.
    pub fn parse_protected(alg: MgmAlgorithmId, item: &[u8]) -> (r: Result<Self, Error>)
        ensures
            outcome(r) == protected_key(alg, item@),
            match r {
                Ok(key) => key@ == (KeyModel { algorithm: alg, bytes: item@ }),
                Err(e) => e == if item@.len() == alg.key_len_spec() {
                    Error::KeyError
                } else {
                    Error::AuthenticationError
                },
            },
    {
        match Self::parse_key(alg, item) {
            Err(Error::SizeError) => Err(Error::AuthenticationError),
            other => other,
        }
    }

    /// Returns the ID used to identify the key algorithm with APDU packets.
    pub fn algorithm_id(&self) -> (id: MgmAlgorithmId)
        ensures
            id == self@.algorithm,
    {
        match &self.0 {
            MgmKeyKind::Tdes(_) => MgmAlgorithmId::ThreeDes,
            MgmKeyKind::Aes128(_) => MgmAlgorithmId::Aes128,
            MgmKeyKind::Aes192(_) => MgmAlgorithmId::Aes192,
            MgmKeyKind::Aes256(_) => MgmAlgorithmId::Aes256,
        }
    }

    /// Returns the key size in bytes.
    pub fn key_size(&self) -> (size: u8)
        ensures
            size == self@.algorithm.key_len_spec(),
            size == self@.bytes.len(),
    {
        match &self.0 {
            MgmKeyKind::Tdes(_) => 24,
            MgmKeyKind::Aes128(_) => 16,
            MgmKeyKind::Aes192(_) => 24,
            MgmKeyKind::Aes256(_) => 32,
        }
    }

    /// Parses an MGM key from the given byte slice.
    ///
    /// Returns an error if the slice is the wrong size, or the key is weak.
    fn parse_key(alg: MgmAlgorithmId, bytes: &[u8]) -> (r: Result<Self, Error>)
        ensures
            outcome(r) == parsed(alg, bytes@),
    {
        if alg.key_len() != bytes.len() {
            return Err(Error::SizeError);
        }
        match alg {
            MgmAlgorithmId::ThreeDes => {
                let key = array_from::<24>(bytes);
                if is_weak_key(&key) {
                    return Err(Error::KeyError);
                }
                Ok(Self(MgmKeyKind::Tdes(key)))
            },
            MgmAlgorithmId::Aes128 => Ok(Self(MgmKeyKind::Aes128(array_from::<16>(bytes)))),
            MgmAlgorithmId::Aes192 => Ok(Self(MgmKeyKind::Aes192(array_from::<24>(bytes)))),
            MgmAlgorithmId::Aes256 => Ok(Self(MgmKeyKind::Aes256(array_from::<32>(bytes)))),
        }
    }

    /// Encrypts a block with this key.
    ///
    /// Returns an error if the block is the wrong size.
    pub fn encrypt_block(&self, block: &mut [u8]) -> (r: Result<(), Error>)
        ensures
            old(block)@.len() == self@.algorithm.block_len_spec() ==> {
                &&& r == Ok::<(), Error>(())
                &&& final(block)@ == self@.encrypted(old(block)@)
                &&& final(block)@ == match self@.algorithm {
                    MgmAlgorithmId::ThreeDes => crate::cipher::tdes_encrypted(
                        self@.bytes,
                        old(block)@,
                    ),
                    MgmAlgorithmId::Aes128 => crate::cipher::aes128_encrypted(
                        self@.bytes,
                        old(block)@,
                    ),
                    MgmAlgorithmId::Aes192 => crate::cipher::aes192_encrypted(
                        self@.bytes,
                        old(block)@,
                    ),
                    MgmAlgorithmId::Aes256 => crate::cipher::aes256_encrypted(
                        self@.bytes,
                        old(block)@,
                    ),
                }
                &&& final(block)@.len() == old(block)@.len()
                &&& self@.decrypted(final(block)@) == old(block)@
            },
            old(block)@.len() != self@.algorithm.block_len_spec() ==> {
                &&& r == Err::<(), Error>(Error::SizeError)
                &&& final(block)@ == old(block)@
            },
    {
        if block.len() != self.algorithm_id().block_len() {
            return Err(Error::SizeError);
        }
        match &self.0 {
            MgmKeyKind::Tdes(k) => tdes_encrypt_block(k, block),
            MgmKeyKind::Aes128(k) => aes128_encrypt_block(k, block),
            MgmKeyKind::Aes192(k) => aes192_encrypt_block(k, block),
            MgmKeyKind::Aes256(k) => aes256_encrypt_block(k, block),
        }
        Ok(())
    }

    /// Decrypts a block with this key.
    ///
    /// Returns an error if the block is the wrong size.
    pub fn decrypt_block(&self, block: &mut [u8]) -> (r: Result<(), Error>)
        ensures
            old(block)@.len() == self@.algorithm.block_len_spec() ==> {
                &&& r == Ok::<(), Error>(())
                &&& final(block)@ == self@.decrypted(old(block)@)
                &&& final(block)@ == match self@.algorithm {
                    MgmAlgorithmId::ThreeDes => crate::cipher::tdes_decrypted(
                        self@.bytes,
                        old(block)@,
                    ),
                    MgmAlgorithmId::Aes128 => crate::cipher::aes128_decrypted(
                        self@.bytes,
                        old(block)@,
                    ),
                    MgmAlgorithmId::Aes192 => crate::cipher::aes192_decrypted(
                        self@.bytes,
                        old(block)@,
                    ),
                    MgmAlgorithmId::Aes256 => crate::cipher::aes256_decrypted(
                        self@.bytes,
                        old(block)@,
                    ),
                }
                &&& final(block)@.len() == old(block)@.len()
                &&& self@.encrypted(final(block)@) == old(block)@
            },
            old(block)@.len() != self@.algorithm.block_len_spec() ==> {
                &&& r == Err::<(), Error>(Error::SizeError)
                &&& final(block)@ == old(block)@
            },
    {
        if block.len() != self.algorithm_id().block_len() {
            return Err(Error::SizeError);
        }
        match &self.0 {
            MgmKeyKind::Tdes(k) => tdes_decrypt_block(k, block),
            MgmKeyKind::Aes128(k) => aes128_decrypt_block(k, block),
            MgmKeyKind::Aes192(k) => aes192_decrypt_block(k, block),
            MgmKeyKind::Aes256(k) => aes256_decrypt_block(k, block),
        }
        Ok(())
    }

    /// Given a challenge from a card, decrypts it and return the value
    ///
    /// The challenge is the right answer to the value: the card recognizes it.
    pub fn card_challenge(&self, challenge: &[u8]) -> (r: Result<Vec<u8>, Error>)
        ensures
            match r {
                Ok(output) => {
                    &&& challenge@.len() == self@.algorithm.block_len_spec()
                    &&& output@ == self@.decrypted(challenge@)
                    &&& output@ == match self@.algorithm {
                        MgmAlgorithmId::ThreeDes => crate::cipher::tdes_decrypted(
                            self@.bytes,
                            challenge@,
                        ),
                        MgmAlgorithmId::Aes128 => crate::cipher::aes128_decrypted(
                            self@.bytes,
                            challenge@,
                        ),
                        MgmAlgorithmId::Aes192 => crate::cipher::aes192_decrypted(
                            self@.bytes,
                            challenge@,
                        ),
                        MgmAlgorithmId::Aes256 => crate::cipher::aes256_decrypted(
                            self@.bytes,
                            challenge@,
                        ),
                    }
                    &&& self@.authenticates(output@, challenge@)
                },
                Err(e) => {
                    &&& challenge@.len() != self@.algorithm.block_len_spec()
                    &&& e == Error::SizeError
                },
            },
    {
        let mut output: Vec<u8> = slice_to_vec(challenge);
        match self.decrypt_block(output.as_mut_slice()) {
            Ok(()) => Ok(output),
            Err(e) => Err(e),
        }
    }

    /// Checks the authentication matches the challenge and auth data
    pub fn check_challenge(&self, challenge: &[u8], auth_data: &[u8]) -> (r: Result<(), Error>)
        ensures
            r == if challenge@.len() != self@.algorithm.block_len_spec() {
                Err::<(), Error>(Error::SizeError)
            } else if self@.authenticates(challenge@, auth_data@) {
                Ok::<(), Error>(())
            } else {
                Err::<(), Error>(Error::AuthenticationError)
            },
            r is Ok ==> self@.decrypted(auth_data@) == challenge@,
            r is Ok <==> match self@.algorithm {
                MgmAlgorithmId::ThreeDes => challenge@.len() == 8 && auth_data@
                    == crate::cipher::tdes_encrypted(self@.bytes, challenge@),
                MgmAlgorithmId::Aes128 => challenge@.len() == 16 && auth_data@
                    == crate::cipher::aes128_encrypted(self@.bytes, challenge@),
                MgmAlgorithmId::Aes192 => challenge@.len() == 16 && auth_data@
                    == crate::cipher::aes192_encrypted(self@.bytes, challenge@),
                MgmAlgorithmId::Aes256 => challenge@.len() == 16 && auth_data@
                    == crate::cipher::aes256_encrypted(self@.bytes, challenge@),
            },
    {
        let mut response: Vec<u8> = slice_to_vec(challenge);
        match self.encrypt_block(response.as_mut_slice()) {
            Ok(()) => check_response(response.as_slice(), auth_data),
            Err(e) => Err(e),
        }
    }
}

/// Default MGM key configured on all YubiKeys
impl Default for MgmKey {
    fn default() -> (key: Self)
        ensures
            key@ == (KeyModel { algorithm: MgmAlgorithmId::ThreeDes, bytes: DEFAULT_MGM_KEY@ }),
    {
        proof {
            law_default_key_is_not_weak(MgmAlgorithmId::ThreeDes);
        }
        MgmKey(MgmKeyKind::Tdes(DEFAULT_MGM_KEY))
    }
}

impl AsRef<[u8]> for MgmKey {
    fn as_ref(&self) -> (bytes: &[u8])
        ensures
            bytes@ == self@.bytes,
            self@.algorithm == MgmAlgorithmId::ThreeDes ==> !crate::weak::is_weak_tdes(bytes@),
    {
        proof {
            use_type_invariant(self);
        }
        match &self.0 {
            MgmKeyKind::Tdes(k) => k,
            MgmKeyKind::Aes128(k) => k,
            MgmKeyKind::Aes192(k) => k,
            MgmKeyKind::Aes256(k) => k,
        }
    }
}

/// The bytes of every key are as many as its algorithm demands.
pub proof fn law_keys_are_well_formed(key: MgmKey)
    ensures
        key@.well_formed(),
{
}

/// A key is nothing but its algorithm and its bytes.
pub proof fn law_key_is_its_model(a: MgmKey, b: MgmKey)
    requires
        a@ == b@,
    ensures
        a == b,
{
    match (a.0, b.0) {
        (MgmKeyKind::Tdes(x), MgmKeyKind::Tdes(y)) => {
            assert(x =~= y);
        },
        (MgmKeyKind::Aes128(x), MgmKeyKind::Aes128(y)) => {
            assert(x =~= y);
        },
        (MgmKeyKind::Aes192(x), MgmKeyKind::Aes192(y)) => {
            assert(x =~= y);
        },
        (MgmKeyKind::Aes256(x), MgmKeyKind::Aes256(y)) => {
            assert(x =~= y);
        },
        _ => {},
    }
}

/// No key that is made from given bytes is weak, and it holds these bytes.
pub proof fn law_parsed_keys_are_not_weak(algorithm: MgmAlgorithmId, bytes: Seq<u8>)
    ensures
        parsed(algorithm, bytes) matches Ok(key) ==> {
            &&& !key.is_weak()
            &&& key.well_formed()
            &&& key.algorithm == algorithm
            &&& key.bytes == bytes
        },
{
}

/// The bytes of a key that is not weak are read back as the key. Those of a weak key are
/// refused.
pub proof fn law_key_is_read_back(key: KeyModel)
    requires
        key.well_formed(),
    ensures
        parsed(key.algorithm, key.bytes) == if key.is_weak() {
            Err::<KeyModel, Error>(Error::KeyError)
        } else {
            Ok::<KeyModel, Error>(key)
        },
{
}

/// The bytes of a key that is not weak are read back from protected data as the key. Those of a
/// weak key are refused.
pub proof fn law_protected_key_is_read_back(key: KeyModel)
    requires
        key.well_formed(),
    ensures
        protected_key(key.algorithm, key.bytes) == if key.is_weak() {
            Err::<KeyModel, Error>(Error::KeyError)
        } else {
            Ok::<KeyModel, Error>(key)
        },
{
}

/// The size of a key picks an algorithm exactly if keys of no other algorithm have it.
pub proof fn law_algorithm_of_len_is_unique(len: nat, alg: MgmAlgorithmId)
    ensures
        algorithm_of_len(len) == Some(alg) <==> {
            &&& alg.key_len_spec() == len
            &&& forall|other: MgmAlgorithmId|
                #[trigger] other.key_len_spec() == len ==> other == alg
        },
{
    if alg.key_len_spec() == len && len == 24 {
        assert(MgmAlgorithmId::ThreeDes.key_len_spec() == len);
        assert(MgmAlgorithmId::Aes192.key_len_spec() == len);
    }
}

/// The default key is not weak, whatever the algorithm.
pub proof fn law_default_key_is_not_weak(algorithm: MgmAlgorithmId)
    ensures
        !(KeyModel { algorithm, bytes: DEFAULT_MGM_KEY@ }).is_weak(),
{
    let key = DEFAULT_MGM_KEY@;
    assert(crate::weak::with_odd_parity(2) == 2) by (bit_vector);
    assert forall|k: int| 0 <= k < 3 implies !crate::weak::is_weak_des(
        #[trigger] crate::weak::des_part(key, k),
    ) by {
        let part = crate::weak::des_part(key, k);
        assert(part[1] == 2);
        assert(crate::weak::all_with_odd_parity(part)[1] == 2);
        assert forall|w: int| 0 <= w < crate::weak::WEAK_DES_KEY_COUNT implies
            #[trigger] crate::weak::WEAK_DES_KEYS@[w]@ != crate::weak::all_with_odd_parity(part) by {
            assert(crate::weak::WEAK_DES_KEYS@[w]@[1] != 2);
        }
    }
    assert(!crate::weak::is_weak_des(crate::weak::des_part(key, 0)));
    assert(!crate::weak::is_weak_des(crate::weak::des_part(key, 1)));
    assert(!crate::weak::is_weak_des(crate::weak::des_part(key, 2)));
}

/// The model of what a function that makes a key returns is the key's model or the error.
pub proof fn law_outcome(r: Result<MgmKey, Error>)
    ensures
        r matches Ok(key) ==> outcome(r) == Ok::<KeyModel, Error>(key@),
        r matches Err(e) ==> outcome(r) == Err::<KeyModel, Error>(e),
{
}

/// Bytes make a key unless their number is not that of the algorithm's keys, or the algorithm is
/// 3DES and they are weak.
pub proof fn law_bytes_make_keys(algorithm: MgmAlgorithmId, bytes: Seq<u8>)
    ensures
        ({
            let len: nat = match algorithm {
                MgmAlgorithmId::Aes128 => 16,
                MgmAlgorithmId::Aes256 => 32,
                _ => 24,
            };
            let weak = algorithm == MgmAlgorithmId::ThreeDes && crate::weak::is_weak_tdes(bytes);
            &&& bytes.len() != len ==> parsed(algorithm, bytes) == Err::<KeyModel, Error>(
                Error::SizeError,
            )
            &&& bytes.len() != len ==> protected_key(algorithm, bytes) == Err::<KeyModel, Error>(
                Error::AuthenticationError,
            )
            &&& bytes.len() == len ==> protected_key(algorithm, bytes) == parsed(algorithm, bytes)
            &&& bytes.len() == len && weak ==> parsed(algorithm, bytes) == Err::<KeyModel, Error>(
                Error::KeyError,
            )
            &&& bytes.len() == len && !weak ==> parsed(algorithm, bytes) == Ok::<KeyModel, Error>(
                KeyModel { algorithm, bytes },
            )
        }),
{
}

/// A key encrypts and decrypts blocks with the cipher of its algorithm under its bytes.
pub proof fn law_blocks_go_through_the_cipher(key: KeyModel, block: Seq<u8>)
    ensures
        key.algorithm == MgmAlgorithmId::ThreeDes ==> {
            &&& key.encrypted(block) == crate::cipher::tdes_encrypted(key.bytes, block)
            &&& key.decrypted(block) == crate::cipher::tdes_decrypted(key.bytes, block)
        },
        key.algorithm == MgmAlgorithmId::Aes128 ==> {
            &&& key.encrypted(block) == crate::cipher::aes128_encrypted(key.bytes, block)
            &&& key.decrypted(block) == crate::cipher::aes128_decrypted(key.bytes, block)
        },
        key.algorithm == MgmAlgorithmId::Aes192 ==> {
            &&& key.encrypted(block) == crate::cipher::aes192_encrypted(key.bytes, block)
            &&& key.decrypted(block) == crate::cipher::aes192_decrypted(key.bytes, block)
        },
        key.algorithm == MgmAlgorithmId::Aes256 ==> {
            &&& key.encrypted(block) == crate::cipher::aes256_encrypted(key.bytes, block)
            &&& key.decrypted(block) == crate::cipher::aes256_decrypted(key.bytes, block)
        },
{
}

/// An answer to a challenge is right exactly if it is the challenge encrypted, so that there is
/// one right answer to each.
pub proof fn law_right_answer_is_unique(key: KeyModel, challenge: Seq<u8>, a: Seq<u8>, b: Seq<u8>)
    requires
        key.authenticates(challenge, a),
    ensures
        a == key.encrypted(challenge),
        challenge.len() == if key.algorithm == MgmAlgorithmId::ThreeDes {
            8nat
        } else {
            16nat
        },
        key.authenticates(challenge, b) <==> a == b,
{
}

/// A derived key is the 3DES key that PBKDF2 makes of the whole PIN and the whole salt in 10000
/// iterations, or these bytes are weak.
pub proof fn law_derived_key_comes_from_salt_and_pin(salt: Seq<u8>, pin: Seq<u8>)
    ensures
        ({
            let bytes = crate::primitives::pbkdf2_hmac_sha1(pin, salt, 10000, 24);
            &&& derived_key(salt, pin) matches Ok(key) ==> {
                &&& salt.len() == 16
                &&& key.algorithm == MgmAlgorithmId::ThreeDes
                &&& key.bytes == bytes
            }
            &&& derived_key(salt, pin) == Err::<KeyModel, Error>(Error::GenericError) <==> salt.len()
                != 16
            &&& derived_key(salt, pin) == Err::<KeyModel, Error>(Error::KeyError) <==> {
                &&& salt.len() == 16
                &&& bytes.len() == 24
                &&& crate::weak::is_weak_tdes(bytes)
            }
            &&& salt.len() == 16 && bytes.len() == 24 && !crate::weak::is_weak_tdes(bytes)
                ==> derived_key(salt, pin) is Ok
        }),
{
}

/// A key is weak exactly if it is a 3DES key and its bytes are weak.
pub proof fn law_only_3des_keys_are_weak(key: KeyModel)
    ensures
        key.is_weak() <==> key.algorithm == MgmAlgorithmId::ThreeDes && crate::weak::is_weak_tdes(
            key.bytes,
        ),
{
}

/// The default key counts from 1 to 8 three times.
pub proof fn law_default_key_counts_to_eight(i: int)
    requires
        0 <= i < 24,
    ensures
        DEFAULT_MGM_KEY@[i] == i % 8 + 1,
{
}

} // verus!
