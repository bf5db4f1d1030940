//! The block ciphers of the `des` and `aes` crates.

use aes::{Aes128, Aes192, Aes256};
use des::cipher::generic_array::GenericArray;
use des::cipher::{BlockDecrypt, BlockEncrypt, KeyInit};
use des::TdesEde3;
use vstd::prelude::*;

verus! {

/// What `des::TdesEde3` makes of a block of 8 bytes when it encrypts it under a key of 24 bytes.
pub uninterp spec fn tdes_encrypted(key: Seq<u8>, block: Seq<u8>) -> Seq<u8>;

/// What `des::TdesEde3` makes of a block of 8 bytes when it decrypts it under a key of 24 bytes.
pub uninterp spec fn tdes_decrypted(key: Seq<u8>, block: Seq<u8>) -> Seq<u8>;

/// What `aes::Aes128` makes of a block of 16 bytes when it encrypts it under a key of 16 bytes.
pub uninterp spec fn aes128_encrypted(key: Seq<u8>, block: Seq<u8>) -> Seq<u8>;

/// What `aes::Aes128` makes of a block of 16 bytes when it decrypts it under a key of 16 bytes.
pub uninterp spec fn aes128_decrypted(key: Seq<u8>, block: Seq<u8>) -> Seq<u8>;

/// What `aes::Aes192` makes of a block of 16 bytes when it encrypts it under a key of 24 bytes.
pub uninterp spec fn aes192_encrypted(key: Seq<u8>, block: Seq<u8>) -> Seq<u8>;

/// What `aes::Aes192` makes of a block of 16 bytes when it decrypts it under a key of 24 bytes.
pub uninterp spec fn aes192_decrypted(key: Seq<u8>, block: Seq<u8>) -> Seq<u8>;

/// What `aes::Aes256` makes of a block of 16 bytes when it encrypts it under a key of 32 bytes.
pub uninterp spec fn aes256_encrypted(key: Seq<u8>, block: Seq<u8>) -> Seq<u8>;

/// What `aes::Aes256` makes of a block of 16 bytes when it decrypts it under a key of 32 bytes.
pub uninterp spec fn aes256_decrypted(key: Seq<u8>, block: Seq<u8>) -> Seq<u8>;

/// Encrypts a block in place through `BlockEncrypt::encrypt_block` of `des::TdesEde3`. The new
/// block is a function of the key and the old block, as long as the old one, and decryption
/// under the same key gives the old block back.
#[verifier::external_body]
pub(crate) fn tdes_encrypt_block(key: &[u8; 24], block: &mut [u8])
    requires
        old(block)@.len() == 8,
    ensures
        final(block)@.len() == 8,
        final(block)@ == tdes_encrypted(key@, old(block)@),
        tdes_decrypted(key@, final(block)@) == old(block)@,
{
    TdesEde3::new(key.into()).encrypt_block(GenericArray::from_mut_slice(block))
}

/// Decrypts a block in place through `BlockDecrypt::decrypt_block` of `des::TdesEde3`. The new
/// block is a function of the key and the old block, as long as the old one, and encryption
/// under the same key gives the old block back.
#[verifier::external_body]
pub(crate) fn tdes_decrypt_block(key: &[u8; 24], block: &mut [u8])
    requires
        old(block)@.len() == 8,
    ensures
        final(block)@.len() == 8,
        final(block)@ == tdes_decrypted(key@, old(block)@),
        tdes_encrypted(key@, final(block)@) == old(block)@,
{
    TdesEde3::new(key.into()).decrypt_block(GenericArray::from_mut_slice(block))
}

/// Encrypts a block in place through `BlockEncrypt::encrypt_block` of `aes::Aes128`. The new
/// block is a function of the key and the old block, as long as the old one, and decryption
/// under the same key gives the old block back.
#[verifier::external_body]
pub(crate) fn aes128_encrypt_block(key: &[u8; 16], block: &mut [u8])
    requires
        old(block)@.len() == 16,
    ensures
        final(block)@.len() == 16,
        final(block)@ == aes128_encrypted(key@, old(block)@),
        aes128_decrypted(key@, final(block)@) == old(block)@,
{
    Aes128::new(key.into()).encrypt_block(GenericArray::from_mut_slice(block))
}

/// Decrypts a block in place through `BlockDecrypt::decrypt_block` of `aes::Aes128`. The new
/// block is a function of the key and the old block, as long as the old one, and encryption
/// under the same key gives the old block back.
#[verifier::external_body]
pub(crate) fn aes128_decrypt_block(key: &[u8; 16], block: &mut [u8])
    requires
        old(block)@.len() == 16,
    ensures
        final(block)@.len() == 16,
        final(block)@ == aes128_decrypted(key@, old(block)@),
        aes128_encrypted(key@, final(block)@) == old(block)@,
{
    Aes128::new(key.into()).decrypt_block(GenericArray::from_mut_slice(block))
}

/// Encrypts a block in place through `BlockEncrypt::encrypt_block` of `aes::Aes192`. The new
/// block is a function of the key and the old block, as long as the old one, and decryption
/// under the same key gives the old block back.
#[verifier::external_body]
pub(crate) fn aes192_encrypt_block(key: &[u8; 24], block: &mut [u8])
    requires
        old(block)@.len() == 16,
    ensures
        final(block)@.len() == 16,
        final(block)@ == aes192_encrypted(key@, old(block)@),
        aes192_decrypted(key@, final(block)@) == old(block)@,
{
    Aes192::new(key.into()).encrypt_block(GenericArray::from_mut_slice(block))
}

/// Decrypts a block in place through `BlockDecrypt::decrypt_block` of `aes::Aes192`. The new
/// block is a function of the key and the old block, as long as the old one, and encryption
/// under the same key gives the old block back.
#[verifier::external_body]
pub(crate) fn aes192_decrypt_block(key: &[u8; 24], block: &mut [u8])
    requires
        old(block)@.len() == 16,
    ensures
        final(block)@.len() == 16,
        final(block)@ == aes192_decrypted(key@, old(block)@),
        aes192_encrypted(key@, final(block)@) == old(block)@,
{
    Aes192::new(key.into()).decrypt_block(GenericArray::from_mut_slice(block))
}

/// Encrypts a block in place through `BlockEncrypt::encrypt_block` of `aes::Aes256`. The new
/// block is a function of the key and the old block, as long as the old one, and decryption
/// under the same key gives the old block back.
#[verifier::external_body]
pub(crate) fn aes256_encrypt_block(key: &[u8; 32], block: &mut [u8])
    requires
        old(block)@.len() == 16,
    ensures
        final(block)@.len() == 16,
        final(block)@ == aes256_encrypted(key@, old(block)@),
        aes256_decrypted(key@, final(block)@) == old(block)@,
{
    Aes256::new(key.into()).encrypt_block(GenericArray::from_mut_slice(block))
}

/// Decrypts a block in place through `BlockDecrypt::decrypt_block` of `aes::Aes256`. The new
/// block is a function of the key and the old block, as long as the old one, and encryption
/// under the same key gives the old block back.
#[verifier::external_body]
pub(crate) fn aes256_decrypt_block(key: &[u8; 32], block: &mut [u8])
    requires
        old(block)@.len() == 16,
    ensures
        final(block)@.len() == 16,
        final(block)@ == aes256_decrypted(key@, old(block)@),
        aes256_encrypted(key@, final(block)@) == old(block)@,
{
    Aes256::new(key.into()).decrypt_block(GenericArray::from_mut_slice(block))
}

} // verus!
