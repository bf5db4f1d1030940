//! Key derivation, random bytes, comparison in constant time and wiping of memory, as other crates
//! offer them.

use pbkdf2::pbkdf2_hmac;
use rand_core::{Error as RandError, OsRng, RngCore};
use sha1::Sha1;
use subtle::ConstantTimeEq;
use vstd::prelude::*;
use zeroize::Zeroize;

verus! {

/// Overwrites `bytes` through `zeroize::Zeroize::zeroize` of an array of bytes: afterwards every
/// byte is zero. That the write survives the optimizer is a property of the machine code, and no
/// clause speaks of it.
#[verifier::external_body]
pub(crate) fn wipe(bytes: &mut [u8; 24])
    ensures
        forall|i: int| 0 <= i < 24 ==> #[trigger] final(bytes)@[i] == 0,
{
    bytes.zeroize()
}

/// How `rand_core` says that a random source failed.
#[verifier::external_type_specification]
#[verifier::external_body]
pub struct ExRandError(RandError);

/// Fills `dest` through `rand_core::RngCore::try_fill_bytes` of `rand_core::OsRng`, the random
/// source of the operating system: the bytes can be any, and the source can fail. Both are up to
/// chance and the machine, so no clause speaks of them.
#[verifier::external_body]
pub(crate) fn os_try_fill_bytes(dest: &mut [u8; 24]) -> (r: Result<(), RandError>) {
    OsRng.try_fill_bytes(dest)
}

/// Has `source` fill `dest`, and says how that went. What `dest` holds afterwards is what the
/// source put there.
pub(crate) fn fill_from<F: FnOnce(&mut [u8; 24]) -> Result<(), RandError>>(
    source: F,
    dest: &mut [u8; 24],
) -> (r: Result<(), RandError>)
    requires
        forall|d: &mut [u8; 24]| #[trigger] source.requires((d,)),
    ensures
        exists|d: &mut [u8; 24]| #[trigger]
            source.ensures((d,), r) && *final(d) == *final(dest),
{
    let r = source(dest);
    assert(exists|d: &mut [u8; 24]| #[trigger] source.ensures((d,), r));
    r
}

/// Draws bytes from the random source of the operating system: the bytes that a call of
/// `os_try_fill_bytes` leaves in the buffer, all of them and as they are, and none exactly if it
/// fails.
pub(crate) fn os_draw() -> (drawn: Option<[u8; 24]>)
    ensures
        exists|d: &mut [u8; 24], r: Result<(), RandError>|
            {
                &&& #[trigger] call_ensures(os_try_fill_bytes, (d,), r)
                &&& r is Ok ==> drawn == Some(*final(d))
                &&& r is Err ==> drawn is None
            },
{
    let mut bytes: [u8; 24] = [0u8; 24];
    match fill_from(os_try_fill_bytes, &mut bytes) {
        Ok(()) => Some(bytes),
        Err(_) => None,
    }
}

/// A draw from the random source of the operating system can give these bytes, or fail, which
/// `None` stands for. Two draws can go differently.
pub closed spec fn os_source_gives(drawn: Option<[u8; 24]>) -> bool {
    call_ensures(os_draw, (), drawn)
}

/// What the random source of the operating system can give is what `os_draw` can return, and so
/// what a call of `os_try_fill_bytes` can leave in the buffer.
pub(crate) proof fn law_source_gives_what_a_call_leaves(drawn: Option<[u8; 24]>)
    ensures
        os_source_gives(drawn) <==> call_ensures(os_draw, (), drawn),
        os_source_gives(drawn) ==> exists|d: &mut [u8; 24], r: Result<(), RandError>|
            {
                &&& #[trigger] call_ensures(os_try_fill_bytes, (d,), r)
                &&& r is Ok ==> drawn == Some(*final(d))
                &&& r is Err ==> drawn is None
            },
{
}

/// Compares two byte strings through `subtle::ConstantTimeEq::ct_eq` of slices: the result is 1
/// when they have the same length and the same bytes, and 0 otherwise.
#[verifier::external_body]
pub(crate) fn ct_eq(a: &[u8], b: &[u8]) -> (equal: u8)
    ensures
        equal == if a@ == b@ { 1u8 } else { 0u8 },
{
    a.ct_eq(b).unwrap_u8()
}

/// The first `len` bytes that PBKDF2 with HMAC-SHA-1, as `pbkdf2::pbkdf2_hmac` computes it over
/// `sha1::Sha1`, derives from a password and a salt in `rounds` iterations.
pub uninterp spec fn pbkdf2_hmac_sha1(
    password: Seq<u8>,
    salt: Seq<u8>,
    rounds: u32,
    len: nat,
) -> Seq<u8>;

/// Derives a 3DES key through `pbkdf2::pbkdf2_hmac` with `sha1::Sha1`: the key is a function of
/// the password, the salt and the number of iterations.
#[verifier::external_body]
pub(crate) fn pbkdf2_hmac_sha1_tdes(password: &[u8], salt: &[u8], rounds: u32) -> (key: [u8; 24])
    ensures
        key@ == pbkdf2_hmac_sha1(password@, salt@, rounds, 24),
{
    let mut key = [0u8; 24];
    pbkdf2_hmac::<Sha1>(password, salt, rounds, &mut key);
    key
}

} // verus!
