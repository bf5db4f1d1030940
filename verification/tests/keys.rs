use aes::{Aes128, Aes192, Aes256};
use des::cipher::{BlockSizeUser, KeySizeUser};
use des::TdesEde3;
use mgm::algorithm::{MgmAlgorithmId, MgmType, Version};
use mgm::error::Error;
use mgm::key::{check_response, MgmKey, APPLET_ID, APPLET_NAME, DEFAULT_MGM_KEY};

const ALGORITHMS: [MgmAlgorithmId; 4] = [
    MgmAlgorithmId::ThreeDes,
    MgmAlgorithmId::Aes128,
    MgmAlgorithmId::Aes192,
    MgmAlgorithmId::Aes256,
];

fn counting(len: usize) -> Vec<u8> {
    (0..len).map(|i| i as u8).collect()
}

fn key(alg: MgmAlgorithmId, bytes: &[u8]) -> MgmKey {
    MgmKey::from_bytes(bytes, Some(alg)).ok().unwrap()
}

fn version(major: u8, minor: u8) -> Version {
    Version { major, minor, patch: 0 }
}

#[test]
fn key_types_are_numbered_from_zero() {
    assert_eq!(MgmType::Manual as u8, 0);
    assert_eq!(MgmType::Derived as u8, 1);
    assert_eq!(MgmType::Protected as u8, 2);
}

#[test]
fn applet_is_named() {
    assert_eq!(APPLET_NAME, "YubiKey MGMT");
    assert_eq!(APPLET_ID, [0xa0, 0x00, 0x00, 0x05, 0x27, 0x47, 0x11, 0x17]);
}

#[test]
fn sizes_are_those_of_the_ciphers() {
    assert_eq!(MgmAlgorithmId::ThreeDes.key_len(), TdesEde3::key_size());
    assert_eq!(MgmAlgorithmId::Aes128.key_len(), Aes128::key_size());
    assert_eq!(MgmAlgorithmId::Aes192.key_len(), Aes192::key_size());
    assert_eq!(MgmAlgorithmId::Aes256.key_len(), Aes256::key_size());
    assert_eq!(MgmAlgorithmId::ThreeDes.block_len(), TdesEde3::block_size());
    assert_eq!(MgmAlgorithmId::Aes128.block_len(), Aes128::block_size());
    assert_eq!(MgmAlgorithmId::Aes192.block_len(), Aes192::block_size());
    assert_eq!(MgmAlgorithmId::Aes256.block_len(), Aes256::block_size());
}

#[test]
fn new_makes_3des_key() {
    let k = MgmKey::new(DEFAULT_MGM_KEY).ok().unwrap();
    assert_eq!(k.algorithm_id(), MgmAlgorithmId::ThreeDes);
    assert_eq!(k.key_size(), 24);
    assert_eq!(k.as_ref(), &DEFAULT_MGM_KEY[..]);
}

#[test]
fn new_refuses_weak_key() {
    assert_eq!(MgmKey::new([0x01; 24]).err(), Some(Error::KeyError));
    let mut bytes = DEFAULT_MGM_KEY;
    bytes[16..].copy_from_slice(&[0xE0, 0xFE, 0xE0, 0xFE, 0xF1, 0xFE, 0xF1, 0xFE]);
    assert_eq!(MgmKey::new(bytes).err(), Some(Error::KeyError));
}

#[test]
fn keys_are_read_back() {
    for alg in ALGORITHMS {
        let bytes = counting(alg.key_len());
        let k = key(alg, &bytes);
        assert_eq!(k.algorithm_id(), alg);
        assert_eq!(k.key_size() as usize, alg.key_len());
        let again = key(k.algorithm_id(), k.as_ref());
        assert_eq!(again.as_ref(), &bytes[..]);
        let clone = k.clone();
        assert_eq!(clone.algorithm_id(), alg);
        assert_eq!(clone.as_ref(), &bytes[..]);
    }
}

#[test]
fn wrong_sizes_are_refused() {
    for alg in ALGORITHMS {
        for len in 0..40 {
            if len != alg.key_len() {
                let r = MgmKey::from_bytes(&counting(len), Some(alg));
                assert_eq!(r.err(), Some(Error::SizeError));
            }
        }
    }
}

#[test]
fn size_picks_algorithm_if_it_is_unique() {
    let k = MgmKey::from_bytes(&counting(16), None).ok().unwrap();
    assert_eq!(k.algorithm_id(), MgmAlgorithmId::Aes128);
    let k = MgmKey::from_bytes(&counting(32), None).ok().unwrap();
    assert_eq!(k.algorithm_id(), MgmAlgorithmId::Aes256);
    for len in [0, 8, 15, 17, 23, 24, 25, 31, 33] {
        let r = MgmKey::from_bytes(&counting(len), None);
        assert_eq!(r.err(), Some(Error::ParseError));
    }
}

#[test]
fn weak_bytes_make_aes_keys() {
    assert!(MgmKey::from_bytes(&[0x01; 24], Some(MgmAlgorithmId::Aes192)).is_ok());
    let r = MgmKey::from_bytes(&[0x01; 24], Some(MgmAlgorithmId::ThreeDes));
    assert_eq!(r.err(), Some(Error::KeyError));
}

#[test]
fn default_key_depends_on_firmware() {
    for (v, alg) in [
        (version(0, 0), MgmAlgorithmId::ThreeDes),
        (version(4, 255), MgmAlgorithmId::ThreeDes),
        (version(5, 0), MgmAlgorithmId::ThreeDes),
        (version(5, 6), MgmAlgorithmId::ThreeDes),
        (version(5, 7), MgmAlgorithmId::Aes192),
        (version(5, 255), MgmAlgorithmId::Aes192),
        (version(6, 0), MgmAlgorithmId::Aes192),
        (version(255, 0), MgmAlgorithmId::Aes192),
    ] {
        let k = MgmKey::get_default(v).ok().unwrap();
        assert_eq!(k.algorithm_id(), alg);
        assert_eq!(k.as_ref(), &DEFAULT_MGM_KEY[..]);

        let bytes = [7u8; 24];
        let k = MgmKey::generate_for(v, bytes).ok().unwrap();
        assert_eq!(k.algorithm_id(), alg);
        assert_eq!(k.as_ref(), &bytes[..]);

        let r = MgmKey::generate_for(v, [0xFE; 24]);
        if alg == MgmAlgorithmId::ThreeDes {
            assert_eq!(r.err(), Some(Error::KeyError));
        } else {
            assert_eq!(r.ok().unwrap().as_ref(), &[0xFE; 24][..]);
        }
    }
}

#[test]
fn default_is_3des() {
    let k = MgmKey::default();
    assert_eq!(k.algorithm_id(), MgmAlgorithmId::ThreeDes);
    assert_eq!(k.as_ref(), &[1, 2, 3, 4, 5, 6, 7, 8, 1, 2, 3, 4, 5, 6, 7, 8, 1, 2, 3, 4, 5, 6, 7, 8]);
}

#[test]
fn generated_keys_are_random() {
    let a = MgmKey::generate().ok().unwrap();
    let b = MgmKey::generate().ok().unwrap();
    assert_eq!(a.algorithm_id(), MgmAlgorithmId::ThreeDes);
    assert_ne!(a.as_ref(), &[0u8; 24][..]);
    assert_ne!(a.as_ref(), b.as_ref());
}

#[test]
fn failed_random_source_makes_no_key() {
    assert_eq!(MgmKey::generated(None).err(), Some(Error::GenericError));
    assert_eq!(MgmKey::generated(Some([0xFE; 24])).err(), Some(Error::KeyError));
    let k = MgmKey::generated(Some([7; 24])).ok().unwrap();
    assert_eq!(k.algorithm_id(), MgmAlgorithmId::ThreeDes);
    assert_eq!(k.as_ref(), &[7; 24][..]);
}

#[test]
fn generated_keys_hold_the_random_bytes() {
    for alg in ALGORITHMS {
        let bytes = counting(alg.key_len());
        let k = MgmKey::generate_alg(alg, &bytes).ok().unwrap();
        assert_eq!(k.algorithm_id(), alg);
        assert_eq!(k.as_ref(), &bytes[..]);
        assert_eq!(MgmKey::generate_alg(alg, &bytes[1..]).err(), Some(Error::SizeError));
    }
}

#[test]
fn generated_keys_are_not_weak() {
    for bytes in [[0x00; 24], [0x01; 24], [0xFE; 24]] {
        let r = MgmKey::generate_alg(MgmAlgorithmId::ThreeDes, &bytes);
        assert_eq!(r.err(), Some(Error::KeyError));
        let k = MgmKey::generate_alg(MgmAlgorithmId::Aes192, &bytes).ok().unwrap();
        assert_eq!(k.as_ref(), &bytes[..]);
    }
}

#[test]
fn derivation_needs_salt_of_right_size() {
    for len in [0, 15, 17] {
        assert_eq!(MgmKey::derive(&counting(len), b"123456").err(), Some(Error::GenericError));
    }
}

#[test]
fn derived_key_is_pbkdf2_with_sha1() {
    let k = MgmKey::derive(&counting(16), b"123456").ok().unwrap();
    assert_eq!(k.algorithm_id(), MgmAlgorithmId::ThreeDes);
    let expected: [u8; 24] = [
        0x6f, 0x4f, 0x2d, 0x62, 0x18, 0x42, 0xbc, 0xdf, 0x52, 0xc4, 0x4e, 0xf7, 0x3d, 0x28, 0xd6,
        0x01, 0x70, 0x45, 0xe5, 0xd5, 0x43, 0xb5, 0x54, 0x7d,
    ];
    assert_eq!(k.as_ref(), &expected[..]);
}

#[test]
fn protected_item_is_parsed() {
    for alg in ALGORITHMS {
        let bytes = counting(alg.key_len());
        let k = MgmKey::parse_protected(alg, &bytes).ok().unwrap();
        assert_eq!(k.algorithm_id(), alg);
        assert_eq!(k.as_ref(), &bytes[..]);
        let r = MgmKey::parse_protected(alg, &bytes[1..]);
        assert_eq!(r.err(), Some(Error::AuthenticationError));
    }
    let r = MgmKey::parse_protected(MgmAlgorithmId::ThreeDes, &[0xFE; 24]);
    assert_eq!(r.err(), Some(Error::KeyError));
}

fn check_cipher(alg: MgmAlgorithmId, key_bytes: &[u8], plain: &[u8], cipher: &[u8]) {
    let k = key(alg, key_bytes);

    let mut block = plain.to_vec();
    assert_eq!(k.encrypt_block(&mut block), Ok(()));
    assert_eq!(block, cipher);
    assert_eq!(k.decrypt_block(&mut block), Ok(()));
    assert_eq!(block, plain);

    assert_eq!(k.card_challenge(cipher), Ok(plain.to_vec()));
    assert_eq!(k.check_challenge(plain, cipher), Ok(()));
    assert_eq!(k.check_challenge(cipher, plain), Err(Error::AuthenticationError));
    assert_eq!(k.check_challenge(plain, &cipher[1..]), Err(Error::AuthenticationError));
    assert_eq!(k.check_challenge(plain, &[]), Err(Error::AuthenticationError));
    let mut off = cipher.to_vec();
    off[0] ^= 1;
    assert_eq!(k.check_challenge(plain, &off), Err(Error::AuthenticationError));

    for len in [0, 1, plain.len() - 1, plain.len() + 1, 24] {
        let mut short = counting(len);
        assert_eq!(k.encrypt_block(&mut short), Err(Error::SizeError));
        assert_eq!(short, counting(len));
        assert_eq!(k.decrypt_block(&mut short), Err(Error::SizeError));
        assert_eq!(short, counting(len));
        assert_eq!(k.card_challenge(&short), Err(Error::SizeError));
        assert_eq!(k.check_challenge(&short, cipher), Err(Error::SizeError));
    }
}

const AES_PLAIN: [u8; 16] = [
    0x00, 0x11, 0x22, 0x33, 0x44, 0x55, 0x66, 0x77, 0x88, 0x99, 0xaa, 0xbb, 0xcc, 0xdd, 0xee, 0xff,
];

#[test]
fn tdes_known_answer() {
    check_cipher(
        MgmAlgorithmId::ThreeDes,
        &[
            0x01, 0x23, 0x45, 0x67, 0x89, 0xab, 0xcd, 0xef, 0x23, 0x45, 0x67, 0x89, 0xab, 0xcd,
            0xef, 0x01, 0x45, 0x67, 0x89, 0xab, 0xcd, 0xef, 0x01, 0x23,
        ],
        &[0x54, 0x68, 0x65, 0x20, 0x71, 0x75, 0x66, 0x63],
        &[0xa8, 0x26, 0xfd, 0x8c, 0xe5, 0x3b, 0x85, 0x5f],
    );
}

#[test]
fn aes128_known_answer() {
    check_cipher(
        MgmAlgorithmId::Aes128,
        &counting(16),
        &AES_PLAIN,
        &[
            0x69, 0xc4, 0xe0, 0xd8, 0x6a, 0x7b, 0x04, 0x30, 0xd8, 0xcd, 0xb7, 0x80, 0x70, 0xb4,
            0xc5, 0x5a,
        ],
    );
}

#[test]
fn aes192_known_answer() {
    check_cipher(
        MgmAlgorithmId::Aes192,
        &counting(24),
        &AES_PLAIN,
        &[
            0xdd, 0xa9, 0x7c, 0xa4, 0x86, 0x4c, 0xdf, 0xe0, 0x6e, 0xaf, 0x70, 0xa0, 0xec, 0x0d,
            0x71, 0x91,
        ],
    );
}

#[test]
fn aes256_known_answer() {
    check_cipher(
        MgmAlgorithmId::Aes256,
        &counting(32),
        &AES_PLAIN,
        &[
            0x8e, 0xa2, 0xb7, 0xca, 0x51, 0x67, 0x45, 0xbf, 0xea, 0xfc, 0x49, 0x90, 0x4b, 0x49,
            0x60, 0x89,
        ],
    );
}

#[test]
fn responses_are_compared_whole() {
    assert_eq!(check_response(&[], &[]), Ok(()));
    assert_eq!(check_response(&[1, 2, 3], &[1, 2, 3]), Ok(()));
    assert_eq!(check_response(&[1, 2, 3], &[1, 2, 4]), Err(Error::AuthenticationError));
    assert_eq!(check_response(&[1, 2, 3], &[1, 2]), Err(Error::AuthenticationError));
    assert_eq!(check_response(&[1, 2], &[1, 2, 3]), Err(Error::AuthenticationError));
}
