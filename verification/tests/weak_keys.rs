use mgm::key::DEFAULT_MGM_KEY;
use mgm::weak::{is_weak_key, WEAK_DES_KEYS};

fn with_part(part: usize, des: &[u8; 8]) -> [u8; 24] {
    let mut key = DEFAULT_MGM_KEY;
    key[8 * part..8 * part + 8].copy_from_slice(des);
    key
}

#[test]
fn default_key_is_not_weak() {
    assert!(!is_weak_key(&DEFAULT_MGM_KEY));
}

#[test]
fn every_part_counts() {
    for des in &WEAK_DES_KEYS {
        for part in 0..3 {
            assert!(is_weak_key(&with_part(part, des)));
        }
    }
}

#[test]
fn parity_bits_do_not_matter() {
    for des in &WEAK_DES_KEYS {
        for part in 0..3 {
            for byte in 0..8 {
                let mut key = with_part(part, des);
                key[8 * part + byte] ^= 1;
                assert!(is_weak_key(&key));
            }
        }
    }
    assert!(is_weak_key(&[0x00; 24]));
    assert!(is_weak_key(&[0xFF; 24]));
}

#[test]
fn other_bits_matter() {
    for des in &WEAK_DES_KEYS {
        for part in 0..3 {
            for bit in 1..8 {
                let mut key = with_part(part, des);
                key[8 * part + 3] ^= 1 << bit;
                assert!(!is_weak_key(&key));
            }
        }
    }
}

#[test]
fn weak_key_across_parts_is_not_weak() {
    let mut key = DEFAULT_MGM_KEY;
    key[4..12].copy_from_slice(&[0x1F; 8]);
    assert!(!is_weak_key(&key));
}
