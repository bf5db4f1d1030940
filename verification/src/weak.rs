//! Weak and semi-weak DES keys.

use crate::primitives::wipe;
use vstd::prelude::*;

verus! {

/// Size of a DES key.
pub const DES_LEN_DES: usize = 8;

/// Size of a 3DES key.
pub const DES_LEN_3DES: usize = 24;

/// Number of entries of `WEAK_DES_KEYS`.
pub const WEAK_DES_KEY_COUNT: usize = 16;

/// Weak and semi weak DES keys as taken from:
/// %A D.W. Davies
/// %A W.L. Price
/// %T Security for Computer Networks
/// %I John Wiley & Sons
/// %D 1984
pub const WEAK_DES_KEYS: [[u8; 8]; 16] = [
    // weak keys
    [0x01, 0x01, 0x01, 0x01, 0x01, 0x01, 0x01, 0x01],
    [0xFE, 0xFE, 0xFE, 0xFE, 0xFE, 0xFE, 0xFE, 0xFE],
    [0x1F, 0x1F, 0x1F, 0x1F, 0x0E, 0x0E, 0x0E, 0x0E],
    [0xE0, 0xE0, 0xE0, 0xE0, 0xF1, 0xF1, 0xF1, 0xF1],
    // semi-weak keys
    [0x01, 0xFE, 0x01, 0xFE, 0x01, 0xFE, 0x01, 0xFE],
    [0xFE, 0x01, 0xFE, 0x01, 0xFE, 0x01, 0xFE, 0x01],
    [0x1F, 0xE0, 0x1F, 0xE0, 0x0E, 0xF1, 0x0E, 0xF1],
    [0xE0, 0x1F, 0xE0, 0x1F, 0xF1, 0x0E, 0xF1, 0x0E],
    [0x01, 0xE0, 0x01, 0xE0, 0x01, 0xF1, 0x01, 0xF1],
    [0xE0, 0x01, 0xE0, 0x01, 0xF1, 0x01, 0xF1, 0x01],
    [0x1F, 0xFE, 0x1F, 0xFE, 0x0E, 0xFE, 0x0E, 0xFE],
    [0xFE, 0x1F, 0xFE, 0x1F, 0xFE, 0x0E, 0xFE, 0x0E],
    [0x01, 0x1F, 0x01, 0x1F, 0x01, 0x0E, 0x01, 0x0E],
    [0x1F, 0x01, 0x1F, 0x01, 0x0E, 0x01, 0x0E, 0x01],
    [0xE0, 0xFE, 0xE0, 0xFE, 0xF1, 0xFE, 0xF1, 0xFE],
    [0xFE, 0xE0, 0xFE, 0xE0, 0xFE, 0xF1, 0xFE, 0xF1],
];

/// The number of one bits of a byte.
pub open spec fn ones(b: u8) -> int {
    (b & 1) + ((b >> 1) & 1) + ((b >> 2) & 1) + ((b >> 3) & 1) + ((b >> 4) & 1) + ((b >> 5) & 1) + (
    (b >> 6) & 1) + ((b >> 7) & 1)
}

/// The byte with its low bit, the parity bit of a DES key byte, set so that the number of one
/// bits is odd.
pub open spec fn with_odd_parity(b: u8) -> u8 {
    if ones(b) % 2 == 1 {
        b
    } else {
        b ^ 1
    }
}

/// `with_odd_parity` on each byte.
pub open spec fn all_with_odd_parity(key: Seq<u8>) -> Seq<u8> {
    key.map_values(|b: u8| with_odd_parity(b))
}

/// A DES key is weak when it stands in `WEAK_DES_KEYS` once its parity bits are set right.
pub open spec fn is_weak_des(key: Seq<u8>) -> bool {
    exists|w: int|
        0 <= w < WEAK_DES_KEY_COUNT && #[trigger] WEAK_DES_KEYS@[w]@ == all_with_odd_parity(key)
}

/// The DES key number `k` of a 3DES key.
pub open spec fn des_part(key: Seq<u8>, k: int) -> Seq<u8> {
    key.subrange(DES_LEN_DES * k, DES_LEN_DES * (k + 1))
}

/// A 3DES key is weak when one of its three DES keys is.
pub open spec fn is_weak_tdes(key: Seq<u8>) -> bool {
    ||| is_weak_des(des_part(key, 0))
    ||| is_weak_des(des_part(key, 1))
    ||| is_weak_des(des_part(key, 2))
}

/// Sets the low bit of a byte so that the number of one bits is odd.
fn odd_parity(b: u8) -> (r: u8)
    ensures
        r == with_odd_parity(b),
{
    // count number of set bits in byte, excluding the low-order bit - SWAR method
    let c0: u8 = b & 0xFE;
    assert((c0 & 0x55) + ((c0 >> 1) & 0x55) < 256) by (bit_vector);
    let c1: u8 = (c0 & 0x55) + ((c0 >> 1) & 0x55);
    assert((c1 & 0x33) + ((c1 >> 2) & 0x33) < 256) by (bit_vector);
    let c2: u8 = (c1 & 0x33) + ((c1 >> 2) & 0x33);
    assert((c2 & 0x0F) + ((c2 >> 4) & 0x0F) < 256) by (bit_vector);
    let c3: u8 = (c2 & 0x0F) + ((c2 >> 4) & 0x0F);

    // if count is even, set low key bit to 1, otherwise 0
    let low: u8 = if c3 & 0x01 != 0x01 { 1 } else { 0 };
    assert((b & 0xFE) | low == with_odd_parity(b)) by (bit_vector)
        requires
            c0 == b & 0xFE,
            c1 == (c0 & 0x55) + ((c0 >> 1) & 0x55),
            c2 == (c1 & 0x33) + ((c1 >> 2) & 0x33),
            c3 == (c2 & 0x0F) + ((c2 >> 4) & 0x0F),
            low == if c3 & 0x01 != 0x01 {
                1u8
            } else {
                0u8
            },
    ;
    (b & 0xFE) | low
}

/// Does part `k` of `key` hold the DES key `weak`?
fn part_is(key: &[u8; 24], k: usize, weak: &[u8; 8]) -> (r: bool)
    requires
        k < 3,
    ensures
        r == (weak@ == des_part(key@, k as int)),
{
    let mut i: usize = 0;
    while i < DES_LEN_DES
        invariant
            k < 3,
            i <= 8,
            forall|j: int| 0 <= j < i ==> weak@[j] == des_part(key@, k as int)[j],
        decreases 8 - i,
    {
        assert(des_part(key@, k as int)[i as int] == key@[8 * k + i]);
        if weak[i] != key[DES_LEN_DES * k + i] {
            return false;
        }
        i = i + 1;
    }
    assert(weak@ =~= des_part(key@, k as int));
    true
}

/// Is this 3DES key weak?
///
/// This check is performed automatically when the key is instantiated to
/// ensure no such keys are used.
///
/// The parity bits of the key take no part in the answer.
pub fn is_weak_key(key: &[u8; 24]) -> (weak: bool)
    ensures
        weak == is_weak_tdes(key@),
{
    // set odd parity of key
    let mut tmp: [u8; 24] = [0u8; 24];
    let mut i: usize = 0;
    while i < DES_LEN_3DES
        invariant
            i <= 24,
            forall|j: int| 0 <= j < i ==> tmp@[j] == with_odd_parity(key@[j]),
        decreases 24 - i,
    {
        tmp[i] = odd_parity(key[i]);
        i = i + 1;
    }
    let ghost fixed = tmp@;
    assert forall|k: int| 0 <= k < 3 implies #[trigger] des_part(fixed, k) == all_with_odd_parity(
        des_part(key@, k),
    ) by {
        assert(des_part(fixed, k) =~= all_with_odd_parity(des_part(key@, k)));
    }

    // check odd parity key against table by DES key block
    let mut is_weak: bool = false;
    let mut w: usize = 0;
    while w < WEAK_DES_KEY_COUNT && !is_weak
        invariant
            w <= 16,
            is_weak ==> is_weak_tdes(key@),
            forall|k: int|
                0 <= k < 3 ==> #[trigger] des_part(tmp@, k) == all_with_odd_parity(
                    des_part(key@, k),
                ),
            !is_weak ==> forall|v: int, k: int|
                0 <= v < w && 0 <= k < 3 ==> #[trigger] WEAK_DES_KEYS@[v]@ != #[trigger] des_part(
                    tmp@,
                    k,
                ),
        decreases 16 - w,
    {
        let weak_key: [u8; 8] = WEAK_DES_KEYS[w];
        if part_is(&tmp, 0, &weak_key) || part_is(&tmp, 1, &weak_key) || part_is(
            &tmp,
            2,
            &weak_key,
        ) {
            is_weak = true;
        }
        w = w + 1;
    }
    proof {
        if !is_weak {
            assert(des_part(tmp@, 0) == all_with_odd_parity(des_part(key@, 0)));
            assert(des_part(tmp@, 1) == all_with_odd_parity(des_part(key@, 1)));
            assert(des_part(tmp@, 2) == all_with_odd_parity(des_part(key@, 2)));
        }
    }
    wipe(&mut tmp);
    is_weak
}

/// Setting the parity bit makes the number of one bits odd, and touches no other bit.
pub proof fn law_odd_parity(b: u8)
    ensures
        ones(with_odd_parity(b)) % 2 == 1,
        with_odd_parity(b) | 1 == b | 1,
{
    assert(ones(with_odd_parity(b)) % 2 == 1) by (bit_vector);
    assert(with_odd_parity(b) | 1 == b | 1) by (bit_vector);
}

/// Bytes that differ in the parity bit alone are the same with odd parity.
proof fn lemma_parity_bit_is_free(a: u8, b: u8)
    requires
        a | 1 == b | 1,
    ensures
        with_odd_parity(a) == with_odd_parity(b),
{
    assert(with_odd_parity(a) == with_odd_parity(b)) by (bit_vector)
        requires
            a | 1 == b | 1,
    ;
}

/// The parity bits of a 3DES key have no say in whether it is weak.
pub proof fn law_parity_bits_do_not_matter(key: Seq<u8>, other: Seq<u8>)
    requires
        key.len() == DES_LEN_3DES,
        other.len() == DES_LEN_3DES,
        forall|i: int| 0 <= i < DES_LEN_3DES ==> #[trigger] key[i] | 1 == other[i] | 1,
    ensures
        is_weak_tdes(key) == is_weak_tdes(other),
{
    assert forall|k: int| 0 <= k < 3 implies all_with_odd_parity(#[trigger] des_part(key, k))
        == all_with_odd_parity(des_part(other, k)) by {
        let a = all_with_odd_parity(des_part(key, k));
        let b = all_with_odd_parity(des_part(other, k));
        assert forall|i: int| 0 <= i < DES_LEN_DES implies a[i] == b[i] by {
            assert(key[DES_LEN_DES * k + i] | 1 == other[DES_LEN_DES * k + i] | 1);
            lemma_parity_bit_is_free(key[DES_LEN_DES * k + i], other[DES_LEN_DES * k + i]);
        }
        assert(a =~= b);
    }
    assert(all_with_odd_parity(des_part(key, 0)) == all_with_odd_parity(des_part(other, 0)));
    assert(all_with_odd_parity(des_part(key, 1)) == all_with_odd_parity(des_part(other, 1)));
    assert(all_with_odd_parity(des_part(key, 2)) == all_with_odd_parity(des_part(other, 2)));
}

/// The parity bit of each byte in `WEAK_DES_KEYS` is set right.
proof fn lemma_table_has_odd_parity(w: int, i: int)
    requires
        0 <= w < WEAK_DES_KEY_COUNT,
        0 <= i < DES_LEN_DES,
    ensures
        with_odd_parity(WEAK_DES_KEYS@[w]@[i]) == WEAK_DES_KEYS@[w]@[i],
{
    let b = WEAK_DES_KEYS@[w]@[i];
    assert(b == 0x01 || b == 0xFE || b == 0x1F || b == 0x0E || b == 0xE0 || b == 0xF1);
    assert(with_odd_parity(b) == b) by (bit_vector)
        requires
            b == 0x01 || b == 0xFE || b == 0x1F || b == 0x0E || b == 0xE0 || b == 0xF1,
    ;
}

/// The parity bits of the keys in `WEAK_DES_KEYS` are set right, so each of these keys is weak.
pub proof fn law_table_holds_weak_keys(w: int)
    requires
        0 <= w < WEAK_DES_KEY_COUNT,
    ensures
        is_weak_des(WEAK_DES_KEYS@[w]@),
{
    let key = WEAK_DES_KEYS@[w]@;
    assert forall|i: int| 0 <= i < DES_LEN_DES implies with_odd_parity(#[trigger] key[i])
        == key[i] by {
        lemma_table_has_odd_parity(w, i);
    }
    assert(all_with_odd_parity(key) =~= key);
}

/// A 3DES key one of whose parts is weak with its parity bits set right is weak whatever the
/// other two parts are.
pub proof fn law_one_weak_part_is_enough(key: Seq<u8>, k: int, w: int)
    requires
        key.len() == DES_LEN_3DES,
        0 <= k < 3,
        0 <= w < WEAK_DES_KEY_COUNT,
        des_part(key, k) == WEAK_DES_KEYS@[w]@,
    ensures
        is_weak_tdes(key),
{
    law_table_holds_weak_keys(w);
}

/// A 3DES key one of whose three DES keys agrees with an entry of `WEAK_DES_KEYS` in all bits but
/// the parity bits is weak.
pub proof fn law_match_with_table_is_weak(key: Seq<u8>, k: int, w: int)
    requires
        key.len() == 24,
        0 <= k < 3,
        0 <= w < 16,
        forall|i: int| 0 <= i < 8 ==> #[trigger] key[8 * k + i] | 1 == WEAK_DES_KEYS@[w]@[i] | 1,
    ensures
        is_weak_tdes(key),
{
    let part = des_part(key, k);
    let entry = WEAK_DES_KEYS@[w]@;
    assert forall|i: int| 0 <= i < 8 implies #[trigger] all_with_odd_parity(part)[i]
        == entry[i] by {
        assert(key[8 * k + i] | 1 == entry[i] | 1);
        lemma_parity_bit_is_free(key[8 * k + i], entry[i]);
        lemma_table_has_odd_parity(w, i);
    }
    assert(all_with_odd_parity(part) =~= entry);
    assert(WEAK_DES_KEYS@[w]@ == all_with_odd_parity(part));
}

/// A weak 3DES key has a DES key that agrees with an entry of `WEAK_DES_KEYS` in all bits but the
/// parity bits. The result says which part of the key, and which entry.
pub proof fn law_weak_key_matches_table(key: Seq<u8>) -> (found: (int, int))
    requires
        key.len() == 24,
        is_weak_tdes(key),
    ensures
        0 <= found.0 < 3,
        0 <= found.1 < 16,
        forall|i: int|
            0 <= i < 8 ==> #[trigger] key[8 * found.0 + i] | 1 == WEAK_DES_KEYS@[found.1]@[i] | 1,
{
    let k: int = if is_weak_des(des_part(key, 0)) {
        0
    } else if is_weak_des(des_part(key, 1)) {
        1
    } else {
        2
    };
    let part = des_part(key, k);
    let w = choose|w: int|
        0 <= w < WEAK_DES_KEY_COUNT && #[trigger] WEAK_DES_KEYS@[w]@ == all_with_odd_parity(part);
    assert forall|i: int| 0 <= i < 8 implies #[trigger] key[8 * k + i] | 1
        == WEAK_DES_KEYS@[w]@[i] | 1 by {
        assert(part[i] == key[8 * k + i]);
        assert(all_with_odd_parity(part)[i] == with_odd_parity(part[i]));
        law_odd_parity(key[8 * k + i]);
    }
    (k, w)
}

/// The weak and semi-weak DES keys are those made of two bytes in turns, each one of `01`, `1F`,
/// `E0` and `FE`, in whose second half `0E` stands for `1F` and `F1` for `E0`.
pub proof fn law_table_holds_alternating_keys(w: int)
    requires
        0 <= w < 16,
    ensures
        ({
            let entry = WEAK_DES_KEYS@[w]@;
            forall|i: int|
                0 <= i < 2 ==> {
                    &&& #[trigger] entry[i] == 0x01 || entry[i] == 0x1F || entry[i] == 0xE0
                        || entry[i] == 0xFE
                    &&& entry[i + 2] == entry[i]
                    &&& entry[i + 4] == entry[i + 6]
                    &&& entry[i + 4] == if entry[i] == 0x1F {
                        0x0Eu8
                    } else if entry[i] == 0xE0 {
                        0xF1u8
                    } else {
                        entry[i]
                    }
                }
        }),
{
}

/// No entry of `WEAK_DES_KEYS` stands there twice. So every choice of the two bytes that its
/// entries are made of stands there.
pub proof fn law_table_entries_differ(v: int, w: int)
    requires
        0 <= v < 16,
        0 <= w < 16,
        v != w,
    ensures
        WEAK_DES_KEYS@[v]@[0] != WEAK_DES_KEYS@[w]@[0] || WEAK_DES_KEYS@[v]@[1]
            != WEAK_DES_KEYS@[w]@[1],
{
}

} // verus!
