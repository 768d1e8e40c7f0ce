//! Fixed-width byte encoding of identifier values.
//!
//! The event wire format writes a 128-bit identifier as 16 bytes, most
//! significant first. Encoding and decoding are exact inverses:
//! `lemma_bytes16_injective` says the byte form determines the value.

use vstd::prelude::*;

verus! {

/// The `i`-th of the 16 bytes of `x`, most significant first.
pub open spec fn id_byte(x: u128, i: int) -> u8 {
    (x >> ((8 * (15 - i)) as u128)) as u8
}

/// The 16-byte, most-significant-first form of `x`.
pub open spec fn spec_bytes16(x: u128) -> Seq<u8> {
    Seq::new(16, |i: int| id_byte(x, i))
}

/// The `k`-th of the low `m` bytes of a partially accumulated value.
pub open spec fn read_byte(x: u128, m: int, k: int) -> u128 {
    (x >> ((8 * (m - 1 - k)) as u128)) & 0xff
}

/// Shifting one more byte into an accumulator keeps the bytes already there
/// and appends the new one.
proof fn lemma_decode_step(acc: u128, v: u128, count: int)
    requires
        0 <= count < 16,
        v < 256,
    ensures
        forall|k: int|
            0 <= k < count ==> #[trigger] read_byte((acc << 8) | v, count + 1, k) == read_byte(
                acc,
                count,
                k,
            ),
        read_byte((acc << 8) | v, count + 1, count) == v,
{
    assert(((acc << 8) | v) >> 0 == ((acc << 8) | v) && ((acc << 8) | v) & 0xff == v)
        by (bit_vector)
        requires
            v < 256,
    ;
    assert forall|k: int|
        0 <= k < count implies #[trigger] read_byte((acc << 8) | v, count + 1, k) == read_byte(
        acc,
        count,
        k,
    ) by {
        let s = (8 * (count - k)) as u128;
        assert((((acc << 8) | v) >> s) & 0xff == (acc >> ((s - 8) as u128)) & 0xff)
            by (bit_vector)
            requires
                v < 256,
                8 <= s <= 120,
        ;
        assert((8 * (count + 1 - 1 - k)) as u128 == s);
        assert((8 * (count - 1 - k)) as u128 == (s - 8) as u128);
    }
}

/// The first `m` bytes determine the top `8 * m` bits.
proof fn lemma_byte_prefix_eq(x: u128, y: u128, m: int)
    requires
        1 <= m <= 16,
        forall|k: int| 0 <= k < m ==> id_byte(x, k) == id_byte(y, k),
    ensures
        x >> ((8 * (16 - m)) as u128) == y >> ((8 * (16 - m)) as u128),
    decreases m,
{
    if m == 1 {
        assert(id_byte(x, 0) == id_byte(y, 0));
        assert((x >> 120) as u8 == (y >> 120) as u8 ==> x >> 120 == y >> 120) by (bit_vector);
    } else {
        lemma_byte_prefix_eq(x, y, m - 1);
        let s = (8 * (16 - m)) as u128;
        assert(id_byte(x, m - 1) == id_byte(y, m - 1));
        assert((8 * (15 - (m - 1))) as u128 == s);
        assert((8 * (16 - (m - 1))) as u128 == s + 8);
        assert((x >> (s + 8) == y >> (s + 8) && (x >> s) as u8 == (y >> s) as u8) ==> x >> s == y
            >> s)
            by (bit_vector)
            requires
                s <= 112,
        ;
    }
}

/// The byte form determines the value.
pub proof fn lemma_bytes16_injective(x: u128, y: u128)
    requires
        spec_bytes16(x) == spec_bytes16(y),
    ensures
        x == y,
{
    assert forall|k: int| 0 <= k < 16 implies id_byte(x, k) == id_byte(y, k) by {
        assert(spec_bytes16(x)[k] == spec_bytes16(y)[k]);
        assert(spec_bytes16(x)[k] == id_byte(x, k));
        assert(spec_bytes16(y)[k] == id_byte(y, k));
    }
    lemma_byte_prefix_eq(x, y, 16);
    assert(x >> 0 == x) by (bit_vector);
    assert(y >> 0 == y) by (bit_vector);
}

/// Appends the 16-byte form of `x` to `out`.
pub fn push_bytes16(out: &mut Vec<u8>, x: u128)
    ensures
        final(out)@ == old(out)@ + spec_bytes16(x),
{
    let mut i: usize = 0;
    while i < 16
        invariant
            i <= 16,
            out@.len() == old(out)@.len() + i,
            forall|q: int| 0 <= q < old(out)@.len() ==> #[trigger] out@[q] == old(out)@[q],
            forall|k: int|
                0 <= k < i ==> #[trigger] out@[old(out)@.len() + k] == id_byte(x, k),
        decreases 16 - i,
    {
        let sh: u128 = (8 * (15 - i)) as u128;
        assert((x >> sh) & 0xff < 256) by (bit_vector);
        let b: u8 = ((x >> sh) & 0xff) as u8;
        assert(b == id_byte(x, i as int)) by {
            assert(((x >> sh) & 0xff) as u8 == (x >> sh) as u8) by (bit_vector);
        }
        out.push(b);
        i += 1;
    }
    assert forall|q: int| 0 <= q < out@.len() implies out@[q] == (old(out)@ + spec_bytes16(
        x,
    ))[q] by {
        if q >= old(out)@.len() {
            let k = q - old(out)@.len();
            assert(out@[old(out)@.len() + k] == id_byte(x, k));
        }
    }
    assert(out@ =~= old(out)@ + spec_bytes16(x));
}

/// Reads 16 bytes, most significant first, starting at `at`, back into a value.
pub fn read_bytes16(b: &[u8], at: usize) -> (r: u128)
    requires
        at + 16 <= b@.len(),
    ensures
        spec_bytes16(r) =~= b@.subrange(at as int, at + 16),
        forall|x: u128| b@.subrange(at as int, at + 16) == spec_bytes16(x) ==> r == x,
{
    let blen = b.len();
    let mut acc: u128 = 0;
    let mut i: usize = 0;
    while i < 16
        invariant
            i <= 16,
            blen == b@.len(),
            at + 16 <= b@.len(),
            forall|k: int|
                0 <= k < i ==> #[trigger] read_byte(acc, i as int, k) == b@[at + k],
        decreases 16 - i,
    {
        let v = b[at + i];
        proof {
            lemma_decode_step(acc, v as u128, i as int);
        }
        acc = (acc << 8) | (v as u128);
        i += 1;
    }
    proof {
        assert forall|k: int| 0 <= k < 16 implies spec_bytes16(acc)[k] == b@.subrange(
            at as int,
            at + 16,
        )[k] by {
            assert(read_byte(acc, 16, k) == b@[at + k]);
            assert(id_byte(acc, k) as u128 == read_byte(acc, 16, k)) by {
                let s = (8 * (15 - k)) as u128;
                assert((acc >> s) as u8 as u128 == (acc >> s) & 0xff) by (bit_vector);
            }
        }
        assert(spec_bytes16(acc) =~= b@.subrange(at as int, at + 16));
        assert forall|x: u128| b@.subrange(at as int, at + 16) == spec_bytes16(x) implies acc
            == x by {
            lemma_bytes16_injective(acc, x);
        }
    }
    acc
}

} // verus!
