//! The generator-side core: deterministic per-user content.
//!
//! A generator program derives a reproducible seed by hashing the user
//! identifier, feeds the digest into a deterministic pseudo-random number
//! generator, builds its content from the drawn values, and writes
//! `<input>\0<answer>` to its standard output. Determinism is load-bearing:
//! nothing is persisted, so repeated invocation for the same (quest, user)
//! must reproduce identical bytes. The seed derivation, the content built
//! from drawn values, and the output framing are all functions of their
//! inputs; the drawing itself — the only stateful part — happens outside
//! the core and hands the drawn values in.

use vstd::prelude::*;

use sha2::Digest;
use vstd::string::StrSliceExecFns;
use vstd::string::StringExecFns;
use vstd::utf8::encode_utf8;

use crate::codec::{push_bytes16, spec_bytes16};
use crate::context::{well_formed_generator_output, QuestContext};
use crate::fmtnum::{spec_decimal, u64_to_decimal};
use crate::ids::UserId;

verus! {

/// The digest of `data`.
pub uninterp spec fn sha256_of(data: Seq<u8>) -> Seq<u8>;

/// Relies on sha2::Sha256 (through the Digest trait): a 32-byte digest that
/// depends on the input bytes alone.
#[verifier::external_body]
fn sha256(data: &[u8]) -> (r: Vec<u8>)
    ensures
        r@ == sha256_of(data@),
        r@.len() == 32,
{
    sha2::Sha256::digest(data).to_vec()
}

/// The reproducible generator seed for one user: the digest of the
/// identifier's 16-byte form.
pub fn generator_seed(user: &UserId) -> (r: Vec<u8>)
    ensures
        r@ == sha256_of(spec_bytes16(user@)),
        r@.len() == 32,
{
    let mut id_bytes: Vec<u8> = Vec::new();
    push_bytes16(&mut id_bytes, user.bits());
    proof {
        assert(id_bytes@ =~= spec_bytes16(user@));
    }
    sha256(id_bytes.as_slice())
}

/// Determinism: the seed is a function of the user identifier alone, so two
/// independent generator invocations for the same user start from identical
/// seeds; the content builders below are likewise functions of their
/// arguments, so repeated generation yields identical `(input, answer)`.
pub proof fn lemma_generation_deterministic(u1: UserId, u2: UserId)
    requires
        u1@ == u2@,
    ensures
        sha256_of(spec_bytes16(u1@)) == sha256_of(spec_bytes16(u2@)),
{
}

/// The absolute difference of two drawn values.
pub open spec fn spec_abs_diff(a: u32, b: u32) -> int {
    if a >= b {
        a - b
    } else {
        b - a
    }
}

/// A packet is unstable when two consecutive values differ by more than the
/// threshold.
pub open spec fn spec_unstable(p: Seq<u32>, t: u32) -> bool {
    exists|i: int| 1 <= i < p.len() && spec_abs_diff(#[trigger] p[i], p[i - 1]) > t
}

/// How many of the packets are unstable.
pub open spec fn spec_unstable_count(ps: Seq<Seq<u32>>, t: u32) -> int
    decreases ps.len(),
{
    if ps.len() == 0 {
        0int
    } else {
        spec_unstable_count(ps.drop_last(), t) + if spec_unstable(ps.last(), t) {
            1int
        } else {
            0int
        }
    }
}

/// At most every packet is unstable.
proof fn lemma_unstable_count_bounds(ps: Seq<Seq<u32>>, t: u32)
    ensures
        0 <= spec_unstable_count(ps, t) <= ps.len(),
    decreases ps.len(),
{
    if ps.len() > 0 {
        lemma_unstable_count_bounds(ps.drop_last(), t);
    }
}

/// A packet's values, in decimal, joined by single spaces.
pub open spec fn spec_joined(p: Seq<u32>) -> Seq<char>
    decreases p.len(),
{
    if p.len() == 0 {
        Seq::empty()
    } else if p.len() == 1 {
        spec_decimal(p[0] as nat)
    } else {
        spec_joined(p.drop_last()) + " "@ + spec_decimal(p.last() as nat)
    }
}

/// The packet lines, each ended by a newline.
pub open spec fn spec_packet_lines(ps: Seq<Seq<u32>>) -> Seq<char>
    decreases ps.len(),
{
    if ps.len() == 0 {
        Seq::empty()
    } else {
        spec_packet_lines(ps.drop_last()) + spec_joined(ps.last()) + "\n"@
    }
}

/// The full quest input: the threshold line, then one line per packet.
pub open spec fn spec_stability_input(t: u32, ps: Seq<Seq<u32>>) -> Seq<char> {
    spec_decimal(t as nat) + "\n"@ + spec_packet_lines(ps)
}

/// One packet's line.
fn joined_line(p: &Vec<u32>) -> (r: String)
    ensures
        r@ == spec_joined(p@),
{
    let mut s = String::new();
    let n = p.len();
    let mut i: usize = 0;
    proof {
        assert(p@.subrange(0, 0) =~= Seq::<u32>::empty());
    }
    while i < n
        invariant
            i <= n,
            n == p@.len(),
            s@ == spec_joined(p@.subrange(0, i as int)),
        decreases n - i,
    {
        if i > 0 {
            s.append(" ");
        }
        let d = u64_to_decimal(p[i] as u64);
        s.append(d.as_str());
        proof {
            assert(p@.subrange(0, i + 1).drop_last() =~= p@.subrange(0, i as int));
            assert(p@.subrange(0, i + 1).last() == p@[i as int]);
            if i == 0 {
                assert(s@ =~= spec_joined(p@.subrange(0, 1)));
            } else {
                assert(s@ =~= spec_joined(p@.subrange(0, i + 1)));
            }
        }
        i += 1;
    }
    proof {
        assert(p@.subrange(0, n as int) =~= p@);
    }
    s
}

/// Whether a packet is unstable under the threshold.
fn packet_unstable(p: &Vec<u32>, t: u32) -> (r: bool)
    ensures
        r == spec_unstable(p@, t),
{
    let n = p.len();
    if n == 0 {
        return false;
    }
    let mut i: usize = 1;
    while i < n
        invariant
            1 <= i <= n,
            n == p@.len(),
            forall|j: int| 1 <= j < i ==> !(spec_abs_diff(#[trigger] p@[j], p@[j - 1]) > t),
        decreases n - i,
    {
        let a = p[i];
        let b = p[i - 1];
        let diff: u32 = if a >= b {
            a - b
        } else {
            b - a
        };
        if diff > t {
            assert(spec_abs_diff(p@[i as int], p@[i - 1]) > t);
            return true;
        }
        i += 1;
    }
    false
}

/// Builds the content of the packet-stability quest from the drawn values:
/// the input lists the threshold and the packets, the answer is the number
/// of unstable packets. A pure function of its arguments, as determinism
/// demands.
pub fn stability_context(threshold: u32, packets: &Vec<Vec<u32>>) -> (r: QuestContext)
    ensures
        r@.0 == spec_stability_input(threshold, packets.deep_view()),
        r@.1 == spec_decimal(spec_unstable_count(packets.deep_view(), threshold) as nat),
{
    let ghost ps = packets.deep_view();
    let mut input = u64_to_decimal(threshold as u64);
    input.append("\n");
    let n = packets.len();
    let mut unstable_count: u64 = 0;
    let mut i: usize = 0;
    proof {
        assert(ps.subrange(0, 0) =~= Seq::<Seq<u32>>::empty());
        assert(input@ =~= spec_decimal(threshold as nat) + "\n"@ + spec_packet_lines(
            ps.subrange(0, 0),
        ));
    }
    while i < n
        invariant
            i <= n,
            n == packets@.len(),
            ps == packets.deep_view(),
            ps.len() == n,
            input@ == spec_decimal(threshold as nat) + "\n"@ + spec_packet_lines(
                ps.subrange(0, i as int),
            ),
            unstable_count as int == spec_unstable_count(ps.subrange(0, i as int), threshold),
            unstable_count <= i,
        decreases n - i,
    {
        proof {
            assert(ps[i as int] == packets@[i as int].deep_view());
            assert(packets@[i as int].deep_view() =~= packets@[i as int]@);
            assert(ps.subrange(0, i + 1).drop_last() =~= ps.subrange(0, i as int));
            assert(ps.subrange(0, i + 1).last() == ps[i as int]);
        }
        let line = joined_line(&packets[i]);
        input.append(line.as_str());
        input.append("\n");
        proof {
            assert(input@ =~= spec_decimal(threshold as nat) + "\n"@ + spec_packet_lines(
                ps.subrange(0, i + 1),
            ));
        }
        if packet_unstable(&packets[i], threshold) {
            unstable_count += 1;
        }
        i += 1;
    }
    proof {
        assert(ps.subrange(0, n as int) =~= ps);
        lemma_unstable_count_bounds(ps, threshold);
    }
    let answer = u64_to_decimal(unstable_count);
    QuestContext::new(input, answer)
}

/// Frames generated content as the generator program must emit it:
/// `<input>\0<answer>`, a single NUL separator, no trailing NUL.
pub fn format_generator_output(ctx: &QuestContext) -> (r: Vec<u8>)
    ensures
        r@ == encode_utf8(ctx@.0) + seq![0u8] + encode_utf8(ctx@.1),
{
    let mut out = ctx.input().as_bytes_vec();
    out.push(0);
    let answer_bytes = ctx.answer().as_bytes_vec();
    out.extend_from_slice(answer_bytes.as_slice());
    proof {
        assert(out@ =~= encode_utf8(ctx@.0) + seq![0u8] + encode_utf8(ctx@.1));
    }
    out
}

/// UTF-8 encoding is injective: equal byte forms mean equal texts.
pub proof fn lemma_encode_utf8_injective(a: Seq<char>, b: Seq<char>)
    requires
        encode_utf8(a) == encode_utf8(b),
    ensures
        a == b,
{
    vstd::utf8::encode_utf8_decode_utf8(a);
    vstd::utf8::encode_utf8_decode_utf8(b);
    assert(vstd::utf8::decode_utf8(encode_utf8(a)) == vstd::utf8::decode_utf8(encode_utf8(b)));
}

/// The generator protocol round trip: framed output whose input half holds
/// no NUL byte is well formed, its first NUL is the separator, and the two
/// halves around it are exactly the framed texts — so the service-side
/// parser recovers the generator-side `(input, answer)`.
pub proof fn lemma_protocol_roundtrip(input: Seq<char>, answer: Seq<char>)
    requires
        forall|i: int| 0 <= i < encode_utf8(input).len() ==> #[trigger] encode_utf8(input)[i] != 0,
    ensures
        ({
            let b = encode_utf8(input) + seq![0u8] + encode_utf8(answer);
            let i = encode_utf8(input).len() as int;
            &&& well_formed_generator_output(b)
            &&& 0 <= i < b.len() && b[i] == 0
            &&& (forall|j: int| 0 <= j < i ==> b[j] != 0)
            &&& b.subrange(0, i) == encode_utf8(input)
            &&& b.subrange(i + 1, b.len() as int) == encode_utf8(answer)
        }),
{
    broadcast use vstd::utf8::encode_utf8_valid_utf8;

    let b = encode_utf8(input) + seq![0u8] + encode_utf8(answer);
    let i = encode_utf8(input).len() as int;
    assert(b.subrange(0, i) =~= encode_utf8(input));
    assert(b.subrange(i + 1, b.len() as int) =~= encode_utf8(answer));
    assert(b[i] == 0);
    assert(well_formed_generator_output(b)) by {
        assert(0 <= i < b.len() && b[i] == 0 && (forall|j: int| 0 <= j < i ==> b[j] != 0)
            && vstd::utf8::valid_utf8(b.subrange(0, i)) && vstd::utf8::valid_utf8(
            b.subrange(i + 1, b.len() as int),
        ));
    }
}

} // verus!
