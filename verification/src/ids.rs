//! Opaque 128-bit domain identifiers.
//!
//! Users and quests are identified by 128-bit values. An identifier is
//! displayed in a canonical text form — 32 lowercase hexadecimal digits in
//! groups of 8-4-4-4-12 separated by hyphens — and parsing rejects every
//! string that is not exactly the canonical form of some identifier. The
//! canonical form determines the identifier: `lemma_canonical_injective`.

use vstd::prelude::*;
use vstd::string::StringSliceAdditionalSpecFns;

verus! {

/// The lowercase hexadecimal digit for a value below 16.
pub open spec fn hex_digit_char(d: int) -> char {
    if d == 0 {
        '0'
    } else if d == 1 {
        '1'
    } else if d == 2 {
        '2'
    } else if d == 3 {
        '3'
    } else if d == 4 {
        '4'
    } else if d == 5 {
        '5'
    } else if d == 6 {
        '6'
    } else if d == 7 {
        '7'
    } else if d == 8 {
        '8'
    } else if d == 9 {
        '9'
    } else if d == 10 {
        'a'
    } else if d == 11 {
        'b'
    } else if d == 12 {
        'c'
    } else if d == 13 {
        'd'
    } else if d == 14 {
        'e'
    } else {
        'f'
    }
}

/// A lowercase hexadecimal digit.
pub open spec fn is_hex_digit_char(c: char) -> bool {
    ('0' <= c && c <= '9') || ('a' <= c && c <= 'f')
}

/// The numeric value of a lowercase hexadecimal digit.
pub open spec fn hex_char_value(c: char) -> int {
    if '0' <= c && c <= '9' {
        c as int - '0' as int
    } else {
        c as int - 'a' as int + 10
    }
}

/// The `k`-th of the 32 hexadecimal digits of `x`, most significant first.
pub open spec fn id_nibble(x: u128, k: int) -> u128 {
    (x >> ((4 * (31 - k)) as u128)) & 0xf
}

/// The canonical text places hyphens after digit groups of 8, 4, 4 and 4.
pub open spec fn is_hyphen_pos(p: int) -> bool {
    p == 8 || p == 13 || p == 18 || p == 23
}

/// Which of the 32 digits stands at text position `p`.
pub open spec fn nibble_pos(p: int) -> int {
    if p < 8 {
        p
    } else if p < 13 {
        p - 1
    } else if p < 18 {
        p - 2
    } else if p < 23 {
        p - 3
    } else {
        p - 4
    }
}

/// The text position of the `k`-th digit.
pub open spec fn text_pos(k: int) -> int {
    if k < 8 {
        k
    } else if k < 12 {
        k + 1
    } else if k < 16 {
        k + 2
    } else if k < 20 {
        k + 3
    } else {
        k + 4
    }
}

/// How many digit positions lie before text position `p`.
pub open spec fn nibbles_before(p: int) -> int {
    if p <= 8 {
        p
    } else if p <= 13 {
        p - 1
    } else if p <= 18 {
        p - 2
    } else if p <= 23 {
        p - 3
    } else {
        p - 4
    }
}

/// The `k`-th of the low `m` digits of a partially accumulated value.
pub open spec fn read_nibble(x: u128, m: int, k: int) -> u128 {
    (x >> ((4 * (m - 1 - k)) as u128)) & 0xf
}

/// The canonical 36-character text of an identifier value.
pub open spec fn spec_canonical_text(x: u128) -> Seq<char> {
    Seq::new(
        36,
        |p: int|
            if is_hyphen_pos(p) {
                '-'
            } else {
                hex_digit_char(id_nibble(x, nibble_pos(p)) as int)
            },
    )
}

/// Shape of a canonical identifier text: 36 characters, hyphens in their
/// places, lowercase hexadecimal digits everywhere else.
pub open spec fn is_canonical_text(t: Seq<char>) -> bool {
    &&& t.len() == 36
    &&& forall|p: int|
        0 <= p < 36 ==> if is_hyphen_pos(p) {
            #[trigger] t[p] == '-'
        } else {
            is_hex_digit_char(t[p])
        }
}

/// Every digit of an identifier value is below 16.
proof fn lemma_nibble_lt_16(x: u128, k: int)
    ensures
        id_nibble(x, k) < 16,
{
    let sh = (4 * (31 - k)) as u128;
    assert((x >> sh) & 0xf < 16) by (bit_vector);
}

/// A hexadecimal digit character is recovered from its value.
proof fn lemma_hex_char_roundtrip(c: char)
    requires
        is_hex_digit_char(c),
    ensures
        0 <= hex_char_value(c) < 16,
        hex_digit_char(hex_char_value(c)) == c,
{
}

/// Shifting one more digit into an accumulator keeps the digits already there
/// and appends the new one.
proof fn lemma_parse_step(acc: u128, v: u128, count: int)
    requires
        0 <= count < 32,
        v < 16,
    ensures
        forall|k: int|
            0 <= k < count ==> #[trigger] read_nibble((acc << 4) | v, count + 1, k) == read_nibble(
                acc,
                count,
                k,
            ),
        read_nibble((acc << 4) | v, count + 1, count) == v,
{
    assert(((acc << 4) | v) >> 0 == ((acc << 4) | v) && ((acc << 4) | v) & 0xf == v)
        by (bit_vector)
        requires
            v < 16,
    ;
    assert forall|k: int|
        0 <= k < count implies #[trigger] read_nibble((acc << 4) | v, count + 1, k) == read_nibble(
        acc,
        count,
        k,
    ) by {
        let s = (4 * (count - k)) as u128;
        assert((((acc << 4) | v) >> s) & 0xf == (acc >> ((s - 4) as u128)) & 0xf)
            by (bit_vector)
            requires
                v < 16,
                4 <= s <= 124,
        ;
        assert((4 * (count + 1 - 1 - k)) as u128 == s);
        assert((4 * (count - 1 - k)) as u128 == (s - 4) as u128);
    }
}

/// The first `m` digits determine the top `4 * m` bits.
proof fn lemma_prefix_eq(x: u128, y: u128, m: int)
    requires
        1 <= m <= 32,
        forall|k: int| 0 <= k < m ==> id_nibble(x, k) == id_nibble(y, k),
    ensures
        x >> ((4 * (32 - m)) as u128) == y >> ((4 * (32 - m)) as u128),
    decreases m,
{
    if m == 1 {
        assert(id_nibble(x, 0) == id_nibble(y, 0));
        assert((x >> 124) & 0xf == x >> 124) by (bit_vector);
        assert((y >> 124) & 0xf == y >> 124) by (bit_vector);
    } else {
        lemma_prefix_eq(x, y, m - 1);
        let s = (4 * (32 - m)) as u128;
        assert(id_nibble(x, m - 1) == id_nibble(y, m - 1));
        assert((4 * (31 - (m - 1))) as u128 == s);
        assert((4 * (32 - (m - 1))) as u128 == s + 4);
        assert((x >> (s + 4) == y >> (s + 4) && (x >> s) & 0xf == (y >> s) & 0xf) ==> x >> s == y
            >> s)
            by (bit_vector)
            requires
                s <= 120,
        ;
    }
}

/// The canonical text determines the identifier: distinct values render
/// distinctly, so display followed by parsing always recovers the value.
pub proof fn lemma_canonical_injective(x: u128, y: u128)
    requires
        spec_canonical_text(x) == spec_canonical_text(y),
    ensures
        x == y,
{
    assert forall|k: int| 0 <= k < 32 implies id_nibble(x, k) == id_nibble(y, k) by {
        let p = text_pos(k);
        assert(0 <= p < 36);
        assert(!is_hyphen_pos(p) && nibble_pos(p) == k);
        assert(spec_canonical_text(x)[p] == spec_canonical_text(y)[p]);
        assert(spec_canonical_text(x)[p] == hex_digit_char(id_nibble(x, k) as int));
        assert(spec_canonical_text(y)[p] == hex_digit_char(id_nibble(y, k) as int));
        lemma_nibble_lt_16(x, k);
        lemma_nibble_lt_16(y, k);
        assert(id_nibble(x, k) as int == id_nibble(y, k) as int);
    }
    lemma_prefix_eq(x, y, 32);
    assert(x >> 0 == x) by (bit_vector);
    assert(y >> 0 == y) by (bit_vector);
}

/// The single-character string for one hexadecimal digit.
pub(crate) fn hex_digit_str(d: u8) -> (s: &'static str)
    requires
        d < 16,
    ensures
        s@.len() == 1,
        s@[0] == hex_digit_char(d as int),
{
    proof {
        reveal_strlit("0");
        reveal_strlit("1");
        reveal_strlit("2");
        reveal_strlit("3");
        reveal_strlit("4");
        reveal_strlit("5");
        reveal_strlit("6");
        reveal_strlit("7");
        reveal_strlit("8");
        reveal_strlit("9");
        reveal_strlit("a");
        reveal_strlit("b");
        reveal_strlit("c");
        reveal_strlit("d");
        reveal_strlit("e");
        reveal_strlit("f");
    }
    match d {
        0 => "0",
        1 => "1",
        2 => "2",
        3 => "3",
        4 => "4",
        5 => "5",
        6 => "6",
        7 => "7",
        8 => "8",
        9 => "9",
        10 => "a",
        11 => "b",
        12 => "c",
        13 => "d",
        14 => "e",
        _ => "f",
    }
}

/// Renders an identifier value in canonical text form.
fn id_to_text(x: u128) -> (r: String)
    ensures
        r@ == spec_canonical_text(x),
{
    let mut r = String::new();
    let mut p: usize = 0;
    while p < 36
        invariant
            p <= 36,
            r@.len() == p,
            forall|q: int| 0 <= q < p ==> #[trigger] r@[q] == spec_canonical_text(x)[q],
        decreases 36 - p,
    {
        if p == 8 || p == 13 || p == 18 || p == 23 {
            proof {
                reveal_strlit("-");
            }
            r.append("-");
        } else {
            let k: usize = if p < 8 {
                p
            } else if p < 13 {
                p - 1
            } else if p < 18 {
                p - 2
            } else if p < 23 {
                p - 3
            } else {
                p - 4
            };
            let sh: u128 = (4 * (31 - k)) as u128;
            assert((x >> sh) & 0xf < 16) by (bit_vector);
            let d: u8 = ((x >> sh) & 0xf) as u8;
            assert(d as u128 == id_nibble(x, k as int));
            r.append(hex_digit_str(d));
        }
        p += 1;
    }
    assert(r@ =~= spec_canonical_text(x));
    r
}

/// The numeric value of one lowercase hexadecimal character, if it is one.
fn hex_char_value_of_byte(b: u8) -> (r: Option<u8>)
    ensures
        r is Some <==> is_hex_digit_char(b as char),
        r matches Some(v) ==> v < 16 && v as int == hex_char_value(b as char),
{
    if 48 <= b && b <= 57 {
        Some(b - 48)
    } else if 97 <= b && b <= 102 {
        Some(b - 87)
    } else {
        None
    }
}

/// Parses canonical identifier text; any other string yields `None`.
fn parse_id_text(s: &str) -> (r: Option<u128>)
    ensures
        r is Some <==> is_canonical_text(s@),
        r matches Some(v) ==> s@ == spec_canonical_text(v),
{
    broadcast use vstd::string::group_string_axioms;

    if !s.is_ascii() {
        assert(!is_canonical_text(s@)) by {
            if is_canonical_text(s@) {
                let i = choose|i: int|
                    0 <= i < s@.len() && !('\0' <= #[trigger] s@[i] <= '\u{7f}');
                assert(if is_hyphen_pos(i) {
                    s@[i] == '-'
                } else {
                    is_hex_digit_char(s@[i])
                });
            }
        }
        return None;
    }
    let n = s.as_bytes().len();
    assert(s.spec_bytes().len() == s@.len());
    if n != 36 {
        return None;
    }
    let mut acc: u128 = 0;
    let mut p: usize = 0;
    while p < 36
        invariant
            s.is_ascii(),
            s@.len() == 36,
            p <= 36,
            forall|q: int|
                0 <= q < p ==> if is_hyphen_pos(q) {
                    #[trigger] s@[q] == '-'
                } else {
                    is_hex_digit_char(s@[q])
                },
            forall|k: int|
                0 <= k < nibbles_before(p as int) ==> #[trigger] read_nibble(
                    acc,
                    nibbles_before(p as int),
                    k,
                ) as int == hex_char_value(s@[text_pos(k)]),
        decreases 36 - p,
    {
        let ghost count = nibbles_before(p as int);
        let b = s.get_ascii(p);
        assert(s@[p as int] as int == b as int);
        assert(s@[p as int] == b as char);
        if p == 8 || p == 13 || p == 18 || p == 23 {
            if b != 45 {
                assert(s@[p as int] != '-');
                return None;
            }
            assert(s@[p as int] == '-');
        } else {
            let v = match hex_char_value_of_byte(b) {
                Some(v) => v,
                None => {
                    assert(!is_hex_digit_char(s@[p as int]));
                    return None;
                },
            };
            proof {
                lemma_parse_step(acc, v as u128, count);
                assert(nibbles_before(p + 1 as int) == count + 1);
                assert(text_pos(count) == p as int);
            }
            acc = (acc << 4) | (v as u128);
        }
        p += 1;
    }
    proof {
        assert(nibbles_before(36) == 32);
        assert forall|q: int| 0 <= q < 36 implies s@[q] == spec_canonical_text(acc)[q] by {
            if !is_hyphen_pos(q) {
                let k = nibble_pos(q);
                assert(text_pos(k) == q && 0 <= k < 32);
                assert(read_nibble(acc, 32, k) as int == hex_char_value(s@[q]));
                assert(id_nibble(acc, k) == read_nibble(acc, 32, k));
                lemma_hex_char_roundtrip(s@[q]);
            }
        }
        assert(s@ =~= spec_canonical_text(acc));
    }
    Some(acc)
}

/// Relies on uuid::Uuid::new_v4 for fresh identifiers: 122 random bits with
/// the version nibble fixed to 4, read out as one 128-bit value.
#[verifier::external_body]
fn random_id_bits() -> (r: u128)
    ensures
        (r >> 76) & 0xf == 4,
{
    uuid::Uuid::new_v4().as_u128()
}

/// Identifies one user.
#[derive(Clone, Copy, PartialEq, Eq, Structural, Hash, Debug)]
pub struct UserId {
    bits: u128,
}

/// Identifies one quest.
#[derive(Clone, Copy, PartialEq, Eq, Structural, Hash, Debug)]
pub struct QuestId {
    bits: u128,
}

impl View for UserId {
    type V = u128;

    closed spec fn view(&self) -> u128 {
        self.bits
    }
}

impl View for QuestId {
    type V = u128;

    closed spec fn view(&self) -> u128 {
        self.bits
    }
}

impl UserId {
    /// A freshly generated identifier (version nibble 4).
    pub fn new() -> (r: UserId)
        ensures
            (r@ >> 76) & 0xf == 4,
    {
        UserId { bits: random_id_bits() }
    }

    /// The identifier with exactly the given bits.
    pub fn from_bits(bits: u128) -> (r: UserId)
        ensures
            r@ == bits,
    {
        UserId { bits }
    }

    /// The bits of the identifier.
    pub fn bits(&self) -> (r: u128)
        ensures
            r == self@,
    {
        self.bits
    }

    /// The canonical text form.
    pub fn to_text(&self) -> (r: String)
        ensures
            r@ == spec_canonical_text(self@),
    {
        id_to_text(self.bits)
    }

    /// Identifiers with the same bits are the same identifier.
    pub proof fn lemma_view_injective(a: UserId, b: UserId)
        requires
            a@ == b@,
        ensures
            a == b,
    {
    }

    /// Parses canonical text; malformed input yields `None`.
    pub fn try_parse(s: &str) -> (r: Option<UserId>)
        ensures
            r is Some <==> is_canonical_text(s@),
            r matches Some(u) ==> s@ == spec_canonical_text(u@),
    {
        match parse_id_text(s) {
            Some(bits) => Some(UserId { bits }),
            None => None,
        }
    }
}

impl QuestId {
    /// A freshly generated identifier (version nibble 4).
    pub fn new() -> (r: QuestId)
        ensures
            (r@ >> 76) & 0xf == 4,
    {
        QuestId { bits: random_id_bits() }
    }

    /// The identifier with exactly the given bits.
    pub fn from_bits(bits: u128) -> (r: QuestId)
        ensures
            r@ == bits,
    {
        QuestId { bits }
    }

    /// The bits of the identifier.
    pub fn bits(&self) -> (r: u128)
        ensures
            r == self@,
    {
        self.bits
    }

    /// The canonical text form.
    pub fn to_text(&self) -> (r: String)
        ensures
            r@ == spec_canonical_text(self@),
    {
        id_to_text(self.bits)
    }

    /// Identifiers with the same bits are the same identifier.
    pub proof fn lemma_view_injective(a: QuestId, b: QuestId)
        requires
            a@ == b@,
        ensures
            a == b,
    {
    }

    /// Parses canonical text; malformed input yields `None`.
    pub fn try_parse(s: &str) -> (r: Option<QuestId>)
        ensures
            r is Some <==> is_canonical_text(s@),
            r matches Some(q) ==> s@ == spec_canonical_text(q@),
    {
        match parse_id_text(s) {
            Some(bits) => Some(QuestId { bits }),
            None => None,
        }
    }
}

} // verus!
