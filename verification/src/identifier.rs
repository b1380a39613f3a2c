//! Identifier well-formedness and identifier generation.
//!
//! A store rejects a malformed identifier before touching the backend
//! (fail fast). Well-formedness is decided by `uuid::Uuid::parse_str`,
//! whose accepted grammar is stated exactly by [`is_uuid_str`]: the four
//! textual UUID forms (simple, hyphenated, braced, URN).
//!
//! The in-memory store assigns identifiers and timestamps itself: an
//! identifier is a hyphenated rendering of a per-collection counter
//! ([`gen_uuid_chars`]), injective in the counter and in a small "kind"
//! tag so that identifiers never repeat ([`lemma_gen_uuid_injective`]);
//! a timestamp is the decimal rendering of a logical clock
//! ([`dec_chars`]).

use vstd::prelude::*;

verus! {

/// A hexadecimal digit as `uuid` accepts it: `0`-`9`, `a`-`f`, `A`-`F`.
pub open spec fn is_hex_digit_char(c: char) -> bool {
    let n = c as u32;
    (48 <= n && n <= 57)  // '0' ..= '9'
    || (97 <= n && n <= 102)  // 'a' ..= 'f'
    || (65 <= n && n <= 70)  // 'A' ..= 'F'

}

/// The simple form: 32 hexadecimal digits, no separators.
pub open spec fn is_simple_uuid(s: Seq<char>) -> bool {
    &&& s.len() == 32
    &&& forall|i: int| 0 <= i < 32 ==> is_hex_digit_char(#[trigger] s[i])
}

/// The hyphenated form: five hexadecimal groups of lengths 8-4-4-4-12,
/// separated by `-`.
pub open spec fn is_hyphenated_uuid(s: Seq<char>) -> bool {
    &&& s.len() == 36
    &&& s[8] == '-'
    &&& s[13] == '-'
    &&& s[18] == '-'
    &&& s[23] == '-'
    &&& forall|i: int|
        0 <= i < 36 && i != 8 && i != 13 && i != 18 && i != 23 ==> is_hex_digit_char(
            #[trigger] s[i],
        )
}

/// The nine characters `urn:uuid:`, letters in either case.
pub open spec fn is_urn_uuid_prefix(s: Seq<char>) -> bool {
    &&& (s[0] == 'u' || s[0] == 'U')
    &&& (s[1] == 'r' || s[1] == 'R')
    &&& (s[2] == 'n' || s[2] == 'N')
    &&& s[3] == ':'
    &&& (s[4] == 'u' || s[4] == 'U')
    &&& (s[5] == 'u' || s[5] == 'U')
    &&& (s[6] == 'i' || s[6] == 'I')
    &&& (s[7] == 'd' || s[7] == 'D')
    &&& s[8] == ':'
}

/// Exactly the strings `uuid::Uuid::parse_str` accepts: the simple form,
/// the hyphenated form, the hyphenated form in braces, or the hyphenated
/// form after a case-insensitive `urn:uuid:` prefix.
///
/// The parser works on the UTF-8 bytes of the string, but every character
/// it can accept is ASCII, so a string satisfies this character-level
/// predicate exactly when its byte form parses.
pub open spec fn is_uuid_str(s: Seq<char>) -> bool {
    ||| is_simple_uuid(s)
    ||| is_hyphenated_uuid(s)
    ||| (s.len() == 38 && s[0] == '{' && s[37] == '}' && is_hyphenated_uuid(s.subrange(1, 37)))
    ||| (s.len() == 45 && is_urn_uuid_prefix(s) && is_hyphenated_uuid(s.subrange(9, 45)))
}

/// Relies on `uuid::Uuid::parse_str`: it succeeds exactly on the four
/// textual UUID forms that [`is_uuid_str`] states, and never panics.
#[verifier::external_body]
pub(crate) fn uuid_is_valid(s: &str) -> (r: bool)
    ensures
        r == is_uuid_str(s@),
{
    uuid::Uuid::parse_str(s).is_ok()
}

/// Relies on `String::from_utf8`: ASCII bytes decode to exactly those
/// characters. The fallback arm is unreachable under the precondition.
#[verifier::external_body]
fn ascii_string(bytes: Vec<u8>) -> (r: String)
    requires
        forall|i: int| 0 <= i < bytes@.len() ==> bytes@[i] < 128,
    ensures
        r@ == bytes@.map_values(|b: u8| b as char),
{
    match String::from_utf8(bytes) {
        Ok(s) => s,
        Err(_) => String::new(),
    }
}

/// The byte of the lower-case hexadecimal digit for a value below 16.
pub open spec fn hex_digit(d: u64) -> u8
    recommends
        d < 16,
{
    if d < 10 {
        (48 + d) as u8  // '0' + d
    } else {
        (87 + d) as u8  // 'a' + (d - 10)
    }
}

/// The `k`-th hexadecimal digit of `c`, most significant first.
pub open spec fn nibble(c: u64, k: int) -> u64
    recommends
        0 <= k < 16,
{
    (c >> (((15 - k) * 4) as u64)) & 0xf
}

/// The byte at position `i` of a generated identifier: sixteen hex digits
/// of the counter as groups 8-4-4, then `0` `0` `0` and the hex digit of
/// the kind tag as the fourth group, then twelve `0`s, with hyphens
/// between groups.
pub open spec fn uuid_byte_at(kind: u64, c: u64, i: int) -> u8
    recommends
        0 <= i < 36,
{
    if i == 8 || i == 13 || i == 18 || i == 23 {
        45  // '-'
    } else if i < 8 {
        hex_digit(nibble(c, i))
    } else if i < 13 {
        hex_digit(nibble(c, i - 1))
    } else if i < 18 {
        hex_digit(nibble(c, i - 2))
    } else if i == 22 {
        hex_digit(kind)
    } else {
        48  // '0'
    }
}

/// The bytes of the identifier generated for counter `c` with kind tag
/// `kind`.
pub open spec fn gen_uuid_bytes(kind: u64, c: u64) -> Seq<u8> {
    Seq::new(36, |i: int| uuid_byte_at(kind, c, i))
}

/// The characters of the identifier generated for counter `c` with kind
/// tag `kind`.
pub open spec fn gen_uuid_chars(kind: u64, c: u64) -> Seq<char> {
    gen_uuid_bytes(kind, c).map_values(|b: u8| b as char)
}

/// A generated identifier is well formed: it is a hyphenated UUID.
pub proof fn lemma_gen_uuid_valid(kind: u64, c: u64)
    requires
        kind < 16,
    ensures
        is_hyphenated_uuid(gen_uuid_chars(kind, c)),
        is_uuid_str(gen_uuid_chars(kind, c)),
{
    let s = gen_uuid_chars(kind, c);
    assert(s.len() == 36);
    assert forall|i: int| 0 <= i < 36 && i != 8 && i != 13 && i != 18 && i != 23 implies
        is_hex_digit_char(#[trigger] s[i]) by {
        let b = uuid_byte_at(kind, c, i);
        if i < 8 {
            lemma_nibble_bound(c, i);
        } else if i < 13 {
            lemma_nibble_bound(c, i - 1);
        } else if i < 18 {
            lemma_nibble_bound(c, i - 2);
        }
        assert(48 <= b <= 57 || 97 <= b <= 102);
    }
    assert(s[8] == '-' && s[13] == '-' && s[18] == '-' && s[23] == '-');
}

/// Each hexadecimal digit of a counter is below 16.
pub proof fn lemma_nibble_bound(c: u64, k: int)
    requires
        0 <= k < 16,
    ensures
        nibble(c, k) < 16,
{
    let sh = ((15 - k) * 4) as u64;
    let shifted = c >> sh;
    assert(shifted & 0xf < 16) by (bit_vector);
}

/// A 64-bit value is determined by its sixteen hexadecimal digits.
proof fn lemma_u64_from_nibbles(a: u64, b: u64)
    requires
        forall|k: int| 0 <= k < 16 ==> nibble(a, k) == nibble(b, k),
    ensures
        a == b,
{
    assert(nibble(a, 0) == (a >> 60) & 0xf && nibble(b, 0) == (b >> 60) & 0xf);
    assert(nibble(a, 1) == (a >> 56) & 0xf && nibble(b, 1) == (b >> 56) & 0xf);
    assert(nibble(a, 2) == (a >> 52) & 0xf && nibble(b, 2) == (b >> 52) & 0xf);
    assert(nibble(a, 3) == (a >> 48) & 0xf && nibble(b, 3) == (b >> 48) & 0xf);
    assert(nibble(a, 4) == (a >> 44) & 0xf && nibble(b, 4) == (b >> 44) & 0xf);
    assert(nibble(a, 5) == (a >> 40) & 0xf && nibble(b, 5) == (b >> 40) & 0xf);
    assert(nibble(a, 6) == (a >> 36) & 0xf && nibble(b, 6) == (b >> 36) & 0xf);
    assert(nibble(a, 7) == (a >> 32) & 0xf && nibble(b, 7) == (b >> 32) & 0xf);
    assert(nibble(a, 8) == (a >> 28) & 0xf && nibble(b, 8) == (b >> 28) & 0xf);
    assert(nibble(a, 9) == (a >> 24) & 0xf && nibble(b, 9) == (b >> 24) & 0xf);
    assert(nibble(a, 10) == (a >> 20) & 0xf && nibble(b, 10) == (b >> 20) & 0xf);
    assert(nibble(a, 11) == (a >> 16) & 0xf && nibble(b, 11) == (b >> 16) & 0xf);
    assert(nibble(a, 12) == (a >> 12) & 0xf && nibble(b, 12) == (b >> 12) & 0xf);
    assert(nibble(a, 13) == (a >> 8) & 0xf && nibble(b, 13) == (b >> 8) & 0xf);
    assert(nibble(a, 14) == (a >> 4) & 0xf && nibble(b, 14) == (b >> 4) & 0xf);
    assert(nibble(a, 15) == (a >> 0) & 0xf && nibble(b, 15) == (b >> 0) & 0xf);
    assert((a >> 60) & 0xf == (b >> 60) & 0xf && (a >> 56) & 0xf == (b >> 56) & 0xf && (a >> 52)
        & 0xf == (b >> 52) & 0xf && (a >> 48) & 0xf == (b >> 48) & 0xf && (a >> 44) & 0xf == (b
        >> 44) & 0xf && (a >> 40) & 0xf == (b >> 40) & 0xf && (a >> 36) & 0xf == (b >> 36) & 0xf
        && (a >> 32) & 0xf == (b >> 32) & 0xf && (a >> 28) & 0xf == (b >> 28) & 0xf && (a >> 24)
        & 0xf == (b >> 24) & 0xf && (a >> 20) & 0xf == (b >> 20) & 0xf && (a >> 16) & 0xf == (b
        >> 16) & 0xf && (a >> 12) & 0xf == (b >> 12) & 0xf && (a >> 8) & 0xf == (b >> 8) & 0xf
        && (a >> 4) & 0xf == (b >> 4) & 0xf && (a >> 0) & 0xf == (b >> 0) & 0xf ==> a == b)
        by (bit_vector);
}

/// Distinct kind tags or distinct counters give distinct identifiers.
pub proof fn lemma_gen_uuid_injective(k1: u64, c1: u64, k2: u64, c2: u64)
    requires
        k1 < 16,
        k2 < 16,
        gen_uuid_chars(k1, c1) == gen_uuid_chars(k2, c2),
    ensures
        k1 == k2,
        c1 == c2,
{
    let s1 = gen_uuid_chars(k1, c1);
    let s2 = gen_uuid_chars(k2, c2);
    assert forall|k: int| 0 <= k < 16 implies nibble(c1, k) == nibble(c2, k) by {
        let i: int = if k < 8 {
            k
        } else if k < 12 {
            k + 1
        } else {
            k + 2
        };
        assert(s1[i] == s2[i]);
        assert(uuid_byte_at(k1, c1, i) == hex_digit(nibble(c1, k)));
        assert(uuid_byte_at(k2, c2, i) == hex_digit(nibble(c2, k)));
        lemma_nibble_bound(c1, k);
        lemma_nibble_bound(c2, k);
    }
    lemma_u64_from_nibbles(c1, c2);
    assert(s1[22] == s2[22]);
    assert(uuid_byte_at(k1, c1, 22) == hex_digit(k1));
    assert(uuid_byte_at(k2, c2, 22) == hex_digit(k2));
}

/// Builds the identifier string for counter `c` with kind tag `kind`.
pub fn gen_uuid(kind: u64, c: u64) -> (r: String)
    requires
        kind < 16,
    ensures
        r@ == gen_uuid_chars(kind, c),
{
    let mut bytes: Vec<u8> = Vec::new();
    let mut k: usize = 0;
    while k < 16
        invariant
            kind < 16,
            k <= 16,
            bytes@.len() == if k <= 8 {
                k as int
            } else if k <= 12 {
                k + 1
            } else {
                k + 2
            },
            forall|j: int| 0 <= j < bytes@.len() ==> bytes@[j] == uuid_byte_at(kind, c, j),
        decreases 16 - k,
    {
        if k == 8 || k == 12 {
            bytes.push(45);  // '-'
        }
        let sh: u64 = ((15 - k) as u64) * 4;
        let shifted: u64 = c >> sh;
        let nib: u64 = shifted & 0xf;
        proof {
            assert(shifted & 0xf < 16) by (bit_vector);
            assert(nib == nibble(c, k as int));
        }
        let digit: u8 = if nib < 10 {
            48 + (nib as u8)
        } else {
            87 + (nib as u8)
        };
        assert(digit == hex_digit(nibble(c, k as int)));
        bytes.push(digit);
        k = k + 1;
    }
    bytes.push(45);  // '-'
    bytes.push(48);  // '0'
    bytes.push(48);
    bytes.push(48);
    let kind_digit: u8 = if kind < 10 {
        48 + (kind as u8)
    } else {
        87 + (kind as u8)
    };
    bytes.push(kind_digit);
    bytes.push(45);  // '-'
    let mut z: usize = 0;
    while z < 12
        invariant
            kind < 16,
            z <= 12,
            bytes@.len() == 24 + z,
            forall|j: int| 0 <= j < bytes@.len() ==> bytes@[j] == uuid_byte_at(kind, c, j),
        decreases 12 - z,
    {
        bytes.push(48);  // '0'
        z = z + 1;
    }
    proof {
        assert(bytes@ =~= gen_uuid_bytes(kind, c));
        assert forall|i: int| 0 <= i < bytes@.len() implies bytes@[i] < 128 by {
            if i != 8 && i != 13 && i != 18 && i != 23 && !(i == 22) && !(i > 23) && !(18 < i
                < 23) {
                if i < 8 {
                    lemma_nibble_bound(c, i);
                } else if i < 13 {
                    lemma_nibble_bound(c, i - 1);
                } else {
                    lemma_nibble_bound(c, i - 2);
                }
            }
        }
    }
    ascii_string(bytes)
}

/// The decimal digit bytes of `n`, most significant first, no leading
/// zeros (a single `0` for zero).
pub open spec fn dec_bytes(n: nat) -> Seq<u8>
    decreases n,
{
    if n < 10 {
        seq![(48 + n) as u8]
    } else {
        dec_bytes(n / 10).push((48 + n % 10) as u8)
    }
}

/// The decimal rendering of `n` as characters.
pub open spec fn dec_chars(n: nat) -> Seq<char> {
    dec_bytes(n).map_values(|b: u8| b as char)
}

/// Every byte of a decimal rendering is an ASCII digit.
proof fn lemma_dec_bytes_ascii(n: nat)
    ensures
        forall|i: int| 0 <= i < dec_bytes(n).len() ==> 48 <= #[trigger] dec_bytes(n)[i] <= 57,
    decreases n,
{
    if n < 10 {
        assert(dec_bytes(n) =~= seq![(48 + n) as u8]);
    } else {
        lemma_dec_bytes_ascii(n / 10);
        let s = dec_bytes(n / 10);
        let t = dec_bytes(n);
        assert forall|i: int| 0 <= i < t.len() implies 48 <= #[trigger] t[i] <= 57 by {
            if i < s.len() {
                assert(t[i] == s[i]);
            } else {
                assert(t[i] == (48 + n % 10) as u8);
            }
        }
    }
}

/// Appends the decimal digits of `n` to `out`.
fn push_dec(n: u64, out: &mut Vec<u8>)
    ensures
        final(out)@ == old(out)@ + dec_bytes(n as nat),
    decreases n,
{
    if n >= 10 {
        push_dec(n / 10, out);
    }
    let digit: u8 = 48 + ((n % 10) as u8);
    out.push(digit);
    proof {
        if n >= 10 {
            assert(out@ =~= old(out)@ + dec_bytes(n as nat));
        } else {
            assert(out@ =~= old(out)@ + dec_bytes(n as nat));
        }
    }
}

/// Renders `n` in decimal, for use as a logical-clock timestamp.
pub fn dec_string(n: u64) -> (r: String)
    ensures
        r@ == dec_chars(n as nat),
{
    let mut bytes: Vec<u8> = Vec::new();
    push_dec(n, &mut bytes);
    proof {
        lemma_dec_bytes_ascii(n as nat);
        assert(bytes@ =~= dec_bytes(n as nat));
    }
    ascii_string(bytes)
}

} // verus!
