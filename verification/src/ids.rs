//! Opaque external identifiers: 64-bit values rendered as base62 strings
//! over the fixed alphabet 0-9, A-Z, a-z. Encoding and decoding form a
//! bijection between `u64` and the set of valid digit strings.
use vstd::prelude::*;

verus! {

/// The ID of a specific mod, encoded as base62 for usage in the API
#[derive(Copy, Clone, PartialEq, Eq, Structural, Debug)]
pub struct ModId(pub u64);

/// The ID of a specific version of a mod
#[derive(Copy, Clone, PartialEq, Eq, Structural, Debug)]
pub struct VersionId(pub u64);

/// The ID of a team of mod owners
#[derive(Copy, Clone, PartialEq, Eq, Structural, Debug)]
pub struct TeamId(pub u64);

/// Why an identifier string failed to decode.
#[derive(Copy, Clone, PartialEq, Eq, Structural, Debug)]
pub enum MalformedIdError {
    /// The string was empty.
    Empty,
    /// The string held a character outside the base62 alphabet.
    InvalidCharacter,
    /// The digits denote a value above `u64::MAX`.
    Overflow,
}

/// The numeric value of a base62 digit character, or -1 if the character
/// is outside the alphabet. '0'-'9' map to 0-9, 'A'-'Z' to 10-35,
/// 'a'-'z' to 36-61.
pub open spec fn digit_value(c: char) -> int {
    if 48 <= c as int && c as int <= 57 {
        c as int - 48
    } else if 65 <= c as int && c as int <= 90 {
        c as int - 55
    } else if 97 <= c as int && c as int <= 122 {
        c as int - 61
    } else {
        -1
    }
}

/// The base62 digit character for a value in 0..62.
pub open spec fn digit_char(d: int) -> char
    recommends
        0 <= d < 62,
{
    if d < 10 {
        (d + 48) as char
    } else if d < 36 {
        (d + 55) as char
    } else {
        (d + 61) as char
    }
}

/// The base62 rendering of a value: most significant digit first, no
/// leading zeros, and the single digit '0' for zero.
pub open spec fn b62_seq(v: nat) -> Seq<char>
    decreases v,
{
    if v < 62 {
        seq![digit_char(v as int)]
    } else {
        b62_seq(v / 62) + seq![digit_char((v % 62) as int)]
    }
}

/// Whether every character of the string is a base62 digit.
pub open spec fn all_b62(s: Seq<char>) -> bool {
    forall|i: int| 0 <= i < s.len() ==> digit_value(s[i]) >= 0
}

/// The numeric value denoted by a base62 digit string (big-endian).
pub open spec fn b62_value(s: Seq<char>) -> int
    decreases s.len(),
{
    if s.len() == 0 {
        0
    } else {
        b62_value(s.drop_last()) * 62 + digit_value(s.last())
    }
}

/// Round trip, digit level: reading back the digit written for d yields d.
proof fn lemma_digit_roundtrip(d: int)
    requires
        0 <= d < 62,
    ensures
        digit_value(digit_char(d)) == d,
{
}

/// Every character that `b62_seq` produces is a valid digit, the rendering
/// is never empty, and parsing it back yields the value rendered.
pub proof fn lemma_b62_roundtrip(v: nat)
    ensures
        b62_seq(v).len() >= 1,
        all_b62(b62_seq(v)),
        b62_value(b62_seq(v)) == v,
    decreases v,
{
    if v < 62 {
        lemma_digit_roundtrip(v as int);
        let s = b62_seq(v);
        assert(s =~= seq![digit_char(v as int)]);
        assert(s.drop_last() =~= Seq::<char>::empty());
        assert(b62_value(Seq::<char>::empty()) == 0);
        assert(b62_value(s) == b62_value(s.drop_last()) * 62 + digit_value(s.last()));
    } else {
        lemma_b62_roundtrip(v / 62);
        lemma_digit_roundtrip((v % 62) as int);
        let s = b62_seq(v);
        let p = b62_seq(v / 62);
        assert(s =~= p + seq![digit_char((v % 62) as int)]);
        assert(s.drop_last() =~= p);
        assert(s.last() == digit_char((v % 62) as int));
        assert(b62_value(s) == b62_value(s.drop_last()) * 62 + digit_value(s.last()));
        assert(v / 62 * 62 + v % 62 == v) by (nonlinear_arith);
        assert forall|i: int| 0 <= i < s.len() implies digit_value(s[i]) >= 0 by {
            if i < s.len() - 1 {
                assert(s[i] == p[i]);
            } else {
                assert(s[i] == digit_char((v % 62) as int));
            }
        }
    }
}

/// The ASCII code of the base62 digit character for a value in 0..62.
pub open spec fn ascii_digit(d: int) -> u8
    recommends
        0 <= d < 62,
{
    if d < 10 {
        (d + 48) as u8
    } else if d < 36 {
        (d + 55) as u8
    } else {
        (d + 61) as u8
    }
}

/// The characters spelled by a sequence of ASCII codes.
pub open spec fn ascii_chars(bytes: Seq<u8>) -> Seq<char> {
    bytes.map_values(|b: u8| b as char)
}

/// Relies on std's String::from_utf8: bytes below 128 decode to the chars
/// with the same code points, one char per byte.
#[verifier::external_body]
fn ascii_to_string(bytes: Vec<u8>) -> (r: String)
    requires
        forall|i: int| 0 <= i < bytes@.len() ==> bytes@[i] < 128,
    ensures
        r@ == ascii_chars(bytes@),
{
    match String::from_utf8(bytes) {
        Ok(s) => s,
        Err(_) => String::new(),
    }
}

/// Renders a 64-bit value as its base62 string: most significant digit
/// first, no leading zeros, "0" for zero.
pub fn encode_base62(v: u64) -> (r: String)
    ensures
        r@ == b62_seq(v as nat),
{
    let mut out: Vec<u8> = Vec::new();
    let mut x: u64 = v;
    loop
        invariant_except_break
            out@.len() == 0 ==> x == v,
            out@.len() > 0 ==> x > 0,
            out@.len() > 0 ==> b62_seq(v as nat) =~= b62_seq(x as nat) + ascii_chars(out@),
        invariant
            forall|i: int| 0 <= i < out@.len() ==> out@[i] < 128,
        ensures
            b62_seq(v as nat) == ascii_chars(out@),
        decreases x,
    {
        let d: u64 = x % 62;
        let b: u8 = if d < 10 {
            (d + 48) as u8
        } else if d < 36 {
            (d + 55) as u8
        } else {
            (d + 61) as u8
        };
        assert(b == ascii_digit(d as int));
        assert(b as char == digit_char(d as int));
        let ghost old_out = out@;
        let ghost old_x = x;
        out.insert(0, b);
        x = x / 62;
        proof {
            assert(ascii_chars(out@) =~= seq![digit_char(d as int)] + ascii_chars(old_out));
            if old_x >= 62 {
                assert(b62_seq(old_x as nat) =~= b62_seq((old_x / 62) as nat) + seq![
                    digit_char(d as int),
                ]);
            } else {
                assert(b62_seq(old_x as nat) =~= seq![digit_char(d as int)]);
            }
            if old_out.len() == 0 {
                assert(old_x == v);
                assert(ascii_chars(old_out) =~= Seq::<char>::empty());
            }
            if x > 0 {
                assert(b62_seq(v as nat) =~= b62_seq(x as nat) + ascii_chars(out@));
            } else {
                assert(b62_seq(v as nat) =~= ascii_chars(out@));
            }
        }
        if x == 0 {
            break ;
        }
    }
    ascii_to_string(out)
}

/// All characters of a prefix of an all-valid string are valid.
proof fn lemma_all_b62_take(s: Seq<char>, k: int)
    requires
        all_b62(s),
        0 <= k <= s.len(),
    ensures
        all_b62(s.take(k)),
{
    assert forall|i: int| 0 <= i < s.take(k).len() implies digit_value(s.take(k)[i]) >= 0 by {
        assert(s.take(k)[i] == s[i]);
    }
}

/// The value of an all-valid digit string is never negative.
proof fn lemma_b62_value_nonneg(s: Seq<char>)
    requires
        all_b62(s),
    ensures
        b62_value(s) >= 0,
    decreases s.len(),
{
    if s.len() > 0 {
        lemma_all_b62_take(s, s.len() - 1);
        assert(s.drop_last() =~= s.take(s.len() - 1));
        lemma_b62_value_nonneg(s.drop_last());
        assert(digit_value(s[s.len() - 1]) >= 0);
    }
}

/// Reading one more digit multiplies the prefix value by 62 and adds it.
proof fn lemma_b62_step(s: Seq<char>, k: int)
    requires
        0 <= k < s.len(),
    ensures
        b62_value(s.take(k + 1)) == b62_value(s.take(k)) * 62 + digit_value(s[k]),
{
    assert(s.take(k + 1).drop_last() =~= s.take(k));
    assert(s.take(k + 1).last() == s[k]);
}

/// The value of an all-valid digit string is at least the value of any
/// of its prefixes.
proof fn lemma_b62_value_prefix_le(s: Seq<char>, k: int)
    requires
        all_b62(s),
        0 <= k <= s.len(),
    ensures
        b62_value(s) >= b62_value(s.take(k)),
    decreases s.len() - k,
{
    if k == s.len() {
        assert(s.take(k) =~= s);
    } else {
        lemma_b62_step(s, k);
        lemma_all_b62_take(s, k);
        lemma_b62_value_nonneg(s.take(k));
        assert(digit_value(s[k]) >= 0);
        lemma_b62_value_prefix_le(s, k + 1);
    }
}

/// Parses a base62 string back to its 64-bit value. Fails on the empty
/// string, on any character outside the alphabet, and on values that do
/// not fit in 64 bits.
pub fn decode_base62(s: &str) -> (r: Result<u64, MalformedIdError>)
    ensures
        r is Ok <==> s@.len() > 0 && all_b62(s@) && b62_value(s@) <= u64::MAX,
        r is Ok ==> r->Ok_0 == b62_value(s@),
        r == Result::<u64, MalformedIdError>::Err(MalformedIdError::Empty) <==> s@.len() == 0,
        r == Result::<u64, MalformedIdError>::Err(MalformedIdError::InvalidCharacter) <==> s@.len()
            > 0 && !all_b62(s@),
        r == Result::<u64, MalformedIdError>::Err(MalformedIdError::Overflow) <==> s@.len() > 0
            && all_b62(s@) && b62_value(s@) > u64::MAX,
{
    let n = s.unicode_len();
    if n == 0 {
        return Err(MalformedIdError::Empty);
    }
    let mut i: usize = 0;
    while i < n
        invariant
            i <= n,
            n == s@.len(),
            forall|j: int| 0 <= j < i ==> digit_value(s@[j]) >= 0,
        decreases n - i,
    {
        let c = s.get_char(i);
        let u = c as u32;
        let valid = (48 <= u && u <= 57) || (65 <= u && u <= 90) || (97 <= u && u <= 122);
        if !valid {
            assert(digit_value(s@[i as int]) < 0);
            return Err(MalformedIdError::InvalidCharacter);
        }
        i += 1;
    }
    assert(all_b62(s@));
    let mut acc: u64 = 0;
    i = 0;
    while i < n
        invariant
            i <= n,
            n == s@.len(),
            all_b62(s@),
            acc == b62_value(s@.take(i as int)),
        decreases n - i,
    {
        let c = s.get_char(i);
        let u = c as u32;
        let d: u64 = if 48 <= u && u <= 57 {
            (u - 48) as u64
        } else if 65 <= u && u <= 90 {
            (u - 55) as u64
        } else {
            (u - 61) as u64
        };
        assert(d == digit_value(s@[i as int]));
        proof {
            lemma_b62_step(s@, i as int);
        }
        let next = match acc.checked_mul(62) {
            Some(m) => m.checked_add(d),
            None => None,
        };
        match next {
            Some(a) => {
                acc = a;
            },
            None => {
                proof {
                    lemma_b62_value_prefix_le(s@, i as int + 1);
                }
                return Err(MalformedIdError::Overflow);
            },
        }
        i += 1;
    }
    assert(s@.take(n as int) =~= s@);
    Ok(acc)
}

} // verus!
