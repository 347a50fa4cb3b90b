//! Hexadecimal text: what it means for a string to hold hex digits, the
//! bytes it stands for, and the value of a run of digits.

use vstd::prelude::*;

verus! {

/// A character that is a hexadecimal digit, in either case.
pub open spec fn is_hex_digit(c: char) -> bool {
    ('0' <= c && c <= '9') || ('a' <= c && c <= 'f') || ('A' <= c && c <= 'F')
}

/// The value of a hexadecimal digit.
pub open spec fn hex_digit_value(c: char) -> int {
    if '0' <= c && c <= '9' {
        c as int - '0' as int
    } else if 'a' <= c && c <= 'f' {
        c as int - 'a' as int + 10
    } else {
        c as int - 'A' as int + 10
    }
}

/// Text made of an even number of hexadecimal digits.
pub open spec fn is_hex_text(s: Seq<char>) -> bool {
    s.len() % 2 == 0 && forall|i: int| 0 <= i < s.len() ==> #[trigger] is_hex_digit(s[i])
}

/// The bytes that hex text stands for: two digits per byte, high nibble first.
pub open spec fn hex_bytes(s: Seq<char>) -> Seq<u8> {
    Seq::new(
        s.len() / 2,
        |i: int| (16 * hex_digit_value(s[2 * i]) + hex_digit_value(s[2 * i + 1])) as u8,
    )
}

/// The ASCII lower-case form of a character; every other character is kept.
pub open spec fn ascii_lower(c: char) -> char {
    if 'A' <= c && c <= 'Z' {
        ((c as u32) + 32) as char
    } else {
        c
    }
}

/// The ASCII lower-case form of a text.
pub open spec fn ascii_lower_text(s: Seq<char>) -> Seq<char> {
    s.map_values(|c: char| ascii_lower(c))
}

#[verifier::external_type_specification]
#[verifier::external_body]
pub struct ExFromHexError(hex::FromHexError);

/// Relies on hex::decode: an even number of hex digits of either case gives
/// one byte per pair of digits, high nibble first; any other text is refused.
#[verifier::external_body]
fn hex_decode(text: &str) -> (r: Result<Vec<u8>, hex::FromHexError>)
    ensures
        r.is_ok() == is_hex_text(text@),
        r matches Ok(b) ==> b@ == hex_bytes(text@),
{
    hex::decode(text)
}

/// The bytes that a hex string stands for, or `None` where the string has an
/// odd number of characters or a character that is not a hex digit.
pub fn decode_hex(text: &str) -> (r: Option<Vec<u8>>)
    ensures
        r.is_some() == is_hex_text(text@),
        r matches Some(b) ==> b@ == hex_bytes(text@),
{
    match hex_decode(text) {
        Ok(b) => Some(b),
        Err(_) => None,
    }
}

/// Relies on str::to_ascii_lowercase: ASCII letters 'A' to 'Z' become 'a' to
/// 'z', every other character is kept.
#[verifier::external_body]
pub(crate) fn to_ascii_lowercase(text: &str) -> (r: String)
    ensures
        r@ == ascii_lower_text(text@),
{
    text.to_ascii_lowercase()
}

/// Text whose every character is a hexadecimal digit.
pub open spec fn all_hex_digits(d: Seq<char>) -> bool {
    forall|i: int| 0 <= i < d.len() ==> #[trigger] is_hex_digit(d[i])
}

/// The value of a run of hexadecimal digits, most significant first.
pub open spec fn hex_value(d: Seq<char>) -> int
    decreases d.len(),
{
    if d.len() == 0 {
        0
    } else {
        16 * hex_value(d.drop_last()) + hex_digit_value(d.last())
    }
}

/// The digits of a base-16 number: the text after an optional leading '+'.
pub open spec fn radix16_digits(s: Seq<char>) -> Seq<char> {
    if s.len() > 0 && s[0] == '+' {
        s.skip(1)
    } else {
        s
    }
}

/// The `u32` that a text writes in base 16 (an optional '+', then at least
/// one digit of either case), where it fits.
pub open spec fn radix16_value(s: Seq<char>) -> Option<u32> {
    let d = radix16_digits(s);
    if d.len() > 0 && all_hex_digits(d) && hex_value(d) <= u32::MAX {
        Some(hex_value(d) as u32)
    } else {
        None
    }
}

/// A prefix of a run of digits is worth no more than the whole run.
pub proof fn lemma_hex_value_prefix(d: Seq<char>, k: int)
    requires
        0 <= k <= d.len(),
        all_hex_digits(d),
    ensures
        0 <= hex_value(d.take(k)) <= hex_value(d),
    decreases d.len(),
{
    if d.len() > 0 {
        let front = d.drop_last();
        assert(is_hex_digit(d[d.len() - 1]));
        assert(all_hex_digits(front)) by {
            assert forall|i: int| 0 <= i < front.len() implies #[trigger] is_hex_digit(front[i]) by {
                assert(front[i] == d[i]);
            }
        }
        lemma_hex_value_prefix(front, front.len() as int);
        assert(front.take(front.len() as int) == front);
        if k < d.len() {
            lemma_hex_value_prefix(front, k);
            assert(front.take(k) == d.take(k));
        } else {
            assert(d.take(k) == d);
        }
    } else {
        assert(d.take(k) == d);
    }
}

/// Reads a `u32` written in base 16: an optional '+', then at least one digit
/// of either case; `None` for anything else or a value over `u32::MAX`.
pub fn parse_hex_u32(text: &str) -> (r: Option<u32>)
    ensures
        r == radix16_value(text@),
{
    let n = text.unicode_len();
    let mut i: usize = 0;
    if n > 0 && text.get_char(0) == '+' {
        i = 1;
    }
    let start = i;
    let ghost d = radix16_digits(text@);
    assert(d == text@.skip(start as int));
    if start == n {
        return None;
    }
    let mut v: u64 = 0;
    assert(d.take(0) == Seq::<char>::empty());
    while i < n
        invariant
            start <= i <= n,
            n == text@.len(),
            start < n,
            d == text@.skip(start as int),
            d == radix16_digits(text@),
            all_hex_digits(d.take(i - start)),
            v == hex_value(d.take(i - start)),
            v <= u32::MAX,
        decreases n - i,
    {
        let c = text.get_char(i);
        assert(c == d[i - start]);
        let x: u32 = c as u32;
        let dv: u64;
        if 48 <= x && x <= 57 {
            dv = (x - 48) as u64;
        } else if 97 <= x && x <= 102 {
            dv = (x - 87) as u64;
        } else if 65 <= x && x <= 70 {
            dv = (x - 55) as u64;
        } else {
            assert(!is_hex_digit(d[i - start]));
            assert(!all_hex_digits(d));
            return None;
        }
        let ghost next = d.take(i - start + 1);
        assert(next.drop_last() == d.take(i - start));
        assert(next.last() == c);
        assert(all_hex_digits(next)) by {
            assert forall|j: int| 0 <= j < next.len() implies #[trigger] is_hex_digit(next[j]) by {
                if j < next.len() - 1 {
                    assert(next[j] == d.take(i - start)[j]);
                }
            }
        }
        assert(dv == hex_digit_value(c));
        let nv: u64 = v * 16 + dv;
        assert(hex_value(next) == nv);
        if nv > 0xffff_ffffu64 {
            proof {
                if all_hex_digits(d) {
                    lemma_hex_value_prefix(d, i - start + 1);
                    assert(hex_value(d) > u32::MAX);
                }
            }
            return None;
        }
        v = nv;
        i = i + 1;
    }
    assert(d.take(n - start) == d);
    Some(v as u32)
}

/// Lower-casing keeps the length and acts on each character.
pub proof fn lemma_lower_text_index(s: Seq<char>)
    ensures
        ascii_lower_text(s).len() == s.len(),
        forall|i: int| 0 <= i < s.len() ==> #[trigger] ascii_lower_text(s)[i] == ascii_lower(s[i]),
{
}

/// Lower-casing a run of digits keeps them digits of the same value.
pub proof fn lemma_hex_value_lower(d: Seq<char>)
    ensures
        all_hex_digits(ascii_lower_text(d)) == all_hex_digits(d),
        all_hex_digits(d) ==> hex_value(ascii_lower_text(d)) == hex_value(d),
    decreases d.len(),
{
    lemma_lower_text_index(d);
    let l = ascii_lower_text(d);
    assert(all_hex_digits(l) == all_hex_digits(d)) by {
        if all_hex_digits(d) {
            assert forall|i: int| 0 <= i < l.len() implies #[trigger] is_hex_digit(l[i]) by {
                assert(is_hex_digit(d[i]));
            }
        }
        if all_hex_digits(l) {
            assert forall|i: int| 0 <= i < d.len() implies #[trigger] is_hex_digit(d[i]) by {
                assert(is_hex_digit(l[i]));
            }
        }
    }
    if d.len() > 0 && all_hex_digits(d) {
        let front = d.drop_last();
        assert(ascii_lower_text(front) == l.drop_last());
        assert(all_hex_digits(front)) by {
            assert forall|i: int| 0 <= i < front.len() implies #[trigger] is_hex_digit(front[i]) by {
                assert(front[i] == d[i]);
            }
        }
        lemma_hex_value_lower(front);
        assert(is_hex_digit(d.last()));
        assert(l.last() == ascii_lower(d.last()));
    }
}

/// A number in base 16 reads the same in either case.
pub proof fn lemma_radix16_value_lower(s: Seq<char>)
    ensures
        radix16_value(ascii_lower_text(s)) == radix16_value(s),
{
    lemma_lower_text_index(s);
    let l = ascii_lower_text(s);
    let d = radix16_digits(s);
    assert(radix16_digits(l) == ascii_lower_text(d)) by {
        if s.len() > 0 && s[0] == '+' {
            assert(l[0] == '+');
            assert(ascii_lower_text(d) =~= l.skip(1));
        } else if s.len() > 0 {
            assert(l[0] != '+');
        }
    }
    lemma_hex_value_lower(d);
}

/// Lower-casing twice is lower-casing once.
pub proof fn lemma_lower_text_idempotent(s: Seq<char>)
    ensures
        ascii_lower_text(ascii_lower_text(s)) == ascii_lower_text(s),
{
    lemma_lower_text_index(s);
    lemma_lower_text_index(ascii_lower_text(s));
    assert(ascii_lower_text(ascii_lower_text(s)) =~= ascii_lower_text(s));
}

} // verus!
