//! Text recovered from raw bytes: best-effort decoding, ordinal rendering,
//! and the canonical hyphenated GUID form.

use vstd::prelude::*;

verus! {

/// What `String::from_utf8_lossy` returns for these bytes, as characters.
pub uninterp spec fn lossy_utf8(bytes: Seq<u8>) -> Seq<char>;

/// Relies on `String::from_utf8_lossy`: the result is a function of the
/// bytes alone, and ASCII bytes decode to the characters with the same
/// codes.
#[verifier::external_body]
pub(crate) fn utf8_lossy(bytes: &Vec<u8>) -> (r: String)
    ensures
        r@ == lossy_utf8(bytes@),
        (forall|i: int| 0 <= i < bytes@.len() ==> bytes@[i] < 128) ==> r@ == bytes@.map_values(
            |b: u8| b as char,
        ),
{
    String::from_utf8_lossy(bytes.as_slice()).into_owned()
}

/// The decimal digits of `n` as ASCII bytes, most significant first.
pub open spec fn decimal_digits(n: nat) -> Seq<u8>
    decreases n,
{
    if n < 10 {
        seq![(48 + n) as u8]
    } else {
        decimal_digits(n / 10).push((48 + n % 10) as u8)
    }
}

/// A symbol referenced by ordinal rather than by name, rendered as `#`
/// followed by the decimal ordinal.
pub open spec fn ordinal_text(n: nat) -> Seq<char> {
    (seq![35u8] + decimal_digits(n)).map_values(|b: u8| b as char)
}

/// Decimal digits are ASCII.
pub proof fn lemma_decimal_digits_ascii(n: nat)
    ensures
        forall|i: int|
            0 <= i < decimal_digits(n).len() ==> 48 <= #[trigger] decimal_digits(n)[i] < 58,
    decreases n,
{
    if n < 10 {
        assert(decimal_digits(n)[0] == (48 + n) as u8);
    } else {
        lemma_decimal_digits_ascii(n / 10);
        let pre = decimal_digits(n / 10);
        assert forall|i: int| 0 <= i < decimal_digits(n).len() implies 48 <= #[trigger] decimal_digits(n)[i] < 58 by {
            if i < pre.len() {
                assert(decimal_digits(n)[i] == pre[i]);
            } else {
                assert(decimal_digits(n)[i] == (48 + n % 10) as u8);
            }
        }
    }
}

/// Render the `#`-prefixed decimal form of an ordinal.
pub fn ordinal_name(ord: u16) -> (r: String)
    ensures
        r@ == ordinal_text(ord as nat),
{
    let mut n: u16 = ord;
    let mut digits: Vec<u8> = Vec::new();
    digits.insert(0, 48 + (n % 10) as u8);
    proof {
        if n >= 10 {
            assert(decimal_digits(n as nat) =~= decimal_digits(n as nat / 10) + digits@);
        }
    }
    n = n / 10;
    while n > 0
        invariant
            n == 0 ==> digits@ == decimal_digits(ord as nat),
            n > 0 ==> decimal_digits(ord as nat) == decimal_digits(n as nat) + digits@,
        decreases n,
    {
        let d: u8 = 48 + (n % 10) as u8;
        digits.insert(0, d);
        proof {
            if n < 10 {
                assert(decimal_digits(n as nat) =~= seq![d]);
                assert(seq![d] + digits@.subrange(1, digits@.len() as int) =~= digits@);
            } else {
                assert(decimal_digits(n as nat) =~= decimal_digits(n as nat / 10) + seq![d]);
                assert((decimal_digits(n as nat / 10) + seq![d]) + digits@.subrange(
                    1,
                    digits@.len() as int,
                ) =~= decimal_digits(n as nat / 10) + digits@);
            }
        }
        n = n / 10;
    }
    let mut bytes: Vec<u8> = Vec::new();
    bytes.push(35);
    bytes.append(&mut digits);
    let r = utf8_lossy(&bytes);
    proof {
        lemma_decimal_digits_ascii(ord as nat);
        assert(bytes@ =~= seq![35u8] + decimal_digits(ord as nat));
        assert(forall|i: int| 0 <= i < bytes@.len() ==> bytes@[i] < 128);
        assert(r@ =~= ordinal_text(ord as nat));
    }
    r
}

/// One lowercase hex digit for a value below 16, as an ASCII byte.
pub open spec fn hex_digit(n: u8) -> u8 {
    if n < 10 {
        (48 + n) as u8
    } else {
        (87 + n) as u8
    }
}

/// The two lowercase hex digits of a byte, high nibble first.
pub open spec fn hex_byte(b: u8) -> Seq<u8> {
    seq![hex_digit(b / 16), hex_digit(b % 16)]
}

/// The lowercase hex rendering of a byte string, two digits a byte.
pub open spec fn hex_bytes(s: Seq<u8>) -> Seq<u8>
    decreases s.len(),
{
    if s.len() == 0 {
        Seq::empty()
    } else {
        hex_byte(s[0]) + hex_bytes(s.drop_first())
    }
}

/// The canonical hyphenated text of a 16-byte GUID: the lowercase hex of
/// the bytes in order, grouped 8-4-4-4-12 digits with hyphens between the
/// groups.
pub open spec fn guid_text(b: Seq<u8>) -> Seq<char> {
    (hex_bytes(b.subrange(0, 4)) + seq![45u8] + hex_bytes(b.subrange(4, 6)) + seq![45u8]
        + hex_bytes(b.subrange(6, 8)) + seq![45u8] + hex_bytes(b.subrange(8, 10)) + seq![45u8]
        + hex_bytes(b.subrange(10, 16))).map_values(|x: u8| x as char)
}

/// Relies on `uuid::Uuid::from_bytes` and `Uuid::hyphenated`: the
/// hyphenated form of a UUID built from sixteen bytes is the lowercase hex
/// of those bytes in order, in 8-4-4-4-12 digit groups separated by
/// hyphens.
#[verifier::external_body]
fn uuid_hyphenated(bytes: &Vec<u8>) -> (r: String)
    requires
        bytes@.len() == 16,
    ensures
        r@ == guid_text(bytes@),
{
    let mut array = [0u8; 16];
    array.copy_from_slice(bytes.as_slice());
    uuid::Uuid::from_bytes(array).hyphenated().to_string()
}

/// Render a 16-byte GUID in its canonical hyphenated form.
pub fn format_guid(bytes: &Vec<u8>) -> (r: String)
    requires
        bytes@.len() == 16,
    ensures
        r@ == guid_text(bytes@),
{
    uuid_hyphenated(bytes)
}

} // verus!
