use vstd::prelude::*;
use vstd::string::StringExecFns;

verus! {

/// The sixteen lowercase hexadecimal digits, in value order.
pub open spec fn hex_chars() -> Seq<char> {
    seq!['0', '1', '2', '3', '4', '5', '6', '7', '8', '9', 'a', 'b', 'c', 'd', 'e', 'f']
}

/// The lowercase hexadecimal digit for a nibble.
pub open spec fn hex_digit(n: u8) -> char
    recommends
        n < 16,
{
    hex_chars()[n as int]
}

/// True of the characters that may appear in a lowercase hexadecimal string.
pub open spec fn is_hex_char(c: char) -> bool {
    hex_chars().contains(c)
}

/// The lowercase hexadecimal encoding of a byte sequence: two digits per
/// byte, high nibble first, in input order.
pub open spec fn hex_of(b: Seq<u8>) -> Seq<char>
    decreases b.len(),
{
    if b.len() == 0 {
        Seq::empty()
    } else {
        seq![hex_digit(b.first() / 16), hex_digit(b.first() % 16)] + hex_of(b.drop_first())
    }
}

/// A byte sequence as the engine surfaces it: lowercase hexadecimal with a
/// literal `0x` prefix and no separators.
pub open spec fn hex_display(b: Seq<u8>) -> Seq<char> {
    seq!['0', 'x'] + hex_of(b)
}

/// The hexadecimal encoding of `n` bytes has `2 * n` characters, all of them
/// lowercase hexadecimal digits.
pub proof fn lemma_hex_of_shape(b: Seq<u8>)
    ensures
        hex_of(b).len() == 2 * b.len(),
        forall|i: int| 0 <= i < hex_of(b).len() ==> is_hex_char(#[trigger] hex_of(b)[i]),
    decreases b.len(),
{
    if b.len() == 0 {
    } else {
        lemma_hex_of_shape(b.drop_first());
        let hi = b.first() / 16;
        let lo = b.first() % 16;
        assert(hex_chars()[hi as int] == hex_digit(hi));
        assert(hex_chars()[lo as int] == hex_digit(lo));
        assert(is_hex_char(hex_digit(hi)));
        assert(is_hex_char(hex_digit(lo)));
        assert forall|i: int| 0 <= i < hex_of(b).len() implies is_hex_char(#[trigger] hex_of(b)[i]) by {
            if i >= 2 {
                assert(hex_of(b)[i] == hex_of(b.drop_first())[i - 2]);
            }
        }
    }
}

/// Relies on hex::encode: it encodes the bytes as lowercase hexadecimal, two
/// digits per byte, high nibble first, in input order.
#[verifier::external_body]
fn hex_encode(bytes: &Vec<u8>) -> (r: String)
    ensures
        r@ == hex_of(bytes@),
{
    hex::encode(bytes.as_slice())
}

/// Encodes the bytes as the engine surfaces them: lowercase hexadecimal with
/// a literal `0x` prefix.
pub(crate) fn hex_prefixed(bytes: &Vec<u8>) -> (r: String)
    ensures
        r@ == hex_display(bytes@),
{
    let encoded = hex_encode(bytes);
    let prefix = <String as StringExecFns>::from_str("0x");
    proof {
        reveal_strlit("0x");
        assert(prefix@ =~= seq!['0', 'x']);
    }
    prefix.concat(encoded.as_str())
}

} // verus!
