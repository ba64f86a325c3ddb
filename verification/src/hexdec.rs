use vstd::prelude::*;

verus! {

/// `b` is the ASCII code of a hexadecimal digit, either case.
pub open spec fn is_hex_digit(b: u8) -> bool {
    ||| 48 <= b <= 57
    ||| 97 <= b <= 102
    ||| 65 <= b <= 70
}

/// The numeric value of the hexadecimal digit with ASCII code `b`.
pub open spec fn hex_digit_value(b: u8) -> int {
    if 48 <= b <= 57 {
        b - 48
    } else if 97 <= b <= 102 {
        b - 87
    } else {
        b - 55
    }
}

/// `s` is a well-formed hex text: even length, hex digits throughout.
pub open spec fn is_valid_hex(s: Seq<u8>) -> bool {
    &&& s.len() % 2 == 0
    &&& forall|i: int| 0 <= i < s.len() ==> is_hex_digit(#[trigger] s[i])
}

/// The bytes a well-formed hex text denotes: two digits to a byte, the
/// first digit the high nibble.
pub open spec fn hex_decoded(s: Seq<u8>) -> Seq<u8> {
    Seq::new((s.len() / 2) as nat, |i: int| (16 * hex_digit_value(s[2 * i]) + hex_digit_value(s[2 * i + 1])) as u8)
}

/// Relies on hex::decode: it accepts exactly the even-length strings of
/// hexadecimal digits (either case) and turns each digit pair into one
/// byte, high nibble first; on any other input it reports an error.
#[verifier::external_body]
pub fn decode_hex(data: &[u8]) -> (r: Option<Vec<u8>>)
    ensures
        r is Some <==> is_valid_hex(data@),
        r matches Some(bytes) ==> bytes@ == hex_decoded(data@),
{
    hex::decode(data).ok()
}

} // verus!
