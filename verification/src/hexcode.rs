use crate::errors::CryptError;
use vstd::prelude::*;

verus! {

/// The byte is the ASCII code of a hexadecimal digit: `0`-`9`, `A`-`F` or
/// `a`-`f`.
pub open spec fn is_hex_digit(b: u8) -> bool {
    (48 <= b && b <= 57) || (65 <= b && b <= 70) || (97 <= b && b <= 102)
}

/// The numeric value of an ASCII hexadecimal digit.
pub open spec fn hex_digit_value(b: u8) -> u8 {
    if 48 <= b && b <= 57 {
        (b - 48) as u8
    } else if 65 <= b && b <= 70 {
        (b - 65 + 10) as u8
    } else {
        (b - 97 + 10) as u8
    }
}

/// Well-formed hexadecimal text: an even number of bytes, every one a digit.
pub open spec fn valid_hex(s: Seq<u8>) -> bool {
    s.len() % 2 == 0 && forall|i: int| 0 <= i < s.len() ==> is_hex_digit(#[trigger] s[i])
}

/// The byte string that well-formed hexadecimal text denotes: each byte is
/// read from one high and one low digit.
pub open spec fn hex_decoded(s: Seq<u8>) -> Seq<u8> {
    Seq::new(
        (s.len() / 2) as nat,
        |i: int| (hex_digit_value(s[2 * i]) * 16 + hex_digit_value(s[2 * i + 1])) as u8,
    )
}

/// The value of one hexadecimal digit, or `None` for any other byte.
fn hex_digit_value_exec(b: u8) -> (r: Option<u8>)
    ensures
        r is Some <==> is_hex_digit(b),
        is_hex_digit(b) ==> r == Some(hex_digit_value(b)),
        r matches Some(v) ==> v <= 15,
{
    if 48 <= b && b <= 57 {
        Some(b - 48)
    } else if 65 <= b && b <= 70 {
        Some(b - 65 + 10)
    } else if 97 <= b && b <= 102 {
        Some(b - 97 + 10)
    } else {
        None
    }
}

/// Decode hexadecimal text (as bytes) into the byte string it denotes.
/// Fails with `InvalidHex` exactly when the text has odd length or holds a
/// byte that is no hexadecimal digit; both cases are accepted nowhere.
pub fn hex_decode(s: &Vec<u8>) -> (r: Result<Vec<u8>, CryptError>)
    ensures
        valid_hex(s@) ==> (r matches Ok(v) && v@ == hex_decoded(s@)),
        !valid_hex(s@) ==> r == Err::<Vec<u8>, CryptError>(CryptError::InvalidHex),
{
    if s.len() % 2 != 0 {
        return Err(CryptError::InvalidHex);
    }
    let half: usize = s.len() / 2;
    let mut out: Vec<u8> = Vec::new();
    let mut i: usize = 0;
    while i < half
        invariant
            s@.len() <= usize::MAX,
            half == s@.len() / 2,
            s@.len() % 2 == 0,
            i <= half,
            out@.len() == i,
            forall|j: int| 0 <= j < 2 * i ==> is_hex_digit(#[trigger] s@[j]),
            forall|j: int| 0 <= j < i ==> out@[j] == #[trigger] hex_decoded(s@)[j],
        decreases half - i,
    {
        let hi = match hex_digit_value_exec(s[2 * i]) {
            Some(v) => v,
            None => {
                assert(!is_hex_digit(s@[2 * i as int]));
                return Err(CryptError::InvalidHex);
            },
        };
        let lo = match hex_digit_value_exec(s[2 * i + 1]) {
            Some(v) => v,
            None => {
                assert(!is_hex_digit(s@[2 * i as int + 1]));
                return Err(CryptError::InvalidHex);
            },
        };
        out.push(hi * 16 + lo);
        i = i + 1;
    }
    proof {
        assert(valid_hex(s@));
        assert(out@ =~= hex_decoded(s@));
    }
    Ok(out)
}

} // verus!
