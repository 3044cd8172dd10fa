//! Standard base64 (RFC 4648, with `+`, `/` and `=` padding), as text.

use vstd::prelude::*;

verus! {

pub open spec fn base64_alphabet() -> Seq<char> {
    "ABCDEFGHIJKLMNOPQRSTUVWXYZabcdefghijklmnopqrstuvwxyz0123456789+/"@
}

/// The digit for a six-bit value.
pub open spec fn b64(v: nat) -> char {
    base64_alphabet()[v as int]
}

/// Base64 of a byte string: four digits for each group of three bytes, the
/// last group padded with `=` to four characters.
pub open spec fn base64_text(b: Seq<u8>) -> Seq<char>
    decreases b.len(),
{
    if b.len() == 0 {
        Seq::empty()
    } else if b.len() == 1 {
        let x = b[0] as nat;
        seq![b64(x / 4), b64((x % 4) * 16), '=', '=']
    } else if b.len() == 2 {
        let x = b[0] as nat;
        let y = b[1] as nat;
        seq![b64(x / 4), b64((x % 4) * 16 + y / 16), b64((y % 16) * 4), '=']
    } else {
        let x = b[0] as nat;
        let y = b[1] as nat;
        let z = b[2] as nat;
        seq![b64(x / 4), b64((x % 4) * 16 + y / 16), b64((y % 16) * 4 + z / 64), b64(z % 64)]
            + base64_text(b.subrange(3, b.len() as int))
    }
}

} // verus!
