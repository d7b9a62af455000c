use vstd::prelude::*;

verus! {

/// The ASCII code of the lower-case hexadecimal digit for `n < 16`.
pub open spec fn hex_digit(n: u8) -> u8 {
    if n < 10 {
        (48 + n) as u8
    } else {
        (87 + n) as u8
    }
}

/// `text` is `0x` followed by two lower-case hexadecimal digits for each
/// byte of `bytes`, high nibble first, all as ASCII codes.
pub open spec fn is_hex_of(bytes: Seq<u8>, text: Seq<u8>) -> bool {
    &&& text.len() == 2 + 2 * bytes.len()
    &&& text[0] == 48u8
    &&& text[1] == 120u8
    &&& forall|i: int|
        0 <= i < bytes.len() ==> text[2 + 2 * i] == hex_digit(#[trigger] bytes[i] / 16) && text[3 + 2 * i]
            == hex_digit(bytes[i] % 16)
}

fn digit(n: u8) -> (r: u8)
    requires
        n < 16,
    ensures
        r == hex_digit(n),
{
    if n < 10 {
        48 + n
    } else {
        87 + n
    }
}

/// `bytes` as `0x` and lower-case hexadecimal digits, in ASCII.
pub fn hex_text(bytes: &[u8]) -> (r: Vec<u8>)
    ensures
        is_hex_of(bytes@, r@),
{
    let mut out: Vec<u8> = Vec::new();
    out.push(48u8);
    out.push(120u8);
    let mut i: usize = 0;
    while i < bytes.len()
        invariant
            i <= bytes@.len(),
            out@.len() == 2 + 2 * i,
            out@[0] == 48u8,
            out@[1] == 120u8,
            forall|k: int|
                0 <= k < i ==> out@[2 + 2 * k] == hex_digit(#[trigger] bytes@[k] / 16) && out@[3 + 2 * k]
                    == hex_digit(bytes@[k] % 16),
        decreases bytes@.len() - i,
    {
        let b = bytes[i];
        out.push(digit(b / 16));
        out.push(digit(b % 16));
        i = i + 1;
    }
    out
}

} // verus!
