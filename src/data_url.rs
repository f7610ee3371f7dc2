//! PNG bytes handed to the UI as a base64 `data:` URL.
use base64::Engine;
use vstd::prelude::*;

verus! {

/// The character of the standard base64 alphabet for a value below 64.
pub open spec fn b64_char(v: int) -> char {
    seq![
        'A', 'B', 'C', 'D', 'E', 'F', 'G', 'H', 'I', 'J', 'K', 'L', 'M', 'N', 'O', 'P',
        'Q', 'R', 'S', 'T', 'U', 'V', 'W', 'X', 'Y', 'Z', 'a', 'b', 'c', 'd', 'e', 'f',
        'g', 'h', 'i', 'j', 'k', 'l', 'm', 'n', 'o', 'p', 'q', 'r', 's', 't', 'u', 'v',
        'w', 'x', 'y', 'z', '0', '1', '2', '3', '4', '5', '6', '7', '8', '9', '+', '/',
    ][v]
}

/// Standard base64 with `=` padding: each group of three bytes becomes four
/// characters, and a final group of one or two bytes is padded to four.
pub open spec fn base64_of(b: Seq<u8>) -> Seq<char>
    decreases b.len(),
{
    if b.len() == 0 {
        Seq::empty()
    } else if b.len() == 1 {
        seq![b64_char(b[0] as int / 4), b64_char((b[0] as int % 4) * 16), '=', '=']
    } else if b.len() == 2 {
        seq![
            b64_char(b[0] as int / 4),
            b64_char((b[0] as int % 4) * 16 + b[1] as int / 16),
            b64_char((b[1] as int % 16) * 4),
            '=',
        ]
    } else {
        seq![
            b64_char(b[0] as int / 4),
            b64_char((b[0] as int % 4) * 16 + b[1] as int / 16),
            b64_char((b[1] as int % 16) * 4 + b[2] as int / 64),
            b64_char(b[2] as int % 64),
        ] + base64_of(b.skip(3))
    }
}

/// The data URL under which PNG bytes are shown.
pub open spec fn data_url_of(png: Seq<u8>) -> Seq<char> {
    "data:image/png;base64,"@ + base64_of(png)
}

/// Relies on base64's `STANDARD` engine `encode`: the standard alphabet with padding.
#[verifier::external_body]
fn base64_encode(data: &[u8]) -> (r: String)
    ensures
        r@ == base64_of(data@),
{
    base64::engine::general_purpose::STANDARD.encode(data)
}

/// Wraps PNG bytes as `data:image/png;base64,{payload}`.
pub fn png_data_url(png: &[u8]) -> (r: String)
    ensures
        r@ == data_url_of(png@),
{
    let payload = base64_encode(png);
    let prefix = String::from_str("data:image/png;base64,");
    prefix.concat(payload.as_str())
}

} // verus!
