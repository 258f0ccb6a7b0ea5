//! Base64 as images travel in JSON: the standard alphabet with padding.
use vstd::prelude::*;

verus! {

/// The character of a six-bit value in the standard alphabet.
pub open spec fn base64_digit(v: int) -> char {
    if v < 26 {
        (65 + v) as char
    } else if v < 52 {
        (97 + v - 26) as char
    } else if v < 62 {
        (48 + v - 52) as char
    } else if v == 62 {
        '+'
    } else {
        '/'
    }
}

/// Standard base64 with `=` padding: every three bytes become four
/// characters, six bits each, most significant first; a final one or two
/// bytes are padded to four characters with `=`.
pub open spec fn base64_standard(b: Seq<u8>) -> Seq<char>
    decreases b.len(),
{
    if b.len() == 0 {
        seq![]
    } else if b.len() == 1 {
        let n = b[0] as int * 65536;
        seq![base64_digit(n / 262144), base64_digit((n / 4096) % 64), '=', '=']
    } else if b.len() == 2 {
        let n = b[0] as int * 65536 + b[1] as int * 256;
        seq![base64_digit(n / 262144), base64_digit((n / 4096) % 64), base64_digit((n / 64) % 64), '=']
    } else {
        let n = b[0] as int * 65536 + b[1] as int * 256 + b[2] as int;
        seq![
            base64_digit(n / 262144),
            base64_digit((n / 4096) % 64),
            base64_digit((n / 64) % 64),
            base64_digit(n % 64),
        ] + base64_standard(b.subrange(3, b.len() as int))
    }
}

/// Calls `Engine::encode` of `base64::engine::general_purpose::STANDARD`: the
/// standard alphabet with padding.
#[verifier::external_body]
fn encode_standard(bytes: &[u8]) -> (r: String)
    ensures
        r@ == base64_standard(bytes@),
{
    base64::Engine::encode(&base64::engine::general_purpose::STANDARD, bytes)
}

/// Calls `Engine::decode` of `base64::engine::general_purpose::STANDARD`,
/// whose configuration requires canonical padding and no trailing bits: it
/// succeeds exactly on the texts that encoding some bytes gives, and gives
/// those bytes.
#[verifier::external_body]
fn decode_standard(text: &str) -> (r: Option<Vec<u8>>)
    ensures
        r matches Some(b) ==> base64_standard(b@) == text@,
        r is None ==> forall|b: Seq<u8>| #[trigger] base64_standard(b) != text@,
{
    base64::Engine::decode(&base64::engine::general_purpose::STANDARD, text).ok()
}

/// The standard base64 text of some bytes.
pub fn encode_base64(bytes: &[u8]) -> (r: String)
    ensures
        r@ == base64_standard(bytes@),
{
    encode_standard(bytes)
}

/// The bytes whose standard base64 text `text` is; `None` when it is no such
/// text.
pub fn decode_base64(text: &str) -> (r: Option<Vec<u8>>)
    ensures
        r matches Some(b) ==> base64_standard(b@) == text@,
        r is None <==> forall|b: Seq<u8>| #[trigger] base64_standard(b) != text@,
{
    decode_standard(text)
}

} // verus!
