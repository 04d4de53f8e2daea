//! Images of a probed file sent as `data:` URLs, in standard base64.
use vstd::prelude::*;

verus! {

/// The character of the standard base64 alphabet (RFC 4648) for `i < 64`:
/// `A`–`Z`, `a`–`z`, `0`–`9`, `+`, `/`.
pub open spec fn base64_digit(i: int) -> char {
    if i < 26 {
        (('A' as int) + i) as char
    } else if i < 52 {
        (('a' as int) + (i - 26)) as char
    } else if i < 62 {
        (('0' as int) + (i - 52)) as char
    } else if i == 62 {
        '+'
    } else {
        '/'
    }
}

/// Standard base64 with padding: each group of three bytes as four
/// characters, a last group of one or two bytes padded with `=`.
pub open spec fn base64_text(b: Seq<u8>) -> Seq<char>
    decreases b.len(),
{
    if b.len() == 0 {
        Seq::empty()
    } else {
        let x0 = b[0] as int;
        let x1 = if b.len() > 1 { b[1] as int } else { 0 };
        let x2 = if b.len() > 2 { b[2] as int } else { 0 };
        if b.len() == 1 {
            seq![base64_digit(x0 / 4), base64_digit((x0 % 4) * 16), '=', '=']
        } else if b.len() == 2 {
            seq![
                base64_digit(x0 / 4),
                base64_digit((x0 % 4) * 16 + x1 / 16),
                base64_digit((x1 % 16) * 4),
                '=',
            ]
        } else {
            seq![
                base64_digit(x0 / 4),
                base64_digit((x0 % 4) * 16 + x1 / 16),
                base64_digit((x1 % 16) * 4 + x2 / 64),
                base64_digit(x2 % 64),
            ] + base64_text(b.skip(3))
        }
    }
}

/// `base64::engine::general_purpose::STANDARD.encode`: the standard alphabet
/// with padding, as the crate's documentation and RFC 4648 section 4 define
/// it. The crate panics when the length of the text overflows `usize`, which
/// `requires` leaves out.
#[verifier::external_body]
pub(crate) fn base64_encode(bytes: &[u8]) -> (r: String)
    requires
        bytes@.len() / 3 * 4 + 4 <= usize::MAX,
    ensures
        r@ == base64_text(bytes@),
{
    base64::Engine::encode(&base64::engine::general_purpose::STANDARD, bytes)
}

/// `data:<mime>;base64,<bytes in base64>`.
pub open spec fn data_url_text(mime: Seq<char>, bytes: Seq<u8>) -> Seq<char> {
    "data:"@ + mime + ";base64,"@ + base64_text(bytes)
}

/// The bytes of a file as a `data:` URL of type `mime`.
pub fn data_url(mime: &str, bytes: &Vec<u8>) -> (r: String)
    requires
        bytes@.len() / 3 * 4 + 4 <= usize::MAX,
    ensures
        r@ == data_url_text(mime@, bytes@),
{
    let mut r = "data:".to_string();
    r.append(mime);
    r.append(";base64,");
    r.append(base64_encode(bytes.as_slice()).as_str());
    r
}

/// Base64 text is four characters for each started group of three bytes.
pub proof fn lemma_base64_len(b: Seq<u8>)
    ensures
        base64_text(b).len() == 4 * ((b.len() + 2) / 3),
    decreases b.len(),
{
    if b.len() > 2 {
        lemma_base64_len(b.skip(3));
    }
}

} // verus!
