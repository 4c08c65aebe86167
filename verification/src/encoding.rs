//! Base64 encoding of binary data (RFC 4648, standard alphabet, with padding).
use vstd::prelude::*;

verus! {

/// The base64 digit for a six-bit value: `A`-`Z`, `a`-`z`, `0`-`9`, `+` and `/`.
pub open spec fn b64_digit(v: int) -> char {
    if v < 26 {
        (65 + v) as char
    } else if v < 52 {
        (97 + (v - 26)) as char
    } else if v < 62 {
        (48 + (v - 52)) as char
    } else if v == 62 {
        '+'
    } else {
        '/'
    }
}

/// The standard base64 encoding of `data`: each group of three bytes becomes four
/// digits, and a last group of one or two bytes is padded with `=` to four.
pub open spec fn base64_encode(data: Seq<u8>) -> Seq<char>
    decreases data.len(),
{
    if data.len() == 0 {
        Seq::empty()
    } else {
        let b0 = data[0] as int;
        let b1 = if data.len() > 1 { data[1] as int } else { 0 };
        let b2 = if data.len() > 2 { data[2] as int } else { 0 };
        if data.len() == 1 {
            seq![b64_digit(b0 / 4), b64_digit((b0 % 4) * 16), '=', '=']
        } else if data.len() == 2 {
            seq![b64_digit(b0 / 4), b64_digit((b0 % 4) * 16 + b1 / 16), b64_digit((b1 % 16) * 4), '=']
        } else {
            seq![
                b64_digit(b0 / 4),
                b64_digit((b0 % 4) * 16 + b1 / 16),
                b64_digit((b1 % 16) * 4 + b2 / 64),
                b64_digit(b2 % 64),
            ] + base64_encode(data.skip(3))
        }
    }
}

/// Four digits for every started group of three bytes: the encoding of `n` bytes
/// is `4 * ceil(n / 3)` characters long.
pub proof fn lemma_base64_len(data: Seq<u8>)
    ensures
        base64_encode(data).len() == (data.len() + 2) / 3 * 4,
    decreases data.len(),
{
    if data.len() > 2 {
        lemma_base64_len(data.skip(3));
    }
}

/// The six-bit value of a base64 digit: the inverse of [`b64_digit`].
pub open spec fn b64_value(c: char) -> int {
    let n = c as int;
    if 65 <= n <= 90 {
        n - 65
    } else if 97 <= n <= 122 {
        n - 71
    } else if 48 <= n <= 57 {
        n + 4
    } else if c == '+' {
        62
    } else {
        63
    }
}

/// The standard base64 decoding of `text`: each group of four digits gives three
/// bytes, and a group that ends in `=` or `==` gives two bytes or one.
pub open spec fn base64_decode(text: Seq<char>) -> Seq<u8>
    decreases text.len(),
{
    if text.len() < 4 {
        Seq::empty()
    } else {
        let v0 = b64_value(text[0]);
        let v1 = b64_value(text[1]);
        let v2 = b64_value(text[2]);
        let v3 = b64_value(text[3]);
        let x0 = (v0 * 4 + v1 / 16) as u8;
        let x1 = ((v1 % 16) * 16 + v2 / 4) as u8;
        let x2 = ((v2 % 4) * 64 + v3) as u8;
        if text[2] == '=' {
            seq![x0]
        } else if text[3] == '=' {
            seq![x0, x1]
        } else {
            seq![x0, x1, x2] + base64_decode(text.skip(4))
        }
    }
}

/// Each six-bit value has a digit, which is not the padding `=` and reads back as the value.
proof fn lemma_digit_value(v: int)
    requires
        0 <= v < 64,
    ensures
        b64_value(b64_digit(v)) == v,
        b64_digit(v) != '=',
{
}

/// Decoding gives back the bytes that were encoded.
pub proof fn lemma_base64_round_trip(data: Seq<u8>)
    ensures
        base64_decode(base64_encode(data)) == data,
    decreases data.len(),
{
    if data.len() > 0 {
        let b0 = data[0] as int;
        let b1 = if data.len() > 1 { data[1] as int } else { 0 };
        let b2 = if data.len() > 2 { data[2] as int } else { 0 };
        let d0 = b0 / 4;
        let d1 = (b0 % 4) * 16 + b1 / 16;
        let d2 = (b1 % 16) * 4 + b2 / 64;
        let d3 = b2 % 64;
        lemma_digit_value(d0);
        lemma_digit_value(d1);
        lemma_digit_value(d2);
        lemma_digit_value(d3);
        lemma_digit_value(b0 % 4 * 16);
        lemma_digit_value((b1 % 16) * 4);
        assert(d0 * 4 + d1 / 16 == b0);
        assert((d1 % 16) * 16 + d2 / 4 == b1);
        assert((d2 % 4) * 64 + d3 == b2);
        let text = base64_encode(data);
        if data.len() == 1 {
            assert(base64_decode(text) =~= data);
        } else if data.len() == 2 {
            assert(base64_decode(text) =~= data);
        } else {
            let rest = data.skip(3);
            lemma_base64_round_trip(rest);
            assert(text.skip(4) =~= base64_encode(rest));
            assert(base64_decode(text) =~= data);
        }
    }
}

/// The length of an encoding fits in memory: four digits per started group of three bytes.
pub open spec fn encodable(len: nat) -> bool {
    (len + 2) / 3 * 4 <= usize::MAX
}

/// Encodes `data` with the standard engine of the `base64` crate
/// (`general_purpose::STANDARD.encode`), which the contract takes to give the
/// encoding that [`base64_encode`] states. That engine panics when the length of
/// the encoding would overflow `usize`, which `requires` leaves out.
#[verifier::external_body]
pub(crate) fn encode_base64(data: &[u8]) -> (r: String)
    requires
        encodable(data@.len()),
    ensures
        r@ == base64_encode(data@),
{
    ::base64::Engine::encode(&::base64::engine::general_purpose::STANDARD, data)
}

} // verus!
