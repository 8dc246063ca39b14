use vstd::prelude::*;
use vstd::utf8::*;
use base64::Engine;
use crate::types::{Encoding, ExecError, File};

verus! {

/// What base64's `STANDARD` engine decodes `text` to, or `None` where it
/// rejects the text.
pub uninterp spec fn base64_standard_decoding(text: Seq<u8>) -> Option<Seq<u8>>;

/// The value of one hexadecimal digit, in either case.
pub open spec fn hex_digit_value(c: u8) -> Option<u8> {
    if 0x30 <= c <= 0x39 {
        Some((c - 0x30) as u8)
    } else if 0x41 <= c <= 0x46 {
        Some((c - 0x41 + 10) as u8)
    } else if 0x61 <= c <= 0x66 {
        Some((c - 0x61 + 10) as u8)
    } else {
        None
    }
}

/// The bytes that a hexadecimal text stands for: two digits per byte, high
/// nibble first; `None` for an odd length or a character that is no digit.
pub open spec fn hex_decoding(s: Seq<u8>) -> Option<Seq<u8>>
    decreases s.len(),
{
    if s.len() % 2 != 0 {
        None
    } else if s.len() == 0 {
        Some(Seq::empty())
    } else {
        match (hex_digit_value(s[0]), hex_digit_value(s[1]), hex_decoding(s.subrange(2, s.len() as int))) {
            (Some(hi), Some(lo), Some(rest)) => Some(seq![(hi * 16 + lo) as u8] + rest),
            _ => None,
        }
    }
}

/// The lower-case digit for a nibble.
pub open spec fn hex_digit_char(n: u8) -> u8 {
    if n < 10 {
        (0x30 + n) as u8
    } else {
        (0x61 + n - 10) as u8
    }
}

/// The lower-case hexadecimal text of a byte sequence.
pub open spec fn hex_encoding(b: Seq<u8>) -> Seq<u8>
    decreases b.len(),
{
    if b.len() == 0 {
        Seq::empty()
    } else {
        seq![hex_digit_char(b[0] / 16), hex_digit_char(b[0] % 16)] + hex_encoding(b.drop_first())
    }
}

/// The character of the standard base64 alphabet for a six-bit value:
/// `A`-`Z`, `a`-`z`, `0`-`9`, `+`, `/`.
pub open spec fn base64_symbol(n: int) -> u8 {
    if n < 26 {
        (0x41 + n) as u8
    } else if n < 52 {
        (0x61 + n - 26) as u8
    } else if n < 62 {
        (0x30 + n - 52) as u8
    } else if n == 62 {
        0x2b
    } else {
        0x2f
    }
}

/// The standard base64 text of a byte sequence: every three bytes become
/// four symbols, a final group of one or two bytes is read as if followed by
/// zero bytes, and the symbols that stand for none of its bits become `=`.
pub open spec fn base64_encoding(b: Seq<u8>) -> Seq<u8>
    decreases b.len(),
{
    if b.len() == 0 {
        Seq::empty()
    } else {
        let x = b[0] as int;
        let y = if b.len() > 1 { b[1] as int } else { 0 };
        let z = if b.len() > 2 { b[2] as int } else { 0 };
        let group = seq![
            base64_symbol(x / 4),
            base64_symbol((x % 4) * 16 + y / 16),
            if b.len() > 1 { base64_symbol((y % 16) * 4 + z / 64) } else { 0x3du8 },
            if b.len() > 2 { base64_symbol(z % 64) } else { 0x3du8 },
        ];
        if b.len() <= 3 {
            group
        } else {
            group + base64_encoding(b.subrange(3, b.len() as int))
        }
    }
}

proof fn lemma_base64_encoding_ascii(b: Seq<u8>)
    ensures
        forall|i: int| 0 <= i < base64_encoding(b).len() ==> #[trigger] base64_encoding(b)[i] < 0x80,
    decreases b.len(),
{
    if b.len() > 3 {
        let rest = b.subrange(3, b.len() as int);
        lemma_base64_encoding_ascii(rest);
        assert forall|i: int| 0 <= i < base64_encoding(b).len() implies #[trigger] base64_encoding(b)[i] < 0x80 by {
            if i >= 4 {
                assert(base64_encoding(b)[i] == base64_encoding(rest)[i - 4]);
            }
        }
    }
}

/// What a file's content decodes to under its declared encoding (`None`
/// meaning plain UTF-8 text), or `None` where decoding fails. Encoded text
/// must itself be well-formed UTF-8.
pub open spec fn decoded_content(content: Seq<u8>, encoding: Option<Encoding>) -> Option<Seq<u8>> {
    match encoding {
        Some(Encoding::Base64) => if valid_utf8(content) {
            base64_standard_decoding(content)
        } else {
            None
        },
        Some(Encoding::Hex) => if valid_utf8(content) {
            hex_decoding(content)
        } else {
            None
        },
        _ => Some(content),
    }
}

proof fn lemma_hex_digit_round_trip(n: u8)
    requires
        n < 16,
    ensures
        hex_digit_value(hex_digit_char(n)) == Some(n),
{
}

proof fn lemma_hex_encoding_ascii(b: Seq<u8>)
    ensures
        hex_encoding(b).len() == 2 * b.len(),
        forall|i: int| 0 <= i < hex_encoding(b).len() ==> #[trigger] hex_encoding(b)[i] < 0x80,
    decreases b.len(),
{
    if b.len() > 0 {
        lemma_hex_encoding_ascii(b.drop_first());
        let head = seq![hex_digit_char(b[0] / 16), hex_digit_char(b[0] % 16)];
        assert forall|i: int| 0 <= i < hex_encoding(b).len() implies #[trigger] hex_encoding(b)[i] < 0x80 by {
            if i >= 2 {
                assert(hex_encoding(b)[i] == hex_encoding(b.drop_first())[i - 2]);
            }
        }
    }
}

proof fn lemma_hex_decoding_of_encoding(b: Seq<u8>)
    ensures
        hex_decoding(hex_encoding(b)) == Some(b),
    decreases b.len(),
{
    lemma_hex_encoding_ascii(b);
    if b.len() > 0 {
        let e = hex_encoding(b);
        let rest = b.drop_first();
        lemma_hex_decoding_of_encoding(rest);
        lemma_hex_encoding_ascii(rest);
        let hi = (b[0] / 16) as u8;
        let lo = (b[0] % 16) as u8;
        lemma_hex_digit_round_trip(hi);
        lemma_hex_digit_round_trip(lo);
        assert(e.subrange(2, e.len() as int) =~= hex_encoding(rest));
        assert((hi * 16 + lo) as u8 == b[0]);
        assert(seq![b[0]] + rest =~= b);
    } else {
        assert(hex_encoding(b) =~= Seq::<u8>::empty());
        assert(b =~= Seq::<u8>::empty());
    }
}

proof fn lemma_ascii_is_utf8(s: Seq<u8>)
    requires
        forall|i: int| 0 <= i < s.len() ==> #[trigger] s[i] < 0x80,
    ensures
        valid_utf8(s),
{
    assert(s.subrange(0, 0) =~= Seq::<u8>::empty());
    assert(valid_utf8(Seq::<u8>::empty()));
    assert(forall|i: int| 0 <= i < s.len() ==> #[trigger] is_leading_byte_width_1(s[i]));
    partial_valid_utf8_extend_ascii_block(s, 0, s.len() as int);
    assert(s.subrange(0, s.len() as int) =~= s);
}

/// Relies on `String::from_utf8`: it accepts exactly the well-formed UTF-8
/// byte sequences and keeps the characters they encode; the error's text is
/// handed back on failure.
#[verifier::external_body]
pub(crate) fn utf8_text(bytes: &Vec<u8>) -> (r: Result<String, String>)
    ensures
        match r {
            Ok(s) => valid_utf8(bytes@) && s@ == decode_utf8(bytes@),
            Err(_) => !valid_utf8(bytes@),
        },
{
    match String::from_utf8(bytes.clone()) {
        Ok(s) => Ok(s),
        Err(e) => Err(e.to_string()),
    }
}

/// Relies on base64's `STANDARD` engine `decode`, whose result depends on the
/// input bytes alone, and which gives back the bytes of any text that the
/// same engine's `encode` produces; the error's text is handed back on
/// failure.
#[verifier::external_body]
fn base64_standard_decode(text: &Vec<u8>) -> (r: Result<Vec<u8>, String>)
    ensures
        match r {
            Ok(v) => base64_standard_decoding(text@) == Some(v@),
            Err(_) => base64_standard_decoding(text@) is None,
        },
        r is Err ==> forall|b: Seq<u8>| #[trigger] base64_encoding(b) != text@,
        r matches Ok(v) ==> forall|b: Seq<u8>| #[trigger] base64_encoding(b) == text@ ==> v@ == b,
{
    match base64::engine::general_purpose::STANDARD.decode(text) {
        Ok(v) => Ok(v),
        Err(e) => Err(e.to_string()),
    }
}

/// Relies on `hex::decode`: digit pairs of either case, high nibble first,
/// and an error for an odd length or a non-digit.
#[verifier::external_body]
fn hex_decode(text: &Vec<u8>) -> (r: Result<Vec<u8>, String>)
    ensures
        match r {
            Ok(v) => hex_decoding(text@) == Some(v@),
            Err(_) => hex_decoding(text@) is None,
        },
{
    match hex::decode(text) {
        Ok(v) => Ok(v),
        Err(e) => Err(e.to_string()),
    }
}

/// Builds an internal error whose message is `prefix` followed by `detail`.
pub(crate) fn internal_error(prefix: &str, detail: &String) -> (r: ExecError)
    ensures
        r matches ExecError::Internal(m) && m@ == prefix@ + detail@,
{
    let mut m = prefix.to_owned();
    m.append(detail.as_str());
    ExecError::Internal(m)
}

/// Decodes a file's content according to its declared encoding.
pub fn decode_content(file: &File) -> (r: Result<Vec<u8>, ExecError>)
    ensures
        match r {
            Ok(v) => decoded_content(file.content@, file.encoding) == Some(v@),
            Err(e) => decoded_content(file.content@, file.encoding) is None && e is Internal,
        },
        forall|b: Seq<u8>|
            file.encoding == Some(Encoding::Base64) && file.content@ == #[trigger] base64_encoding(b)
                ==> (r matches Ok(v) && v@ == b),
        forall|b: Seq<u8>|
            file.encoding == Some(Encoding::Hex) && file.content@ == #[trigger] hex_encoding(b)
                ==> (r matches Ok(v) && v@ == b),
{
    proof {
        assert forall|b: Seq<u8>| file.content@ == #[trigger] base64_encoding(b) implies valid_utf8(file.content@) by {
            lemma_base64_encoding_ascii(b);
            lemma_ascii_is_utf8(base64_encoding(b));
        }
        assert forall|b: Seq<u8>| file.content@ == #[trigger] hex_encoding(b) implies valid_utf8(file.content@)
            && hex_decoding(file.content@) == Some(b) by {
            lemma_hex_encoding_ascii(b);
            lemma_ascii_is_utf8(hex_encoding(b));
            lemma_hex_decoding_of_encoding(b);
        }
    }
    match file.encoding {
        Some(Encoding::Base64) => {
            match utf8_text(&file.content) {
                Err(detail) => Err(internal_error("Invalid UTF-8 in base64 content: ", &detail)),
                Ok(_) => match base64_standard_decode(&file.content) {
                    Ok(v) => Ok(v),
                    Err(detail) => Err(internal_error("Base64 decode error: ", &detail)),
                },
            }
        },
        Some(Encoding::Hex) => {
            match utf8_text(&file.content) {
                Err(detail) => Err(internal_error("Invalid UTF-8 in hex content: ", &detail)),
                Ok(_) => match hex_decode(&file.content) {
                    Ok(v) => Ok(v),
                    Err(detail) => Err(internal_error("Hex decode error: ", &detail)),
                },
            }
        },
        _ => Ok(file.content.clone()),
    }
}

} // verus!
