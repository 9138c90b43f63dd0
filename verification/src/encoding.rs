//! Encodings and parsers that other crates compute for the tools:
//! percent-encoding, base64, URL parsing and JSON text.

use vstd::prelude::*;
use base64::Engine;
use crate::text::strings_view;

verus! {

/// Whether percent-encoding leaves the byte `b` as it is: letters, digits,
/// and `-`, `.`, `_`, `~`.
pub open spec fn is_unreserved(b: u8) -> bool {
    ||| 0x30 <= b <= 0x39
    ||| 0x41 <= b <= 0x5a
    ||| 0x61 <= b <= 0x7a
    ||| b == 0x2d
    ||| b == 0x2e
    ||| b == 0x5f
    ||| b == 0x7e
}

/// The upper-case hexadecimal digit for `d`, a number below sixteen.
pub open spec fn hex_digit(d: u8) -> char {
    if d < 10 {
        (0x30 + d) as char
    } else {
        (0x41 + d - 10) as char
    }
}

/// One byte, percent-encoded: itself where it is unreserved, and else `%`
/// with its two hexadecimal digits.
pub open spec fn percent_encoded_byte(b: u8) -> Seq<char> {
    if is_unreserved(b) {
        seq![b as char]
    } else {
        seq!['%', hex_digit(b / 16), hex_digit(b % 16)]
    }
}

/// The bytes `bytes`, percent-encoded one by one.
pub open spec fn percent_encoded(bytes: Seq<u8>) -> Seq<char>
    decreases bytes.len(),
{
    if bytes.len() == 0 {
        Seq::empty()
    } else {
        percent_encoded_byte(bytes[0]) + percent_encoded(bytes.drop_first())
    }
}

/// The text `text`, percent-encoded byte by byte in its UTF-8 form.
pub open spec fn url_encoded(text: Seq<char>) -> Seq<char> {
    percent_encoded(vstd::utf8::encode_utf8(text))
}

/// Whether percent-encoding leaves the character `c` as it is.
pub open spec fn is_unreserved_char(c: char) -> bool {
    ||| '0' <= c <= '9'
    ||| 'A' <= c <= 'Z'
    ||| 'a' <= c <= 'z'
    ||| c == '-'
    ||| c == '.'
    ||| c == '_'
    ||| c == '~'
}

/// Bytes that are all unreserved are encoded as themselves.
pub proof fn lemma_unreserved_bytes_are_kept(bytes: Seq<u8>)
    requires
        forall|i: int| 0 <= i < bytes.len() ==> is_unreserved(#[trigger] bytes[i]),
    ensures
        percent_encoded(bytes).len() == bytes.len(),
        forall|i: int|
            0 <= i < bytes.len() ==> #[trigger] percent_encoded(bytes)[i] == bytes[i] as char,
    decreases bytes.len(),
{
    if bytes.len() > 0 {
        let rest = bytes.drop_first();
        assert forall|i: int| 0 <= i < rest.len() implies is_unreserved(#[trigger] rest[i]) by {
            assert(rest[i] == bytes[i + 1]);
        }
        lemma_unreserved_bytes_are_kept(rest);
        assert forall|i: int| 0 <= i < bytes.len() implies #[trigger] percent_encoded(bytes)[i]
            == bytes[i] as char by {
            if i > 0 {
                assert(percent_encoded(bytes)[i] == percent_encoded(rest)[i - 1]);
                assert(rest[i - 1] == bytes[i]);
            }
        }
    }
}

/// Text that is made of letters, digits and `-`, `.`, `_`, `~` is encoded as
/// itself.
pub proof fn lemma_unreserved_text_is_kept(text: Seq<char>)
    requires
        forall|i: int| 0 <= i < text.len() ==> is_unreserved_char(#[trigger] text[i]),
    ensures
        url_encoded(text) == text,
{
    assert(vstd::utf8::is_ascii_chars(text)) by {
        assert forall|i: int| 0 <= i < text.len() implies '\0' <= #[trigger] text[i]
            <= '\u{7f}' by {
            assert(is_unreserved_char(text[i]));
        }
    }
    vstd::utf8::is_ascii_chars_encode_utf8(text);
    let bytes = vstd::utf8::encode_utf8(text);
    assert forall|i: int| 0 <= i < bytes.len() implies is_unreserved(#[trigger] bytes[i]) by {
        assert(is_unreserved_char(text[i]));
        assert(text[i] as u8 == bytes[i]);
    }
    lemma_unreserved_bytes_are_kept(bytes);
    assert forall|i: int| 0 <= i < text.len() implies url_encoded(text)[i] == text[i] by {
        assert(is_unreserved_char(text[i]));
        assert(text[i] as u8 == bytes[i]);
        assert(percent_encoded(bytes)[i] == bytes[i] as char);
    }
    assert(url_encoded(text) =~= text);
}

/// Percent-encodes `text` for use in a URL.
///
/// Wraps `urlencoding::encode`, which encodes the UTF-8 bytes of the text
/// one by one: every byte but letters, digits and `-`, `.`, `_`, `~` becomes
/// `%` and two upper-case hexadecimal digits.
#[verifier::external_body]
pub(crate) fn percent_encode(text: &str) -> (encoded: String)
    ensures
        encoded@ == url_encoded(text@),
{
    urlencoding::encode(text).into_owned()
}

/// The standard base64 encoding of `bytes`, with padding.
pub uninterp spec fn base64_standard(bytes: Seq<u8>) -> Seq<char>;

/// Encodes `bytes` in base64.
///
/// Wraps `encode` of the `base64` crate's `STANDARD` engine: the result is
/// the standard encoding of the bytes, with padding. The contract gives
/// that encoding a name and says no more of it.
#[verifier::external_body]
pub(crate) fn base64_encode(bytes: &Vec<u8>) -> (encoded: String)
    ensures
        encoded@ == base64_standard(bytes@),
{
    base64::engine::general_purpose::STANDARD.encode(bytes)
}

/// What parsing `text` as an absolute URL gives: the path of the URL, or
/// the message of the parser's error.
pub uninterp spec fn parsed_url_path(text: Seq<char>) -> Result<Seq<char>, Seq<char>>;

/// Parses `text` as an absolute URL and hands back its path.
///
/// Wraps `url::Url::parse` and `Url::path`; a parse error is handed back as
/// its message. The contract gives the result a name and says no more of
/// it.
#[verifier::external_body]
pub(crate) fn url_path(text: &str) -> (parsed: Result<String, String>)
    ensures
        match parsed {
            Ok(path) => parsed_url_path(text@) == Ok::<Seq<char>, Seq<char>>(path@),
            Err(message) => parsed_url_path(text@) == Err::<Seq<char>, Seq<char>>(message@),
        },
{
    match url::Url::parse(text) {
        Ok(url) => Ok(url.path().to_string()),
        Err(error) => Err(error.to_string()),
    }
}

/// The JSON text of an array of the strings `items`, or the message of the
/// error where they cannot be written.
pub uninterp spec fn json_of_strings(items: Seq<Seq<char>>) -> Result<Seq<char>, Seq<char>>;

/// Writes `items` as a JSON array of strings.
///
/// Wraps `serde_json::to_string`; an error is handed back as its message.
/// The contract gives the result a name and says no more of it.
#[verifier::external_body]
pub(crate) fn write_json_strings(items: &Vec<String>) -> (written: Result<String, String>)
    ensures
        match written {
            Ok(text) => json_of_strings(strings_view(items@)) == Ok::<Seq<char>, Seq<char>>(text@),
            Err(message) => json_of_strings(strings_view(items@)) == Err::<Seq<char>, Seq<char>>(
                message@,
            ),
        },
{
    match serde_json::to_string(items) {
        Ok(text) => Ok(text),
        Err(error) => Err(error.to_string()),
    }
}

} // verus!
