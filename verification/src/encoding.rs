//! The two byte-level encodings under the state token: gzip, done by `flate2`,
//! and standard base64 with padding, done by `base64`.

use vstd::prelude::*;

verus! {

/// What `BASE64_STANDARD.encode` writes for some bytes.
pub uninterp spec fn base64_encoded(data: Seq<u8>) -> Seq<char>;

/// What writing a text through a `flate2::write::GzEncoder` at the default
/// level gives: the bytes of the gzip stream, or `None` where that fails.
pub uninterp spec fn gzipped(text: Seq<char>) -> Option<Seq<u8>>;

/// Whether a character is one of the sixty-four of the standard base64
/// alphabet: a letter, a digit, `+` or `/`.
pub open spec fn is_base64_digit(c: char) -> bool {
    'A' <= c <= 'Z' || 'a' <= c <= 'z' || '0' <= c <= '9' || c == '+' || c == '/'
}

/// How many padding characters close the base64 text of `n` bytes.
pub open spec fn base64_padding(n: int) -> int {
    (3 - n % 3) % 3
}

/// Whether a text has the shape of standard base64 that ends in `pad`
/// padding characters: groups of four, characters of the alphabet up to the
/// padding, and `=` from there on.
pub open spec fn is_base64_padded(text: Seq<char>, pad: int) -> bool {
    &&& text.len() % 4 == 0
    &&& 0 <= pad <= 2
    &&& pad <= text.len()
    &&& forall|i: int| 0 <= i < text.len() - pad ==> is_base64_digit(#[trigger] text[i])
    &&& forall|i: int| text.len() - pad <= i < text.len() ==> #[trigger] text[i] == '='
}

/// Whether a text has the shape of standard base64 with padding.
pub open spec fn is_base64_shaped(text: Seq<char>) -> bool {
    exists|pad: int| is_base64_padded(text, pad)
}

/// Whether some bytes begin as a gzip stream begins, with the bytes `1f 8b`.
pub open spec fn begins_as_gzip(data: Seq<u8>) -> bool {
    data.len() >= 2 && data[0] == 0x1f && data[1] == 0x8b
}

/// What `BASE64_STANDARD.decode` reads from a text: the bytes, or `None` where
/// it reports an error.
pub uninterp spec fn base64_decoded(text: Seq<char>) -> Option<Seq<u8>>;

/// What reading a `flate2::read::GzDecoder` over some bytes to a string gives:
/// the text, or `None` where that fails.
pub uninterp spec fn gunzipped(data: Seq<u8>) -> Option<Seq<char>>;

/// The longest input, in bytes, whose base64 form has a length that fits.
pub open spec fn base64_input_limit() -> int {
    (usize::MAX - 4) / 4 * 3
}

/// Calls `Engine::encode` of `base64::prelude::BASE64_STANDARD` and names
/// what it writes. Claims that `BASE64_STANDARD.decode` reads the same bytes
/// back from the text, that the text has four characters for every three
/// bytes begun, and that they are of the standard alphabet, but for the
/// padding that fills the last group.
/// The outside function panics where the encoded length overflows, so longer
/// inputs are left out.
#[verifier::external_body]
pub(crate) fn base64_encode(data: &[u8]) -> (text: String)
    requires
        data@.len() <= base64_input_limit(),
    ensures
        text@ == base64_encoded(data@),
        base64_decoded(text@) == Some(data@),
        text@.len() == 4 * ((data@.len() + 2) / 3),
        is_base64_padded(text@, base64_padding(data@.len() as int)),
{
    base64::Engine::encode(&base64::prelude::BASE64_STANDARD, data)
}

/// Calls `Engine::decode` of `base64::prelude::BASE64_STANDARD` and names the
/// outcome.
#[verifier::external_body]
pub(crate) fn base64_decode(text: &str) -> (data: Option<Vec<u8>>)
    ensures
        match data {
            Some(bytes) => base64_decoded(text@) == Some(bytes@),
            None => base64_decoded(text@) is None,
        },
{
    match base64::Engine::decode(&base64::prelude::BASE64_STANDARD, text.as_bytes()) {
        Ok(bytes) => Some(bytes),
        Err(_) => None,
    }
}

/// Writes a text through a `flate2::write::GzEncoder` at the default level into
/// a vector and finishes the stream, and names the outcome: the encoder takes
/// nothing but the text, and writes a header without time or file name.
/// Claims that, where this succeeds, the bytes begin with the two bytes that
/// begin every gzip header, and that a `GzDecoder` reads the same text back
/// from them.
#[verifier::external_body]
pub(crate) fn gzip(text: &str) -> (data: Option<Vec<u8>>)
    ensures
        match data {
            Some(bytes) => gzipped(text@) == Some(bytes@),
            None => gzipped(text@) is None,
        },
        data matches Some(bytes) ==> begins_as_gzip(bytes@) && gunzipped(bytes@) == Some(text@),
{
    let mut encoder = flate2::write::GzEncoder::new(Vec::new(), flate2::Compression::default());
    match std::io::Write::write_all(&mut encoder, text.as_bytes()) {
        Ok(()) => match encoder.finish() {
            Ok(bytes) => Some(bytes),
            Err(_) => None,
        },
        Err(_) => None,
    }
}

/// Reads a `flate2::read::GzDecoder` over the bytes to a string and names the
/// outcome.
#[verifier::external_body]
pub(crate) fn gunzip(data: &[u8]) -> (text: Option<String>)
    ensures
        match text {
            Some(t) => gunzipped(data@) == Some(t@),
            None => gunzipped(data@) is None,
        },
{
    let mut text = String::new();
    match std::io::Read::read_to_string(&mut flate2::read::GzDecoder::new(data), &mut text) {
        Ok(_) => Some(text),
        Err(_) => None,
    }
}

} // verus!
