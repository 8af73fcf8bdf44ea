//! Bearer credential codec.
//!
//! A credential is the base64 text of the UTF-8 bytes of `session_id:payload`.
//! In a transport header it is prefixed with the scheme label `Bearer `; decoding
//! accepts it with or without that label.

use vstd::prelude::*;
use vstd::string::*;
use vstd::utf8::*;

verus! {

/// Why a credential could not be decoded.
#[derive(Clone, Copy, Debug, PartialEq, Eq, Structural)]
pub enum CodecError {
    /// The transport encoding is malformed, or the decoded bytes are not UTF-8.
    InvalidEncoding,
    /// The decoded text holds no delimiter.
    MissingDelimiter,
}

/// The character that separates the session id from the payload.
pub const DELIMITER: char = ':';

/// The scheme label that precedes a credential in a transport header.
pub open spec fn scheme_label() -> Seq<char> {
    seq!['B', 'e', 'a', 'r', 'e', 'r', ' ']
}

/// A header value without its scheme label, if it has one.
pub open spec fn without_scheme(credential: Seq<char>) -> Seq<char> {
    if scheme_label().is_prefix_of(credential) {
        credential.skip(7)
    } else {
        credential
    }
}

/// The text that is encoded for transport: the id, the delimiter, the payload.
pub open spec fn joined(session_id: Seq<char>, payload: Seq<char>) -> Seq<char> {
    session_id.push(DELIMITER) + payload
}

/// True when `i` is the position of the first delimiter in `text`.
pub open spec fn is_first_delimiter(text: Seq<char>, i: int) -> bool {
    &&& 0 <= i < text.len()
    &&& text[i] == DELIMITER
    &&& forall|j: int| 0 <= j < i ==> text[j] != DELIMITER
}

/// The two parts of `text` around its first delimiter.
pub open spec fn split_spec(text: Seq<char>) -> Result<(Seq<char>, Seq<char>), CodecError> {
    if text.contains(DELIMITER) {
        let i = choose|i: int| is_first_delimiter(text, i);
        Ok((text.take(i), text.skip(i + 1)))
    } else {
        Err(CodecError::MissingDelimiter)
    }
}

/// What transport-decoded bytes stand for: they must be UTF-8 and hold a delimiter.
pub open spec fn payload_spec(bytes: Seq<u8>) -> Result<(Seq<char>, Seq<char>), CodecError> {
    if valid_utf8(bytes) {
        split_spec(decode_utf8(bytes))
    } else {
        Err(CodecError::InvalidEncoding)
    }
}

/// The standard base64 text of a byte sequence, as the `base64` crate produces it.
pub uninterp spec fn base64_text(bytes: Seq<u8>) -> Seq<char>;

/// The bytes that a text stands for in standard base64, as the `base64` crate
/// reads it; `None` where the crate rejects the text.
pub uninterp spec fn base64_bytes(text: Seq<char>) -> Option<Seq<u8>>;

/// A character of the standard base64 alphabet, padding included.
pub open spec fn is_base64_char(c: char) -> bool {
    ||| 'A' <= c <= 'Z'
    ||| 'a' <= c <= 'z'
    ||| '0' <= c <= '9'
    ||| c == '+'
    ||| c == '/'
    ||| c == '='
}

/// The length of the padded base64 text of `n` bytes.
pub open spec fn base64_len(n: nat) -> nat {
    ((n + 2) / 3 * 4) as nat
}

/// True when the transport decoder can take a text of this size: its length
/// in bytes, rounded up to whole groups of eight, must be a machine word.
pub open spec fn transport_text_fits(text: Seq<char>) -> bool {
    encode_utf8(text).len() + 7 <= usize::MAX
}

/// True when the pair can be encoded and its credential decoded again: the
/// credential must be of a size that the transport decoder can take.
pub open spec fn pair_fits(session_id: Seq<char>, payload: Seq<char>) -> bool {
    base64_len(encode_utf8(joined(session_id, payload)).len()) + 7 <= usize::MAX
}

/// True when `credential` is the transport encoding of the pair.
pub open spec fn is_credential_for(
    credential: Seq<char>,
    session_id: Seq<char>,
    payload: Seq<char>,
) -> bool {
    let bytes = encode_utf8(joined(session_id, payload));
    &&& credential == base64_text(bytes)
    &&& base64_bytes(credential) == Some(bytes)
    &&& credential.len() == base64_len(bytes.len())
    &&& forall|i: int| 0 <= i < credential.len() ==> is_base64_char(#[trigger] credential[i])
}

/// What a credential decodes to. The scheme label is dropped if present, the
/// transport encoding is reversed, and the text is split at its first delimiter.
pub open spec fn decode_spec(credential: Seq<char>) -> Result<(Seq<char>, Seq<char>), CodecError> {
    let text = without_scheme(credential);
    if !transport_text_fits(text) {
        Err(CodecError::InvalidEncoding)
    } else {
        match base64_bytes(text) {
            Some(bytes) => payload_spec(bytes),
            None => Err(CodecError::InvalidEncoding),
        }
    }
}

/// The view of a decoding result: both strings as character sequences.
pub open spec fn pair_view(r: Result<(String, String), CodecError>) -> Result<
    (Seq<char>, Seq<char>),
    CodecError,
> {
    match r {
        Ok((session_id, payload)) => Ok((session_id@, payload@)),
        Err(e) => Err(e),
    }
}

/// The error of `base64::decode`. It is carried through unread.
#[verifier::external_type_specification]
#[verifier::external_body]
pub struct ExDecodeError(base64::DecodeError);

/// The error of `String::from_utf8`. It is carried through unread.
#[verifier::external_type_specification]
#[verifier::external_body]
pub struct ExFromUtf8Error(std::string::FromUtf8Error);

/// `base64::encode`: the padded text in the standard alphabet. The crate reads
/// its own output back to the bytes it was given; the output has four characters
/// for every three bytes, rounded up, all of the standard alphabet.
/// The crate panics where that length is no machine word.
#[verifier::external_body]
fn base64_encode(bytes: &[u8]) -> (text: String)
    requires
        bytes@.len() / 3 * 4 + 4 <= usize::MAX,
    ensures
        text@ == base64_text(bytes@),
        base64_bytes(text@) == Some(bytes@),
        text@.len() == base64_len(bytes@.len()),
        forall|i: int| 0 <= i < text@.len() ==> is_base64_char(#[trigger] text@[i]),
{
    base64::encode(bytes)
}

/// `base64::decode`: the bytes of a text in the standard alphabet, or the
/// crate's error where it rejects the text. The crate panics where the length
/// of the text plus seven is no machine word.
#[verifier::external_body]
fn base64_decode(text: &str) -> (r: Result<Vec<u8>, base64::DecodeError>)
    requires
        transport_text_fits(text@),
    ensures
        match r {
            Ok(bytes) => base64_bytes(text@) == Some(bytes@),
            Err(_) => base64_bytes(text@) is None,
        },
{
    base64::decode(text)
}

/// `String::from_utf8`: the text of the bytes where they are valid UTF-8, an
/// error where they are not.
#[verifier::external_body]
fn string_from_utf8(bytes: Vec<u8>) -> (r: Result<String, std::string::FromUtf8Error>)
    ensures
        r is Ok <==> valid_utf8(bytes@),
        r matches Ok(text) ==> text@ == decode_utf8(bytes@),
{
    String::from_utf8(bytes)
}

/// A text has at most one first delimiter.
pub proof fn lemma_first_delimiter_unique(text: Seq<char>, i: int, j: int)
    requires
        is_first_delimiter(text, i),
        is_first_delimiter(text, j),
    ensures
        i == j,
{
}

/// Splitting a joined pair gives the pair back when the id holds no delimiter.
pub proof fn lemma_split_joined(session_id: Seq<char>, payload: Seq<char>)
    requires
        !session_id.contains(DELIMITER),
    ensures
        split_spec(joined(session_id, payload)) == Ok::<_, CodecError>((session_id, payload)),
{
    let text = joined(session_id, payload);
    let n = session_id.len() as int;
    assert(text[n] == DELIMITER);
    assert forall|j: int| 0 <= j < n implies text[j] != DELIMITER by {
        assert(text[j] == session_id[j]);
    }
    assert(is_first_delimiter(text, n));
    assert(text.contains(DELIMITER));
    let i = choose|i: int| is_first_delimiter(text, i);
    lemma_first_delimiter_unique(text, i, n);
    assert(text.take(n) =~= session_id);
    assert(text.skip(n + 1) =~= payload);
}

/// The position of the first occurrence of `c` in `text`, counted in characters.
pub fn find_char(text: &str, c: char) -> (r: Option<usize>)
    ensures
        r is None <==> !text@.contains(c),
        r matches Some(i) ==> {
            &&& i < text@.len()
            &&& text@[i as int] == c
            &&& forall|j: int| 0 <= j < i ==> text@[j] != c
        },
{
    let n = text.unicode_len();
    let mut i: usize = 0;
    for d in it: text.chars()
        invariant
            i == it.index(),
            it.seq() == text@,
            n == text@.len(),
            forall|j: int| 0 <= j < i ==> text@[j] != c,
    {
        if d == c {
            return Some(i);
        }
        i = i + 1;
    }
    None
}

/// Drops the scheme label from a header value, if it is there.
pub fn strip_scheme<'a>(credential: &'a str) -> (text: &'a str)
    ensures
        text@ == without_scheme(credential@),
{
    let n = credential.unicode_len();
    if n < 7 {
        return credential;
    }
    let labelled = credential.get_char(0) == 'B' && credential.get_char(1) == 'e'
        && credential.get_char(2) == 'a' && credential.get_char(3) == 'r'
        && credential.get_char(4) == 'e' && credential.get_char(5) == 'r'
        && credential.get_char(6) == ' ';
    proof {
        let front = credential@.subrange(0, 7);
        if labelled {
            assert(scheme_label() =~= front);
        } else {
            let k = choose|k: int| 0 <= k < 7 && credential@[k] != scheme_label()[k];
            assert(front[k] == credential@[k]);
        }
    }
    if labelled {
        credential.substring_char(7, n)
    } else {
        credential
    }
}

/// Splits a decoded text at its first delimiter.
pub fn split_pair(text: &str) -> (r: Result<(String, String), CodecError>)
    ensures
        pair_view(r) == split_spec(text@),
{
    match find_char(text, DELIMITER) {
        None => Err(CodecError::MissingDelimiter),
        Some(i) => {
            let n = text.unicode_len();
            let session_id = text.substring_char(0, i).to_owned();
            let payload = text.substring_char(i + 1, n).to_owned();
            proof {
                assert(is_first_delimiter(text@, i as int));
                let k = choose|k: int| is_first_delimiter(text@, k);
                lemma_first_delimiter_unique(text@, k, i as int);
            }
            Ok((session_id, payload))
        },
    }
}

/// Reads the pair out of transport-decoded bytes.
pub fn decode_payload(bytes: Vec<u8>) -> (r: Result<(String, String), CodecError>)
    ensures
        pair_view(r) == payload_spec(bytes@),
{
    match string_from_utf8(bytes) {
        Ok(text) => split_pair(text.as_str()),
        Err(_) => Err(CodecError::InvalidEncoding),
    }
}

/// Encodes a session id and a payload as one opaque, header-safe credential.
///
/// Where the id holds no delimiter, the credential decodes to the same pair.
pub fn encode(session_id: &str, payload: &str) -> (credential: String)
    requires
        pair_fits(session_id@, payload@),
    ensures
        is_credential_for(credential@, session_id@, payload@),
        !session_id@.contains(DELIMITER) ==> decode_spec(credential@) == Ok::<_, CodecError>(
            (session_id@, payload@),
        ),
{
    let text = String::from_str(session_id).concat(":").concat(payload);
    proof {
        reveal_strlit(":");
        assert(text@ =~= joined(session_id@, payload@));
    }
    let credential = base64_encode(text.as_str().as_bytes());
    proof {
        if !session_id@.contains(DELIMITER) {
            law_round_trip(credential@, session_id@, payload@);
        }
    }
    credential
}

/// Encodes a pair of any size: `None` where the credential would be too long
/// for the transport decoder, the credential of `encode` otherwise.
pub fn try_encode(session_id: &str, payload: &str) -> (r: Option<String>)
    ensures
        r is Some <==> pair_fits(session_id@, payload@),
        r matches Some(credential) ==> {
            &&& is_credential_for(credential@, session_id@, payload@)
            &&& !session_id@.contains(DELIMITER) ==> decode_spec(credential@) == Ok::<
                _,
                CodecError,
            >((session_id@, payload@))
        },
{
    let text = String::from_str(session_id).concat(":").concat(payload);
    proof {
        reveal_strlit(":");
        assert(text@ =~= joined(session_id@, payload@));
    }
    let bytes = text.as_str().as_bytes();
    let n = bytes.len();
    let groups = if n % 3 == 0 {
        n / 3
    } else {
        n / 3 + 1
    };
    if groups > (usize::MAX - 7) / 4 {
        return None;
    }
    let credential = base64_encode(bytes);
    proof {
        if !session_id@.contains(DELIMITER) {
            law_round_trip(credential@, session_id@, payload@);
        }
    }
    Some(credential)
}

/// Decodes a credential, with or without its scheme label, into its session id
/// and payload. A text too long for the transport decoder counts as malformed.
pub fn decode(credential: &str) -> (r: Result<(String, String), CodecError>)
    ensures
        pair_view(r) == decode_spec(credential@),
{
    let text = strip_scheme(credential);
    if text.as_bytes().len() > usize::MAX - 7 {
        return Err(CodecError::InvalidEncoding);
    }
    match base64_decode(text) {
        Ok(bytes) => decode_payload(bytes),
        Err(_) => Err(CodecError::InvalidEncoding),
    }
}

/// Round trip: the transport encoding of a pair whose id holds no delimiter
/// decodes to that pair.
pub proof fn law_round_trip(credential: Seq<char>, session_id: Seq<char>, payload: Seq<char>)
    requires
        pair_fits(session_id, payload),
        is_credential_for(credential, session_id, payload),
        !session_id.contains(DELIMITER),
    ensures
        decode_spec(credential) == Ok::<_, CodecError>((session_id, payload)),
{
    let text = joined(session_id, payload);
    let bytes = encode_utf8(text);
    // No base64 character is a space, so the credential carries no scheme label.
    if credential.len() >= 7 {
        assert(is_base64_char(credential[6]));
        assert(credential.subrange(0, 7)[6] == credential[6]);
    }
    assert(without_scheme(credential) == credential);
    lemma_base64_text_fits(credential);
    encode_utf8_valid_utf8(text);
    encode_utf8_decode_utf8(text);
    lemma_split_joined(session_id, payload);
}

/// A text of base64 characters takes one byte for each character.
pub proof fn lemma_base64_text_fits(credential: Seq<char>)
    requires
        credential.len() + 7 <= usize::MAX,
        forall|i: int| 0 <= i < credential.len() ==> is_base64_char(#[trigger] credential[i]),
    ensures
        transport_text_fits(credential),
{
    assert(is_ascii_chars(credential)) by {
        assert forall|i: int| 0 <= i < credential.len() implies '\0' <= #[trigger] credential[i]
            <= '\u{7f}' by {
            assert(is_base64_char(credential[i]));
        }
    }
    is_ascii_chars_encode_utf8(credential);
}

} // verus!
