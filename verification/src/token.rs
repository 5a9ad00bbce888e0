//! Command-line tokens as raw bytes, and what it means for one to be text.
//!
//! An argument reaches the shim as the bytes the operating system handed
//! over. Most tokens are UTF-8 text; one that is not is never mistaken for a
//! flag or a keyword, and it is carried through unchanged.

use vstd::prelude::*;
use vstd::string::StringSliceAdditionalSpecFns;
use vstd::string::StrSliceExecFns;
use vstd::utf8::*;

verus! {

/// The text a token spells, if its bytes are well-formed UTF-8.
pub open spec fn text_of(token: Seq<u8>) -> Option<Seq<char>> {
    if valid_utf8(token) {
        Some(decode_utf8(token))
    } else {
        None
    }
}

/// A token is a flag when it is text that starts with a dash. A token that
/// does not decode is never a flag.
pub open spec fn looks_like_flag(token: Seq<u8>) -> bool {
    text_of(token) matches Some(text) && text.len() > 0 && text[0] == '-'
}

/// What lossy conversion makes of a byte string: its text, with a
/// replacement character standing for each malformed stretch.
pub uninterp spec fn lossy_text(bytes: Seq<u8>) -> Seq<char>;

/// A token as text for reading: its own text where it has one, else the
/// lossy conversion of its bytes.
pub open spec fn readable_text(token: Seq<u8>) -> Seq<char> {
    match text_of(token) {
        Some(text) => text,
        None => lossy_text(token),
    }
}

/// The byte sequences of an argument list, in order.
pub open spec fn tokens_of(args: Seq<Vec<u8>>) -> Seq<Seq<u8>> {
    args.map_values(|arg: Vec<u8>| arg@)
}

/// Two texts are the same exactly when their UTF-8 encodings are.
pub proof fn lemma_encoding_is_injective(a: Seq<char>, b: Seq<char>)
    ensures
        (encode_utf8(a) == encode_utf8(b)) <==> (a == b),
{
    encode_utf8_decode_utf8(a);
    encode_utf8_decode_utf8(b);
}

/// A token reads as `word` exactly when its bytes are the encoding of `word`.
pub proof fn lemma_text_of_encoding(token: Seq<u8>, word: Seq<char>)
    ensures
        (text_of(token) == Some(word)) <==> (token == encode_utf8(word)),
{
    encode_utf8_valid_utf8(word);
    encode_utf8_decode_utf8(word);
    if valid_utf8(token) {
        decode_utf8_encode_utf8(token);
    }
}

/// `core::str::from_utf8`: succeeds exactly on well-formed UTF-8, and the
/// string slice it returns has the given bytes as its encoding.
#[verifier::external_body]
fn decode(bytes: &[u8]) -> (text: Option<&str>)
    ensures
        text is Some <==> valid_utf8(bytes@),
        text matches Some(s) ==> s.spec_bytes() == bytes@,
{
    match core::str::from_utf8(bytes) {
        Ok(s) => Some(s),
        Err(_) => None,
    }
}

/// Reads a token as text, if it is text.
pub fn as_text(token: &[u8]) -> (text: Option<&str>)
    ensures
        match text_of(token@) {
            Some(t) => text matches Some(s) && s@ == t,
            None => text is None,
        },
{
    let text = decode(token);
    proof {
        if let Some(s) = text {
            encode_utf8_decode_utf8(s@);
        }
    }
    text
}

/// `String::from_utf8_lossy`: the lossy conversion of the bytes, as an owned
/// string.
#[verifier::external_body]
fn decode_lossy(bytes: &[u8]) -> (text: String)
    ensures
        text@ == lossy_text(bytes@),
{
    String::from_utf8_lossy(bytes).into_owned()
}

/// Reads a token as text, replacing what does not decode.
pub fn to_readable_text(token: &[u8]) -> (text: String)
    ensures
        text@ == readable_text(token@),
{
    match as_text(token) {
        Some(text) => text.to_owned(),
        None => decode_lossy(token),
    }
}

/// Whether two byte strings are equal.
pub fn same_bytes(a: &[u8], b: &[u8]) -> (same: bool)
    ensures
        same == (a@ == b@),
{
    if a.len() != b.len() {
        return false;
    }
    let mut i: usize = 0;
    while i < a.len()
        invariant
            a@.len() == b@.len(),
            i <= a@.len(),
            forall|j: int| 0 <= j < i ==> a@[j] == b@[j],
        decreases a@.len() - i,
    {
        if a[i] != b[i] {
            return false;
        }
        i += 1;
    }
    assert(a@ =~= b@);
    true
}

/// Whether a token is exactly the given word.
pub fn token_is(token: &[u8], word: &str) -> (spelled: bool)
    ensures
        spelled == (text_of(token@) == Some(word@)),
{
    proof {
        lemma_text_of_encoding(token@, word@);
    }
    same_bytes(token, word.as_bytes())
}

/// Whether two texts are equal.
pub fn same_text(a: &str, b: &str) -> (same: bool)
    ensures
        same == (a@ == b@),
{
    proof {
        lemma_encoding_is_injective(a@, b@);
    }
    same_bytes(a.as_bytes(), b.as_bytes())
}

/// Whether a token looks like a command-line flag.
pub fn is_flag(token: &[u8]) -> (flag: bool)
    ensures
        flag == looks_like_flag(token@),
{
    match as_text(token) {
        Some(text) => !text.is_empty() && text.get_char(0) == '-',
        None => false,
    }
}

} // verus!
