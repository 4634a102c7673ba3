use vstd::prelude::*;

verus! {

/// The lowercase hex rendering of the SHA-256 digest of a byte sequence,
/// as computed by the sha256 crate. Deterministic in the bytes alone.
pub uninterp spec fn sha256_hex(bytes: Seq<u8>) -> Seq<char>;

/// The content type that mime_guess infers from a file name,
/// falling back to the generic octet-stream type. Deterministic in the name alone.
pub uninterp spec fn mime_for(filename: Seq<char>) -> Seq<char>;

/// What standard-alphabet base64 decoding yields for a character sequence:
/// the decoded bytes, or nothing when the input is not valid base64.
/// Deterministic in the input alone.
pub uninterp spec fn base64_standard_decode(text: Seq<char>) -> Option<Seq<u8>>;

/// Relies on sha256::digest for byte slices: it returns
/// hex::encode(Sha256::digest(data)), the 64-character lowercase hex
/// rendering of the 32-byte SHA-256 digest, a pure function of the bytes.
#[verifier::external_body]
pub(crate) fn sha256_hex_digest(data: &[u8]) -> (r: String)
    ensures
        r@ == sha256_hex(data@),
        r@.len() == 64,
{
    sha256::digest(data)
}

/// Relies on uuid::Uuid::new_v4 and its Display form: a fresh random
/// version-4 UUID rendered as 36 hyphenated lowercase hex characters.
/// The value is random; nothing beyond its length is promised.
#[verifier::external_body]
pub(crate) fn fresh_token() -> (r: String)
    ensures
        r@.len() == 36,
{
    uuid::Uuid::new_v4().to_string()
}

/// Relies on mime_guess::from_path followed by
/// MimeGuess::first_or_octet_stream: the guess is a pure lookup on the
/// path's extension, so the result depends on the file name alone.
#[verifier::external_body]
pub(crate) fn guess_content_type(filename: &str) -> (r: String)
    ensures
        r@ == mime_for(filename@),
{
    mime_guess::from_path(filename).first_or_octet_stream().to_string()
}

/// Relies on base64's Engine::decode with the general_purpose::STANDARD
/// engine: a pure function of the input text.
#[verifier::external_body]
pub(crate) fn decode_base64(text: &str) -> (r: Option<Vec<u8>>)
    ensures
        r is Some <==> base64_standard_decode(text@) is Some,
        r is Some ==> r.unwrap()@ == base64_standard_decode(text@).unwrap(),
{
    match base64::Engine::decode(&base64::engine::general_purpose::STANDARD, text) {
        Ok(bytes) => Some(bytes),
        Err(_) => None,
    }
}

/// Relies on std::time::SystemTime::now and duration_since(UNIX_EPOCH):
/// seconds since the Unix epoch, or zero if the clock reads earlier than
/// the epoch, clamped into i64. Never negative.
#[verifier::external_body]
pub(crate) fn now_epoch_seconds() -> (r: i64)
    ensures
        r >= 0,
{
    match std::time::SystemTime::now().duration_since(std::time::UNIX_EPOCH) {
        Ok(d) => i64::try_from(d.as_secs()).unwrap_or(i64::MAX),
        Err(_) => 0,
    }
}

/// Relies on std::path::Path::exists: whether the path names an entity
/// on disk right now. The answer depends on the file system, so nothing
/// is promised of it.
#[verifier::external_body]
pub(crate) fn path_exists(path: &str) -> bool {
    std::path::Path::new(path).exists()
}

} // verus!
