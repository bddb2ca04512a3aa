//! Canonical bytes and the digest that names them.
use vstd::prelude::*;

verus! {

/// The lowercase hexadecimal MD5 digest of some bytes.
pub uninterp spec fn md5_hex(data: Seq<u8>) -> Seq<char>;

/// The lossless WebP re-encoding that the image crate produces for bytes it
/// can decode.
pub uninterp spec fn webp_reencoding(raw: Seq<u8>) -> Seq<u8>;

/// Whether re-encoding some bytes fails, and how. Format guessing, decoding
/// and encoding all depend on the bytes alone.
pub uninterp spec fn webp_failure(raw: Seq<u8>) -> Option<CanonicalizeFailure>;

pub open spec fn is_lower_hex_digit(c: char) -> bool {
    ('0' <= c && c <= '9') || ('a' <= c && c <= 'f')
}

/// The text form of an MD5 digest: 32 lowercase hex digits.
pub open spec fn is_digest_text(s: Seq<char>) -> bool {
    s.len() == 32 && forall|i: int| 0 <= i < 32 ==> is_lower_hex_digit(#[trigger] s[i])
}

/// Relies on `md5::compute` and the `LowerHex` formatting of `md5::Digest`,
/// which writes each of the sixteen digest bytes as two lowercase hex digits.
#[verifier::external_body]
pub(crate) fn md5_hex_digest(data: &[u8]) -> (r: String)
    ensures
        r@ == md5_hex(data@),
        is_digest_text(r@),
{
    format!("{:x}", md5::compute(data))
}

/// Why bytes could not be brought to their canonical encoding.
#[derive(Clone, Copy, Debug, PartialEq, Eq, Structural)]
pub enum CanonicalizeFailure {
    /// Guessing the format failed while reading the bytes.
    Unreadable,
    /// The bytes are not a valid instance of a recognised image format.
    Undecodable,
    /// The decoded image could not be encoded again.
    Unencodable,
}

/// Relies on the image crate: `io::Reader::with_guessed_format`, `decode` and
/// `DynamicImage::write_to` with `ImageOutputFormat::WebP` (a lossless
/// encoder). Whether it succeeds, and the bytes written, depend on the input
/// bytes alone.
#[verifier::external_body]
pub(crate) fn reencode_as_webp(raw: &[u8]) -> (r: Result<Vec<u8>, CanonicalizeFailure>)
    ensures
        match r {
            Ok(b) => webp_failure(raw@) is None && b@ == webp_reencoding(raw@),
            Err(e) => webp_failure(raw@) == Some(e),
        },
{
    let reader = image::io::Reader::new(std::io::Cursor::new(raw)).with_guessed_format().map_err(
        |_| CanonicalizeFailure::Unreadable,
    )?;
    let decoded = reader.decode().map_err(|_| CanonicalizeFailure::Undecodable)?;
    let mut out: Vec<u8> = Vec::new();
    decoded.write_to(&mut std::io::Cursor::new(&mut out), image::ImageOutputFormat::WebP).map_err(
        |_| CanonicalizeFailure::Unencodable,
    )?;
    Ok(out)
}

/// Relies on `uuid::Uuid::new_v4` and the hyphenated text form that its
/// `Display` writes: 36 characters, different on every call.
#[verifier::external_body]
pub(crate) fn random_object_name() -> (r: String)
    ensures
        r@.len() == 36,
{
    uuid::Uuid::new_v4().to_string()
}

} // verus!
