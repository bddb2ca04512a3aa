//! Declared media types and the families this store accepts.
use vstd::prelude::*;

verus! {

/// The top-level type and the subtype that rocket's flexible media-type
/// parser reads from a declared content type, if it reads one.
pub uninterp spec fn media_type_parts(s: Seq<char>) -> Option<(Seq<char>, Seq<char>)>;

/// Relies on `rocket::http::ContentType::parse_flexible` with `top` and `sub`:
/// the top-level type and subtype of the parsed media type, or `None` where
/// the text is neither a known shorthand nor a well-formed media type.
#[verifier::external_body]
fn parse_media_type(s: &str) -> (r: Option<(String, String)>)
    ensures
        match r {
            Some(p) => media_type_parts(s@) == Some((p.0@, p.1@)),
            None => media_type_parts(s@) is None,
        },
{
    rocket::http::ContentType::parse_flexible(s).map(
        |ct| (ct.top().as_str().to_string(), ct.sub().as_str().to_string()),
    )
}

pub open spec fn is_ascii_upper(c: char) -> bool {
    'A' <= c && c <= 'Z'
}

/// Two characters that are equal once ASCII letters are lowered.
pub open spec fn chars_eq_ignore_case(a: char, b: char) -> bool {
    a == b || (is_ascii_upper(a) && a as u32 + 32 == b as u32) || (is_ascii_upper(b) && b as u32
        + 32 == a as u32)
}

pub open spec fn seq_eq_ignore_case(a: Seq<char>, b: Seq<char>) -> bool {
    a.len() == b.len() && forall|i: int| 0 <= i < a.len() ==> chars_eq_ignore_case(#[trigger] a[i], b[i])
}

/// Caseless comparison of two strings, as media types are compared.
pub fn eq_ignore_ascii_case(a: &str, b: &str) -> (r: bool)
    ensures
        r == seq_eq_ignore_case(a@, b@),
{
    let n = a.unicode_len();
    if n != b.unicode_len() {
        return false;
    }
    let mut i: usize = 0;
    while i < n
        invariant
            n == a@.len(),
            n == b@.len(),
            i <= n,
            forall|j: int| 0 <= j < i ==> chars_eq_ignore_case(#[trigger] a@[j], b@[j]),
        decreases n - i,
    {
        let x = a.get_char(i);
        let y = b.get_char(i);
        let same = x == y || ('A' <= x && x <= 'Z' && (x as u32) + 32 == y as u32) || ('A' <= y && y
            <= 'Z' && (y as u32) + 32 == x as u32);
        if !same {
            return false;
        }
        i = i + 1;
    }
    true
}

/// What a missing or unreadable declaration counts as: `application/octet-stream`.
pub open spec fn declared_parts(content_type: Option<Seq<char>>) -> (Seq<char>, Seq<char>) {
    match content_type {
        Some(s) => match media_type_parts(s) {
            Some(p) => p,
            None => ("application"@, "octet-stream"@),
        },
        None => ("application"@, "octet-stream"@),
    }
}

pub open spec fn opt_view(s: Option<&str>) -> Option<Seq<char>> {
    match s {
        Some(t) => Some(t@),
        None => None,
    }
}

/// The image family: any declared type whose top level is `image`.
pub open spec fn image_declared(content_type: Option<Seq<char>>) -> bool {
    seq_eq_ignore_case(declared_parts(content_type).0, "image"@)
}

/// The document family: exactly `application/pdf`.
pub open spec fn pdf_declared(content_type: Option<Seq<char>>) -> bool {
    seq_eq_ignore_case(declared_parts(content_type).0, "application"@) && seq_eq_ignore_case(
        declared_parts(content_type).1,
        "pdf"@,
    )
}

/// Whether a declared content type (absent: binary) belongs to the image family.
pub fn is_image_type(content_type: Option<&str>) -> (r: bool)
    ensures
        r == image_declared(opt_view(content_type)),
{
    match content_type {
        Some(s) => match parse_media_type(s) {
            Some(p) => eq_ignore_ascii_case(p.0.as_str(), "image"),
            None => eq_ignore_ascii_case("application", "image"),
        },
        None => eq_ignore_ascii_case("application", "image"),
    }
}

/// Whether a declared content type (absent: binary) is a PDF document.
pub fn is_pdf_type(content_type: Option<&str>) -> (r: bool)
    ensures
        r == pdf_declared(opt_view(content_type)),
{
    let parts = match content_type {
        Some(s) => parse_media_type(s),
        None => None,
    };
    match parts {
        Some(p) => eq_ignore_ascii_case(p.0.as_str(), "application") && eq_ignore_ascii_case(
            p.1.as_str(),
            "pdf",
        ),
        None => eq_ignore_ascii_case("application", "application") && eq_ignore_ascii_case(
            "octet-stream",
            "pdf",
        ),
    }
}

} // verus!
