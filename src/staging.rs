//! Staging: what one upload becomes before any store is touched.
use vstd::prelude::*;

use crate::error::{BlobError, ValidationError};
use crate::identity::{
    is_digest_text, md5_hex, md5_hex_digest, webp_failure, random_object_name, reencode_as_webp, webp_reencoding,
    CanonicalizeFailure,
};
use crate::media::{image_declared, is_image_type, is_pdf_type, opt_view, pdf_declared};

verus! {

/// One upload, ready to be committed: its bytes as they will be stored, the
/// identity derived from them, and where they go.
#[derive(Clone, Debug)]
pub struct StagedUpload {
    /// The content digest; the blob's primary key.
    pub id: String,
    pub file_name: String,
    pub storage_key: String,
    pub content_type: String,
    pub data: Vec<u8>,
}

/// The plain values a staged upload stands for.
pub struct StagedView {
    pub id: Seq<char>,
    pub file_name: Seq<char>,
    pub storage_key: Seq<char>,
    pub content_type: Seq<char>,
    pub data: Seq<u8>,
}

impl View for StagedUpload {
    type V = StagedView;

    open spec fn view(&self) -> StagedView {
        StagedView {
            id: self.id@,
            file_name: self.file_name@,
            storage_key: self.storage_key@,
            content_type: self.content_type@,
            data: self.data@,
        }
    }
}

pub open spec fn image_file_name(id: Seq<char>) -> Seq<char> {
    id + ".webp"@
}

pub open spec fn image_storage_key(id: Seq<char>) -> Seq<char> {
    "image/"@ + image_file_name(id)
}

/// A staged image: canonical bytes, stored under `image/<digest>.webp`.
pub open spec fn staged_image(canonical: Seq<u8>, digest: Seq<char>) -> StagedView {
    StagedView {
        id: digest,
        file_name: image_file_name(digest),
        storage_key: image_storage_key(digest),
        content_type: "image/webp"@,
        data: canonical,
    }
}

/// What an image upload of some raw bytes stages, once they re-encode.
pub open spec fn staged_image_of(raw: Seq<u8>) -> StagedView {
    staged_image(webp_reencoding(raw), md5_hex(webp_reencoding(raw)))
}

pub open spec fn document_file_name(name: Seq<char>) -> Seq<char> {
    name + ".pdf"@
}

pub open spec fn document_storage_key(name: Seq<char>) -> Seq<char> {
    "novel/"@ + document_file_name(name)
}

/// A staged document: the bytes as uploaded, keyed by their digest, stored
/// under a fresh object name.
pub open spec fn staged_document(data: Seq<u8>, digest: Seq<char>, name: Seq<char>) -> StagedView {
    StagedView {
        id: digest,
        file_name: document_file_name(name),
        storage_key: document_storage_key(name),
        content_type: "application/pdf"@,
        data,
    }
}

/// Stages canonical image bytes under the digest computed from them.
pub fn stage_image_with_digest(canonical: Vec<u8>, digest: String) -> (r: StagedUpload)
    ensures
        r@ == staged_image(canonical@, digest@),
{
    let mut file_name = digest.clone();
    file_name.append(".webp");
    let mut storage_key = String::from_str("image/");
    storage_key.append(file_name.as_str());
    let r = StagedUpload {
        id: digest,
        file_name,
        storage_key,
        content_type: String::from_str("image/webp"),
        data: canonical,
    };
    r
}

/// Stages canonical image bytes under their digest.
pub fn stage_canonical_image(canonical: Vec<u8>) -> (r: StagedUpload)
    ensures
        r@ == staged_image(canonical@, md5_hex(canonical@)),
        is_digest_text(r@.id),
{
    let digest = md5_hex_digest(canonical.as_slice());
    stage_image_with_digest(canonical, digest)
}

/// Stages an image upload: its declared type must be of the image family and
/// its bytes must decode; what is stored is their canonical re-encoding.
pub fn stage_image(content_type: Option<&str>, raw: &[u8]) -> (r: Result<StagedUpload, BlobError>)
    ensures
        !image_declared(opt_view(content_type)) <==> r == Err::<StagedUpload, BlobError>(
            BlobError::Validation(ValidationError::UnsupportedMediaType),
        ),
        r is Ok ==> r->Ok_0@ == staged_image_of(raw@) && is_digest_text(r->Ok_0@.id),
        image_declared(opt_view(content_type)) && webp_failure(raw@) is None ==> r is Ok,
        image_declared(opt_view(content_type)) && webp_failure(raw@) == Some(
            CanonicalizeFailure::Undecodable,
        ) ==> r == Err::<StagedUpload, BlobError>(
            BlobError::Validation(ValidationError::MalformedContent),
        ),
        image_declared(opt_view(content_type)) && webp_failure(raw@) is Some && webp_failure(raw@)
            != Some(CanonicalizeFailure::Undecodable) ==> r == Err::<StagedUpload, BlobError>(
            BlobError::Internal,
        ),
{
    if !is_image_type(content_type) {
        return Err(BlobError::Validation(ValidationError::UnsupportedMediaType));
    }
    match reencode_as_webp(raw) {
        Ok(canonical) => Ok(stage_canonical_image(canonical)),
        Err(CanonicalizeFailure::Undecodable) => Err(
            BlobError::Validation(ValidationError::MalformedContent),
        ),
        Err(_) => Err(BlobError::Internal),
    }
}

/// Stages document bytes under their digest and a given object name.
pub fn stage_document_named(data: Vec<u8>, digest: String, name: String) -> (r: StagedUpload)
    ensures
        r@ == staged_document(data@, digest@, name@),
{
    let mut file_name = name;
    file_name.append(".pdf");
    let mut storage_key = String::from_str("novel/");
    storage_key.append(file_name.as_str());
    StagedUpload {
        id: digest,
        file_name,
        storage_key,
        content_type: String::from_str("application/pdf"),
        data,
    }
}

/// Stages a document upload: only `application/pdf` is accepted, and the
/// bytes are kept as they came. The object name is drawn at random.
pub fn stage_document(content_type: Option<&str>, data: Vec<u8>) -> (r: Result<
    StagedUpload,
    BlobError,
>)
    ensures
        !pdf_declared(opt_view(content_type)) <==> r is Err,
        r is Err ==> r->Err_0 == BlobError::Validation(ValidationError::UnsupportedMediaType),
        r is Ok ==> r->Ok_0@.id == md5_hex(data@) && is_digest_text(r->Ok_0@.id)
            && r->Ok_0@.data == data@ && r->Ok_0@.content_type == "application/pdf"@ && exists|
            name: Seq<char>|
            name.len() == 36 && r->Ok_0@ == #[trigger] staged_document(data@, md5_hex(data@), name),
{
    if !is_pdf_type(content_type) {
        return Err(BlobError::Validation(ValidationError::UnsupportedMediaType));
    }
    let digest = md5_hex_digest(data.as_slice());
    let name = random_object_name();
    let ghost name_v = name@;
    let r = stage_document_named(data, digest, name);
    assert(r@ == staged_document(r@.data, r@.id, name_v));
    Ok(r)
}

} // verus!
