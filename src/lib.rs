//! A content-addressed blob store: uploads are canonicalized, identified by
//! the digest of their canonical bytes, stored at most once, and reclaimed
//! when no owner refers to them any more.
//!
//! The decisions of every operation are verified here. Talking to the
//! relational metadata store and to the remote object store is left to the
//! caller, which performs the actions that the sessions hand out and reports
//! back what happened.

mod api;
mod batch;
mod create;
mod document;
mod error;
mod identity;
mod media;
mod model;
mod records;
mod removal;
mod staging;
mod text;

pub use api::{
    bearer_token, parse_order_from_string, parse_order_term, ApiTokenClaims, ApiTokenError,
    CalendarDate, DeleteResponse, ImageItemForUpdate, InsertResponse, ItemForUpdate, ListResponse,
    OrderDirection, Pagination, ParsedOrderBy, UpdateAuthorForm, UpdateResponse,
    TOKEN_LIFETIME_SECS,
};
pub use batch::{
    check_batch_size, BatchAction, BatchEvent, BatchPhase, BatchSession, NewRecord, MAX_BATCH_ITEMS,
};
pub use create::{CreateAction, CreateEvent, CreatePhase, CreateSession};
pub use document::{DocumentAction, DocumentEvent, DocumentPhase, DocumentSession};
pub use error::{
    result_error_to_status, result_error_to_status_failed_dependency, sdk_error_to_status,
    transaction_error_to_status, BlobError, RemoteFailure, StoreFailure, TransactionError,
    ValidationError,
};
pub use identity::CanonicalizeFailure;
pub use media::{eq_ignore_ascii_case, is_image_type, is_pdf_type};
pub use model::{
    batch_failure_keeps_earlier_objects, created_bytes_round_trip, failed_put_rolls_back,
    same_canonical_same_blob, sweep_reclaims_exactly_orphans, upload_twice_puts_once,
};
pub use records::{has_reference, select_orphans, BlobRecord, OwnerReference};
pub use removal::{
    DeleteAction, DeleteEvent, DeletePhase, DeleteSession, SweepAction, SweepEvent, SweepGuard,
    SweepPhase, SweepSession,
};
pub use staging::{
    stage_canonical_image, stage_document, stage_document_named, stage_image,
    stage_image_with_digest, StagedUpload,
};
pub use text::{parse_url_list, split_at_char, trim_whitespace};
