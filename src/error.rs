//! What can go wrong, and how each failure is reported over HTTP.
use vstd::prelude::*;

verus! {

/// Input that is refused before any store is touched.
#[derive(Clone, Copy, Debug, PartialEq, Eq, Structural)]
pub enum ValidationError {
    /// The declared media type is not of the family the endpoint accepts.
    UnsupportedMediaType,
    /// The bytes cannot be decoded as an instance of a recognised format.
    MalformedContent,
    /// A batch holds too few or too many items.
    BatchSize,
}

/// How a call to the remote object store failed, once retries are spent.
#[derive(Clone, Copy, Debug, PartialEq, Eq, Structural)]
pub enum RemoteFailure {
    /// The service answered with an error.
    Service,
    /// No usable answer came back (network, timeout, malformed response).
    Transport,
}

/// How a call to the metadata store failed.
#[derive(Clone, Copy, Debug, PartialEq, Eq, Structural)]
pub enum StoreFailure {
    NotFound,
    /// A row with the same primary key is already there.
    DuplicateKey,
    Other,
}

/// The failures an operation of the blob store reports to its caller.
#[derive(Clone, Copy, Debug, PartialEq, Eq, Structural)]
pub enum BlobError {
    Validation(ValidationError),
    NotFound,
    DependencyFailure(RemoteFailure),
    Internal,
}

pub const STATUS_BAD_REQUEST: u16 = 400;
pub const STATUS_NOT_FOUND: u16 = 404;
pub const STATUS_UNPROCESSABLE_ENTITY: u16 = 422;
pub const STATUS_FAILED_DEPENDENCY: u16 = 424;
pub const STATUS_INTERNAL_SERVER_ERROR: u16 = 500;
pub const STATUS_BAD_GATEWAY: u16 = 502;

pub open spec fn remote_status(err: RemoteFailure) -> u16 {
    match err {
        RemoteFailure::Service => STATUS_FAILED_DEPENDENCY,
        RemoteFailure::Transport => STATUS_BAD_GATEWAY,
    }
}

pub open spec fn blob_status(err: BlobError) -> u16 {
    match err {
        BlobError::Validation(ValidationError::MalformedContent) => STATUS_BAD_REQUEST,
        BlobError::Validation(_) => STATUS_UNPROCESSABLE_ENTITY,
        BlobError::NotFound => STATUS_NOT_FOUND,
        BlobError::DependencyFailure(r) => remote_status(r),
        BlobError::Internal => STATUS_INTERNAL_SERVER_ERROR,
    }
}

impl BlobError {
    /// The HTTP status that reports this failure.
    pub fn status_code(&self) -> (r: u16)
        ensures
            r == blob_status(*self),
    {
        match self {
            BlobError::Validation(ValidationError::MalformedContent) => STATUS_BAD_REQUEST,
            BlobError::Validation(_) => STATUS_UNPROCESSABLE_ENTITY,
            BlobError::NotFound => STATUS_NOT_FOUND,
            BlobError::DependencyFailure(r) => sdk_error_to_status(*r),
            BlobError::Internal => STATUS_INTERNAL_SERVER_ERROR,
        }
    }
}

/// A failure inside a transaction that spans both stores.
#[derive(Clone, Copy, Debug, PartialEq, Eq, Structural)]
pub enum TransactionError {
    ResultError(StoreFailure),
    SdkError(RemoteFailure),
}

/// An error answer of the object store is a failed dependency; anything
/// else on the way there is a bad gateway.
pub fn sdk_error_to_status(err: RemoteFailure) -> (r: u16)
    ensures
        r == remote_status(err),
{
    match err {
        RemoteFailure::Service => STATUS_FAILED_DEPENDENCY,
        RemoteFailure::Transport => STATUS_BAD_GATEWAY,
    }
}

/// A missing row is not found; any other store failure is internal.
pub fn result_error_to_status(err: StoreFailure) -> (r: u16)
    ensures
        r == (if err == StoreFailure::NotFound {
            STATUS_NOT_FOUND
        } else {
            STATUS_INTERNAL_SERVER_ERROR
        }),
{
    match err {
        StoreFailure::NotFound => STATUS_NOT_FOUND,
        _ => STATUS_INTERNAL_SERVER_ERROR,
    }
}

/// As `result_error_to_status`, for lookups of rows that the request
/// depends on: a missing row is a failed dependency.
pub fn result_error_to_status_failed_dependency(err: StoreFailure) -> (r: u16)
    ensures
        r == (if err == StoreFailure::NotFound {
            STATUS_FAILED_DEPENDENCY
        } else {
            STATUS_INTERNAL_SERVER_ERROR
        }),
{
    match err {
        StoreFailure::NotFound => STATUS_FAILED_DEPENDENCY,
        _ => STATUS_INTERNAL_SERVER_ERROR,
    }
}

pub fn transaction_error_to_status(err: TransactionError) -> (r: u16)
    ensures
        r == match err {
            TransactionError::SdkError(e) => remote_status(e),
            TransactionError::ResultError(e) => if e == StoreFailure::NotFound {
                STATUS_NOT_FOUND
            } else {
                STATUS_INTERNAL_SERVER_ERROR
            },
        },
{
    match err {
        TransactionError::SdkError(e) => sdk_error_to_status(e),
        TransactionError::ResultError(e) => result_error_to_status(e),
    }
}

} // verus!
