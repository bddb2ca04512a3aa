//! The create path: dedup lookup, then metadata insert and remote put inside
//! one metadata transaction, rolled back when the put fails.
use vstd::prelude::*;

use crate::error::{BlobError, RemoteFailure, StoreFailure};
use crate::staging::{StagedUpload, StagedView};

verus! {

/// What the caller is asked to do next.
#[derive(Debug)]
pub enum CreateAction {
    /// Look up the blob record whose id is this digest.
    FindRecord(String),
    /// Open a metadata transaction and insert the blob record.
    InsertRecord { id: String, file_name: String, storage_key: String },
    /// Store the bytes in the object store under the key, with their content
    /// type and length.
    PutObject { key: String, content_type: String, data: Vec<u8> },
    /// Commit the open metadata transaction.
    Commit,
    /// Roll the open metadata transaction back.
    Rollback,
    /// The operation is over, with this outcome.
    Finish(Result<String, BlobError>),
}

/// What came of the last action.
#[derive(Clone, Copy, Debug)]
pub enum CreateEvent {
    /// Whether a record with the digest exists.
    Found(Result<bool, StoreFailure>),
    Inserted(Result<(), StoreFailure>),
    Put(Result<(), RemoteFailure>),
    Committed(Result<(), StoreFailure>),
    RolledBack,
}

/// An action as plain values.
pub enum CreateStep {
    Find(Seq<char>),
    Insert(Seq<char>, Seq<char>, Seq<char>),
    Put(Seq<char>, Seq<char>, Seq<u8>),
    Commit,
    Rollback,
    Finish(Result<Seq<char>, BlobError>),
}

impl View for CreateAction {
    type V = CreateStep;

    open spec fn view(&self) -> CreateStep {
        match self {
            CreateAction::FindRecord(id) => CreateStep::Find(id@),
            CreateAction::InsertRecord { id, file_name, storage_key } => CreateStep::Insert(
                id@,
                file_name@,
                storage_key@,
            ),
            CreateAction::PutObject { key, content_type, data } => CreateStep::Put(
                key@,
                content_type@,
                data@,
            ),
            CreateAction::Commit => CreateStep::Commit,
            CreateAction::Rollback => CreateStep::Rollback,
            CreateAction::Finish(r) => CreateStep::Finish(
                match r {
                    Ok(id) => Ok(id@),
                    Err(e) => Err(*e),
                },
            ),
        }
    }
}

/// Where a create stands.
#[derive(Clone, Copy, Debug)]
pub enum CreatePhase {
    AwaitLookup,
    AwaitInsert,
    AwaitPut,
    AwaitCommit,
    /// Rolling back; then finish with this error, or, where it is `None`,
    /// with the id (another upload committed the same digest first).
    AwaitRollback(Option<BlobError>),
    Done,
}

/// A metadata-store failure as the caller sees it.
pub open spec fn store_error(e: StoreFailure) -> BlobError {
    if e == StoreFailure::NotFound {
        BlobError::NotFound
    } else {
        BlobError::Internal
    }
}

pub fn store_error_of(e: StoreFailure) -> (r: BlobError)
    ensures
        r == store_error(e),
{
    match e {
        StoreFailure::NotFound => BlobError::NotFound,
        _ => BlobError::Internal,
    }
}

/// Leaving a phase on an event that it does not expect: an open transaction
/// is rolled back, and the operation fails as internal.
pub open spec fn create_unexpected(phase: CreatePhase) -> (CreatePhase, CreateStep) {
    match phase {
        CreatePhase::AwaitLookup => (CreatePhase::Done, CreateStep::Finish(Err(BlobError::Internal))),
        CreatePhase::AwaitRollback(o) => (CreatePhase::AwaitRollback(o), CreateStep::Rollback),
        CreatePhase::Done => (CreatePhase::Done, CreateStep::Finish(Err(BlobError::Internal))),
        _ => (CreatePhase::AwaitRollback(Some(BlobError::Internal)), CreateStep::Rollback),
    }
}

/// The create protocol: the next phase and action after an event.
pub open spec fn create_next(phase: CreatePhase, s: StagedView, ev: CreateEvent) -> (
    CreatePhase,
    CreateStep,
) {
    match (phase, ev) {
        (CreatePhase::AwaitLookup, CreateEvent::Found(Err(_))) => (
            CreatePhase::Done,
            CreateStep::Finish(Err(BlobError::Internal)),
        ),
        (CreatePhase::AwaitLookup, CreateEvent::Found(Ok(true))) => (
            CreatePhase::Done,
            CreateStep::Finish(Ok(s.id)),
        ),
        (CreatePhase::AwaitLookup, CreateEvent::Found(Ok(false))) => (
            CreatePhase::AwaitInsert,
            CreateStep::Insert(s.id, s.file_name, s.storage_key),
        ),
        (CreatePhase::AwaitInsert, CreateEvent::Inserted(Ok(()))) => (
            CreatePhase::AwaitPut,
            CreateStep::Put(s.storage_key, s.content_type, s.data),
        ),
        (CreatePhase::AwaitInsert, CreateEvent::Inserted(Err(e))) => (
            CreatePhase::AwaitRollback(
                if e == StoreFailure::DuplicateKey {
                    None
                } else {
                    Some(store_error(e))
                },
            ),
            CreateStep::Rollback,
        ),
        (CreatePhase::AwaitPut, CreateEvent::Put(Ok(()))) => (
            CreatePhase::AwaitCommit,
            CreateStep::Commit,
        ),
        (CreatePhase::AwaitPut, CreateEvent::Put(Err(r))) => (
            CreatePhase::AwaitRollback(Some(BlobError::DependencyFailure(r))),
            CreateStep::Rollback,
        ),
        (CreatePhase::AwaitCommit, CreateEvent::Committed(Ok(()))) => (
            CreatePhase::Done,
            CreateStep::Finish(Ok(s.id)),
        ),
        (CreatePhase::AwaitCommit, CreateEvent::Committed(Err(e))) => (
            CreatePhase::Done,
            CreateStep::Finish(Err(store_error(e))),
        ),
        (CreatePhase::AwaitRollback(o), CreateEvent::RolledBack) => (
            CreatePhase::Done,
            CreateStep::Finish(
                match o {
                    None => Ok(s.id),
                    Some(e) => Err(e),
                },
            ),
        ),
        _ => create_unexpected(phase),
    }
}

/// One upload on its way into both stores.
pub struct CreateSession {
    pub staged: StagedUpload,
    pub phase: CreatePhase,
}

impl CreateSession {
    /// Starts a create: the first action is the dedup lookup.
    pub fn start(staged: StagedUpload) -> (r: (CreateSession, CreateAction))
        ensures
            r.0.staged@ == staged@,
            r.0.phase == CreatePhase::AwaitLookup,
            r.1@ == CreateStep::Find(staged@.id),
    {
        let id = staged.id.clone();
        (CreateSession { staged, phase: CreatePhase::AwaitLookup }, CreateAction::FindRecord(id))
    }

    fn unexpected(&mut self) -> (r: CreateAction)
        ensures
            final(self).staged == old(self).staged,
            (final(self).phase, r@) == create_unexpected(old(self).phase),
    {
        match self.phase {
            CreatePhase::AwaitLookup | CreatePhase::Done => {
                self.phase = CreatePhase::Done;
                CreateAction::Finish(Err(BlobError::Internal))
            },
            CreatePhase::AwaitRollback(_) => CreateAction::Rollback,
            _ => {
                self.phase = CreatePhase::AwaitRollback(Some(BlobError::Internal));
                CreateAction::Rollback
            },
        }
    }

    /// Takes what came of the last action and returns the next one.
    pub fn step(&mut self, ev: CreateEvent) -> (r: CreateAction)
        ensures
            final(self).staged@ == old(self).staged@,
            (final(self).phase, r@) == create_next(old(self).phase, old(self).staged@, ev),
    {
        match (self.phase, ev) {
            (CreatePhase::AwaitLookup, CreateEvent::Found(Err(_))) => {
                self.phase = CreatePhase::Done;
                CreateAction::Finish(Err(BlobError::Internal))
            },
            (CreatePhase::AwaitLookup, CreateEvent::Found(Ok(true))) => {
                self.phase = CreatePhase::Done;
                CreateAction::Finish(Ok(self.staged.id.clone()))
            },
            (CreatePhase::AwaitLookup, CreateEvent::Found(Ok(false))) => {
                self.phase = CreatePhase::AwaitInsert;
                CreateAction::InsertRecord {
                    id: self.staged.id.clone(),
                    file_name: self.staged.file_name.clone(),
                    storage_key: self.staged.storage_key.clone(),
                }
            },
            (CreatePhase::AwaitInsert, CreateEvent::Inserted(Ok(()))) => {
                self.phase = CreatePhase::AwaitPut;
                CreateAction::PutObject {
                    key: self.staged.storage_key.clone(),
                    content_type: self.staged.content_type.clone(),
                    data: self.staged.data.clone(),
                }
            },
            (CreatePhase::AwaitInsert, CreateEvent::Inserted(Err(e))) => {
                self.phase = CreatePhase::AwaitRollback(
                    match e {
                        StoreFailure::DuplicateKey => None,
                        _ => Some(store_error_of(e)),
                    },
                );
                CreateAction::Rollback
            },
            (CreatePhase::AwaitPut, CreateEvent::Put(Ok(()))) => {
                self.phase = CreatePhase::AwaitCommit;
                CreateAction::Commit
            },
            (CreatePhase::AwaitPut, CreateEvent::Put(Err(r))) => {
                self.phase = CreatePhase::AwaitRollback(Some(BlobError::DependencyFailure(r)));
                CreateAction::Rollback
            },
            (CreatePhase::AwaitCommit, CreateEvent::Committed(Ok(()))) => {
                self.phase = CreatePhase::Done;
                CreateAction::Finish(Ok(self.staged.id.clone()))
            },
            (CreatePhase::AwaitCommit, CreateEvent::Committed(Err(e))) => {
                self.phase = CreatePhase::Done;
                CreateAction::Finish(Err(store_error_of(e)))
            },
            (CreatePhase::AwaitRollback(o), CreateEvent::RolledBack) => {
                self.phase = CreatePhase::Done;
                match o {
                    None => CreateAction::Finish(Ok(self.staged.id.clone())),
                    Some(e) => CreateAction::Finish(Err(e)),
                }
            },
            _ => self.unexpected(),
        }
    }
}

} // verus!
