//! The document create path. Documents are stored as uploaded; a document
//! whose digest is already recorded is not stored again, and its record's
//! row id is returned.
use vstd::prelude::*;

use crate::create::{store_error, store_error_of};
use crate::error::{BlobError, RemoteFailure, StoreFailure};
use crate::staging::{StagedUpload, StagedView};

verus! {

#[derive(Debug)]
pub enum DocumentAction {
    /// Look up a document record by its digest.
    FindDocument(String),
    /// Open a metadata transaction and insert the document record; the store
    /// assigns its row id.
    InsertDocument {
        file_name: String,
        storage_key: String,
        size: i64,
        hash: String,
        mime_type: String,
    },
    PutObject { key: String, content_type: String, data: Vec<u8> },
    Commit,
    Rollback,
    Finish(Result<i32, BlobError>),
}

pub enum DocumentStep {
    Find(Seq<char>),
    Insert(Seq<char>, Seq<char>, i64, Seq<char>, Seq<char>),
    Put(Seq<char>, Seq<char>, Seq<u8>),
    Commit,
    Rollback,
    Finish(Result<i32, BlobError>),
}

impl View for DocumentAction {
    type V = DocumentStep;

    open spec fn view(&self) -> DocumentStep {
        match self {
            DocumentAction::FindDocument(h) => DocumentStep::Find(h@),
            DocumentAction::InsertDocument { file_name, storage_key, size, hash, mime_type } =>
                DocumentStep::Insert(file_name@, storage_key@, *size, hash@, mime_type@),
            DocumentAction::PutObject { key, content_type, data } => DocumentStep::Put(
                key@,
                content_type@,
                data@,
            ),
            DocumentAction::Commit => DocumentStep::Commit,
            DocumentAction::Rollback => DocumentStep::Rollback,
            DocumentAction::Finish(r) => DocumentStep::Finish(*r),
        }
    }
}

#[derive(Clone, Copy, Debug)]
pub enum DocumentEvent {
    /// The row id of a document record with the digest, if there is one.
    Found(Result<Option<i32>, StoreFailure>),
    /// The row id the store gave the inserted record.
    Inserted(Result<i32, StoreFailure>),
    Put(Result<(), RemoteFailure>),
    Committed(Result<(), StoreFailure>),
    RolledBack,
}

#[derive(Clone, Copy, Debug)]
pub enum DocumentPhase {
    AwaitLookup,
    AwaitInsert,
    AwaitPut(i32),
    AwaitCommit(i32),
    AwaitRollback(BlobError),
    Done,
}

pub open spec fn document_next(phase: DocumentPhase, s: StagedView, ev: DocumentEvent) -> (
    DocumentPhase,
    DocumentStep,
) {
    match (phase, ev) {
        (DocumentPhase::AwaitLookup, DocumentEvent::Found(Ok(Some(id)))) => (
            DocumentPhase::Done,
            DocumentStep::Finish(Ok(id)),
        ),
        (DocumentPhase::AwaitLookup, DocumentEvent::Found(Ok(None))) => (
            DocumentPhase::AwaitInsert,
            DocumentStep::Insert(
                s.file_name,
                s.storage_key,
                s.data.len() as i64,
                s.id,
                s.content_type,
            ),
        ),
        (DocumentPhase::AwaitLookup, DocumentEvent::Found(Err(_))) => (
            DocumentPhase::Done,
            DocumentStep::Finish(Err(BlobError::Internal)),
        ),
        (DocumentPhase::AwaitInsert, DocumentEvent::Inserted(Ok(id))) => (
            DocumentPhase::AwaitPut(id),
            DocumentStep::Put(s.storage_key, s.content_type, s.data),
        ),
        (DocumentPhase::AwaitInsert, DocumentEvent::Inserted(Err(e))) => (
            DocumentPhase::AwaitRollback(store_error(e)),
            DocumentStep::Rollback,
        ),
        (DocumentPhase::AwaitPut(id), DocumentEvent::Put(Ok(()))) => (
            DocumentPhase::AwaitCommit(id),
            DocumentStep::Commit,
        ),
        (DocumentPhase::AwaitPut(_), DocumentEvent::Put(Err(r))) => (
            DocumentPhase::AwaitRollback(BlobError::DependencyFailure(r)),
            DocumentStep::Rollback,
        ),
        (DocumentPhase::AwaitCommit(id), DocumentEvent::Committed(Ok(()))) => (
            DocumentPhase::Done,
            DocumentStep::Finish(Ok(id)),
        ),
        (DocumentPhase::AwaitCommit(_), DocumentEvent::Committed(Err(e))) => (
            DocumentPhase::Done,
            DocumentStep::Finish(Err(store_error(e))),
        ),
        (DocumentPhase::AwaitRollback(e), DocumentEvent::RolledBack) => (
            DocumentPhase::Done,
            DocumentStep::Finish(Err(e)),
        ),
        (DocumentPhase::AwaitRollback(e), _) => (
            DocumentPhase::AwaitRollback(e),
            DocumentStep::Rollback,
        ),
        (DocumentPhase::AwaitLookup, _) => (
            DocumentPhase::Done,
            DocumentStep::Finish(Err(BlobError::Internal)),
        ),
        (DocumentPhase::Done, _) => (DocumentPhase::Done, DocumentStep::Finish(Err(BlobError::Internal))),
        _ => (DocumentPhase::AwaitRollback(BlobError::Internal), DocumentStep::Rollback),
    }
}

/// One document upload on its way into both stores.
pub struct DocumentSession {
    pub staged: StagedUpload,
    pub phase: DocumentPhase,
}

impl DocumentSession {
    pub fn start(staged: StagedUpload) -> (r: (DocumentSession, DocumentAction))
        ensures
            r.0.staged@ == staged@,
            r.0.phase == DocumentPhase::AwaitLookup,
            r.1@ == DocumentStep::Find(staged@.id),
    {
        let hash = staged.id.clone();
        (
            DocumentSession { staged, phase: DocumentPhase::AwaitLookup },
            DocumentAction::FindDocument(hash),
        )
    }

    pub fn step(&mut self, ev: DocumentEvent) -> (r: DocumentAction)
        ensures
            final(self).staged@ == old(self).staged@,
            (final(self).phase, r@) == document_next(old(self).phase, old(self).staged@, ev),
    {
        match (self.phase, ev) {
            (DocumentPhase::AwaitLookup, DocumentEvent::Found(Ok(Some(id)))) => {
                self.phase = DocumentPhase::Done;
                DocumentAction::Finish(Ok(id))
            },
            (DocumentPhase::AwaitLookup, DocumentEvent::Found(Ok(None))) => {
                self.phase = DocumentPhase::AwaitInsert;
                DocumentAction::InsertDocument {
                    file_name: self.staged.file_name.clone(),
                    storage_key: self.staged.storage_key.clone(),
                    size: self.staged.data.len() as i64,
                    hash: self.staged.id.clone(),
                    mime_type: self.staged.content_type.clone(),
                }
            },
            (DocumentPhase::AwaitInsert, DocumentEvent::Inserted(Ok(id))) => {
                self.phase = DocumentPhase::AwaitPut(id);
                DocumentAction::PutObject {
                    key: self.staged.storage_key.clone(),
                    content_type: self.staged.content_type.clone(),
                    data: self.staged.data.clone(),
                }
            },
            (DocumentPhase::AwaitInsert, DocumentEvent::Inserted(Err(e))) => {
                self.phase = DocumentPhase::AwaitRollback(store_error_of(e));
                DocumentAction::Rollback
            },
            (DocumentPhase::AwaitPut(id), DocumentEvent::Put(Ok(()))) => {
                self.phase = DocumentPhase::AwaitCommit(id);
                DocumentAction::Commit
            },
            (DocumentPhase::AwaitPut(_), DocumentEvent::Put(Err(r))) => {
                self.phase = DocumentPhase::AwaitRollback(BlobError::DependencyFailure(r));
                DocumentAction::Rollback
            },
            (DocumentPhase::AwaitCommit(id), DocumentEvent::Committed(Ok(()))) => {
                self.phase = DocumentPhase::Done;
                DocumentAction::Finish(Ok(id))
            },
            (DocumentPhase::AwaitCommit(_), DocumentEvent::Committed(Err(e))) => {
                self.phase = DocumentPhase::Done;
                DocumentAction::Finish(Err(store_error_of(e)))
            },
            (DocumentPhase::AwaitRollback(e), DocumentEvent::RolledBack) => {
                self.phase = DocumentPhase::Done;
                DocumentAction::Finish(Err(e))
            },
            (DocumentPhase::AwaitRollback(_), _) => DocumentAction::Rollback,
            (DocumentPhase::AwaitLookup, _) | (DocumentPhase::Done, _) => {
                self.phase = DocumentPhase::Done;
                DocumentAction::Finish(Err(BlobError::Internal))
            },
            _ => {
                self.phase = DocumentPhase::AwaitRollback(BlobError::Internal);
                DocumentAction::Rollback
            },
        }
    }
}

} // verus!
