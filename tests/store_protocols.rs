use std::collections::{HashMap, HashSet};
use std::io::Cursor;

use blob_store::{
    select_orphans, stage_image, BatchAction, BatchEvent, BatchSession, BlobError, BlobRecord,
    CreateAction, CreateEvent, CreateSession, DeleteAction, DeleteEvent, DeleteSession,
    OwnerReference, RemoteFailure, StagedUpload, StoreFailure, SweepAction, SweepEvent,
    SweepSession, ValidationError,
};

/// Both stores in memory, answering the sessions' actions.
#[derive(Default)]
struct Stores {
    rows: HashMap<String, String>,
    pending: Vec<(String, String)>,
    doomed: Vec<String>,
    objects: HashMap<String, Vec<u8>>,
    puts: usize,
    failing_puts: HashSet<String>,
    failing_deletes: HashSet<String>,
}

impl Stores {
    fn put(&mut self, key: String, data: Vec<u8>) -> Result<(), RemoteFailure> {
        self.puts += 1;
        if self.failing_puts.contains(&key) {
            Err(RemoteFailure::Service)
        } else {
            self.objects.insert(key, data);
            Ok(())
        }
    }

    fn commit(&mut self) {
        for (id, key) in self.pending.drain(..) {
            self.rows.insert(id, key);
        }
        for id in self.doomed.drain(..) {
            self.rows.remove(&id);
        }
    }

    fn create(&mut self, staged: StagedUpload) -> Result<String, BlobError> {
        let (mut session, mut action) = CreateSession::start(staged);
        loop {
            let event = match action {
                CreateAction::FindRecord(id) => CreateEvent::Found(Ok(self.rows.contains_key(&id))),
                CreateAction::InsertRecord { id, storage_key, .. } => {
                    if self.rows.contains_key(&id) {
                        CreateEvent::Inserted(Err(StoreFailure::DuplicateKey))
                    } else {
                        self.pending.push((id, storage_key));
                        CreateEvent::Inserted(Ok(()))
                    }
                }
                CreateAction::PutObject { key, data, .. } => CreateEvent::Put(self.put(key, data)),
                CreateAction::Commit => {
                    self.commit();
                    CreateEvent::Committed(Ok(()))
                }
                CreateAction::Rollback => {
                    self.pending.clear();
                    CreateEvent::RolledBack
                }
                CreateAction::Finish(r) => return r,
            };
            action = session.step(event);
        }
    }

    fn create_batch(&mut self, items: Vec<StagedUpload>) -> Result<Vec<String>, BlobError> {
        let (mut session, mut action) = BatchSession::start(items);
        loop {
            let event = match action {
                BatchAction::FindRecord(id) => BatchEvent::Found(Ok(self.rows.contains_key(&id))),
                BatchAction::InsertRecords(records) => {
                    for r in records {
                        self.pending.push((r.id, r.storage_key));
                    }
                    BatchEvent::Inserted(Ok(()))
                }
                BatchAction::PutObject { key, data, .. } => BatchEvent::Put(self.put(key, data)),
                BatchAction::Commit => {
                    self.commit();
                    BatchEvent::Committed(Ok(()))
                }
                BatchAction::Rollback => {
                    self.pending.clear();
                    BatchEvent::RolledBack
                }
                BatchAction::Finish(r) => return r,
            };
            action = session.step(event);
        }
    }

    fn delete(&mut self, id: &str) -> Result<String, BlobError> {
        let (mut session, mut action) = DeleteSession::start(id.to_string());
        loop {
            let event = match action {
                DeleteAction::LoadRecord(id) => DeleteEvent::Loaded(match self.rows.get(&id) {
                    Some(k) => Ok(k.clone()),
                    None => Err(StoreFailure::NotFound),
                }),
                DeleteAction::DeleteRecord(id) => {
                    self.rows.remove(&id);
                    DeleteEvent::RecordDeleted(Ok(()))
                }
                DeleteAction::DeleteObject(key) => {
                    if self.failing_deletes.contains(&key) {
                        DeleteEvent::ObjectDeleted(Err(RemoteFailure::Transport))
                    } else {
                        self.objects.remove(&key);
                        DeleteEvent::ObjectDeleted(Ok(()))
                    }
                }
                DeleteAction::Finish(r) => return r,
            };
            action = session.step(event);
        }
    }

    fn records(&self) -> Vec<BlobRecord> {
        let mut ids: Vec<&String> = self.rows.keys().collect();
        ids.sort();
        ids.into_iter()
            .map(|id| BlobRecord {
                id: id.clone(),
                file_name: None,
                storage_key: self.rows[id].clone(),
                created_at: 0,
            })
            .collect()
    }

    fn sweep(&mut self, refs: &Vec<OwnerReference>) {
        let orphans = select_orphans(&self.records(), refs);
        let (mut session, mut action) = SweepSession::start(orphans);
        loop {
            let event = match action {
                SweepAction::DeleteRecord(id) => {
                    self.doomed.push(id);
                    SweepEvent::RecordDeleted(Ok(()))
                }
                SweepAction::DeleteObject(key) => {
                    if self.failing_deletes.contains(&key) {
                        SweepEvent::ObjectDeleted(Err(RemoteFailure::Service))
                    } else {
                        self.objects.remove(&key);
                        SweepEvent::ObjectDeleted(Ok(()))
                    }
                }
                SweepAction::Commit => {
                    self.commit();
                    SweepEvent::Committed(Ok(()))
                }
                SweepAction::Rollback => {
                    self.doomed.clear();
                    SweepEvent::RolledBack
                }
                SweepAction::Finish => return,
            };
            action = session.step(event);
        }
    }
}

fn encoded(seed: u8, format: image::ImageOutputFormat) -> Vec<u8> {
    let img = image::RgbImage::from_fn(3, 2, |x, y| {
        image::Rgb([seed, (x * 40) as u8, (y * 90) as u8])
    });
    let mut out: Vec<u8> = Vec::new();
    image::DynamicImage::ImageRgb8(img)
        .write_to(&mut Cursor::new(&mut out), format)
        .unwrap();
    out
}

fn png(seed: u8) -> Vec<u8> {
    encoded(seed, image::ImageOutputFormat::Png)
}

fn staged(seed: u8) -> StagedUpload {
    stage_image(Some("image/png"), &png(seed)).unwrap()
}

#[test]
fn same_content_twice_gives_one_put() {
    let mut stores = Stores::default();
    let first = stores.create(staged(1)).unwrap();
    let second = stores.create(staged(1)).unwrap();
    assert_eq!(first, second);
    assert_eq!(stores.puts, 1);
    assert_eq!(stores.rows.len(), 1);
}

#[test]
fn different_encodings_of_same_pixels_share_an_id() {
    let from_png = stage_image(Some("image/png"), &png(7)).unwrap();
    let from_bmp = stage_image(Some("image/bmp"), &encoded(7, image::ImageOutputFormat::Bmp)).unwrap();
    assert_ne!(png(7), encoded(7, image::ImageOutputFormat::Bmp));
    assert_eq!(from_png.id, from_bmp.id);
    assert_eq!(from_png.data, from_bmp.data);
    let mut stores = Stores::default();
    assert_eq!(stores.create(from_png).unwrap(), stores.create(from_bmp).unwrap());
    assert_eq!(stores.puts, 1);
}

#[test]
fn stored_bytes_are_the_canonical_bytes() {
    let s = staged(2);
    let mut stores = Stores::default();
    let id = stores.create(s.clone()).unwrap();
    assert_eq!(id, s.id);
    assert_eq!(stores.rows[&id], s.storage_key);
    assert_eq!(stores.objects[&s.storage_key], s.data);
    assert_eq!(&s.data[0..4], b"RIFF");
    assert_eq!(&s.data[8..12], b"WEBP");
}

#[test]
fn failed_put_leaves_no_record() {
    let s = staged(3);
    let mut stores = Stores::default();
    stores.failing_puts.insert(s.storage_key.clone());
    let r = stores.create(s);
    assert_eq!(r, Err(BlobError::DependencyFailure(RemoteFailure::Service)));
    assert_eq!(r.unwrap_err().status_code(), 424);
    assert!(stores.rows.is_empty());
    assert!(stores.pending.is_empty());
    assert!(stores.objects.is_empty());
}

#[test]
fn non_image_upload_is_rejected_before_any_write() {
    let r = stage_image(Some("text/plain"), b"hello");
    assert_eq!(r.clone().unwrap_err(), BlobError::Validation(ValidationError::UnsupportedMediaType));
    assert_eq!(r.unwrap_err().status_code(), 422);
    let r = stage_image(None, &png(1));
    assert_eq!(r.unwrap_err(), BlobError::Validation(ValidationError::UnsupportedMediaType));
}

#[test]
fn undecodable_image_is_malformed() {
    let r = stage_image(Some("image/png"), b"not an image at all");
    let e = r.unwrap_err();
    assert_eq!(e, BlobError::Validation(ValidationError::MalformedContent));
    assert_eq!(e.status_code(), 400);
}

#[test]
fn sweep_removes_only_unreferenced_blobs() {
    let a = staged(10);
    let b = staged(11);
    let mut stores = Stores::default();
    let id_a = stores.create(a.clone()).unwrap();
    let id_b = stores.create(b.clone()).unwrap();
    let refs = vec![OwnerReference { id: 1, owner_id: 5, blob_id: id_a.clone() }];
    stores.sweep(&refs);
    assert!(stores.rows.contains_key(&id_a));
    assert!(stores.objects.contains_key(&a.storage_key));
    assert!(!stores.rows.contains_key(&id_b));
    assert!(!stores.objects.contains_key(&b.storage_key));
}

#[test]
fn sweep_failure_on_one_orphan_does_not_stop_the_rest() {
    let a = staged(20);
    let b = staged(21);
    let mut stores = Stores::default();
    stores.create(a.clone()).unwrap();
    stores.create(b.clone()).unwrap();
    stores.failing_deletes.insert(a.storage_key.clone());
    stores.sweep(&vec![]);
    assert!(stores.rows.contains_key(&a.id));
    assert!(stores.objects.contains_key(&a.storage_key));
    assert!(!stores.rows.contains_key(&b.id));
    assert!(!stores.objects.contains_key(&b.storage_key));
}

#[test]
fn batch_with_failing_second_put_rolls_back_rows_but_leaks_first_object() {
    let items = vec![staged(30), staged(31), staged(32)];
    let mut stores = Stores::default();
    stores.failing_puts.insert(items[1].storage_key.clone());
    let r = stores.create_batch(items.clone());
    assert_eq!(r, Err(BlobError::DependencyFailure(RemoteFailure::Service)));
    assert!(stores.rows.is_empty());
    assert!(stores.objects.contains_key(&items[0].storage_key));
    assert!(!stores.objects.contains_key(&items[1].storage_key));
    assert!(!stores.objects.contains_key(&items[2].storage_key));
    assert_eq!(stores.puts, 2);
}

#[test]
fn batch_stores_each_distinct_content_once() {
    let items = vec![staged(40), staged(41), staged(40)];
    let mut stores = Stores::default();
    stores.create(staged(41)).unwrap();
    let ids = stores.create_batch(items.clone()).unwrap();
    assert_eq!(ids, vec![items[0].id.clone(), items[1].id.clone(), items[2].id.clone()]);
    assert_eq!(ids[0], ids[2]);
    assert_eq!(stores.puts, 2);
    assert_eq!(stores.rows.len(), 2);
}

#[test]
fn batch_of_known_content_writes_nothing() {
    let mut stores = Stores::default();
    stores.create(staged(50)).unwrap();
    let ids = stores.create_batch(vec![staged(50)]).unwrap();
    assert_eq!(ids, vec![staged(50).id]);
    assert_eq!(stores.puts, 1);
}

#[test]
fn empty_batch_finishes_at_once() {
    let mut stores = Stores::default();
    assert_eq!(stores.create_batch(vec![]).unwrap(), Vec::<String>::new());
}

#[test]
fn delete_removes_row_and_object() {
    let s = staged(60);
    let mut stores = Stores::default();
    let id = stores.create(s.clone()).unwrap();
    assert_eq!(stores.delete(&id).unwrap(), id);
    assert!(stores.rows.is_empty());
    assert!(stores.objects.is_empty());
}

#[test]
fn delete_of_unknown_id_is_not_found() {
    let mut stores = Stores::default();
    let e = stores.delete("missing").unwrap_err();
    assert_eq!(e, BlobError::NotFound);
    assert_eq!(e.status_code(), 404);
}

#[test]
fn delete_with_failing_object_store_leaves_object_behind() {
    let s = staged(61);
    let mut stores = Stores::default();
    let id = stores.create(s.clone()).unwrap();
    stores.failing_deletes.insert(s.storage_key.clone());
    let e = stores.delete(&id).unwrap_err();
    assert_eq!(e, BlobError::DependencyFailure(RemoteFailure::Transport));
    assert_eq!(e.status_code(), 502);
    assert!(stores.rows.is_empty());
    assert!(stores.objects.contains_key(&s.storage_key));
}

#[test]
fn racing_duplicate_insert_counts_as_dedup() {
    let s = staged(70);
    let (mut session, action) = CreateSession::start(s.clone());
    assert!(matches!(action, CreateAction::FindRecord(_)));
    let action = session.step(CreateEvent::Found(Ok(false)));
    assert!(matches!(action, CreateAction::InsertRecord { .. }));
    let action = session.step(CreateEvent::Inserted(Err(StoreFailure::DuplicateKey)));
    assert!(matches!(action, CreateAction::Rollback));
    match session.step(CreateEvent::RolledBack) {
        CreateAction::Finish(r) => assert_eq!(r, Ok(s.id)),
        other => panic!("unexpected {:?}", other),
    }
}

#[test]
fn lookup_failure_is_internal() {
    let (mut session, _) = CreateSession::start(staged(71));
    match session.step(CreateEvent::Found(Err(StoreFailure::Other))) {
        CreateAction::Finish(r) => {
            assert_eq!(r, Err(BlobError::Internal));
            assert_eq!(r.unwrap_err().status_code(), 500);
        }
        other => panic!("unexpected {:?}", other),
    }
}

#[test]
fn batch_insert_racing_duplicate_restarts_lookups() {
    let items = vec![staged(80), staged(81)];
    let (mut session, first) = BatchSession::start(items.clone());
    assert!(matches!(first, BatchAction::FindRecord(ref id) if *id == items[0].id));
    session.step(BatchEvent::Found(Ok(false)));
    assert!(matches!(
        session.step(BatchEvent::Found(Ok(false))),
        BatchAction::InsertRecords(ref r) if r.len() == 2
    ));
    assert!(matches!(
        session.step(BatchEvent::Inserted(Err(StoreFailure::DuplicateKey))),
        BatchAction::Rollback
    ));
    assert!(matches!(
        session.step(BatchEvent::RolledBack),
        BatchAction::FindRecord(ref id) if *id == items[0].id
    ));
    session.step(BatchEvent::Found(Ok(true)));
    match session.step(BatchEvent::Found(Ok(false))) {
        BatchAction::InsertRecords(r) => {
            assert_eq!(r.len(), 1);
            assert_eq!(r[0].id, items[1].id);
        }
        other => panic!("unexpected {:?}", other),
    }
}

#[test]
fn image_ids_are_lowercase_hex_digests() {
    let s = staged(90);
    assert_eq!(s.id.len(), 32);
    assert!(s.id.chars().all(|c| c.is_ascii_digit() || ('a'..='f').contains(&c)));
    assert_eq!(s.file_name, format!("{}.webp", s.id));
}
