//! A model of the two stores, and what the protocols guarantee against it.
//!
//! The metadata store holds committed blob records (id to storage key) and
//! the rows inserted (or deleted) by the one open transaction; the object
//! store maps keys to bytes. A store in this model answers every action
//! truthfully; which calls to the object store fail is left open.
use vstd::prelude::*;

use crate::batch::{batch_next, fresh_records, is_fresh, next_fresh, put_step, BatchEvent, BatchPhase, BatchStep};
use crate::create::{create_next, CreateEvent, CreatePhase, CreateStep};
use crate::error::{BlobError, RemoteFailure, StoreFailure};
use crate::records::{is_referenced, orphans_of, BlobRecordView, OwnerReference};
use crate::removal::{sweep_begin, sweep_next, SweepEvent, SweepPhase, SweepStep};
use crate::identity::webp_reencoding;
use crate::staging::{image_storage_key, staged_image_of, StagedView};

verus! {

pub struct StoreWorld {
    /// Committed blob records: id to storage key.
    pub rows: Map<Seq<char>, Seq<char>>,
    /// Records inserted by the open transaction.
    pub pending: Map<Seq<char>, Seq<char>>,
    /// The object store: key to bytes.
    pub objects: Map<Seq<char>, Seq<u8>>,
    /// How many puts the object store has been asked for.
    pub puts: nat,
}

/// How the stores answer one create action.
pub open spec fn answer_create(w: StoreWorld, a: CreateStep, put_ok: bool) -> (
    StoreWorld,
    CreateEvent,
) {
    match a {
        CreateStep::Find(id) => (w, CreateEvent::Found(Ok(w.rows.contains_key(id)))),
        CreateStep::Insert(id, _, key) => if w.rows.contains_key(id) || w.pending.contains_key(id) {
            (w, CreateEvent::Inserted(Err(StoreFailure::DuplicateKey)))
        } else {
            (StoreWorld { pending: w.pending.insert(id, key), ..w }, CreateEvent::Inserted(Ok(())))
        },
        CreateStep::Put(key, _, data) => if put_ok {
            (
                StoreWorld { objects: w.objects.insert(key, data), puts: w.puts + 1, ..w },
                CreateEvent::Put(Ok(())),
            )
        } else {
            (StoreWorld { puts: w.puts + 1, ..w }, CreateEvent::Put(Err(RemoteFailure::Service)))
        },
        CreateStep::Commit => (
            StoreWorld { rows: w.rows.union_prefer_right(w.pending), pending: Map::empty(), ..w },
            CreateEvent::Committed(Ok(())),
        ),
        CreateStep::Rollback => (StoreWorld { pending: Map::empty(), ..w }, CreateEvent::RolledBack),
        CreateStep::Finish(_) => (w, CreateEvent::RolledBack),
    }
}

/// Runs the create protocol against the stores, for at most `fuel` actions.
pub open spec fn run_create(
    w: StoreWorld,
    phase: CreatePhase,
    s: StagedView,
    a: CreateStep,
    put_ok: bool,
    fuel: nat,
) -> (StoreWorld, Option<Result<Seq<char>, BlobError>>)
    decreases fuel,
{
    match a {
        CreateStep::Finish(r) => (w, Some(r)),
        _ => if fuel == 0 {
            (w, None)
        } else {
            let (w2, ev) = answer_create(w, a, put_ok);
            let (p2, a2) = create_next(phase, s, ev);
            run_create(w2, p2, s, a2, put_ok, (fuel - 1) as nat)
        },
    }
}

/// One whole create of a staged upload, from its dedup lookup on.
pub open spec fn create_in(w: StoreWorld, s: StagedView, put_ok: bool) -> (
    StoreWorld,
    Option<Result<Seq<char>, BlobError>>,
) {
    run_create(w, CreatePhase::AwaitLookup, s, CreateStep::Find(s.id), put_ok, 6)
}

/// Uploading the same content twice gives the same id both times, and the
/// object store is asked for exactly one put in all (none if the content
/// was already there).
pub proof fn upload_twice_puts_once(w: StoreWorld, s: StagedView)
    requires
        w.pending.is_empty(),
    ensures
        ({
            let (w1, r1) = create_in(w, s, true);
            let (w2, r2) = create_in(w1, s, true);
            &&& r1 == Some(Ok::<Seq<char>, BlobError>(s.id))
            &&& r2 == Some(Ok::<Seq<char>, BlobError>(s.id))
            &&& w2.puts == w.puts + if w.rows.contains_key(s.id) {
                0nat
            } else {
                1nat
            }
        }),
{
    reveal_with_fuel(run_create, 7);
    let (w1, r1) = create_in(w, s, true);
    assert(w1.rows.contains_key(s.id));
    assert(w1.pending.is_empty());
}

/// Two uploads whose bytes re-encode to the same canonical bytes stage the
/// same blob: same id, same key, same stored bytes, whichever path (direct
/// upload or fetch by URL) brought them.
pub proof fn same_canonical_same_blob(a: Seq<u8>, b: Seq<u8>)
    requires
        webp_reencoding(a) == webp_reencoding(b),
    ensures
        staged_image_of(a) == staged_image_of(b),
{
}

/// After a create of content that was not there, the bytes stored under
/// the record's key are the staged canonical bytes, and the committed record
/// points at that key.
pub proof fn created_bytes_round_trip(w: StoreWorld, s: StagedView)
    requires
        w.pending.is_empty(),
        !w.rows.contains_key(s.id),
    ensures
        ({
            let (w1, r1) = create_in(w, s, true);
            &&& r1 == Some(Ok::<Seq<char>, BlobError>(s.id))
            &&& w1.rows.contains_key(s.id)
            &&& w1.rows[s.id] == s.storage_key
            &&& w1.objects.contains_key(s.storage_key)
            &&& w1.objects[s.storage_key] == s.data
        }),
{
    reveal_with_fuel(run_create, 7);
}

/// When the object store refuses the put, the create fails as a dependency
/// failure and no blob record persists: the committed rows are as before and
/// the transaction is closed.
pub proof fn failed_put_rolls_back(w: StoreWorld, s: StagedView)
    requires
        w.pending.is_empty(),
        !w.rows.contains_key(s.id),
    ensures
        ({
            let (w1, r1) = create_in(w, s, false);
            &&& r1 == Some(
                Err::<Seq<char>, BlobError>(BlobError::DependencyFailure(RemoteFailure::Service)),
            )
            &&& w1.rows == w.rows
            &&& w1.pending.is_empty()
            &&& w1.objects == w.objects
        }),
{
    reveal_with_fuel(run_create, 7);
    let (w1, r1) = create_in(w, s, false);
    assert(w1.pending =~= Map::<Seq<char>, Seq<char>>::empty());
}

/// The stores as the sweep sees them: committed records, the ids deleted by
/// the open transaction, and the object store.
pub struct SweepWorld {
    pub rows: Map<Seq<char>, Seq<char>>,
    pub doomed: Set<Seq<char>>,
    pub objects: Map<Seq<char>, Seq<u8>>,
    /// Every key the object store has been asked to delete.
    pub delete_calls: Set<Seq<char>>,
}

/// How the stores answer one sweep action; deleting an object whose key is
/// in `fails` fails.
pub open spec fn answer_sweep(w: SweepWorld, a: SweepStep, fails: Set<Seq<char>>) -> (
    SweepWorld,
    SweepEvent,
) {
    match a {
        SweepStep::DeleteRecord(id) => (
            SweepWorld { doomed: w.doomed.insert(id), ..w },
            SweepEvent::RecordDeleted(Ok(())),
        ),
        SweepStep::DeleteObject(key) => if fails.contains(key) {
            (
                SweepWorld { delete_calls: w.delete_calls.insert(key), ..w },
                SweepEvent::ObjectDeleted(Err(RemoteFailure::Service)),
            )
        } else {
            (
                SweepWorld {
                    objects: w.objects.remove(key),
                    delete_calls: w.delete_calls.insert(key),
                    ..w
                },
                SweepEvent::ObjectDeleted(Ok(())),
            )
        },
        SweepStep::Commit => (
            SweepWorld { rows: w.rows.remove_keys(w.doomed), doomed: Set::empty(), ..w },
            SweepEvent::Committed(Ok(())),
        ),
        SweepStep::Rollback => (SweepWorld { doomed: Set::empty(), ..w }, SweepEvent::RolledBack),
        SweepStep::Finish => (w, SweepEvent::RolledBack),
    }
}

/// Runs the sweep protocol for at most `fuel` actions; the flag tells
/// whether it finished.
pub open spec fn run_sweep(
    w: SweepWorld,
    phase: SweepPhase,
    orphans: Seq<BlobRecordView>,
    i: int,
    a: SweepStep,
    fails: Set<Seq<char>>,
    fuel: nat,
) -> (SweepWorld, bool)
    decreases fuel,
{
    match a {
        SweepStep::Finish => (w, true),
        _ => if fuel == 0 {
            (w, false)
        } else {
            let (w2, ev) = answer_sweep(w, a, fails);
            let (p2, i2, a2) = sweep_next(phase, orphans, i, ev);
            run_sweep(w2, p2, orphans, i2, a2, fails, (fuel - 1) as nat)
        },
    }
}

/// What removing one orphan does: its object is asked to be deleted; both
/// its row and its object go, unless that delete fails, in which case both
/// stay.
pub open spec fn sweep_one(w: SweepWorld, r: BlobRecordView, fails: Set<Seq<char>>) -> SweepWorld {
    if fails.contains(r.storage_key) {
        SweepWorld { delete_calls: w.delete_calls.insert(r.storage_key), ..w }
    } else {
        SweepWorld {
            rows: w.rows.remove(r.id),
            objects: w.objects.remove(r.storage_key),
            delete_calls: w.delete_calls.insert(r.storage_key),
            ..w
        }
    }
}

pub open spec fn sweep_from(w: SweepWorld, orphans: Seq<BlobRecordView>, i: int, fails: Set<Seq<char>>) -> SweepWorld
    decreases orphans.len() - i,
{
    if i < 0 || i >= orphans.len() {
        w
    } else {
        sweep_from(sweep_one(w, orphans[i], fails), orphans, i + 1, fails)
    }
}

/// The whole sweep over a list of orphans, from its first action.
pub open spec fn sweep_in(w: SweepWorld, orphans: Seq<BlobRecordView>, fails: Set<Seq<char>>) -> (
    SweepWorld,
    bool,
) {
    let (p, i, a) = sweep_begin(orphans, 0);
    run_sweep(w, p, orphans, i, a, fails, 3 * orphans.len() + 1)
}

proof fn sweep_runs_orphan_by_orphan(
    w: SweepWorld,
    orphans: Seq<BlobRecordView>,
    i: int,
    fails: Set<Seq<char>>,
    fuel: nat,
)
    requires
        w.doomed.is_empty(),
        0 <= i <= orphans.len(),
        fuel >= 3 * (orphans.len() - i) + 1,
    ensures
        ({
            let (p, j, a) = sweep_begin(orphans, i);
            let (w1, done) = run_sweep(w, p, orphans, j, a, fails, fuel);
            done && w1 == sweep_from(w, orphans, i, fails)
        }),
    decreases orphans.len() - i,
{
    if i < orphans.len() {
        let r = orphans[i];
        reveal_with_fuel(run_sweep, 4);
        let next = sweep_one(w, r, fails);
        if !fails.contains(r.storage_key) {
            assert(w.rows.remove_keys(w.doomed.insert(r.id)) =~= w.rows.remove(r.id));
        }
        assert(next.doomed =~= Set::empty());
        sweep_runs_orphan_by_orphan(next, orphans, i + 1, fails, (fuel - 3) as nat);
        assert(SweepWorld { doomed: Set::empty(), ..next } == next);
    } else {
        reveal_with_fuel(run_sweep, 1);
    }
}

proof fn sweep_from_effect(w: SweepWorld, orphans: Seq<BlobRecordView>, i: int, fails: Set<Seq<char>>)
    requires
        0 <= i <= orphans.len(),
    ensures
        ({
            let w1 = sweep_from(w, orphans, i, fails);
            &&& forall|id: Seq<char>|
                (forall|k: int|
                    i <= k < orphans.len() && (#[trigger] orphans[k]).id == id ==> fails.contains(
                        orphans[k].storage_key,
                    )) ==> #[trigger] w1.rows.contains_key(id) == w.rows.contains_key(id) && (
                w.rows.contains_key(id) ==> w1.rows[id] == w.rows[id])
            &&& forall|key: Seq<char>|
                (forall|k: int|
                    i <= k < orphans.len() && (#[trigger] orphans[k]).storage_key == key
                        ==> fails.contains(key)) ==> #[trigger] w1.objects.contains_key(key)
                    == w.objects.contains_key(key) && (w.objects.contains_key(key) ==> w1.objects[key]
                    == w.objects[key])
            &&& forall|key: Seq<char>|
                (forall|k: int| i <= k < orphans.len() ==> (#[trigger] orphans[k]).storage_key != key)
                    ==> #[trigger] w1.delete_calls.contains(key) == w.delete_calls.contains(key)
            &&& forall|id: Seq<char>| !w.rows.contains_key(id) ==> !#[trigger] w1.rows.contains_key(id)
            &&& forall|key: Seq<char>|
                !w.objects.contains_key(key) ==> !#[trigger] w1.objects.contains_key(key)
            &&& forall|k: int|
                i <= k < orphans.len() && !fails.contains(#[trigger] orphans[k].storage_key)
                    ==> !w1.rows.contains_key(orphans[k].id) && !w1.objects.contains_key(
                    orphans[k].storage_key,
                )
        }),
    decreases orphans.len() - i,
{
    if i < orphans.len() {
        let next = sweep_one(w, orphans[i], fails);
        sweep_from_effect(next, orphans, i + 1, fails);
        let w1 = sweep_from(w, orphans, i, fails);
        assert(w1 == sweep_from(next, orphans, i + 1, fails));
        assert forall|id: Seq<char>|
            (forall|k: int|
                i <= k < orphans.len() && (#[trigger] orphans[k]).id == id ==> fails.contains(
                    orphans[k].storage_key,
                )) implies #[trigger] w1.rows.contains_key(id) == w.rows.contains_key(id) && (
            w.rows.contains_key(id) ==> w1.rows[id] == w.rows[id]) by {
            assert(forall|k: int|
                i + 1 <= k < orphans.len() && (#[trigger] orphans[k]).id == id ==> fails.contains(
                    orphans[k].storage_key,
                ));
            if orphans[i].id == id {
                assert(fails.contains(orphans[i].storage_key));
                assert(next.rows == w.rows);
            } else if !fails.contains(orphans[i].storage_key) {
                assert(next.rows == w.rows.remove(orphans[i].id));
            } else {
                assert(next.rows == w.rows);
            }
            assert(next.rows.contains_key(id) == w.rows.contains_key(id));
            assert(w.rows.contains_key(id) ==> next.rows[id] == w.rows[id]);
            assert(w1.rows.contains_key(id) == next.rows.contains_key(id));
            assert(next.rows.contains_key(id) ==> w1.rows[id] == next.rows[id]);
        }
        assert forall|key: Seq<char>|
            (forall|k: int|
                i <= k < orphans.len() && (#[trigger] orphans[k]).storage_key == key ==> fails.contains(
                    key,
                )) implies #[trigger] w1.objects.contains_key(key) == w.objects.contains_key(key) && (
            w.objects.contains_key(key) ==> w1.objects[key] == w.objects[key]) by {
            assert(forall|k: int|
                i + 1 <= k < orphans.len() && (#[trigger] orphans[k]).storage_key == key
                    ==> fails.contains(key));
            if orphans[i].storage_key == key {
                assert(fails.contains(key));
                assert(next.objects == w.objects);
            } else if !fails.contains(orphans[i].storage_key) {
                assert(next.objects == w.objects.remove(orphans[i].storage_key));
            } else {
                assert(next.objects == w.objects);
            }
            assert(next.objects.contains_key(key) == w.objects.contains_key(key));
            assert(w.objects.contains_key(key) ==> next.objects[key] == w.objects[key]);
            assert(w1.objects.contains_key(key) == next.objects.contains_key(key));
            assert(next.objects.contains_key(key) ==> w1.objects[key] == next.objects[key]);
        }
        assert forall|key: Seq<char>|
            (forall|k: int| i <= k < orphans.len() ==> (#[trigger] orphans[k]).storage_key != key) implies #[trigger] w1.delete_calls.contains(key)
            == w.delete_calls.contains(key) by {
            assert(orphans[i].storage_key != key);
            assert(forall|k: int| i + 1 <= k < orphans.len() ==> (#[trigger] orphans[k]).storage_key != key);
        }
        assert forall|k: int|
            i <= k < orphans.len() && !fails.contains(#[trigger] orphans[k].storage_key) implies !w1.rows.contains_key(orphans[k].id) && !w1.objects.contains_key(
            orphans[k].storage_key,
        ) by {
            if k == i {
                assert(!next.rows.contains_key(orphans[k].id));
                assert(!next.objects.contains_key(orphans[k].storage_key));
            }
        }
    }
}

proof fn orphans_are_unreferenced(records: Seq<BlobRecordView>, refs: Seq<OwnerReference>)
    ensures
        forall|k: int|
            0 <= k < orphans_of(records, refs).len() ==> exists|j: int|
                0 <= j < records.len() && records[j] == #[trigger] orphans_of(records, refs)[k]
                    && !is_referenced(refs, records[j].id),
        forall|j: int|
            0 <= j < records.len() && !is_referenced(refs, #[trigger] records[j].id) ==> exists|k: int|
                0 <= k < orphans_of(records, refs).len() && orphans_of(records, refs)[k] == records[j],
    decreases records.len(),
{
    if records.len() > 0 {
        let init = records.drop_last();
        orphans_are_unreferenced(init, refs);
        let o = orphans_of(records, refs);
        let oi = orphans_of(init, refs);
        assert forall|k: int| 0 <= k < o.len() implies exists|j: int|
            0 <= j < records.len() && records[j] == #[trigger] o[k] && !is_referenced(refs, records[j].id) by {
            if k < oi.len() {
                let j = choose|j: int| 0 <= j < init.len() && init[j] == oi[k] && !is_referenced(refs, init[j].id);
                assert(records[j] == init[j]);
            } else {
                assert(records[records.len() - 1] == o[k]);
            }
        }
        assert forall|j: int| 0 <= j < records.len() && !is_referenced(refs, #[trigger] records[j].id) implies exists|k: int|
            0 <= k < o.len() && o[k] == records[j] by {
            if j < init.len() {
                assert(init[j] == records[j]);
                let k = choose|k: int| 0 <= k < oi.len() && oi[k] == init[j];
                assert(o[k] == oi[k]);
            } else {
                assert(o[o.len() - 1] == records[j]);
            }
        }
    }
}

/// The record's row and object are as they were.
pub open spec fn unchanged_record(w: SweepWorld, w1: SweepWorld, r: BlobRecordView) -> bool {
    &&& w1.rows.contains_key(r.id) == w.rows.contains_key(r.id)
    &&& w.rows.contains_key(r.id) ==> w1.rows[r.id] == w.rows[r.id]
    &&& w1.objects.contains_key(r.storage_key) == w.objects.contains_key(r.storage_key)
    &&& w.objects.contains_key(r.storage_key) ==> w1.objects[r.storage_key] == w.objects[r.storage_key]
}

proof fn sweep_effect_on_listing(
    w: SweepWorld,
    records: Seq<BlobRecordView>,
    refs: Seq<OwnerReference>,
    fails: Set<Seq<char>>,
)
    requires
        w.doomed.is_empty(),
        forall|i: int, j: int|
            0 <= i < records.len() && 0 <= j < records.len() ==> ((#[trigger] records[i]).storage_key
                == (#[trigger] records[j]).storage_key <==> records[i].id == records[j].id),
    ensures
        sweep_outcome(w, records, refs, fails),
{
    let o = orphans_of(records, refs);
    orphans_are_unreferenced(records, refs);
    sweep_runs_orphan_by_orphan(w, o, 0, fails, 3 * o.len() + 1);
    sweep_from_effect(w, o, 0, fails);
    let w1 = sweep_from(w, o, 0, fails);
    assert forall|j: int|
        0 <= j < records.len() && !is_referenced(refs, #[trigger] records[j].id) && !fails.contains(
            records[j].storage_key,
        ) implies !w1.rows.contains_key(records[j].id) && !w1.objects.contains_key(records[j].storage_key) by {
        let k = choose|k: int| 0 <= k < o.len() && o[k] == records[j];
        assert(o[k] == records[j]);
    }
    assert forall|j: int|
        0 <= j < records.len() && !is_referenced(refs, #[trigger] records[j].id) && fails.contains(
            records[j].storage_key,
        ) implies unchanged_record(w, w1, records[j]) by {
        let r = records[j];
        assert forall|k: int| 0 <= k < o.len() && (#[trigger] o[k]).id == r.id implies fails.contains(
            o[k].storage_key,
        ) by {
            let m = choose|m: int| 0 <= m < records.len() && records[m] == o[k] && !is_referenced(refs, records[m].id);
            assert(records[m] == o[k]);
        }
        assert(w1.rows.contains_key(r.id) == w.rows.contains_key(r.id));
        assert(w1.objects.contains_key(r.storage_key) == w.objects.contains_key(r.storage_key));
    }
    assert forall|j: int| 0 <= j < records.len() && is_referenced(refs, #[trigger] records[j].id) implies unchanged_record(
        w,
        w1,
        records[j],
    ) && (w1.delete_calls.contains(records[j].storage_key) == w.delete_calls.contains(
        records[j].storage_key,
    )) by {
        assert forall|k: int| 0 <= k < o.len() implies (#[trigger] o[k]).id != records[j].id by {
            let m = choose|m: int| 0 <= m < records.len() && records[m] == o[k] && !is_referenced(refs, records[m].id);
            assert(records[m] == o[k]);
        }
        assert forall|k: int| 0 <= k < o.len() implies (#[trigger] o[k]).storage_key != records[j].storage_key by {
            let m = choose|m: int| 0 <= m < records.len() && records[m] == o[k] && !is_referenced(refs, records[m].id);
            assert(records[m] == o[k]);
            if records[m].storage_key == records[j].storage_key {
                assert(records[m].id == records[j].id);
            }
        }
        let r = records[j];
        assert(w1.rows.contains_key(r.id) == w.rows.contains_key(r.id));
        assert(w1.objects.contains_key(r.storage_key) == w.objects.contains_key(r.storage_key));
        assert(w1.delete_calls.contains(r.storage_key) == w.delete_calls.contains(r.storage_key));
    }
}

/// What a sweep over the orphans of a listing leaves behind: it finishes;
/// every unreferenced record is gone, row and object, unless deleting its
/// object failed, in which case it keeps both (to be swept again); every
/// referenced record keeps its row and its object, whatever failed, and no
/// delete of its object is asked for.
pub open spec fn sweep_outcome(
    w: SweepWorld,
    records: Seq<BlobRecordView>,
    refs: Seq<OwnerReference>,
    fails: Set<Seq<char>>,
) -> bool {
    let (w1, done) = sweep_in(w, orphans_of(records, refs), fails);
    &&& done
    &&& forall|j: int|
        0 <= j < records.len() && !is_referenced(refs, #[trigger] records[j].id) && !fails.contains(
            records[j].storage_key,
        ) ==> !w1.rows.contains_key(records[j].id) && !w1.objects.contains_key(records[j].storage_key)
    &&& forall|j: int|
        0 <= j < records.len() && !is_referenced(refs, #[trigger] records[j].id) && fails.contains(
            records[j].storage_key,
        ) ==> unchanged_record(w, w1, records[j])
    &&& forall|j: int|
        0 <= j < records.len() && is_referenced(refs, #[trigger] records[j].id) ==> unchanged_record(
            w,
            w1,
            records[j],
        ) && (w1.delete_calls.contains(records[j].storage_key) == w.delete_calls.contains(
            records[j].storage_key,
        ))
}

/// Image keys name their digest: distinct digests have distinct keys.
pub proof fn image_keys_are_distinct(a: Seq<char>, b: Seq<char>)
    requires
        image_storage_key(a) == image_storage_key(b),
    ensures
        a == b,
{
    reveal_strlit("image/");
    reveal_strlit(".webp");
    let ka = image_storage_key(a);
    assert(ka.len() == a.len() + 11);
    assert(a =~= ka.subrange(6, 6 + a.len() as int));
    assert(b =~= ka.subrange(6, 6 + b.len() as int));
}

/// A sweep over blob records, each stored under the key its digest names
/// (`image/<digest>.webp`), has the outcome `sweep_outcome` describes: every
/// record no owner references is reclaimed, row and object, unless its
/// object delete fails (then it keeps both); every referenced record keeps
/// its row and object, and its object is never asked to be deleted.
pub proof fn sweep_reclaims_exactly_orphans(
    w: SweepWorld,
    records: Seq<BlobRecordView>,
    refs: Seq<OwnerReference>,
    fails: Set<Seq<char>>,
)
    requires
        w.doomed.is_empty(),
        forall|j: int|
            0 <= j < records.len() ==> (#[trigger] records[j]).storage_key == image_storage_key(
                records[j].id,
            ),
    ensures
        sweep_outcome(w, records, refs, fails),
{
    assert forall|i: int, j: int|
        0 <= i < records.len() && 0 <= j < records.len() implies ((#[trigger] records[i]).storage_key
            == (#[trigger] records[j]).storage_key <==> records[i].id == records[j].id) by {
        if records[i].storage_key == records[j].storage_key {
            image_keys_are_distinct(records[i].id, records[j].id);
        }
    }
    sweep_effect_on_listing(w, records, refs, fails);
}

/// The records a batch insert adds: id to storage key.
pub open spec fn records_map(recs: Seq<(Seq<char>, Seq<char>, Seq<char>)>) -> Map<Seq<char>, Seq<char>>
    decreases recs.len(),
{
    if recs.len() == 0 {
        Map::empty()
    } else {
        records_map(recs.drop_last()).insert(recs.last().0, recs.last().2)
    }
}

/// How the stores answer one batch action; only the put under `failing`
/// fails.
pub open spec fn answer_batch(w: StoreWorld, a: BatchStep, failing: Seq<char>) -> (
    StoreWorld,
    BatchEvent,
) {
    match a {
        BatchStep::Find(id) => (w, BatchEvent::Found(Ok(w.rows.contains_key(id)))),
        BatchStep::Insert(recs) => (
            StoreWorld { pending: w.pending.union_prefer_right(records_map(recs)), ..w },
            BatchEvent::Inserted(Ok(())),
        ),
        BatchStep::Put(key, _, data) => if key == failing {
            (StoreWorld { puts: w.puts + 1, ..w }, BatchEvent::Put(Err(RemoteFailure::Service)))
        } else {
            (
                StoreWorld { objects: w.objects.insert(key, data), puts: w.puts + 1, ..w },
                BatchEvent::Put(Ok(())),
            )
        },
        BatchStep::Commit => (
            StoreWorld { rows: w.rows.union_prefer_right(w.pending), pending: Map::empty(), ..w },
            BatchEvent::Committed(Ok(())),
        ),
        BatchStep::Rollback => (StoreWorld { pending: Map::empty(), ..w }, BatchEvent::RolledBack),
        BatchStep::Finish(_) => (w, BatchEvent::RolledBack),
    }
}

/// Runs the batch protocol against the stores, for at most `fuel` actions.
pub open spec fn run_batch(
    w: StoreWorld,
    phase: BatchPhase,
    items: Seq<StagedView>,
    fresh: Seq<bool>,
    i: int,
    a: BatchStep,
    failing: Seq<char>,
    fuel: nat,
) -> (StoreWorld, Option<Result<Seq<Seq<char>>, BlobError>>)
    decreases fuel,
{
    match a {
        BatchStep::Finish(r) => (w, Some(r)),
        _ => if fuel == 0 {
            (w, None)
        } else {
            let (w2, ev) = answer_batch(w, a, failing);
            let (p2, f2, i2, a2) = batch_next(phase, items, fresh, i, ev);
            run_batch(w2, p2, items, f2, i2, a2, failing, (fuel - 1) as nat)
        },
    }
}

pub open spec fn all_marked(n: int) -> Seq<bool> {
    Seq::new(n as nat, |j: int| true)
}

proof fn all_marked_next(n: int, x: int)
    requires
        0 <= x < n,
    ensures
        next_fresh(all_marked(n), x) == x,
{
}

proof fn batch_lookups_mark_all(
    w: StoreWorld,
    items: Seq<StagedView>,
    i: int,
    failing: Seq<char>,
    fuel: nat,
)
    requires
        0 <= i < items.len(),
        fuel >= items.len() - i + 1,
        forall|j: int| 0 <= j < items.len() ==> !w.rows.contains_key(#[trigger] items[j].id),
        forall|j: int, l: int|
            0 <= j < l < items.len() ==> (#[trigger] items[j]).id != (#[trigger] items[l]).id,
    ensures
        run_batch(
            w,
            BatchPhase::AwaitLookup,
            items,
            all_marked(i),
            i,
            BatchStep::Find(items[i].id),
            failing,
            fuel,
        ) == run_batch(
            w,
            BatchPhase::AwaitInsert,
            items,
            all_marked(items.len() as int),
            items.len() as int,
            BatchStep::Insert(fresh_records(items, all_marked(items.len() as int), items.len() as int)),
            failing,
            (fuel - (items.len() - i)) as nat,
        ),
    decreases items.len() - i,
{
    let n = items.len() as int;
    let f = all_marked(i).push(is_fresh(items, all_marked(i), i, false));
    assert(is_fresh(items, all_marked(i), i, false));
    assert(f =~= all_marked(i + 1));
    reveal_with_fuel(run_batch, 2);
    if i + 1 < n {
        batch_lookups_mark_all(w, items, i + 1, failing, (fuel - 1) as nat);
    } else {
        all_marked_next(n, 0);
    }
}

proof fn batch_puts_until_failure(
    w: StoreWorld,
    items: Seq<StagedView>,
    j: int,
    k: int,
    fuel: nat,
)
    requires
        0 <= j <= k < items.len(),
        fuel >= k - j + 2,
        forall|l: int| 0 <= l < items.len() && l != k ==> (#[trigger] items[l]).storage_key != items[k].storage_key,
    ensures
        ({
            let (w1, r) = run_batch(
                w,
                BatchPhase::AwaitPut,
                items,
                all_marked(items.len() as int),
                j,
                put_step(items, j),
                items[k].storage_key,
                fuel,
            );
            &&& r == Some(
                Err::<Seq<Seq<char>>, BlobError>(BlobError::DependencyFailure(RemoteFailure::Service)),
            )
            &&& w1.rows == w.rows
            &&& w1.pending == Map::<Seq<char>, Seq<char>>::empty()
            &&& w1.objects == stored_prefix_from(w.objects, items, j, k)
            &&& w1.puts == w.puts + (k - j + 1)
        }),
    decreases k - j,
{
    reveal_with_fuel(run_batch, 3);
    if j < k {
        all_marked_next(items.len() as int, j + 1);
        let w2 = StoreWorld {
            objects: w.objects.insert(items[j].storage_key, items[j].data),
            puts: w.puts + 1,
            ..w
        };
        batch_puts_until_failure(w2, items, j + 1, k, (fuel - 1) as nat);
    }
}

/// The object store with the bytes of items `j` up to (not including) `k`
/// added, in order.
pub open spec fn stored_prefix_from(
    objects: Map<Seq<char>, Seq<u8>>,
    items: Seq<StagedView>,
    j: int,
    k: int,
) -> Map<Seq<char>, Seq<u8>>
    decreases k - j,
{
    if j >= k {
        objects
    } else {
        stored_prefix_from(objects.insert(items[j].storage_key, items[j].data), items, j + 1, k)
    }
}

/// A batch of new, distinct image contents, each under the key its digest
/// names, whose `k`-th put fails: the batch fails as a dependency failure and
/// no record of it persists, yet the objects of the items before the `k`-th
/// stay in the object store, and no put is asked for the items after it.
/// Batches are not atomic across the two stores.
pub proof fn batch_failure_keeps_earlier_objects(w: StoreWorld, items: Seq<StagedView>, k: int)
    requires
        w.pending.is_empty(),
        0 <= k < items.len(),
        forall|j: int| 0 <= j < items.len() ==> !w.rows.contains_key(#[trigger] items[j].id),
        forall|j: int, l: int|
            0 <= j < l < items.len() ==> (#[trigger] items[j]).id != (#[trigger] items[l]).id,
        forall|l: int|
            0 <= l < items.len() ==> (#[trigger] items[l]).storage_key == image_storage_key(
                items[l].id,
            ),
    ensures
        ({
            let (w1, r) = run_batch(
                w,
                BatchPhase::AwaitLookup,
                items,
                Seq::empty(),
                0,
                BatchStep::Find(items[0].id),
                items[k].storage_key,
                2 * items.len() + 4,
            );
            &&& r == Some(
                Err::<Seq<Seq<char>>, BlobError>(BlobError::DependencyFailure(RemoteFailure::Service)),
            )
            &&& w1.rows == w.rows
            &&& w1.pending.is_empty()
            &&& w1.objects == stored_prefix_from(w.objects, items, 0, k)
            &&& w1.puts == w.puts + k + 1
        }),
{
    let n = items.len() as int;
    let fuel = (2 * n + 4) as nat;
    assert forall|l: int| 0 <= l < items.len() && l != k implies (#[trigger] items[l]).storage_key
        != items[k].storage_key by {
        if items[l].storage_key == items[k].storage_key {
            image_keys_are_distinct(items[l].id, items[k].id);
            if l < k {
                assert(items[l].id != items[k].id);
            } else {
                assert(items[k].id != items[l].id);
            }
        }
    }
    assert(all_marked(0) =~= Seq::<bool>::empty());
    batch_lookups_mark_all(w, items, 0, items[k].storage_key, fuel);
    let recs = fresh_records(items, all_marked(n), n);
    let w2 = StoreWorld { pending: w.pending.union_prefer_right(records_map(recs)), ..w };
    reveal_with_fuel(run_batch, 2);
    all_marked_next(n, 0);
    batch_puts_until_failure(w2, items, 0, k, (fuel - n - 1) as nat);
    let (w1, r) = run_batch(
        w,
        BatchPhase::AwaitLookup,
        items,
        Seq::empty(),
        0,
        BatchStep::Find(items[0].id),
        items[k].storage_key,
        fuel,
    );
    assert(w1.pending =~= Map::<Seq<char>, Seq<char>>::empty());
}

} // verus!
