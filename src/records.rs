//! The rows of the metadata store that the blob store reads.
use vstd::prelude::*;

verus! {

/// A stored blob: its digest, the name it was uploaded as, where its bytes
/// are, and when it was created (seconds since the Unix epoch).
#[derive(Clone, Debug)]
pub struct BlobRecord {
    pub id: String,
    pub file_name: Option<String>,
    pub storage_key: String,
    pub created_at: i64,
}

pub struct BlobRecordView {
    pub id: Seq<char>,
    pub file_name: Option<Seq<char>>,
    pub storage_key: Seq<char>,
    pub created_at: i64,
}

impl View for BlobRecord {
    type V = BlobRecordView;

    open spec fn view(&self) -> BlobRecordView {
        BlobRecordView {
            id: self.id@,
            file_name: match self.file_name {
                Some(n) => Some(n@),
                None => None,
            },
            storage_key: self.storage_key@,
            created_at: self.created_at,
        }
    }
}

impl BlobRecord {
    /// A copy of the record, field by field.
    pub fn duplicate(&self) -> (r: BlobRecord)
        ensures
            r@ == self@,
    {
        BlobRecord {
            id: self.id.clone(),
            file_name: match &self.file_name {
                Some(n) => Some(n.clone()),
                None => None,
            },
            storage_key: self.storage_key.clone(),
            created_at: self.created_at,
        }
    }
}

/// A consuming entity's reference to a blob record.
#[derive(Clone, Debug)]
pub struct OwnerReference {
    pub id: i32,
    pub owner_id: i32,
    pub blob_id: String,
}

pub open spec fn record_views(rs: Seq<BlobRecord>) -> Seq<BlobRecordView> {
    rs.map_values(|r: BlobRecord| r@)
}

/// Whether some reference points at the blob id.
pub open spec fn is_referenced(refs: Seq<OwnerReference>, id: Seq<char>) -> bool {
    exists|j: int| 0 <= j < refs.len() && (#[trigger] refs[j]).blob_id@ == id
}

/// The records that no reference points at, in listing order.
pub open spec fn orphans_of(records: Seq<BlobRecordView>, refs: Seq<OwnerReference>) -> Seq<
    BlobRecordView,
>
    decreases records.len(),
{
    if records.len() == 0 {
        Seq::empty()
    } else {
        let rest = orphans_of(records.drop_last(), refs);
        if is_referenced(refs, records.last().id) {
            rest
        } else {
            rest.push(records.last())
        }
    }
}

/// Whether any reference points at the id.
pub fn has_reference(refs: &Vec<OwnerReference>, id: &String) -> (r: bool)
    ensures
        r == is_referenced(refs@, id@),
{
    let mut j: usize = 0;
    while j < refs.len()
        invariant
            j <= refs@.len(),
            forall|k: int| 0 <= k < j ==> (#[trigger] refs@[k]).blob_id@ != id@,
        decreases refs@.len() - j,
    {
        if refs[j].blob_id == *id {
            return true;
        }
        j = j + 1;
    }
    false
}

/// The records with no owner reference: the left join of records against
/// references, keeping the rows without a match.
pub fn select_orphans(records: &Vec<BlobRecord>, refs: &Vec<OwnerReference>) -> (r: Vec<BlobRecord>)
    ensures
        record_views(r@) == orphans_of(record_views(records@), refs@),
{
    let mut out: Vec<BlobRecord> = Vec::new();
    let mut i: usize = 0;
    while i < records.len()
        invariant
            i <= records@.len(),
            record_views(out@) == orphans_of(record_views(records@.subrange(0, i as int)), refs@),
        decreases records@.len() - i,
    {
        let ghost next = record_views(records@.subrange(0, i + 1));
        assert(next.drop_last() =~= record_views(records@.subrange(0, i as int)));
        assert(next.last() == records@[i as int]@);
        if !has_reference(refs, &records[i].id) {
            let rec = records[i].duplicate();
            out.push(rec);
            assert(record_views(out@) =~= orphans_of(record_views(records@.subrange(0, i as int)), refs@).push(rec@));
        }
        i = i + 1;
    }
    assert(records@.subrange(0, records@.len() as int) =~= records@);
    out
}

} // verus!
