use vstd::prelude::*;

use crate::strutil::str_eq;
use crate::trusted;
use crate::types::UploadRecord;

verus! {

/// Why a store operation was refused.
#[derive(Debug)]
pub enum StoreError {
    /// A record with the same content hash but a different id already exists.
    ConstraintViolation,
}

/// Records are held newest first by upload time.
pub open spec fn sorted_by_time_desc(s: Seq<UploadRecord>) -> bool {
    forall|i: int, j: int| 0 <= i < j < s.len() ==> s[i].upload_time >= s[j].upload_time
}

/// No two records share a content hash.
pub open spec fn unique_hashes(s: Seq<UploadRecord>) -> bool {
    forall|i: int, j: int| 0 <= i < j < s.len() ==> s[i].file_hash@ != s[j].file_hash@
}

/// No two records share an id.
pub open spec fn unique_ids(s: Seq<UploadRecord>) -> bool {
    forall|i: int, j: int| 0 <= i < j < s.len() ==> s[i].id@ != s[j].id@
}

/// Index of the first record whose content hash is `h`, or -1 if none.
pub open spec fn hash_index(s: Seq<UploadRecord>, h: Seq<char>) -> int
    decreases s.len(),
{
    if s.len() == 0 {
        -1
    } else if s[0].file_hash@ == h {
        0
    } else if hash_index(s.drop_first(), h) == -1 {
        -1
    } else {
        hash_index(s.drop_first(), h) + 1
    }
}

/// Index of the first record whose id is `id`, or -1 if none.
pub open spec fn id_index(s: Seq<UploadRecord>, id: Seq<char>) -> int
    decreases s.len(),
{
    if s.len() == 0 {
        -1
    } else if s[0].id@ == id {
        0
    } else if id_index(s.drop_first(), id) == -1 {
        -1
    } else {
        id_index(s.drop_first(), id) + 1
    }
}

/// Where a record with upload time `t` is placed in a newest-first
/// sequence: before the first record that is not newer than `t`.
pub open spec fn insert_pos(s: Seq<UploadRecord>, t: i64) -> int
    decreases s.len(),
{
    if s.len() == 0 {
        0
    } else if s[0].upload_time <= t {
        0
    } else {
        1 + insert_pos(s.drop_first(), t)
    }
}

/// `s` with the record of the given id removed, if one is present.
pub open spec fn remove_by_id(s: Seq<UploadRecord>, id: Seq<char>) -> Seq<UploadRecord> {
    if id_index(s, id) >= 0 {
        s.remove(id_index(s, id))
    } else {
        s
    }
}

/// What one insert leaves in the store: the record replaces any record
/// of the same id, is placed by upload time, and the oldest records past
/// the retention window `cap` are dropped.
pub open spec fn insert_result(s: Seq<UploadRecord>, rec: UploadRecord, cap: int) -> Seq<
    UploadRecord,
> {
    let kept = remove_by_id(s, rec.id@);
    let placed = kept.insert(insert_pos(kept, rec.upload_time), rec);
    if placed.len() > cap {
        placed.subrange(0, cap)
    } else {
        placed
    }
}

/// A record with the same content hash but a different id is present:
/// the one insert the store refuses.
pub open spec fn hash_conflict(s: Seq<UploadRecord>, rec: UploadRecord) -> bool {
    exists|i: int|
        0 <= i < s.len() && s[i].file_hash@ == rec.file_hash@ && s[i].id@ != rec.id@
}

pub proof fn lemma_hash_index(s: Seq<UploadRecord>, h: Seq<char>)
    ensures
        -1 <= hash_index(s, h) < s.len(),
        hash_index(s, h) >= 0 ==> s[hash_index(s, h)].file_hash@ == h,
        forall|j: int|
            0 <= j < s.len() && (hash_index(s, h) == -1 || j < hash_index(s, h))
                ==> s[j].file_hash@ != h,
    decreases s.len(),
{
    if s.len() > 0 && s[0].file_hash@ != h {
        lemma_hash_index(s.drop_first(), h);
        assert(forall|j: int| 1 <= j < s.len() ==> s[j] == s.drop_first()[j - 1]);
    }
}

pub proof fn lemma_id_index(s: Seq<UploadRecord>, id: Seq<char>)
    ensures
        -1 <= id_index(s, id) < s.len(),
        id_index(s, id) >= 0 ==> s[id_index(s, id)].id@ == id,
        forall|j: int|
            0 <= j < s.len() && (id_index(s, id) == -1 || j < id_index(s, id))
                ==> s[j].id@ != id,
    decreases s.len(),
{
    if s.len() > 0 && s[0].id@ != id {
        lemma_id_index(s.drop_first(), id);
        assert(forall|j: int| 1 <= j < s.len() ==> s[j] == s.drop_first()[j - 1]);
    }
}

pub proof fn lemma_insert_pos(s: Seq<UploadRecord>, t: i64)
    ensures
        0 <= insert_pos(s, t) <= s.len(),
        forall|i: int| 0 <= i < insert_pos(s, t) ==> s[i].upload_time > t,
        insert_pos(s, t) < s.len() ==> s[insert_pos(s, t)].upload_time <= t,
    decreases s.len(),
{
    if s.len() > 0 && s[0].upload_time > t {
        lemma_insert_pos(s.drop_first(), t);
        assert(forall|i: int| 1 <= i < s.len() ==> s[i] == s.drop_first()[i - 1]);
    }
}

/// The dedup cache with its bounded retention window.
pub struct Database {
    records: Vec<UploadRecord>,
    capacity: usize,
}

impl View for Database {
    type V = Seq<UploadRecord>;

    closed spec fn view(&self) -> Seq<UploadRecord> {
        self.records@
    }
}

impl Database {
    /// How many records the retention window keeps.
    pub closed spec fn spec_capacity(self) -> int {
        self.capacity as int
    }

    /// The store invariant: the window bound is kept, records sit newest
    /// first, and no two records share a content hash or an id.
    pub open spec fn wf(self) -> bool {
        &&& self.spec_capacity() >= 1
        &&& self@.len() <= self.spec_capacity()
        &&& sorted_by_time_desc(self@)
        &&& unique_hashes(self@)
        &&& unique_ids(self@)
    }

    /// An empty store retaining at most `capacity` records.
    pub fn new(capacity: usize) -> (db: Database)
        requires
            capacity >= 1,
        ensures
            db.wf(),
            db@ == Seq::<UploadRecord>::empty(),
            db.spec_capacity() == capacity,
    {
        let db = Database { records: Vec::new(), capacity };
        proof {
            assert(db@ =~= Seq::<UploadRecord>::empty());
        }
        db
    }

    /// The retention window bound.
    pub fn capacity(&self) -> (c: usize)
        ensures
            c == self.spec_capacity(),
    {
        self.capacity
    }

    /// Seconds since the Unix epoch, for stamping new records.
    pub fn get_current_timestamp() -> (t: i64)
        ensures
            t >= 0,
    {
        trusted::now_epoch_seconds()
    }

    /// The record holding the given content hash, if one is stored.
    pub fn find_by_hash(&self, file_hash: &str) -> (r: Option<UploadRecord>)
        ensures
            match r {
                Some(rec) => hash_index(self@, file_hash@) >= 0 && rec == self@[hash_index(
                    self@,
                    file_hash@,
                )],
                None => hash_index(self@, file_hash@) == -1,
            },
    {
        let n = self.records.len();
        let mut i: usize = 0;
        while i < n
            invariant
                n == self@.len(),
                0 <= i <= n,
                forall|j: int| 0 <= j < i ==> self@[j].file_hash@ != file_hash@,
            decreases n - i,
        {
            if str_eq(self.records[i].file_hash.as_str(), file_hash) {
                proof {
                    lemma_hash_index(self@, file_hash@);
                }
                return Some(self.records[i].clone());
            }
            i += 1;
        }
        proof {
            lemma_hash_index(self@, file_hash@);
        }
        None
    }

    /// The `limit` most recent records, newest first.
    pub fn get_recent_uploads(&self, limit: usize) -> (r: Vec<UploadRecord>)
        ensures
            r@.len() == if limit < self@.len() {
                limit as int
            } else {
                self@.len() as int
            },
            forall|i: int| 0 <= i < r@.len() ==> r@[i] == self@[i],
    {
        let n = self.records.len();
        let take = if limit < n {
            limit
        } else {
            n
        };
        let mut out: Vec<UploadRecord> = Vec::new();
        let mut i: usize = 0;
        while i < take
            invariant
                take <= n,
                n == self@.len(),
                0 <= i <= take,
                out@.len() == i,
                forall|j: int| 0 <= j < i ==> out@[j] == self@[j],
            decreases take - i,
        {
            out.push(self.records[i].clone());
            i += 1;
        }
        out
    }

    /// Whether a stored record clashes with `record` on hash but not id.
    fn has_hash_conflict(&self, record: &UploadRecord) -> (r: bool)
        ensures
            r == hash_conflict(self@, *record),
    {
        let n = self.records.len();
        let mut i: usize = 0;
        while i < n
            invariant
                n == self@.len(),
                0 <= i <= n,
                forall|j: int|
                    0 <= j < i ==> !(self@[j].file_hash@ == record.file_hash@ && self@[j].id@
                        != record.id@),
            decreases n - i,
        {
            if str_eq(self.records[i].file_hash.as_str(), record.file_hash.as_str()) && !str_eq(
                self.records[i].id.as_str(),
                record.id.as_str(),
            ) {
                return true;
            }
            i += 1;
        }
        false
    }

    /// Index of the stored record sharing `record`'s id, if any.
    fn position_of_id(&self, id: &str) -> (r: Option<usize>)
        ensures
            match r {
                Some(i) => i == id_index(self@, id@),
                None => id_index(self@, id@) == -1,
            },
    {
        let n = self.records.len();
        let mut i: usize = 0;
        while i < n
            invariant
                n == self@.len(),
                0 <= i <= n,
                forall|j: int| 0 <= j < i ==> self@[j].id@ != id@,
            decreases n - i,
        {
            if str_eq(self.records[i].id.as_str(), id) {
                proof {
                    lemma_id_index(self@, id@);
                }
                return Some(i);
            }
            i += 1;
        }
        proof {
            lemma_id_index(self@, id@);
        }
        None
    }

    /// Store one record. A record of the same id is replaced; a record of
    /// the same hash under another id is refused; the retention window is
    /// enforced in the same step, dropping the oldest records.
    pub fn insert_upload_record(&mut self, record: &UploadRecord) -> (r: Result<(), StoreError>)
        requires
            old(self).wf(),
        ensures
            final(self).wf(),
            final(self).spec_capacity() == old(self).spec_capacity(),
            match r {
                Ok(()) => !hash_conflict(old(self)@, *record) && final(self)@ == insert_result(
                    old(self)@,
                    *record,
                    old(self).spec_capacity(),
                ),
                Err(e) => e is ConstraintViolation && hash_conflict(old(self)@, *record)
                    && final(self)@ == old(self)@,
            },
    {
        if self.has_hash_conflict(record) {
            return Err(StoreError::ConstraintViolation);
        }
        let ghost s0 = self@;

        // Replace by id: drop any stored record carrying the same id.
        proof {
            lemma_id_index(self@, record.id@);
        }
        match self.position_of_id(record.id.as_str()) {
            Some(i) => {
                self.records.remove(i);
            },
            None => {},
        }
        let ghost kept = self@;
        proof {
            assert(kept == remove_by_id(s0, record.id@));
            lemma_remove_preserves(s0, record.id@);
            lemma_id_index(kept, record.id@);
            lemma_removed_id_absent(s0, record.id@);
        }

        // Place the record by upload time, newest first.
        let n = self.records.len();
        let mut p: usize = 0;
        while p < n && self.records[p].upload_time > record.upload_time
            invariant
                n == kept.len(),
                self@ == kept,
                0 <= p <= n,
                forall|i: int| 0 <= i < p ==> kept[i].upload_time > record.upload_time,
            decreases n - p,
        {
            p += 1;
        }
        proof {
            lemma_insert_pos(kept, record.upload_time);
        }
        self.records.insert(p, record.clone());

        // Enforce the retention window.
        if self.records.len() > self.capacity {
            self.records.truncate(self.capacity);
        }
        proof {
            assert(self@ == insert_result(s0, *record, self.capacity as int));
            lemma_insert_result_wf(s0, *record, self.capacity as int);
        }
        Ok(())
    }
}

/// Two records never coexist with the same content hash: every
/// well-formed store keeps the hash a key.
pub proof fn lemma_no_duplicate_hashes(db: Database, i: int, j: int)
    requires
        db.wf(),
        0 <= i < db@.len(),
        0 <= j < db@.len(),
        i != j,
    ensures
        db@[i].file_hash@ != db@[j].file_hash@,
{
}

/// The retention window is a hard bound: an insert never leaves more
/// records than the window holds, and once the store is full it stays
/// exactly full — growth stops at the window.
pub proof fn lemma_insert_result_len(s: Seq<UploadRecord>, rec: UploadRecord, cap: int)
    requires
        cap >= 1,
    ensures
        insert_result(s, rec, cap).len() == if remove_by_id(s, rec.id@).len() + 1 > cap {
            cap as int
        } else {
            remove_by_id(s, rec.id@).len() + 1 as int
        },
{
    lemma_id_index(s, rec.id@);
    let kept = remove_by_id(s, rec.id@);
    lemma_insert_pos(kept, rec.upload_time);
    kept.insert_ensures(insert_pos(kept, rec.upload_time), rec);
}

/// A record under a fresh id replaces nothing, so distinct inserts grow
/// the store one by one until the window caps it.
pub proof fn lemma_insert_fresh_id_len(s: Seq<UploadRecord>, rec: UploadRecord, cap: int)
    requires
        cap >= 1,
        id_index(s, rec.id@) == -1,
    ensures
        insert_result(s, rec, cap).len() == if s.len() + 1 > cap {
            cap as int
        } else {
            s.len() + 1 as int
        },
{
    lemma_insert_result_len(s, rec, cap);
}

/// Eviction drops only the oldest: the store after an insert is the
/// newest-first prefix of the placed sequence, which is itself ordered
/// newest first, so every kept record is at least as recent as every
/// dropped one.
pub proof fn lemma_eviction_keeps_most_recent(s: Seq<UploadRecord>, rec: UploadRecord, cap: int)
    requires
        cap >= 1,
        sorted_by_time_desc(s),
        unique_hashes(s),
        unique_ids(s),
    ensures
        ({
            let kept = remove_by_id(s, rec.id@);
            let placed = kept.insert(insert_pos(kept, rec.upload_time), rec);
            &&& sorted_by_time_desc(placed)
            &&& insert_result(s, rec, cap) == if placed.len() > cap {
                placed.subrange(0, cap)
            } else {
                placed
            }
        }),
{
    lemma_remove_preserves(s, rec.id@);
    lemma_placed_sorted(remove_by_id(s, rec.id@), rec);
}

/// Eviction drops only the oldest: every record the insert keeps is at
/// least as recent as every record of the placed sequence it drops.
pub proof fn lemma_dropped_records_are_oldest(s: Seq<UploadRecord>, rec: UploadRecord, cap: int)
    requires
        cap >= 1,
        sorted_by_time_desc(s),
        unique_hashes(s),
        unique_ids(s),
    ensures
        ({
            let kept = remove_by_id(s, rec.id@);
            let placed = kept.insert(insert_pos(kept, rec.upload_time), rec);
            forall|i: int, j: int|
                #![trigger insert_result(s, rec, cap)[i], placed[j]]
                0 <= i < insert_result(s, rec, cap).len() && insert_result(s, rec, cap).len()
                    <= j < placed.len() ==> insert_result(s, rec, cap)[i].upload_time
                    >= placed[j].upload_time
        }),
{
    lemma_remove_preserves(s, rec.id@);
    lemma_placed_sorted(remove_by_id(s, rec.id@), rec);
}

/// A record at least as new as everything stored lands in front and is
/// never evicted by its own insert: the freshest upload stays reachable.
pub proof fn lemma_newest_insert_in_front(s: Seq<UploadRecord>, rec: UploadRecord, cap: int)
    requires
        cap >= 1,
        forall|i: int| 0 <= i < s.len() ==> s[i].upload_time <= rec.upload_time,
    ensures
        insert_result(s, rec, cap).len() >= 1,
        insert_result(s, rec, cap)[0] == rec,
{
    lemma_id_index(s, rec.id@);
    let k = id_index(s, rec.id@);
    let kept = remove_by_id(s, rec.id@);
    assert forall|i: int| 0 <= i < kept.len() implies kept[i].upload_time
        <= rec.upload_time by {
        if k >= 0 {
            if i < k {
                assert(kept[i] == s[i]);
            } else {
                assert(kept[i] == s[i + 1]);
            }
        }
    }
    lemma_insert_pos(kept, rec.upload_time);
    assert(insert_pos(kept, rec.upload_time) == 0);
    kept.insert_ensures(0, rec);
}

/// Removing the record of one id keeps order and uniqueness.
proof fn lemma_remove_preserves(s: Seq<UploadRecord>, id: Seq<char>)
    requires
        sorted_by_time_desc(s),
        unique_hashes(s),
        unique_ids(s),
    ensures
        sorted_by_time_desc(remove_by_id(s, id)),
        unique_hashes(remove_by_id(s, id)),
        unique_ids(remove_by_id(s, id)),
        remove_by_id(s, id).len() >= s.len() - 1,
        forall|i: int|
            #![trigger remove_by_id(s, id)[i]]
            0 <= i < remove_by_id(s, id).len() ==> exists|j: int|
                0 <= j < s.len() && remove_by_id(s, id)[i] == #[trigger] s[j],
{
    lemma_id_index(s, id);
    let k = id_index(s, id);
    if k >= 0 {
        let t = s.remove(k);
        assert forall|i: int| #![trigger t[i]] 0 <= i < t.len() implies exists|j: int|
            0 <= j < s.len() && t[i] == #[trigger] s[j] by {
            if i < k {
                assert(t[i] == s[i]);
            } else {
                assert(t[i] == s[i + 1]);
            }
        }
    }
}

/// After removing an id, no record carries it (ids were unique).
proof fn lemma_removed_id_absent(s: Seq<UploadRecord>, id: Seq<char>)
    requires
        unique_ids(s),
    ensures
        forall|i: int| 0 <= i < remove_by_id(s, id).len() ==> remove_by_id(s, id)[i].id@ != id,
{
    lemma_id_index(s, id);
    let k = id_index(s, id);
    if k >= 0 {
        let t = s.remove(k);
        assert forall|i: int| 0 <= i < t.len() implies t[i].id@ != id by {
            if i < k {
                assert(t[i] == s[i]);
            } else {
                assert(t[i] == s[i + 1]);
            }
        }
    }
}

/// Placing a record at its insert position keeps the newest-first order.
proof fn lemma_placed_sorted(kept: Seq<UploadRecord>, rec: UploadRecord)
    requires
        sorted_by_time_desc(kept),
    ensures
        sorted_by_time_desc(kept.insert(insert_pos(kept, rec.upload_time), rec)),
{
    lemma_insert_pos(kept, rec.upload_time);
    let p = insert_pos(kept, rec.upload_time);
    kept.insert_ensures(p, rec);
    let placed = kept.insert(p, rec);
    assert forall|i: int, j: int| 0 <= i < j < placed.len() implies placed[i].upload_time
        >= placed[j].upload_time by {
        if i < p {
            assert(placed[i] == kept[i]);
        }
        if j < p {
            assert(placed[j] == kept[j]);
        }
        if i > p {
            assert(placed[i] == kept[i - 1]);
        }
        if j > p {
            assert(placed[j] == kept[j - 1]);
            if p < kept.len() {
                assert(kept[p].upload_time <= rec.upload_time);
            }
            assert(kept[j - 1].upload_time <= rec.upload_time);
        }
    }
}

/// Placing a record whose hash and id are absent keeps both unique.
proof fn lemma_placed_unique(kept: Seq<UploadRecord>, rec: UploadRecord)
    requires
        unique_hashes(kept),
        unique_ids(kept),
        forall|i: int| 0 <= i < kept.len() ==> kept[i].file_hash@ != rec.file_hash@,
        forall|i: int| 0 <= i < kept.len() ==> kept[i].id@ != rec.id@,
    ensures
        unique_hashes(kept.insert(insert_pos(kept, rec.upload_time), rec)),
        unique_ids(kept.insert(insert_pos(kept, rec.upload_time), rec)),
{
    lemma_insert_pos(kept, rec.upload_time);
    let p = insert_pos(kept, rec.upload_time);
    kept.insert_ensures(p, rec);
    let placed = kept.insert(p, rec);
    assert forall|i: int, j: int| 0 <= i < j < placed.len() implies placed[i].file_hash@
        != placed[j].file_hash@ && placed[i].id@ != placed[j].id@ by {
        if i < p {
            assert(placed[i] == kept[i]);
        }
        if i > p {
            assert(placed[i] == kept[i - 1]);
        }
        if j < p {
            assert(placed[j] == kept[j]);
        }
        if j > p {
            assert(placed[j] == kept[j - 1]);
        }
    }
}

/// One insert leaves a well-formed store within the retention window.
proof fn lemma_insert_result_wf(s: Seq<UploadRecord>, rec: UploadRecord, cap: int)
    requires
        cap >= 1,
        s.len() <= cap,
        sorted_by_time_desc(s),
        unique_hashes(s),
        unique_ids(s),
        !hash_conflict(s, rec),
    ensures
        insert_result(s, rec, cap).len() <= cap,
        sorted_by_time_desc(insert_result(s, rec, cap)),
        unique_hashes(insert_result(s, rec, cap)),
        unique_ids(insert_result(s, rec, cap)),
{
    lemma_remove_preserves(s, rec.id@);
    lemma_removed_id_absent(s, rec.id@);
    let kept = remove_by_id(s, rec.id@);
    lemma_insert_pos(kept, rec.upload_time);
    let p = insert_pos(kept, rec.upload_time);
    let placed = kept.insert(p, rec);
    kept.insert_ensures(p, rec);

    // No kept record shares the new record's hash: a sharer would have
    // a different id (ids were cleared), which the conflict check refused.
    assert forall|i: int| 0 <= i < kept.len() implies kept[i].file_hash@ != rec.file_hash@ by {
        if kept[i].file_hash@ == rec.file_hash@ {
            let j = choose|j: int| 0 <= j < s.len() && kept[i] == s[j];
            assert(hash_conflict(s, rec));
        }
    }

    lemma_placed_sorted(kept, rec);
    lemma_placed_unique(kept, rec);

    if placed.len() > cap {
        let trimmed = placed.subrange(0, cap);
        assert(sorted_by_time_desc(trimmed));
        assert(unique_hashes(trimmed));
        assert(unique_ids(trimmed));
    }
}

} // verus!
