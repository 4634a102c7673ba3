use vstd::prelude::*;
use vstd::string::*;

use crate::database::hash_conflict;
use crate::database::hash_index;
use crate::database::insert_result;
use crate::database::lemma_hash_index;
use crate::database::Database;
use crate::r2_uploader::R2Uploader;
use crate::trusted;
use crate::trusted::mime_for;
use crate::trusted::sha256_hex;
use crate::types::UploadRecord;
use crate::types::UploadResult;

verus! {

/// How many records the dedup cache retains by default. A policy
/// constant: stores may be built with any other window.
pub const DEFAULT_RETENTION: usize = 100;

/// The error text every path reports when no backend is configured.
pub open spec fn not_configured_text() -> Seq<char> {
    "R2 configuration not set"@
}

/// What the orchestrator decided for one upload request.
#[derive(Debug)]
pub enum PipelineStep {
    /// The request is answered without contacting the backend.
    Done(UploadResult),
    /// The content is new: upload it, then hand the outcome to
    /// `finish_upload` under this content hash.
    NeedsUpload { file_hash: String },
}

/// The cached public URL for a content hash, if a record holds it.
pub fn check_cache(db: &Option<Database>, file_hash: &str) -> (r: Option<String>)
    ensures
        match *db {
            Some(d) => match r {
                Some(u) => hash_index(d@, file_hash@) >= 0 && u@ == d@[hash_index(
                    d@,
                    file_hash@,
                )].url@,
                None => hash_index(d@, file_hash@) == -1,
            },
            None => r is None,
        },
{
    match db {
        Some(d) => match d.find_by_hash(file_hash) {
            Some(rec) => Some(rec.url),
            None => None,
        },
        None => None,
    }
}

/// The shared first half of the pipeline: refuse when unconfigured,
/// answer from the cache when the content hash is known, otherwise ask
/// the caller to upload. No upload is requested while a matching record
/// exists; a missing store only disables caching.
pub fn begin_upload(configured: bool, db: &Option<Database>, file_data: &Vec<u8>) -> (step:
    PipelineStep)
    ensures
        step matches PipelineStep::Done(res) ==> res.wf(),
        !configured ==> match step {
            PipelineStep::Done(res) => !res.success && match res.error {
                Some(e) => e@ == not_configured_text(),
                None => false,
            },
            PipelineStep::NeedsUpload { .. } => false,
        },
        configured ==> match step {
            PipelineStep::Done(res) => (*db) matches Some(d) && hash_index(
                d@,
                sha256_hex(file_data@),
            ) >= 0 && res.success && res.from_cache && (res.url matches Some(u) && u@ == d@[
                hash_index(d@, sha256_hex(file_data@))
            ].url@),
            PipelineStep::NeedsUpload { file_hash } => file_hash@ == sha256_hex(file_data@)
                && match *db {
                Some(d) => hash_index(d@, sha256_hex(file_data@)) == -1,
                None => true,
            },
        },
{
    if !configured {
        return PipelineStep::Done(
            UploadResult::failed(String::from_str("R2 configuration not set")),
        );
    }
    let file_hash = R2Uploader::calculate_hash(file_data.as_slice());
    match check_cache(db, file_hash.as_str()) {
        Some(url) => PipelineStep::Done(UploadResult::succeeded(url, true)),
        None => PipelineStep::NeedsUpload { file_hash },
    }
}

/// The content type the native path infers from the file name.
pub fn content_type_for(filename: &str) -> (r: String)
    ensures
        r@ == mime_for(filename@),
{
    trusted::guess_content_type(filename)
}

/// The content type the proxy path uses: the one the client declared,
/// or the generic octet-stream type.
pub fn content_type_from_declared(declared: Option<String>) -> (r: String)
    ensures
        match declared {
            Some(t) => r@ == t@,
            None => r@ == "application/octet-stream"@,
        },
{
    match declared {
        Some(t) => t,
        None => String::from_str("application/octet-stream"),
    }
}

/// What one successful upload leaves in the store: some record carrying
/// the upload's hash, name, size and URL, stamped with a fresh id and a
/// non-negative time, was offered to the store — and the store either
/// took it (hash free) or refused it unchanged (hash held by another id).
pub open spec fn recorded_upload(
    d0: Database,
    d1: Database,
    rec: UploadRecord,
    file_hash: Seq<char>,
    filename: Seq<char>,
    file_size: u64,
    url: Seq<char>,
) -> bool {
    &&& rec.file_hash@ == file_hash
    &&& rec.original_filename@ == filename
    &&& rec.file_size == file_size
    &&& rec.url@ == url
    &&& rec.upload_time >= 0
    &&& rec.id@.len() == 36
    &&& if hash_conflict(d0@, rec) {
        d1@ == d0@
    } else {
        d1@ == insert_result(d0@, rec, d0.spec_capacity())
    }
}

/// The shared second half of the pipeline: on backend success the caller
/// gets the URL and a record is stored under a fresh id and the current
/// time — a store failure is deliberately swallowed, since the upload
/// itself is the durable outcome; on backend failure the error is
/// surfaced and nothing is written.
pub fn finish_upload(
    db: &mut Option<Database>,
    upload_outcome: Result<String, String>,
    file_hash: String,
    filename: &str,
    file_size: u64,
) -> (res: UploadResult)
    requires
        (*old(db)) matches Some(d) ==> d.wf(),
    ensures
        res.wf(),
        (*final(db)) is Some <==> (*old(db)) is Some,
        match (*old(db), *final(db)) {
            (Some(d0), Some(d1)) => d1.wf() && d1.spec_capacity() == d0.spec_capacity(),
            _ => true,
        },
        match upload_outcome {
            Ok(url) => {
                &&& res.success && !res.from_cache && res.error is None
                &&& res.url matches Some(u) && u@ == url@
                &&& match (*old(db), *final(db)) {
                    (Some(d0), Some(d1)) => exists|rec: UploadRecord|
                        #[trigger] recorded_upload(
                            d0,
                            d1,
                            rec,
                            file_hash@,
                            filename@,
                            file_size,
                            url@,
                        ),
                    (None, None) => true,
                    _ => false,
                }
            },
            Err(e) => {
                &&& !res.success && !res.from_cache && res.url is None
                &&& res.error matches Some(m) && m@ == e@
                &&& *final(db) == *old(db)
            },
        },
{
    match upload_outcome {
        Ok(url) => {
            let id = trusted::fresh_token();
            let upload_time = Database::get_current_timestamp();
            let record = UploadRecord {
                id,
                original_filename: filename.to_owned(),
                file_hash,
                file_size,
                url: url.clone(),
                upload_time,
            };
            let ghost grec = record;
            match db {
                Some(d) => {
                    // A failed cache write must not flip a successful upload.
                    let _ = d.insert_upload_record(&record);
                    proof {
                        let d0 = (*old(db)).unwrap();
                        let d1 = (*final(db)).unwrap();
                        assert(recorded_upload(
                            d0,
                            d1,
                            grec,
                            file_hash@,
                            filename@,
                            file_size,
                            url@,
                        ));
                    }
                },
                None => {},
            }
            UploadResult::succeeded(url, false)
        },
        Err(e) => UploadResult::failed(e),
    }
}

/// The most recent records, newest first, up to the default window.
pub fn get_upload_history(db: &Option<Database>) -> (r: Vec<UploadRecord>)
    ensures
        match *db {
            Some(d) => r@.len() == if DEFAULT_RETENTION < d@.len() {
                DEFAULT_RETENTION as int
            } else {
                d@.len() as int
            } && forall|i: int| 0 <= i < r@.len() ==> r@[i] == d@[i],
            None => r@.len() == 0,
        },
{
    match db {
        Some(d) => d.get_recent_uploads(DEFAULT_RETENTION),
        None => Vec::new(),
    }
}

/// While a record with the content's hash is stored, the cache lookup
/// lands on exactly that record, so a repeated upload of the same bytes
/// is answered with the first upload's URL and no second upload is
/// requested.
pub proof fn lemma_cached_content_not_reuploaded(d: Database, bytes: Seq<u8>, i: int)
    requires
        d.wf(),
        0 <= i < d@.len(),
        d@[i].file_hash@ == sha256_hex(bytes),
    ensures
        hash_index(d@, sha256_hex(bytes)) == i,
{
    lemma_hash_index(d@, sha256_hex(bytes));
    let k = hash_index(d@, sha256_hex(bytes));
    if k < i {
        assert(d@[k].file_hash@ == d@[i].file_hash@);
    }
}

} // verus!
