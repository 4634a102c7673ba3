use imagebed::begin_upload;
use imagebed::check_cache;
use imagebed::content_type_for;
use imagebed::content_type_from_declared;
use imagebed::finish_upload;
use imagebed::get_upload_history;
use imagebed::Database;
use imagebed::PipelineStep;
use imagebed::R2Uploader;

#[test]
fn unconfigured_pipeline_fails_without_hashing() {
    let db = Some(Database::new(100));
    let step = begin_upload(false, &db, &vec![1u8, 2, 3]);
    match step {
        PipelineStep::Done(res) => {
            assert!(!res.success);
            assert!(!res.from_cache);
            assert_eq!(res.error.as_deref(), Some("R2 configuration not set"));
            assert!(res.url.is_none());
        }
        PipelineStep::NeedsUpload { .. } => panic!("must not ask for an upload"),
    }
}

#[test]
fn miss_asks_for_upload_with_content_hash() {
    let db = Some(Database::new(100));
    let step = begin_upload(true, &db, &vec![1u8, 2, 3]);
    match step {
        PipelineStep::NeedsUpload { file_hash } => {
            assert_eq!(file_hash, R2Uploader::calculate_hash(&[1u8, 2, 3]));
        }
        PipelineStep::Done(_) => panic!("a miss must ask for an upload"),
    }
}

#[test]
fn missing_store_disables_caching_but_not_uploads() {
    let mut db: Option<Database> = None;
    let step = begin_upload(true, &db, &vec![9u8]);
    let hash = match step {
        PipelineStep::NeedsUpload { file_hash } => file_hash,
        PipelineStep::Done(_) => panic!("no store means no cache hit"),
    };
    let res = finish_upload(
        &mut db,
        Ok("https://img.example.com/x.jpg".to_string()),
        hash,
        "x.jpg",
        1,
    );
    assert!(res.success);
    assert_eq!(res.url.as_deref(), Some("https://img.example.com/x.jpg"));
    assert!(db.is_none());
    assert_eq!(get_upload_history(&db).len(), 0);
}

#[test]
fn successful_upload_is_recorded_and_then_cached() {
    let mut db = Some(Database::new(100));
    let bytes = vec![1u8, 2, 3];
    let step = begin_upload(true, &db, &bytes);
    let hash = match step {
        PipelineStep::NeedsUpload { file_hash } => file_hash,
        PipelineStep::Done(_) => panic!("first upload must be a miss"),
    };
    let res = finish_upload(
        &mut db,
        Ok("https://img.example.com/first.png".to_string()),
        hash.clone(),
        "a.png",
        bytes.len() as u64,
    );
    assert!(res.success);
    assert!(!res.from_cache);
    assert_eq!(res.url.as_deref(), Some("https://img.example.com/first.png"));

    let stored = db.as_ref().unwrap().find_by_hash(&hash).expect("record stored");
    assert_eq!(stored.original_filename, "a.png");
    assert_eq!(stored.file_size, 3);
    assert_eq!(stored.url, "https://img.example.com/first.png");
    assert_eq!(stored.id.len(), 36);

    // The second call with the same bytes, any filename: answered from
    // the cache with the first call's URL, no upload requested.
    let again = begin_upload(true, &db, &bytes);
    match again {
        PipelineStep::Done(res) => {
            assert!(res.success);
            assert!(res.from_cache);
            assert_eq!(res.url.as_deref(), Some("https://img.example.com/first.png"));
        }
        PipelineStep::NeedsUpload { .. } => panic!("cached content must not be re-uploaded"),
    }
}

#[test]
fn failed_upload_writes_nothing() {
    let mut db = Some(Database::new(100));
    let bytes = vec![7u8, 7];
    let hash = R2Uploader::calculate_hash(&bytes);
    let res = finish_upload(
        &mut db,
        Err("backend says no".to_string()),
        hash.clone(),
        "b.png",
        2,
    );
    assert!(!res.success);
    assert!(!res.from_cache);
    assert!(res.url.is_none());
    assert_eq!(res.error.as_deref(), Some("backend says no"));
    assert!(db.as_ref().unwrap().find_by_hash(&hash).is_none());
}

#[test]
fn check_cache_returns_stored_url() {
    let mut db = Some(Database::new(100));
    let hash = R2Uploader::calculate_hash(&[5u8]);
    assert!(check_cache(&db, &hash).is_none());
    let _ = finish_upload(
        &mut db,
        Ok("https://img.example.com/five.bin".to_string()),
        hash.clone(),
        "five.bin",
        1,
    );
    assert_eq!(check_cache(&db, &hash).as_deref(), Some("https://img.example.com/five.bin"));
    assert!(check_cache(&None, &hash).is_none());
}

#[test]
fn hundred_and_one_uploads_keep_exactly_one_hundred() {
    let mut db = Some(Database::new(100));
    let mut first_hash = String::new();
    for i in 0..101u32 {
        let bytes = i.to_be_bytes().to_vec();
        let hash = match begin_upload(true, &db, &bytes) {
            PipelineStep::NeedsUpload { file_hash } => file_hash,
            PipelineStep::Done(_) => panic!("distinct content must always miss"),
        };
        if i == 0 {
            first_hash = hash.clone();
        }
        let res = finish_upload(
            &mut db,
            Ok(format!("https://img.example.com/{}.bin", i)),
            hash,
            &format!("{}.bin", i),
            4,
        );
        assert!(res.success);
    }
    let history = get_upload_history(&db);
    assert_eq!(history.len(), 100);
    for w in history.windows(2) {
        assert!(w[0].upload_time >= w[1].upload_time);
    }
    // The very first upload fell out of the window.
    assert!(db.as_ref().unwrap().find_by_hash(&first_hash).is_none());
    assert_eq!(history[0].url, "https://img.example.com/100.bin");
}

#[test]
fn content_types_are_inferred_or_defaulted() {
    assert_eq!(content_type_for("photo.png"), "image/png");
    assert_eq!(content_type_for("page.html"), "text/html");
    assert_eq!(content_type_for("mystery.zzqq"), "application/octet-stream");
    assert_eq!(
        content_type_from_declared(Some("image/webp".to_string())),
        "image/webp"
    );
    assert_eq!(content_type_from_declared(None), "application/octet-stream");
}
