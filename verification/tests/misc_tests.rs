use imagebed::contains_str;
use imagebed::ends_with_str;
use imagebed::find_first_char;
use imagebed::find_last_char;
use imagebed::is_image_path_candidate;
use imagebed::parse_data_url;
use imagebed::starts_with_str;
use imagebed::trim_trailing_slashes;
use imagebed::ConfigManager;
use imagebed::UploadResult;

#[test]
fn string_helpers_behave_like_std() {
    assert!(starts_with_str("https://x", "https://"));
    assert!(!starts_with_str("http://x", "https://"));
    assert!(ends_with_str("photo.png", ".png"));
    assert!(!ends_with_str("png", ".png"));
    assert!(contains_str("a.r2.cloudflarestorage.com/b", ".r2.cloudflarestorage.com"));
    assert!(!contains_str("a.example.com/b", ".r2.cloudflarestorage.com"));
    assert_eq!(find_first_char("a,b,c", ','), Some(1));
    assert_eq!(find_first_char("abc", ','), None);
    assert_eq!(find_last_char("a.b.c", '.'), Some(3));
    assert_eq!(find_last_char("abc", '.'), None);
    assert_eq!(trim_trailing_slashes("https://cdn.example///"), "https://cdn.example");
    assert_eq!(trim_trailing_slashes("no-slash"), "no-slash");
    assert_eq!(trim_trailing_slashes("///"), "");
}

#[test]
fn config_manager_joins_the_config_path() {
    let m = ConfigManager::new("/data/app".to_string());
    assert_eq!(m.config_path(), "/data/app/config.json");
    let m = ConfigManager::new("/data/app/".to_string());
    assert_eq!(m.config_path(), "/data/app/config.json");
    let m = ConfigManager::new(String::new());
    assert_eq!(m.config_path(), "config.json");
}

#[test]
fn config_exists_is_false_for_a_missing_file() {
    let m = ConfigManager::new("/definitely/not/a/real/dir".to_string());
    assert!(!m.config_exists());
}

#[test]
fn data_urls_are_decoded() {
    assert_eq!(
        parse_data_url("data:image/png;base64,aGVsbG8=").as_deref(),
        Some(b"hello".as_slice())
    );
    assert!(parse_data_url("data:image/png;base64,!!!notbase64!!!").is_none());
    assert!(parse_data_url("data:image/pngnocomma").is_none());
    assert!(parse_data_url("https://example.com/a.png").is_none());
}

#[test]
fn image_path_candidates_are_recognised() {
    assert!(is_image_path_candidate("/tmp/shot.png"));
    assert!(is_image_path_candidate("photo.jpeg"));
    assert!(is_image_path_candidate("anim.gif"));
    assert!(is_image_path_candidate("pic.webp"));
    assert!(!is_image_path_candidate("notes.txt"));
    let long = format!("{}.png", "a".repeat(1000));
    assert!(!is_image_path_candidate(&long));
}

#[test]
fn upload_result_constructors_keep_the_shape() {
    let ok = UploadResult::succeeded("https://u".to_string(), true);
    assert!(ok.success && ok.from_cache);
    assert_eq!(ok.url.as_deref(), Some("https://u"));
    assert!(ok.error.is_none());

    let err = UploadResult::failed("nope".to_string());
    assert!(!err.success && !err.from_cache);
    assert!(err.url.is_none());
    assert_eq!(err.error.as_deref(), Some("nope"));
}
