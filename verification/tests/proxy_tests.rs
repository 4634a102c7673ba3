use imagebed::finish_proxy_upload;
use imagebed::handle_upload_request;
use imagebed::Database;
use imagebed::FilePart;
use imagebed::HandlerStep;
use imagebed::ParsedRequest;
use imagebed::ProxyError;
use imagebed::ProxyServer;
use imagebed::R2Uploader;
use imagebed::StartDecision;

#[test]
fn start_is_idempotent_and_keeps_the_port() {
    let mut p = ProxyServer::new(8080);
    assert_eq!(p.port(), 8080);
    assert!(!p.is_running());

    match p.start(true) {
        StartDecision::Bind(port) => assert_eq!(port, 8080),
        _ => panic!("a stopped, configured proxy must ask to bind"),
    }
    assert!(p.complete_start(Ok(())).is_ok());
    assert!(p.is_running());

    // Starting again is a success without touching the bound port.
    assert!(matches!(p.start(true), StartDecision::AlreadyRunning));
    assert_eq!(p.port(), 8080);
    assert!(p.is_running());

    // Stop, then start again: the same port is rebound.
    assert!(p.stop().is_ok());
    assert!(!p.is_running());
    assert_eq!(p.port(), 8080);
    match p.start(true) {
        StartDecision::Bind(port) => assert_eq!(port, 8080),
        _ => panic!("a stopped proxy must ask to bind again"),
    }
    assert!(p.complete_start(Ok(())).is_ok());
    assert!(p.is_running());
}

#[test]
fn start_without_backend_is_refused_and_stays_stopped() {
    let p = ProxyServer::new(3000);
    assert!(matches!(p.start(false), StartDecision::Refused));
    assert!(!p.is_running());
}

#[test]
fn bind_failure_is_reported_and_recoverable() {
    let mut p = ProxyServer::new(8080);
    assert!(matches!(p.start(true), StartDecision::Bind(8080)));
    let r = p.complete_start(Err("address already in use".to_string()));
    match r {
        Err(ProxyError::BindError(m)) => assert_eq!(m, "address already in use"),
        _ => panic!("a failed bind must surface a bind error"),
    }
    assert!(!p.is_running());

    // A later start on a free port succeeds.
    p.set_port(8081);
    assert!(matches!(p.start(true), StartDecision::Bind(8081)));
    assert!(p.complete_start(Ok(())).is_ok());
    assert!(p.is_running());
}

#[test]
fn stop_while_stopped_is_a_no_op() {
    let mut p = ProxyServer::new(1234);
    assert!(p.stop().is_ok());
    assert!(!p.is_running());
    assert_eq!(p.port(), 1234);
}

fn file_part(data: Vec<u8>) -> ParsedRequest {
    ParsedRequest::File(FilePart {
        filename: Some("shot.png".to_string()),
        content_type: Some("image/png".to_string()),
        data,
    })
}

#[test]
fn malformed_multipart_is_a_client_error() {
    let db = Some(Database::new(100));
    match handle_upload_request(&ParsedRequest::Malformed("boom".to_string()), true, &db) {
        HandlerStep::Reply(rep) => {
            assert_eq!(rep.status, 400);
            assert!(!rep.result.success);
            assert_eq!(rep.result.error.as_deref(), Some("Invalid multipart data: boom"));
        }
        _ => panic!("malformed input must be answered at once"),
    }
}

#[test]
fn unreadable_file_part_is_a_client_error() {
    let db = Some(Database::new(100));
    match handle_upload_request(&ParsedRequest::ReadFailed("eof".to_string()), true, &db) {
        HandlerStep::Reply(rep) => {
            assert_eq!(rep.status, 400);
            assert_eq!(rep.result.error.as_deref(), Some("Failed to read upload data: eof"));
        }
        _ => panic!("an unreadable part must be answered at once"),
    }
}

#[test]
fn missing_file_part_is_a_client_error() {
    let db = Some(Database::new(100));
    match handle_upload_request(&ParsedRequest::NoFile, true, &db) {
        HandlerStep::Reply(rep) => {
            assert_eq!(rep.status, 400);
            assert_eq!(rep.result.error.as_deref(), Some("No file found in multipart payload"));
        }
        _ => panic!("a missing file must be answered at once"),
    }
}

#[test]
fn unconfigured_proxy_is_service_unavailable() {
    let db = Some(Database::new(100));
    match handle_upload_request(&file_part(vec![1, 2, 3]), false, &db) {
        HandlerStep::Reply(rep) => {
            assert_eq!(rep.status, 503);
            assert_eq!(rep.result.error.as_deref(), Some("R2 configuration not set"));
        }
        _ => panic!("an unconfigured proxy must not ask for an upload"),
    }
}

#[test]
fn new_content_is_uploaded_with_declared_values() {
    let db = Some(Database::new(100));
    match handle_upload_request(&file_part(vec![1, 2, 3]), true, &db) {
        HandlerStep::Upload { file_hash, filename, content_type } => {
            assert_eq!(file_hash, R2Uploader::calculate_hash(&[1, 2, 3]));
            assert_eq!(filename, "shot.png");
            assert_eq!(content_type, "image/png");
        }
        _ => panic!("new content must be uploaded"),
    }
}

#[test]
fn missing_names_fall_back_to_defaults() {
    let db = Some(Database::new(100));
    let req = ParsedRequest::File(FilePart { filename: None, content_type: None, data: vec![9] });
    match handle_upload_request(&req, true, &db) {
        HandlerStep::Upload { filename, content_type, .. } => {
            assert_eq!(filename, "upload.bin");
            assert_eq!(content_type, "application/octet-stream");
        }
        _ => panic!("new content must be uploaded"),
    }
}

#[test]
fn proxy_round_trip_hits_cache_on_second_request() {
    let mut db = Some(Database::new(100));
    let data = vec![4u8, 5, 6];
    let (hash, filename) = match handle_upload_request(&file_part(data.clone()), true, &db) {
        HandlerStep::Upload { file_hash, filename, .. } => (file_hash, filename),
        _ => panic!("first request must upload"),
    };
    let rep = finish_proxy_upload(
        &mut db,
        Ok("https://img.example.com/tok.png".to_string()),
        hash,
        &filename,
        data.len() as u64,
    );
    assert_eq!(rep.status, 200);
    assert!(rep.result.success);
    assert!(!rep.result.from_cache);

    match handle_upload_request(&file_part(data), true, &db) {
        HandlerStep::Reply(rep) => {
            assert_eq!(rep.status, 200);
            assert!(rep.result.from_cache);
            assert_eq!(rep.result.url.as_deref(), Some("https://img.example.com/tok.png"));
        }
        _ => panic!("the second request must be a cache hit"),
    }
}

#[test]
fn backend_failure_is_an_internal_error() {
    let mut db = Some(Database::new(100));
    let rep = finish_proxy_upload(
        &mut db,
        Err("connection reset".to_string()),
        "unused-hash".to_string(),
        "f.png",
        1,
    );
    assert_eq!(rep.status, 500);
    assert!(!rep.result.success);
    assert_eq!(rep.result.error.as_deref(), Some("connection reset"));
    assert!(db.as_ref().unwrap().find_by_hash("unused-hash").is_none());
}
