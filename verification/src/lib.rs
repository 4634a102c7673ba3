pub mod clipboard;
pub mod config;
pub mod database;
pub mod pipeline;
pub mod proxy_server;
pub mod r2_uploader;
pub mod strutil;
pub mod trusted;
pub mod types;

pub use clipboard::is_image_path_candidate;
pub use clipboard::parse_data_url;
pub use config::ConfigManager;
pub use database::Database;
pub use database::StoreError;
pub use pipeline::begin_upload;
pub use pipeline::check_cache;
pub use pipeline::content_type_for;
pub use pipeline::content_type_from_declared;
pub use pipeline::finish_upload;
pub use pipeline::get_upload_history;
pub use pipeline::PipelineStep;
pub use pipeline::DEFAULT_RETENTION;
pub use proxy_server::finish_proxy_upload;
pub use proxy_server::handle_upload_request;
pub use proxy_server::FilePart;
pub use proxy_server::HandlerStep;
pub use proxy_server::HttpReply;
pub use proxy_server::ParsedRequest;
pub use proxy_server::ProxyError;
pub use proxy_server::ProxyServer;
pub use proxy_server::StartDecision;
pub use r2_uploader::ConfigError;
pub use r2_uploader::ConfigWarnings;
pub use r2_uploader::PreparedUpload;
pub use r2_uploader::R2Uploader;
pub use strutil::contains_str;
pub use strutil::ends_with_str;
pub use strutil::find_first_char;
pub use strutil::find_last_char;
pub use strutil::starts_with_str;
pub use strutil::trim_trailing_slashes;
pub use types::R2Config;
pub use types::UploadRecord;
pub use types::UploadResult;
