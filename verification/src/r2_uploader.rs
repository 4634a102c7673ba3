use vstd::prelude::*;
use vstd::string::*;

use crate::strutil::contains_str;
use crate::strutil::contains_seq;
use crate::strutil::find_last_char;
use crate::strutil::has_prefix;
use crate::strutil::last_index_of;
use crate::strutil::starts_with_str;
use crate::strutil::trim_trailing;
use crate::strutil::trim_trailing_slashes;
use crate::trusted;
use crate::trusted::sha256_hex;
use crate::types::R2Config;

verus! {

/// Why an uploader could not be built from a configuration.
#[derive(Debug)]
pub enum ConfigError {
    /// A required field of the backend configuration is empty.
    InvalidConfig(String),
}

/// The fields a configuration must fill before an uploader is built from it.
pub open spec fn config_valid(c: R2Config) -> bool {
    &&& c.access_key_id@.len() > 0
    &&& c.secret_access_key@.len() > 0
    &&& c.bucket_name@.len() > 0
}

/// The message validation reports for the first empty required field.
pub open spec fn invalid_config_message(c: R2Config) -> Seq<char> {
    if c.access_key_id@.len() == 0 {
        "Access Key ID is empty"@
    } else if c.secret_access_key@.len() == 0 {
        "Secret Access Key is empty"@
    } else {
        "Bucket name is empty"@
    }
}

/// Non-fatal observations about the endpoint's shape.
#[derive(Debug)]
pub struct ConfigWarnings {
    /// The endpoint does not use the secure scheme.
    pub insecure_endpoint: bool,
    /// The endpoint does not match the expected backend hostname pattern.
    pub nonstandard_endpoint: bool,
}

/// The part of `f` after its last path separator.
pub open spec fn final_component(f: Seq<char>) -> Seq<char> {
    f.subrange(last_index_of(f, '/') + 1, f.len() as int)
}

/// The file-name extension: what follows the last dot of the final
/// component, absent when there is no dot past the first character.
pub open spec fn extension_of(f: Seq<char>) -> Option<Seq<char>> {
    let name = final_component(f);
    let d = last_index_of(name, '.');
    if d > 0 {
        Some(name.subrange(d + 1, name.len() as int))
    } else {
        None
    }
}

/// The extension used for storage keys, defaulting to "jpg".
pub open spec fn extension_or_jpg(f: Seq<char>) -> Seq<char> {
    match extension_of(f) {
        Some(e) => e,
        None => "jpg"@,
    }
}

/// The content digest is a function of the bytes alone: the same bytes
/// hash the same on every call, in every process and after any restart.
pub proof fn lemma_hash_deterministic(b1: Seq<u8>, b2: Seq<u8>)
    requires
        b1 == b2,
    ensures
        sha256_hex(b1) == sha256_hex(b2),
{
}

/// A storage key and the public URL the uploaded object will get.
#[derive(Debug)]
pub struct PreparedUpload {
    pub key: String,
    pub url: String,
}

/// The client half that can be validated and reasoned about: a checked
/// configuration, from which storage keys and public URLs are derived.
pub struct R2Uploader {
    config: R2Config,
}

impl R2Uploader {
    /// The configuration the uploader was built from.
    pub closed spec fn spec_config(self) -> R2Config {
        self.config
    }

    /// Check that no required field of the configuration is empty.
    pub fn validate_config(config: &R2Config) -> (r: Result<(), ConfigError>)
        ensures
            match r {
                Ok(()) => config_valid(*config),
                Err(e) => !config_valid(*config) && (e matches ConfigError::InvalidConfig(m)
                    && m@ == invalid_config_message(*config)),
            },
    {
        if config.access_key_id.as_str().unicode_len() == 0 {
            return Err(ConfigError::InvalidConfig(String::from_str("Access Key ID is empty")));
        }
        if config.secret_access_key.as_str().unicode_len() == 0 {
            return Err(ConfigError::InvalidConfig(String::from_str("Secret Access Key is empty")));
        }
        if config.bucket_name.as_str().unicode_len() == 0 {
            return Err(ConfigError::InvalidConfig(String::from_str("Bucket name is empty")));
        }
        Ok(())
    }

    /// The non-fatal warnings validation emits about the endpoint.
    pub fn config_warnings(config: &R2Config) -> (w: ConfigWarnings)
        ensures
            w.insecure_endpoint == !has_prefix(config.endpoint@, "https://"@),
            w.nonstandard_endpoint == !contains_seq(
                config.endpoint@,
                ".r2.cloudflarestorage.com"@,
            ),
    {
        ConfigWarnings {
            insecure_endpoint: !starts_with_str(config.endpoint.as_str(), "https://"),
            nonstandard_endpoint: !contains_str(
                config.endpoint.as_str(),
                ".r2.cloudflarestorage.com",
            ),
        }
    }

    /// Build an uploader from a configuration, refusing one with an
    /// empty access key, secret key or bucket name.
    pub fn new(config: R2Config) -> (r: Result<R2Uploader, ConfigError>)
        ensures
            match r {
                Ok(u) => config_valid(config) && u.spec_config() == config,
                Err(e) => !config_valid(config) && (e matches ConfigError::InvalidConfig(m)
                    && m@ == invalid_config_message(config)),
            },
    {
        match Self::validate_config(&config) {
            Ok(()) => Ok(R2Uploader { config }),
            Err(e) => Err(e),
        }
    }

    /// A borrow of the held configuration, for building the network client.
    pub fn config(&self) -> (c: &R2Config)
        ensures
            *c == self.spec_config(),
    {
        &self.config
    }

    /// The content digest used as the dedup key: 64 lowercase hex characters,
    /// the same for the same bytes on every call.
    pub fn calculate_hash(data: &[u8]) -> (r: String)
        ensures
            r@ == sha256_hex(data@),
            r@.len() == 64,
    {
        trusted::sha256_hex_digest(data)
    }

    /// The extension a storage key gets for this file name.
    pub fn file_extension(filename: &str) -> (ext: String)
        ensures
            ext@ == extension_or_jpg(filename@),
    {
        let f_len: usize = filename.unicode_len();
        proof {
            crate::strutil::lemma_last_index_of(filename@, '/');
        }
        let name: &str = match find_last_char(filename, '/') {
            Some(i) => filename.substring_char(i + 1, f_len),
            None => {
                proof {
                    assert(filename@.subrange(0, filename@.len() as int) =~= filename@);
                }
                filename
            },
        };
        let n_len: usize = name.unicode_len();
        proof {
            crate::strutil::lemma_last_index_of(name@, '.');
        }
        match find_last_char(name, '.') {
            Some(d) => {
                if d > 0 {
                    name.substring_char(d + 1, n_len).to_owned()
                } else {
                    String::from_str("jpg")
                }
            },
            None => String::from_str("jpg"),
        }
    }

    /// Derive a fresh storage key and the public URL it will be served
    /// under: a fresh random token, a dot, the file's extension; the URL
    /// is the public base (trailing slashes stripped), a slash, the key.
    /// The token is random on purpose, never derived from the content,
    /// so a retried upload cannot collide with a partial object.
    pub fn prepare_upload(&self, filename: &str) -> (p: PreparedUpload)
        ensures
            exists|t: Seq<char>|
                t.len() == 36 && p.key@ == t + "."@ + extension_or_jpg(filename@),
            p.url@ == trim_trailing(self.spec_config().public_url_base@, '/') + "/"@ + p.key@,
    {
        let token = trusted::fresh_token();
        let ghost t = token@;
        let ext = Self::file_extension(filename);
        let key = token.concat(".").concat(ext.as_str());
        proof {
            assert(key@ =~= t + "."@ + ext@);
        }
        let base = trim_trailing_slashes(self.config.public_url_base.as_str());
        let url = base.concat("/").concat(key.as_str());
        proof {
            assert(url@ =~= trim_trailing(self.spec_config().public_url_base@, '/') + "/"@
                + key@);
        }
        PreparedUpload { key, url }
    }
}

} // verus!
