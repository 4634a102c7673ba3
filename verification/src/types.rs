use vstd::prelude::*;

verus! {

/// Configuration for the remote object-storage backend.
#[derive(Debug)]
pub struct R2Config {
    pub access_key_id: String,
    pub secret_access_key: String,
    pub endpoint: String,
    pub bucket_name: String,
    pub public_url_base: String,
}

/// A record of one successfully uploaded file, keyed by content hash.
#[derive(Debug)]
pub struct UploadRecord {
    pub id: String,
    pub original_filename: String,
    pub file_hash: String,
    pub file_size: u64,
    pub url: String,
    pub upload_time: i64,
}

/// The outcome of one upload request, as handed back to every caller.
#[derive(Debug)]
pub struct UploadResult {
    pub success: bool,
    pub url: Option<String>,
    pub error: Option<String>,
    pub from_cache: bool,
}

impl UploadResult {
    /// Exactly one of success-with-url or failure-with-error holds,
    /// and a cache hit is always a success.
    pub open spec fn wf(self) -> bool {
        &&& self.success <==> self.url is Some
        &&& !self.success <==> self.error is Some
        &&& self.from_cache ==> self.success
    }

    /// A successful outcome carrying the object's public URL.
    pub fn succeeded(url: String, from_cache: bool) -> (r: UploadResult)
        ensures
            r.wf(),
            r.success,
            r.from_cache == from_cache,
            r.url matches Some(u) && u@ == url@,
            r.error is None,
    {
        UploadResult { success: true, url: Some(url), error: None, from_cache }
    }

    /// A failed outcome carrying the error text.
    pub fn failed(error: String) -> (r: UploadResult)
        ensures
            r.wf(),
            !r.success,
            !r.from_cache,
            r.error matches Some(e) && e@ == error@,
            r.url is None,
    {
        UploadResult { success: false, url: None, error: Some(error), from_cache: false }
    }
}

impl Clone for R2Config {
    fn clone(&self) -> (res: Self)
        ensures
            res == *self,
    {
        R2Config {
            access_key_id: self.access_key_id.clone(),
            secret_access_key: self.secret_access_key.clone(),
            endpoint: self.endpoint.clone(),
            bucket_name: self.bucket_name.clone(),
            public_url_base: self.public_url_base.clone(),
        }
    }
}

impl Clone for UploadRecord {
    fn clone(&self) -> (res: Self)
        ensures
            res == *self,
    {
        UploadRecord {
            id: self.id.clone(),
            original_filename: self.original_filename.clone(),
            file_hash: self.file_hash.clone(),
            file_size: self.file_size,
            url: self.url.clone(),
            upload_time: self.upload_time,
        }
    }
}

impl Clone for UploadResult {
    fn clone(&self) -> (res: Self)
        ensures
            res == *self,
    {
        UploadResult {
            success: self.success,
            url: match &self.url {
                Some(u) => Some(u.clone()),
                None => None,
            },
            error: match &self.error {
                Some(e) => Some(e.clone()),
                None => None,
            },
            from_cache: self.from_cache,
        }
    }
}

} // verus!
