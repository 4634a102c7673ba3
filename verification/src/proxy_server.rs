use vstd::prelude::*;
use vstd::string::*;

use crate::database::hash_index;
use crate::database::Database;
use crate::pipeline::begin_upload;
use crate::pipeline::finish_upload;
use crate::pipeline::not_configured_text;
use crate::pipeline::recorded_upload;
use crate::pipeline::PipelineStep;
use crate::trusted::sha256_hex;
use crate::types::UploadRecord;
use crate::types::UploadResult;

verus! {

/// Why the proxy could not be started.
#[derive(Debug)]
pub enum ProxyError {
    /// No object-storage client is configured yet.
    NotConfigured,
    /// The requested loopback port could not be bound.
    BindError(String),
}

/// What a start request asks the caller to do next.
#[derive(Debug)]
pub enum StartDecision {
    /// The proxy is already running: report success, touch nothing.
    AlreadyRunning,
    /// No backend is configured: report the error, stay stopped.
    Refused,
    /// Bind the loopback listener on this port, then report the outcome.
    Bind(u16),
}

/// The lifecycle of the loopback proxy: a port and whether an accept
/// loop currently holds it. Stopped and Running are the two states;
/// binding the socket and serving connections happen outside this type,
/// which decides every transition.
pub struct ProxyServer {
    port: u16,
    running: bool,
}

/// What `start` decides from the current state and the configured flag.
pub open spec fn start_decision(p: ProxyServer, configured: bool) -> StartDecision {
    if p.spec_running() {
        StartDecision::AlreadyRunning
    } else if !configured {
        StartDecision::Refused
    } else {
        StartDecision::Bind(p.spec_port())
    }
}

impl ProxyServer {
    pub closed spec fn spec_port(self) -> u16 {
        self.port
    }

    pub closed spec fn spec_running(self) -> bool {
        self.running
    }

    /// A stopped proxy that would bind the given port.
    pub fn new(port: u16) -> (p: ProxyServer)
        ensures
            p.spec_port() == port,
            !p.spec_running(),
    {
        ProxyServer { port, running: false }
    }

    pub fn port(&self) -> (r: u16)
        ensures
            r == self.spec_port(),
    {
        self.port
    }

    pub fn is_running(&self) -> (r: bool)
        ensures
            r == self.spec_running(),
    {
        self.running
    }

    /// Change the port the next start will bind; the running state is untouched.
    pub fn set_port(&mut self, port: u16)
        ensures
            final(self).spec_port() == port,
            final(self).spec_running() == old(self).spec_running(),
    {
        self.port = port;
    }

    /// Decide a start request: a running proxy is left alone (idempotent
    /// success), an unconfigured one is refused, otherwise the caller is
    /// asked to bind the current port and hand back the outcome.
    pub fn start(&self, configured: bool) -> (d: StartDecision)
        ensures
            d == start_decision(*self, configured),
    {
        if self.running {
            StartDecision::AlreadyRunning
        } else if !configured {
            StartDecision::Refused
        } else {
            StartDecision::Bind(self.port)
        }
    }

    /// Record the outcome of the bind the last start decision asked for:
    /// a bound listener moves the proxy to Running; a bind failure is
    /// surfaced as the error and the proxy stays Stopped. The port is
    /// never altered here.
    pub fn complete_start(&mut self, bind_outcome: Result<(), String>) -> (r: Result<
        (),
        ProxyError,
    >)
        requires
            !old(self).spec_running(),
        ensures
            final(self).spec_port() == old(self).spec_port(),
            match bind_outcome {
                Ok(()) => r is Ok && final(self).spec_running(),
                Err(m) => !final(self).spec_running() && (r matches Err(
                    ProxyError::BindError(e),
                ) && e@ == m@),
            },
    {
        match bind_outcome {
            Ok(()) => {
                self.running = true;
                Ok(())
            },
            Err(m) => Err(ProxyError::BindError(m)),
        }
    }

    /// Stop the proxy: always succeeds, a stopped proxy is left alone,
    /// and the port is kept so a later start rebinds the same one.
    pub fn stop(&mut self) -> (r: Result<(), ProxyError>)
        ensures
            r is Ok,
            !final(self).spec_running(),
            final(self).spec_port() == old(self).spec_port(),
    {
        self.running = false;
        Ok(())
    }
}

/// The first part of a request body that carries a file, as the
/// transport layer hands it over.
#[derive(Debug)]
pub struct FilePart {
    pub filename: Option<String>,
    pub content_type: Option<String>,
    pub data: Vec<u8>,
}

/// What parsing a multipart request body produced.
#[derive(Debug)]
pub enum ParsedRequest {
    /// The body was not valid multipart; the payload is the parser's text.
    Malformed(String),
    /// A file part was found but its bytes could not be read.
    ReadFailed(String),
    /// No part carried a file.
    NoFile,
    /// The first file-bearing part.
    File(FilePart),
}

/// A transport status code with the result sent in the body.
#[derive(Debug)]
pub struct HttpReply {
    pub status: u16,
    pub result: UploadResult,
}

/// What the request handler decided.
#[derive(Debug)]
pub enum HandlerStep {
    /// Answer at once with this status and body.
    Reply(HttpReply),
    /// Upload the file part's bytes, then hand the outcome to
    /// `finish_proxy_upload` with these values.
    Upload { file_hash: String, filename: String, content_type: String },
}

/// Decide one proxy request: malformed input and a missing file part are
/// client errors, a missing backend is service-unavailable, known content
/// is answered from the cache, and only new content under a configured
/// backend asks for an upload.
pub fn handle_upload_request(
    request: &ParsedRequest,
    configured: bool,
    db: &Option<Database>,
) -> (step: HandlerStep)
    ensures
        step matches HandlerStep::Reply(rep) ==> rep.result.wf(),
        match *request {
            ParsedRequest::Malformed(m) => match step {
                HandlerStep::Reply(rep) => rep.status == 400 && !rep.result.success
                    && match rep.result.error {
                    Some(e) => e@ == "Invalid multipart data: "@ + m@,
                    None => false,
                },
                _ => false,
            },
            ParsedRequest::ReadFailed(m) => match step {
                HandlerStep::Reply(rep) => rep.status == 400 && !rep.result.success
                    && match rep.result.error {
                    Some(e) => e@ == "Failed to read upload data: "@ + m@,
                    None => false,
                },
                _ => false,
            },
            ParsedRequest::NoFile => match step {
                HandlerStep::Reply(rep) => rep.status == 400 && !rep.result.success
                    && match rep.result.error {
                    Some(e) => e@ == "No file found in multipart payload"@,
                    None => false,
                },
                _ => false,
            },
            ParsedRequest::File(part) => if !configured {
                match step {
                    HandlerStep::Reply(rep) => rep.status == 503 && !rep.result.success
                        && match rep.result.error {
                        Some(e) => e@ == not_configured_text(),
                        None => false,
                    },
                    _ => false,
                }
            } else {
                match step {
                    HandlerStep::Reply(rep) => rep.status == 200 && rep.result.success
                        && rep.result.from_cache && match *db {
                        Some(d) => hash_index(d@, sha256_hex(part.data@)) >= 0
                            && match rep.result.url {
                            Some(u) => u@ == d@[hash_index(d@, sha256_hex(part.data@))].url@,
                            None => false,
                        },
                        None => false,
                    },
                    HandlerStep::Upload { file_hash, filename, content_type } => {
                        &&& file_hash@ == sha256_hex(part.data@)
                        &&& match *db {
                            Some(d) => hash_index(d@, sha256_hex(part.data@)) == -1,
                            None => true,
                        }
                        &&& filename@ == match part.filename {
                            Some(f) => f@,
                            None => "upload.bin"@,
                        }
                        &&& content_type@ == match part.content_type {
                            Some(t) => t@,
                            None => "application/octet-stream"@,
                        }
                    },
                }
            },
        },
{
    match request {
        ParsedRequest::Malformed(m) => {
            let msg = String::from_str("Invalid multipart data: ").concat(m.as_str());
            HandlerStep::Reply(HttpReply { status: 400, result: UploadResult::failed(msg) })
        },
        ParsedRequest::ReadFailed(m) => {
            let msg = String::from_str("Failed to read upload data: ").concat(m.as_str());
            HandlerStep::Reply(HttpReply { status: 400, result: UploadResult::failed(msg) })
        },
        ParsedRequest::NoFile => {
            let msg = String::from_str("No file found in multipart payload");
            HandlerStep::Reply(HttpReply { status: 400, result: UploadResult::failed(msg) })
        },
        ParsedRequest::File(part) => {
            match begin_upload(configured, db, &part.data) {
                PipelineStep::Done(res) => {
                    let status: u16 = if res.success {
                        200
                    } else {
                        503
                    };
                    HandlerStep::Reply(HttpReply { status, result: res })
                },
                PipelineStep::NeedsUpload { file_hash } => {
                    let filename = match &part.filename {
                        Some(f) => f.clone(),
                        None => String::from_str("upload.bin"),
                    };
                    let content_type = match &part.content_type {
                        Some(t) => t.clone(),
                        None => String::from_str("application/octet-stream"),
                    };
                    HandlerStep::Upload { file_hash, filename, content_type }
                },
            }
        },
    }
}

/// Map the backend outcome of a proxy upload onto the transport: the
/// pipeline's second half runs unchanged, success is OK, a backend
/// failure is an internal server error.
pub fn finish_proxy_upload(
    db: &mut Option<Database>,
    upload_outcome: Result<String, String>,
    file_hash: String,
    filename: &str,
    file_size: u64,
) -> (rep: HttpReply)
    requires
        (*old(db)) matches Some(d) ==> d.wf(),
    ensures
        rep.result.wf(),
        (*final(db)) is Some <==> (*old(db)) is Some,
        match (*old(db), *final(db)) {
            (Some(d0), Some(d1)) => d1.wf() && d1.spec_capacity() == d0.spec_capacity(),
            _ => true,
        },
        match upload_outcome {
            Ok(url) => {
                &&& rep.status == 200
                &&& rep.result.success && !rep.result.from_cache
                &&& match rep.result.url {
                    Some(u) => u@ == url@,
                    None => false,
                }
                &&& match (*old(db), *final(db)) {
                    (Some(d0), Some(d1)) => exists|rec: UploadRecord|
                        #[trigger] recorded_upload(
                            d0,
                            d1,
                            rec,
                            file_hash@,
                            filename@,
                            file_size,
                            url@,
                        ),
                    (None, None) => true,
                    _ => false,
                }
            },
            Err(e) => {
                &&& rep.status == 500
                &&& !rep.result.success
                &&& match rep.result.error {
                    Some(m) => m@ == e@,
                    None => false,
                }
                &&& *final(db) == *old(db)
            },
        },
{
    let res = finish_upload(db, upload_outcome, file_hash, filename, file_size);
    let status: u16 = if res.success {
        200
    } else {
        500
    };
    HttpReply { status, result: res }
}

/// A start on a running proxy reports success and asks for no bind, so
/// the bound port cannot change.
pub proof fn lemma_start_on_running_is_success(p: ProxyServer, configured: bool)
    requires
        p.spec_running(),
    ensures
        start_decision(p, configured) is AlreadyRunning,
{
}

/// A start with no backend configured is refused, and refusal carries
/// no transition: the proxy it was decided for stays as it was.
pub proof fn lemma_start_unconfigured_refused(p: ProxyServer)
    requires
        !p.spec_running(),
    ensures
        start_decision(p, false) is Refused,
{
}

/// A stopped, configured proxy is always asked to bind its held port:
/// after a stop (which keeps the port) a start rebinds the same port,
/// and after a failed bind (which leaves the proxy stopped) a later
/// start is asked for again.
pub proof fn lemma_stopped_start_binds_held_port(p: ProxyServer)
    requires
        !p.spec_running(),
    ensures
        start_decision(p, true) == StartDecision::Bind(p.spec_port()),
{
}

} // verus!
