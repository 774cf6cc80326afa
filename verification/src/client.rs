//! The client's configuration and the requests it makes.

use crate::error::{ErrorView, TransferError};
use crate::json::{json_quoted, quote};
use crate::paths::{file_name, path_file_name};
use crate::probe::PathKind;
use crate::request::{is_success, is_success_status, HttpMethod, HttpRequest, RequestView};
use crate::upload::{initial_engine, UploadEngine};
use vstd::prelude::*;
use vstd::string::*;

verus! {

/// The host that is used where none is given.
pub open spec fn default_server() -> Seq<char> {
    "streamshare.wireway.ch"@
}

/// The chunk size that is used where none is given: one mebibyte.
pub const DEFAULT_CHUNK_SIZE: usize = 1048576;

/// A client of one server: the host it talks to and the size of the chunks in
/// which it uploads.
#[derive(Debug, PartialEq, Eq)]
pub struct StreamShare {
    server_url: String,
    chunk_size: usize,
}

/// The mathematical value of a [`StreamShare`].
pub struct ConfigView {
    pub server_host: Seq<char>,
    pub chunk_size: nat,
}

impl View for StreamShare {
    type V = ConfigView;

    closed spec fn view(&self) -> ConfigView {
        ConfigView { server_host: self.server_url@, chunk_size: self.chunk_size as nat }
    }
}

/// The URL of the create call.
pub open spec fn create_url(host: Seq<char>) -> Seq<char> {
    "https://"@ + host + "/api/create"@
}

/// The body of the create call: a JSON object whose only member, `name`, is
/// the name of the file.
pub open spec fn create_body(name: Seq<char>) -> Seq<char> {
    "{\"name\":"@ + json_quoted(name) + "}"@
}

/// The URL of the upload channel of a file.
pub open spec fn upload_url(host: Seq<char>, file_identifier: Seq<char>) -> Seq<char> {
    "wss://"@ + host + "/api/upload/"@ + file_identifier
}

/// The URL of the delete call.
pub open spec fn delete_url(
    host: Seq<char>,
    file_identifier: Seq<char>,
    deletion_token: Seq<char>,
) -> Seq<char> {
    "https://"@ + host + "/api/delete/"@ + file_identifier + "/"@ + deletion_token
}

/// The URL of the download call.
pub open spec fn download_url(host: Seq<char>, file_identifier: Seq<char>) -> Seq<char> {
    "https://"@ + host + "/download/"@ + file_identifier
}

/// The create call for a file of the given name.
pub open spec fn create_request(host: Seq<char>, name: Seq<char>) -> RequestView {
    RequestView { method: HttpMethod::Post, url: create_url(host), body: Some(create_body(name)) }
}

/// The name under which a file is announced to the server: the final
/// component of its path, or `unknown` where the path has none.
pub open spec fn announced_name(file_path: Seq<char>) -> Seq<char> {
    match path_file_name(file_path) {
        Some(name) => name,
        None => "unknown"@,
    }
}

/// Picks the name to announce from what `Path::file_name` gave.
pub fn name_or_unknown(name: Option<String>) -> (r: String)
    ensures
        r@ == match name {
            Some(n) => n@,
            None => "unknown"@,
        },
{
    match name {
        Some(n) => n,
        None => String::from_str("unknown"),
    }
}

/// Builds the create call around the JSON literal of the file's name.
pub fn create_request_with(host: &str, name_literal: &str) -> (r: HttpRequest)
    ensures
        r@ == (RequestView {
            method: HttpMethod::Post,
            url: create_url(host@),
            body: Some("{\"name\":"@ + name_literal@ + "}"@),
        }),
{
    let mut url = String::from_str("https://");
    url.append(host);
    url.append("/api/create");
    let mut body = String::from_str("{\"name\":");
    body.append(name_literal);
    body.append("}");
    HttpRequest { method: HttpMethod::Post, url, body: Some(body) }
}

/// Builds the create call for a file of the given name.
pub fn build_create_request(host: &str, name: &str) -> (r: HttpRequest)
    ensures
        r@ == create_request(host@, name@),
{
    let literal = quote(name);
    create_request_with(host, literal.as_str())
}

/// Builds the URL of the upload channel of a file.
pub fn build_upload_url(host: &str, file_identifier: &str) -> (r: String)
    ensures
        r@ == upload_url(host@, file_identifier@),
{
    let mut url = String::from_str("wss://");
    url.append(host);
    url.append("/api/upload/");
    url.append(file_identifier);
    url
}

/// What the status of a delete call amounts to.
pub fn delete_outcome(status: u16) -> (r: Result<(), TransferError>)
    ensures
        r is Ok <==> is_success_status(status),
        r matches Err(e) ==> e@ == ErrorView::DeleteFailed(status),
{
    if is_success(status) {
        Ok(())
    } else {
        Err(TransferError::DeleteFailed(status))
    }
}

/// What the status of a download call amounts to.
pub fn download_outcome(status: u16) -> (r: Result<(), TransferError>)
    ensures
        r is Ok <==> is_success_status(status),
        r matches Err(e) ==> e@ == ErrorView::DownloadFailed(status),
{
    if is_success(status) {
        Ok(())
    } else {
        Err(TransferError::DownloadFailed(status))
    }
}

impl StreamShare {
    /// A client of the server at `server_url` that uploads in chunks of
    /// `chunk_size` bytes.
    pub fn new(server_url: String, chunk_size: usize) -> (r: StreamShare)
        ensures
            r@ == (ConfigView { server_host: server_url@, chunk_size: chunk_size as nat }),
    {
        StreamShare { server_url, chunk_size }
    }

    /// The host of the server.
    pub fn server_url(&self) -> (r: &str)
        ensures
            r@ == self@.server_host,
    {
        self.server_url.as_str()
    }

    /// The size of an upload chunk, in bytes.
    pub fn chunk_size(&self) -> (r: usize)
        ensures
            r == self@.chunk_size,
    {
        self.chunk_size
    }

    /// Starts the upload of the file at `file_path`, of which the caller has
    /// found out what it is and how long it is.
    ///
    /// Fails with `InvalidConfig` where the chunk size is zero, and with
    /// `NotAFile` where the path does not name a regular file. Otherwise the
    /// result is an engine that first asks for the create call.
    pub fn upload(&self, file_path: &str, source: PathKind, total_bytes: u64) -> (r: Result<
        UploadEngine,
        TransferError,
    >)
        ensures
            match r {
                Ok(engine) => {
                    &&& self@.chunk_size > 0
                    &&& source == PathKind::File
                    &&& engine@.wf()
                    &&& engine@ == initial_engine(
                        self@.server_host,
                        announced_name(file_path@),
                        self@.chunk_size,
                        total_bytes as nat,
                    )
                },
                Err(error) => if self@.chunk_size == 0 {
                    error@ == ErrorView::InvalidConfig
                } else {
                    source != PathKind::File && error@ == ErrorView::NotAFile(file_path@)
                },
            },
    {
        if self.chunk_size == 0 {
            return Err(TransferError::InvalidConfig);
        }
        match source {
            PathKind::File => {},
            _ => {
                return Err(TransferError::NotAFile(String::from_str(file_path)));
            },
        }
        let name = name_or_unknown(file_name(file_path));
        Ok(UploadEngine::start(self.server_url.clone(), name, self.chunk_size, total_bytes))
    }

    /// The delete call for a file.
    pub fn delete(&self, file_identifier: &str, deletion_token: &str) -> (r: HttpRequest)
        ensures
            r@ == (RequestView {
                method: HttpMethod::Delete,
                url: delete_url(self@.server_host, file_identifier@, deletion_token@),
                body: None,
            }),
    {
        let mut url = String::from_str("https://");
        url.append(self.server_url.as_str());
        url.append("/api/delete/");
        url.append(file_identifier);
        url.append("/");
        url.append(deletion_token);
        HttpRequest { method: HttpMethod::Delete, url, body: None }
    }

    /// The download call for a file.
    pub fn download(&self, file_identifier: &str) -> (r: HttpRequest)
        ensures
            r@ == (RequestView {
                method: HttpMethod::Get,
                url: download_url(self@.server_host, file_identifier@),
                body: None,
            }),
    {
        let mut url = String::from_str("https://");
        url.append(self.server_url.as_str());
        url.append("/download/");
        url.append(file_identifier);
        HttpRequest { method: HttpMethod::Get, url, body: None }
    }
}

impl Default for StreamShare {
    /// The client of the public server, uploading in chunks of one mebibyte.
    fn default() -> (r: StreamShare)
        ensures
            r@ == (ConfigView {
                server_host: default_server(),
                chunk_size: DEFAULT_CHUNK_SIZE as nat,
            }),
    {
        StreamShare {
            server_url: String::from_str("streamshare.wireway.ch"),
            chunk_size: DEFAULT_CHUNK_SIZE,
        }
    }
}

} // verus!
