//! Client-side logic of a file-sharing service: session negotiation, the
//! chunked upload protocol, deletion, and download path resolution.
//!
//! The crate performs no I/O. Each operation is split into a request that the
//! caller sends and a verified function that interprets what came back.

pub mod client;
pub mod download;
pub mod error;
pub mod frame;
pub mod header;
pub mod json;
pub mod paths;
pub mod probe;
pub mod request;
pub mod session;
pub mod text;
pub mod upload;
pub mod upload_laws;

pub use client::{delete_outcome, download_outcome, StreamShare, DEFAULT_CHUNK_SIZE};
pub use download::{plan_probe, resolve_target, DownloadTarget, ProbePlan};
pub use error::TransferError;
pub use frame::ServerFrame;
pub use header::suggested_filename;
pub use probe::{FilesystemProbe, PathKind};
pub use request::{is_success, HttpMethod, HttpRequest};
pub use session::{session_from_response, TransferSession};
pub use upload::{UploadAction, UploadEngine, UploadEvent, UploadPhase, UploadProgress};
