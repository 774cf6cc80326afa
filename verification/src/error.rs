//! The failures that an operation can end in.

use crate::frame::{FrameView, ServerFrame};
use vstd::prelude::*;

verus! {

/// Why an operation was aborted. Every failure is terminal: nothing is retried.
#[derive(Debug, PartialEq, Eq)]
pub enum TransferError {
    /// The path to upload does not name a regular file.
    NotAFile(String),
    /// The chunk size is zero.
    InvalidConfig,
    /// The create call was answered with a status outside 2xx.
    CreateFailed(u16),
    /// The create call succeeded but its body does not describe a session.
    InvalidServerResponse,
    /// The upload channel could not be established.
    ConnectFailed,
    /// The server answered a chunk with something other than an acknowledgement.
    UnexpectedMessage(ServerFrame),
    /// The transport failed while a request or frame was in flight.
    TransportError,
    /// The server closed the channel before acknowledging a chunk.
    PrematureClose,
    /// The delete call was answered with a status outside 2xx.
    DeleteFailed(u16),
    /// The download call was answered with a status outside 2xx.
    DownloadFailed(u16),
    /// The destination exists but is neither a file nor a directory.
    InvalidDestination(String),
    /// The destination does not exist and neither does its parent directory.
    ParentMissing(String),
    /// The resolved path exists and replacing was not asked for.
    AlreadyExists(String),
    /// Local input or output failed, or did not match what was expected.
    IoFailure,
}

/// The mathematical value of a [`TransferError`].
pub enum ErrorView {
    NotAFile(Seq<char>),
    InvalidConfig,
    CreateFailed(u16),
    InvalidServerResponse,
    ConnectFailed,
    UnexpectedMessage(FrameView),
    TransportError,
    PrematureClose,
    DeleteFailed(u16),
    DownloadFailed(u16),
    InvalidDestination(Seq<char>),
    ParentMissing(Seq<char>),
    AlreadyExists(Seq<char>),
    IoFailure,
}

impl View for TransferError {
    type V = ErrorView;

    open spec fn view(&self) -> ErrorView {
        match *self {
            TransferError::NotAFile(p) => ErrorView::NotAFile(p@),
            TransferError::InvalidConfig => ErrorView::InvalidConfig,
            TransferError::CreateFailed(s) => ErrorView::CreateFailed(s),
            TransferError::InvalidServerResponse => ErrorView::InvalidServerResponse,
            TransferError::ConnectFailed => ErrorView::ConnectFailed,
            TransferError::UnexpectedMessage(f) => ErrorView::UnexpectedMessage(f@),
            TransferError::TransportError => ErrorView::TransportError,
            TransferError::PrematureClose => ErrorView::PrematureClose,
            TransferError::DeleteFailed(s) => ErrorView::DeleteFailed(s),
            TransferError::DownloadFailed(s) => ErrorView::DownloadFailed(s),
            TransferError::InvalidDestination(p) => ErrorView::InvalidDestination(p@),
            TransferError::ParentMissing(p) => ErrorView::ParentMissing(p@),
            TransferError::AlreadyExists(p) => ErrorView::AlreadyExists(p@),
            TransferError::IoFailure => ErrorView::IoFailure,
        }
    }
}

impl TransferError {
    /// A copy of this error.
    pub fn duplicate(&self) -> (r: TransferError)
        ensures
            r@ == self@,
    {
        match self {
            TransferError::NotAFile(p) => TransferError::NotAFile(p.clone()),
            TransferError::InvalidConfig => TransferError::InvalidConfig,
            TransferError::CreateFailed(s) => TransferError::CreateFailed(*s),
            TransferError::InvalidServerResponse => TransferError::InvalidServerResponse,
            TransferError::ConnectFailed => TransferError::ConnectFailed,
            TransferError::UnexpectedMessage(f) => TransferError::UnexpectedMessage(f.duplicate()),
            TransferError::TransportError => TransferError::TransportError,
            TransferError::PrematureClose => TransferError::PrematureClose,
            TransferError::DeleteFailed(s) => TransferError::DeleteFailed(*s),
            TransferError::DownloadFailed(s) => TransferError::DownloadFailed(*s),
            TransferError::InvalidDestination(p) => TransferError::InvalidDestination(p.clone()),
            TransferError::ParentMissing(p) => TransferError::ParentMissing(p.clone()),
            TransferError::AlreadyExists(p) => TransferError::AlreadyExists(p.clone()),
            TransferError::IoFailure => TransferError::IoFailure,
        }
    }
}

} // verus!
