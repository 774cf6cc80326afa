//! The session that the server opens for one upload.

use crate::error::{ErrorView, TransferError};
use crate::json::{json_member, string_member};
use crate::request::{is_success, is_success_status};
use crate::text::text_of;
use vstd::prelude::*;

verus! {

/// The identifiers of an upload: one names the file, the other authorises its
/// deletion. Both are opaque to the client.
#[derive(Debug, PartialEq, Eq)]
pub struct TransferSession {
    pub file_identifier: String,
    pub deletion_token: String,
}

/// The mathematical value of a [`TransferSession`].
pub struct SessionView {
    pub file_identifier: Seq<char>,
    pub deletion_token: Seq<char>,
}

impl View for TransferSession {
    type V = SessionView;

    open spec fn view(&self) -> SessionView {
        SessionView {
            file_identifier: self.file_identifier@,
            deletion_token: self.deletion_token@,
        }
    }
}

impl TransferSession {
    /// A copy of this session.
    pub fn duplicate(&self) -> (r: TransferSession)
        ensures
            r@ == self@,
    {
        TransferSession {
            file_identifier: self.file_identifier.clone(),
            deletion_token: self.deletion_token.clone(),
        }
    }
}

/// The view of an outcome that carries a session.
pub open spec fn outcome_of(r: Result<TransferSession, TransferError>) -> Result<
    SessionView,
    ErrorView,
> {
    match r {
        Ok(session) => Ok(session@),
        Err(error) => Err(error@),
    }
}

/// The session that two members of a create response describe. Both must be
/// there.
pub open spec fn session_of_members(
    file_identifier: Option<Seq<char>>,
    deletion_token: Option<Seq<char>>,
) -> Result<SessionView, ErrorView> {
    match (file_identifier, deletion_token) {
        (Some(id), Some(token)) => Ok(SessionView { file_identifier: id, deletion_token: token }),
        _ => Err(ErrorView::InvalidServerResponse),
    }
}

/// What the answer to a create call amounts to: a status outside 2xx is a
/// failure that carries the status; otherwise the body must be a JSON object
/// whose members `fileIdentifier` and `deletionToken` are strings.
pub open spec fn created_session(status: u16, body: Seq<char>) -> Result<SessionView, ErrorView> {
    if !is_success_status(status) {
        Err(ErrorView::CreateFailed(status))
    } else {
        session_of_members(
            json_member(body, "fileIdentifier"@),
            json_member(body, "deletionToken"@),
        )
    }
}

/// Builds the session from the two members read out of a create response,
/// or fails with `InvalidServerResponse` where either is absent.
pub fn session_from_members(file_identifier: Option<String>, deletion_token: Option<String>) -> (r:
    Result<TransferSession, TransferError>)
    ensures
        outcome_of(r) == session_of_members(text_of(file_identifier), text_of(deletion_token)),
{
    match (file_identifier, deletion_token) {
        (Some(id), Some(token)) => Ok(
            TransferSession { file_identifier: id, deletion_token: token },
        ),
        _ => Err(TransferError::InvalidServerResponse),
    }
}

/// Interprets the answer to a create call.
pub fn session_from_response(status: u16, body: &str) -> (r: Result<
    TransferSession,
    TransferError,
>)
    ensures
        outcome_of(r) == created_session(status, body@),
{
    if !is_success(status) {
        return Err(TransferError::CreateFailed(status));
    }
    let id = string_member(body, "fileIdentifier");
    let token = string_member(body, "deletionToken");
    session_from_members(id, token)
}

} // verus!
