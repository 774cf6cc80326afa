//! The chunked upload, as a state machine.
//!
//! The engine never performs I/O. It names the next action; the caller carries
//! it out and reports what happened as an event. One chunk is in flight at a
//! time: the next one is read only after the server has acknowledged the last.

use crate::client::{build_create_request, build_upload_url, create_request, upload_url};
use crate::error::{ErrorView, TransferError};
use crate::frame::{is_ack_frame, FrameView, ServerFrame};
use crate::request::{HttpRequest, RequestView};
use crate::session::{
    created_session, session_from_response, SessionView, TransferSession,
};
use vstd::arithmetic::div_mod::{
    lemma_basic_div, lemma_div_multiples_vanish_fancy, lemma_fundamental_div_mod,
    lemma_mod_multiples_basic,
};
use vstd::prelude::*;
use vstd::string::*;

verus! {

/// The status code of a normal closure of the upload channel.
pub const CLOSE_NORMAL: u16 = 1000;

/// The reason given when the upload channel is closed after the last chunk.
pub open spec fn close_reason() -> Seq<char> {
    "FILE_UPLOAD_DONE"@
}

/// Where an upload stands.
#[derive(Debug, Clone, Copy, PartialEq, Eq, Structural)]
pub enum UploadPhase {
    /// The create call is awaited.
    Creating,
    /// The upload channel is being established.
    Connecting,
    /// The next chunk is being read from the file.
    Reading,
    /// A chunk is being sent.
    Sending,
    /// A chunk was sent and the server's answer is awaited.
    AwaitingAck,
    /// The observer is being told of the progress.
    Reporting,
    /// The close frame is being sent.
    Closing,
    /// The upload is complete.
    Done,
    /// The upload was aborted.
    Errored,
}

/// How far an upload has come.
#[derive(Debug, Clone, Copy, PartialEq, Eq, Structural)]
pub struct UploadProgress {
    pub bytes_sent: u64,
    pub total_bytes: u64,
}

/// What the caller reports to the engine.
#[derive(Debug, PartialEq, Eq)]
pub enum UploadEvent {
    /// The create call was answered.
    CreateAnswered { status: u16, body: String },
    /// The upload channel is established.
    Connected,
    /// A read from the file gave this many bytes; none at the end of the file.
    ChunkRead(usize),
    /// The chunk was handed to the channel as one binary frame.
    ChunkSent,
    /// The server sent a frame.
    FrameReceived(ServerFrame),
    /// The server closed the channel.
    StreamEnded,
    /// The observer has been told of the progress.
    ProgressReported,
    /// The close frame was sent.
    CloseSent,
    /// The action asked for could not be carried out.
    Failed,
}

/// The mathematical value of an [`UploadEvent`].
pub enum EventView {
    CreateAnswered { status: u16, body: Seq<char> },
    Connected,
    ChunkRead(nat),
    ChunkSent,
    FrameReceived(FrameView),
    StreamEnded,
    ProgressReported,
    CloseSent,
    Failed,
}

impl View for UploadEvent {
    type V = EventView;

    open spec fn view(&self) -> EventView {
        match *self {
            UploadEvent::CreateAnswered { status, body } => EventView::CreateAnswered {
                status,
                body: body@,
            },
            UploadEvent::Connected => EventView::Connected,
            UploadEvent::ChunkRead(n) => EventView::ChunkRead(n as nat),
            UploadEvent::ChunkSent => EventView::ChunkSent,
            UploadEvent::FrameReceived(frame) => EventView::FrameReceived(frame@),
            UploadEvent::StreamEnded => EventView::StreamEnded,
            UploadEvent::ProgressReported => EventView::ProgressReported,
            UploadEvent::CloseSent => EventView::CloseSent,
            UploadEvent::Failed => EventView::Failed,
        }
    }
}

/// What the engine asks the caller to do next.
#[derive(Debug, PartialEq, Eq)]
pub enum UploadAction {
    /// Send the create call and report its answer.
    Create(HttpRequest),
    /// Establish the upload channel at this URL.
    Connect { url: String },
    /// Read the next chunk: fill a buffer of `max_len` bytes from the file,
    /// stopping short only at the end of the file.
    ReadChunk { max_len: usize },
    /// Send the first `len` bytes of the buffer as one binary frame.
    SendChunk { len: usize },
    /// Await one frame from the server.
    AwaitAck,
    /// Tell the observer of the progress.
    Report(UploadProgress),
    /// Send a close frame with this status code and reason.
    Close { code: u16, reason: String },
    /// The upload is complete: hand the session to the user.
    Finish(TransferSession),
    /// The upload was aborted: hand the error to the user.
    Fail(TransferError),
}

/// The mathematical value of an [`UploadAction`].
pub enum ActionView {
    Create(RequestView),
    Connect { url: Seq<char> },
    ReadChunk { max_len: nat },
    SendChunk { len: nat },
    AwaitAck,
    Report { bytes_sent: nat, total_bytes: nat },
    Close { code: u16, reason: Seq<char> },
    Finish(SessionView),
    Fail(ErrorView),
}

impl View for UploadAction {
    type V = ActionView;

    open spec fn view(&self) -> ActionView {
        match *self {
            UploadAction::Create(request) => ActionView::Create(request@),
            UploadAction::Connect { url } => ActionView::Connect { url: url@ },
            UploadAction::ReadChunk { max_len } => ActionView::ReadChunk { max_len: max_len as nat },
            UploadAction::SendChunk { len } => ActionView::SendChunk { len: len as nat },
            UploadAction::AwaitAck => ActionView::AwaitAck,
            UploadAction::Report(progress) => ActionView::Report {
                bytes_sent: progress.bytes_sent as nat,
                total_bytes: progress.total_bytes as nat,
            },
            UploadAction::Close { code, reason } => ActionView::Close { code, reason: reason@ },
            UploadAction::Finish(session) => ActionView::Finish(session@),
            UploadAction::Fail(error) => ActionView::Fail(error@),
        }
    }
}

/// The number of chunks of `chunk_size` bytes that `bytes` bytes take up, the
/// last of which may be shorter.
pub open spec fn chunk_count(bytes: nat, chunk_size: nat) -> nat
    recommends
        chunk_size > 0,
{
    ((bytes + chunk_size - 1) / (chunk_size as int)) as nat
}

/// The mathematical state of an upload.
pub struct EngineView {
    /// The host of the server.
    pub server_host: Seq<char>,
    /// The name under which the file is announced.
    pub file_name: Seq<char>,
    /// The size of a chunk.
    pub chunk_size: nat,
    /// The length of the file, taken once before the upload.
    pub total_bytes: nat,
    /// The bytes that the server has acknowledged.
    pub bytes_sent: nat,
    /// The chunks that the server has acknowledged.
    pub chunks_sent: nat,
    /// The length of the chunk that is being sent or awaits its answer.
    pub in_flight: nat,
    pub phase: UploadPhase,
    /// The session, once the server has opened it.
    pub session: Option<SessionView>,
    /// Why the upload was aborted, once it was.
    pub error: Option<ErrorView>,
}

impl EngineView {
    /// The length of the chunk that the next read must give: a full chunk, or
    /// what is left of the file where that is less.
    pub open spec fn expected_chunk(self) -> nat {
        if self.total_bytes - self.bytes_sent < self.chunk_size {
            (self.total_bytes - self.bytes_sent) as nat
        } else {
            self.chunk_size
        }
    }

    /// The invariant of an upload.
    ///
    /// No more than the file has been sent; every acknowledged chunk but the
    /// one that completes the file was full, so the chunks acknowledged are
    /// as many as the bytes acknowledged take up; and an upload closes only
    /// once the whole file is acknowledged.
    pub open spec fn wf(self) -> bool {
        &&& self.chunk_size > 0
        &&& self.bytes_sent <= self.total_bytes
        &&& self.chunks_sent == chunk_count(self.bytes_sent, self.chunk_size)
        &&& (self.bytes_sent % self.chunk_size == 0 || self.bytes_sent == self.total_bytes)
        &&& match self.phase {
            UploadPhase::Creating => self.bytes_sent == 0 && self.in_flight == 0,
            UploadPhase::Connecting => {
                &&& self.session is Some
                &&& self.bytes_sent == 0
                &&& self.in_flight == 0
            },
            UploadPhase::Reading | UploadPhase::Reporting => {
                &&& self.session is Some
                &&& self.in_flight == 0
            },
            UploadPhase::Sending | UploadPhase::AwaitingAck => {
                &&& self.session is Some
                &&& self.in_flight > 0
                &&& self.in_flight == self.expected_chunk()
            },
            UploadPhase::Closing | UploadPhase::Done => {
                &&& self.session is Some
                &&& self.in_flight == 0
                &&& self.bytes_sent == self.total_bytes
            },
            UploadPhase::Errored => self.error is Some,
        }
    }

    /// The state after the upload was aborted for `error`.
    pub open spec fn failed(self, error: ErrorView) -> EngineView {
        EngineView { phase: UploadPhase::Errored, error: Some(error), ..self }
    }

    /// The state in the given phase, all else unchanged.
    pub open spec fn moved_to(self, phase: UploadPhase) -> EngineView {
        EngineView { phase, ..self }
    }
}

/// The state in which an upload starts.
pub open spec fn initial_engine(
    server_host: Seq<char>,
    file_name: Seq<char>,
    chunk_size: nat,
    total_bytes: nat,
) -> EngineView {
    EngineView {
        server_host,
        file_name,
        chunk_size,
        total_bytes,
        bytes_sent: 0,
        chunks_sent: 0,
        in_flight: 0,
        phase: UploadPhase::Creating,
        session: None,
        error: None,
    }
}

/// The state that follows `s` when `event` is reported.
///
/// A finished or aborted upload stays as it is. Otherwise the event must
/// answer the action that is pending: an event that does not aborts the
/// upload with `IoFailure`.
pub open spec fn step_spec(s: EngineView, event: EventView) -> EngineView {
    match s.phase {
        UploadPhase::Done | UploadPhase::Errored => s,
        UploadPhase::Creating => match event {
            EventView::CreateAnswered { status, body } => match created_session(status, body) {
                Ok(session) => EngineView {
                    phase: UploadPhase::Connecting,
                    session: Some(session),
                    ..s
                },
                Err(error) => s.failed(error),
            },
            EventView::Failed => s.failed(ErrorView::TransportError),
            _ => s.failed(ErrorView::IoFailure),
        },
        UploadPhase::Connecting => match event {
            EventView::Connected => s.moved_to(UploadPhase::Reading),
            EventView::Failed => s.failed(ErrorView::ConnectFailed),
            _ => s.failed(ErrorView::IoFailure),
        },
        UploadPhase::Reading => match event {
            EventView::ChunkRead(n) => if n != s.expected_chunk() {
                s.failed(ErrorView::IoFailure)
            } else if n == 0 {
                s.moved_to(UploadPhase::Closing)
            } else {
                EngineView { phase: UploadPhase::Sending, in_flight: n, ..s }
            },
            _ => s.failed(ErrorView::IoFailure),
        },
        UploadPhase::Sending => match event {
            EventView::ChunkSent => s.moved_to(UploadPhase::AwaitingAck),
            EventView::Failed => s.failed(ErrorView::TransportError),
            _ => s.failed(ErrorView::IoFailure),
        },
        UploadPhase::AwaitingAck => match event {
            EventView::FrameReceived(frame) => if is_ack_frame(frame) {
                EngineView {
                    phase: UploadPhase::Reporting,
                    bytes_sent: s.bytes_sent + s.in_flight,
                    chunks_sent: s.chunks_sent + 1,
                    in_flight: 0,
                    ..s
                }
            } else {
                s.failed(ErrorView::UnexpectedMessage(frame))
            },
            EventView::StreamEnded => s.failed(ErrorView::PrematureClose),
            EventView::Failed => s.failed(ErrorView::TransportError),
            _ => s.failed(ErrorView::IoFailure),
        },
        UploadPhase::Reporting => match event {
            EventView::ProgressReported => s.moved_to(UploadPhase::Reading),
            _ => s.failed(ErrorView::IoFailure),
        },
        UploadPhase::Closing => match event {
            EventView::CloseSent => s.moved_to(UploadPhase::Done),
            EventView::Failed => s.failed(ErrorView::TransportError),
            _ => s.failed(ErrorView::IoFailure),
        },
    }
}

/// The action that is pending in state `s`.
pub open spec fn pending_spec(s: EngineView) -> ActionView {
    match s.phase {
        UploadPhase::Creating => ActionView::Create(create_request(s.server_host, s.file_name)),
        UploadPhase::Connecting => match s.session {
            Some(session) => ActionView::Connect {
                url: upload_url(s.server_host, session.file_identifier),
            },
            None => ActionView::Fail(ErrorView::IoFailure),
        },
        UploadPhase::Reading => ActionView::ReadChunk { max_len: s.chunk_size },
        UploadPhase::Sending => ActionView::SendChunk { len: s.in_flight },
        UploadPhase::AwaitingAck => ActionView::AwaitAck,
        UploadPhase::Reporting => ActionView::Report {
            bytes_sent: s.bytes_sent,
            total_bytes: s.total_bytes,
        },
        UploadPhase::Closing => ActionView::Close { code: CLOSE_NORMAL, reason: close_reason() },
        UploadPhase::Done => match s.session {
            Some(session) => ActionView::Finish(session),
            None => ActionView::Fail(ErrorView::IoFailure),
        },
        UploadPhase::Errored => match s.error {
            Some(error) => ActionView::Fail(error),
            None => ActionView::Fail(ErrorView::IoFailure),
        },
    }
}

/// Nothing takes up no chunk.
pub proof fn lemma_chunk_count_zero(chunk_size: nat)
    requires
        chunk_size > 0,
    ensures
        chunk_count(0, chunk_size) == 0,
{
    lemma_basic_div(chunk_size - 1, chunk_size as int);
}

/// A file that ends on a chunk boundary takes up as many chunks as it has
/// full ones, and a further chunk, full or not, is one more.
pub proof fn lemma_chunk_count_next(bytes: nat, chunk_size: nat, next: nat)
    requires
        chunk_size > 0,
        bytes % chunk_size == 0,
        0 < next <= chunk_size,
    ensures
        chunk_count(bytes, chunk_size) == bytes / chunk_size,
        chunk_count(bytes + next, chunk_size) == chunk_count(bytes, chunk_size) + 1,
        next == chunk_size ==> (bytes + next) % chunk_size == 0,
{
    let c = chunk_size as int;
    let q = bytes as int / c;
    lemma_fundamental_div_mod(bytes as int, c);
    lemma_div_multiples_vanish_fancy(q, c - 1, c);
    lemma_div_multiples_vanish_fancy(q + 1, next - 1, c);
    assert(c * (q + 1) == c * q + c) by (nonlinear_arith);
    lemma_mod_multiples_basic(q + 1, c);
    assert((q + 1) * c == c * (q + 1)) by (nonlinear_arith);
}

/// The part of an upload's state that changes with every chunk.
#[derive(Debug, Clone, Copy, PartialEq, Eq)]
struct Counters {
    bytes_sent: u64,
    chunks_sent: u64,
    in_flight: usize,
    phase: UploadPhase,
}

/// The state of one upload: what it was started with, the counters of the
/// protocol, and what the phases hand on to each other.
///
/// An engine is only ever in a state that an upload can reach.
#[derive(Debug, PartialEq, Eq)]
pub struct UploadEngine {
    server_url: String,
    file_name: String,
    chunk_size: usize,
    total_bytes: u64,
    counters: Counters,
    session: Option<TransferSession>,
    error: Option<TransferError>,
}

impl View for UploadEngine {
    type V = EngineView;

    closed spec fn view(&self) -> EngineView {
        EngineView {
            server_host: self.server_url@,
            file_name: self.file_name@,
            chunk_size: self.chunk_size as nat,
            total_bytes: self.total_bytes as nat,
            bytes_sent: self.counters.bytes_sent as nat,
            chunks_sent: self.counters.chunks_sent as nat,
            in_flight: self.counters.in_flight as nat,
            phase: self.counters.phase,
            session: match self.session {
                Some(session) => Some(session@),
                None => None,
            },
            error: match self.error {
                Some(error) => Some(error@),
                None => None,
            },
        }
    }
}

impl UploadEngine {
    #[verifier::type_invariant]
    spec fn reachable(&self) -> bool {
        self@.wf()
    }

    /// The engine of an upload that has not begun: the create call is pending.
    pub(crate) fn start(
        server_url: String,
        file_name: String,
        chunk_size: usize,
        total_bytes: u64,
    ) -> (r: UploadEngine)
        requires
            chunk_size > 0,
        ensures
            r@.wf(),
            r@ == initial_engine(server_url@, file_name@, chunk_size as nat, total_bytes as nat),
    {
        proof {
            lemma_chunk_count_zero(chunk_size as nat);
        }
        UploadEngine {
            server_url,
            file_name,
            chunk_size,
            total_bytes,
            counters: Counters {
                bytes_sent: 0,
                chunks_sent: 0,
                in_flight: 0,
                phase: UploadPhase::Creating,
            },
            session: None,
            error: None,
        }
    }

    /// The phase of the upload.
    pub fn phase(&self) -> (r: UploadPhase)
        ensures
            r == self@.phase,
    {
        self.counters.phase
    }

    /// The bytes acknowledged so far and the length of the file.
    pub fn progress(&self) -> (r: UploadProgress)
        ensures
            r.bytes_sent == self@.bytes_sent,
            r.total_bytes == self@.total_bytes,
            r.bytes_sent <= r.total_bytes,
    {
        proof {
            use_type_invariant(self);
        }
        UploadProgress { bytes_sent: self.counters.bytes_sent, total_bytes: self.total_bytes }
    }

    /// The number of chunks acknowledged so far.
    pub fn chunks_sent(&self) -> (r: u64)
        ensures
            r == self@.chunks_sent,
            r == chunk_count(self@.bytes_sent, self@.chunk_size),
    {
        proof {
            use_type_invariant(self);
        }
        self.counters.chunks_sent
    }

    /// The action that the engine is waiting for.
    pub fn pending(&self) -> (action: UploadAction)
        ensures
            self@.wf(),
            action@ == pending_spec(self@),
    {
        proof {
            use_type_invariant(self);
        }
        match self.counters.phase {
            UploadPhase::Creating => UploadAction::Create(
                build_create_request(self.server_url.as_str(), self.file_name.as_str()),
            ),
            UploadPhase::Connecting => match &self.session {
                Some(session) => UploadAction::Connect {
                    url: build_upload_url(
                        self.server_url.as_str(),
                        session.file_identifier.as_str(),
                    ),
                },
                None => UploadAction::Fail(TransferError::IoFailure),
            },
            UploadPhase::Reading => UploadAction::ReadChunk { max_len: self.chunk_size },
            UploadPhase::Sending => UploadAction::SendChunk { len: self.counters.in_flight },
            UploadPhase::AwaitingAck => UploadAction::AwaitAck,
            UploadPhase::Reporting => UploadAction::Report(self.progress()),
            UploadPhase::Closing => UploadAction::Close {
                code: CLOSE_NORMAL,
                reason: String::from_str("FILE_UPLOAD_DONE"),
            },
            UploadPhase::Done => match &self.session {
                Some(session) => UploadAction::Finish(session.duplicate()),
                None => UploadAction::Fail(TransferError::IoFailure),
            },
            UploadPhase::Errored => match &self.error {
                Some(error) => UploadAction::Fail(error.duplicate()),
                None => UploadAction::Fail(TransferError::IoFailure),
            },
        }
    }

    /// Moves to another phase.
    fn enter(&mut self, phase: UploadPhase)
        requires
            old(self)@.moved_to(phase).wf(),
        ensures
            final(self)@ == old(self)@.moved_to(phase),
    {
        self.counters = Counters { phase, ..self.counters };
    }

    /// Aborts the upload.
    fn fail(&mut self, error: TransferError)
        ensures
            final(self)@ == old(self)@.failed(error@),
    {
        proof {
            use_type_invariant(&*self);
        }
        self.error = Some(error);
        self.counters = Counters { phase: UploadPhase::Errored, ..self.counters };
    }

    /// The length of the chunk that the next read must give.
    fn expected_chunk(&self) -> (r: u64)
        ensures
            r == self@.expected_chunk(),
    {
        proof {
            use_type_invariant(self);
        }
        let left: u64 = self.total_bytes - self.counters.bytes_sent;
        if left < self.chunk_size as u64 {
            left
        } else {
            self.chunk_size as u64
        }
    }

    /// Takes the report of what happened to the pending action, and names the
    /// action that is pending now.
    pub fn step(&mut self, event: UploadEvent) -> (action: UploadAction)
        ensures
            old(self)@.wf(),
            final(self)@.wf(),
            final(self)@ == step_spec(old(self)@, event@),
            action@ == pending_spec(final(self)@),
    {
        proof {
            use_type_invariant(&*self);
        }
        match self.counters.phase {
            UploadPhase::Done | UploadPhase::Errored => {},
            UploadPhase::Creating => match event {
                UploadEvent::CreateAnswered { status, body } => {
                    match session_from_response(status, body.as_str()) {
                        Ok(session) => {
                            self.session = Some(session);
                            self.enter(UploadPhase::Connecting);
                        },
                        Err(error) => self.fail(error),
                    }
                },
                UploadEvent::Failed => self.fail(TransferError::TransportError),
                _ => self.fail(TransferError::IoFailure),
            },
            UploadPhase::Connecting => match event {
                UploadEvent::Connected => self.enter(UploadPhase::Reading),
                UploadEvent::Failed => self.fail(TransferError::ConnectFailed),
                _ => self.fail(TransferError::IoFailure),
            },
            UploadPhase::Reading => match event {
                UploadEvent::ChunkRead(n) => {
                    if n as u64 != self.expected_chunk() {
                        self.fail(TransferError::IoFailure);
                    } else if n == 0 {
                        self.enter(UploadPhase::Closing);
                    } else {
                        self.counters = Counters {
                            phase: UploadPhase::Sending,
                            in_flight: n,
                            ..self.counters
                        };
                    }
                },
                _ => self.fail(TransferError::IoFailure),
            },
            UploadPhase::Sending => match event {
                UploadEvent::ChunkSent => self.enter(UploadPhase::AwaitingAck),
                UploadEvent::Failed => self.fail(TransferError::TransportError),
                _ => self.fail(TransferError::IoFailure),
            },
            UploadPhase::AwaitingAck => match event {
                UploadEvent::FrameReceived(frame) => {
                    if frame.is_ack() {
                        proof {
                            lemma_chunk_count_next(
                                self@.bytes_sent,
                                self@.chunk_size,
                                self@.in_flight,
                            );
                        }
                        self.counters = Counters {
                            phase: UploadPhase::Reporting,
                            bytes_sent: self.counters.bytes_sent + self.counters.in_flight as u64,
                            chunks_sent: self.counters.chunks_sent + 1,
                            in_flight: 0,
                        };
                    } else {
                        self.fail(TransferError::UnexpectedMessage(frame));
                    }
                },
                UploadEvent::StreamEnded => self.fail(TransferError::PrematureClose),
                UploadEvent::Failed => self.fail(TransferError::TransportError),
                _ => self.fail(TransferError::IoFailure),
            },
            UploadPhase::Reporting => match event {
                UploadEvent::ProgressReported => self.enter(UploadPhase::Reading),
                _ => self.fail(TransferError::IoFailure),
            },
            UploadPhase::Closing => match event {
                UploadEvent::CloseSent => self.enter(UploadPhase::Done),
                UploadEvent::Failed => self.fail(TransferError::TransportError),
                _ => self.fail(TransferError::IoFailure),
            },
        }
        self.pending()
    }
}

} // verus!
