//! What holds of every upload, whatever the caller reports.
//!
//! An upload is followed through a sequence of events from the state in which
//! it starts. The laws speak of the states it passes through and of the
//! actions that the engine names on the way.

use crate::error::ErrorView;
use crate::frame::{is_ack_frame, FrameView};
use crate::session::created_session;
use crate::upload::{
    chunk_count, initial_engine, lemma_chunk_count_next, lemma_chunk_count_zero, pending_spec,
    step_spec, ActionView, EngineView, EventView, UploadPhase,
};
use vstd::arithmetic::div_mod::lemma_div_non_zero;
use vstd::prelude::*;

verus! {

/// The state that `events` lead to from `s`.
pub open spec fn run(s: EngineView, events: Seq<EventView>) -> EngineView
    decreases events.len(),
{
    if events.len() == 0 {
        s
    } else {
        step_spec(run(s, events.drop_last()), events.last())
    }
}

/// The actions that the engine names as `events` are reported from `s`, one
/// in answer to each event.
pub open spec fn actions(s: EngineView, events: Seq<EventView>) -> Seq<ActionView>
    decreases events.len(),
{
    if events.len() == 0 {
        Seq::empty()
    } else {
        actions(s, events.drop_last()).push(pending_spec(run(s, events)))
    }
}

/// The lengths of the chunks that the actions ask to send, in order.
pub open spec fn chunks_in(actions: Seq<ActionView>) -> Seq<nat>
    decreases actions.len(),
{
    if actions.len() == 0 {
        Seq::empty()
    } else {
        match actions.last() {
            ActionView::SendChunk { len } => chunks_in(actions.drop_last()).push(len),
            _ => chunks_in(actions.drop_last()),
        }
    }
}

/// The progress that the actions ask to report, in order: the bytes sent and
/// the total of each report.
pub open spec fn reports_in(actions: Seq<ActionView>) -> Seq<(nat, nat)>
    decreases actions.len(),
{
    if actions.len() == 0 {
        Seq::empty()
    } else {
        match actions.last() {
            ActionView::Report { bytes_sent, total_bytes } => reports_in(
                actions.drop_last(),
            ).push((bytes_sent, total_bytes)),
            _ => reports_in(actions.drop_last()),
        }
    }
}

/// The sum of a sequence of lengths.
pub open spec fn total_of(lengths: Seq<nat>) -> nat
    decreases lengths.len(),
{
    if lengths.len() == 0 {
        0
    } else {
        total_of(lengths.drop_last()) + lengths.last()
    }
}

/// How many chunks have been handed out for sending and are not acknowledged.
pub open spec fn unacknowledged(phase: UploadPhase) -> nat {
    if phase == UploadPhase::Sending || phase == UploadPhase::AwaitingAck {
        1
    } else {
        0
    }
}

/// How the actions named so far agree with the state reached.
pub open spec fn consistent(s: EngineView, named: Seq<ActionView>) -> bool {
    let chunks = chunks_in(named);
    let reports = reports_in(named);
    &&& s.wf()
    &&& reports.len() == s.chunks_sent
    &&& forall|i: int, j: int| 0 <= i < j < reports.len() ==> reports[i].0 < reports[j].0
    &&& forall|i: int|
        0 <= i < reports.len() ==> 0 < (#[trigger] reports[i]).0 <= s.bytes_sent && reports[i].1
            == s.total_bytes
    &&& reports.len() > 0 ==> reports.last().0 == s.bytes_sent
    &&& s.chunks_sent <= chunks.len() <= s.chunks_sent + 1
    &&& s.bytes_sent <= total_of(chunks) <= s.total_bytes
    &&& s.phase != UploadPhase::Errored ==> {
        &&& chunks.len() == s.chunks_sent + unacknowledged(s.phase)
        &&& total_of(chunks) == s.bytes_sent + s.in_flight
        &&& forall|i: int| 0 <= i < chunks.len() ==> 0 < #[trigger] chunks[i] <= s.chunk_size
        &&& forall|i: int| 0 <= i < chunks.len() - 1 ==> #[trigger] chunks[i] == s.chunk_size
        &&& chunks.len() > 0 && chunks.last() != s.chunk_size ==> s.bytes_sent + s.in_flight
            == s.total_bytes
    }
}

/// A step leads from a state that an upload can reach to another such state.
pub proof fn lemma_step_keeps_invariant(s: EngineView, event: EventView)
    requires
        s.wf(),
    ensures
        step_spec(s, event).wf(),
{
    if s.phase == UploadPhase::AwaitingAck {
        lemma_chunk_count_next(s.bytes_sent, s.chunk_size, s.in_flight);
    }
}

/// A step keeps the actions named in agreement with the state.
proof fn lemma_step_keeps_consistent(s: EngineView, named: Seq<ActionView>, event: EventView)
    requires
        consistent(s, named),
    ensures
        consistent(step_spec(s, event), named.push(pending_spec(step_spec(s, event)))),
{
    let t = step_spec(s, event);
    let next = named.push(pending_spec(t));
    lemma_step_keeps_invariant(s, event);
    assert(next.drop_last() == named);
    if t.phase == UploadPhase::Sending && s.phase == UploadPhase::Reading {
        assert(chunks_in(next).drop_last() == chunks_in(named));
    }
}

/// The actions named in the course of an upload agree with the state it has
/// reached, whatever was reported.
pub proof fn lemma_run_is_consistent(
    server_host: Seq<char>,
    file_name: Seq<char>,
    chunk_size: nat,
    total_bytes: nat,
    events: Seq<EventView>,
)
    requires
        chunk_size > 0,
    ensures
        consistent(
            run(initial_engine(server_host, file_name, chunk_size, total_bytes), events),
            actions(initial_engine(server_host, file_name, chunk_size, total_bytes), events),
        ),
    decreases events.len(),
{
    let start = initial_engine(server_host, file_name, chunk_size, total_bytes);
    if events.len() == 0 {
        lemma_chunk_count_zero(chunk_size);
    } else {
        let before = events.drop_last();
        lemma_run_is_consistent(server_host, file_name, chunk_size, total_bytes, before);
        lemma_step_keeps_consistent(run(start, before), actions(start, before), events.last());
    }
}

/// A file of `total_bytes` bytes, uploaded to the end in chunks of
/// `chunk_size`, is sent in as many chunks as its length takes up, rounded up:
/// none for an empty file. The chunks add up to the file; each is full but
/// the last, which may be shorter and is never empty.
pub proof fn lemma_chunks_of_complete_upload(
    server_host: Seq<char>,
    file_name: Seq<char>,
    chunk_size: nat,
    total_bytes: nat,
    events: Seq<EventView>,
)
    requires
        chunk_size > 0,
        run(initial_engine(server_host, file_name, chunk_size, total_bytes), events).phase
            == UploadPhase::Done,
    ensures
        ({
            let chunks = chunks_in(
                actions(initial_engine(server_host, file_name, chunk_size, total_bytes), events),
            );
            &&& chunks.len() == chunk_count(total_bytes, chunk_size)
            &&& total_bytes == 0 ==> chunks.len() == 0
            &&& total_of(chunks) == total_bytes
            &&& forall|i: int| 0 <= i < chunks.len() ==> 0 < #[trigger] chunks[i] <= chunk_size
            &&& forall|i: int| 0 <= i < chunks.len() - 1 ==> #[trigger] chunks[i] == chunk_size
        }),
{
    lemma_run_is_consistent(server_host, file_name, chunk_size, total_bytes, events);
    lemma_run_keeps_configuration(
        initial_engine(server_host, file_name, chunk_size, total_bytes),
        events,
    );
    lemma_chunk_count_zero(chunk_size);
}

/// The progress reported in the course of an upload grows with every report
/// and never exceeds the length of the file; and where the upload of a file
/// that is not empty completes, the last report gives the whole length.
pub proof fn lemma_progress_of_upload(
    server_host: Seq<char>,
    file_name: Seq<char>,
    chunk_size: nat,
    total_bytes: nat,
    events: Seq<EventView>,
)
    requires
        chunk_size > 0,
    ensures
        ({
            let start = initial_engine(server_host, file_name, chunk_size, total_bytes);
            let reports = reports_in(actions(start, events));
            &&& forall|i: int, j: int| 0 <= i < j < reports.len() ==> reports[i].0 < reports[j].0
            &&& forall|i: int|
                0 <= i < reports.len() ==> 0 < (#[trigger] reports[i]).0 <= total_bytes
                    && reports[i].1 == total_bytes
            &&& run(start, events).phase == UploadPhase::Done && total_bytes > 0 ==> reports.len()
                > 0 && reports.last().0 == total_bytes
        }),
{
    let start = initial_engine(server_host, file_name, chunk_size, total_bytes);
    lemma_run_is_consistent(server_host, file_name, chunk_size, total_bytes, events);
    lemma_run_keeps_configuration(start, events);
    if total_bytes > 0 {
        lemma_div_non_zero(total_bytes + chunk_size - 1, chunk_size as int);
    }
}

/// One chunk is in flight at a time: whatever is reported, the chunks handed
/// out for sending are never more than one ahead of the chunks acknowledged,
/// and never add up to more than the file.
pub proof fn lemma_one_chunk_at_a_time(
    server_host: Seq<char>,
    file_name: Seq<char>,
    chunk_size: nat,
    total_bytes: nat,
    events: Seq<EventView>,
)
    requires
        chunk_size > 0,
    ensures
        ({
            let start = initial_engine(server_host, file_name, chunk_size, total_bytes);
            let chunks = chunks_in(actions(start, events));
            &&& run(start, events).chunks_sent <= chunks.len() <= run(start, events).chunks_sent
                + 1
            &&& run(start, events).bytes_sent <= total_of(chunks) <= total_bytes
        }),
{
    let start = initial_engine(server_host, file_name, chunk_size, total_bytes);
    lemma_run_is_consistent(server_host, file_name, chunk_size, total_bytes, events);
    lemma_run_keeps_configuration(start, events);
}

/// No event changes what an upload was started with.
pub proof fn lemma_run_keeps_configuration(s: EngineView, events: Seq<EventView>)
    ensures
        run(s, events).server_host == s.server_host,
        run(s, events).file_name == s.file_name,
        run(s, events).chunk_size == s.chunk_size,
        run(s, events).total_bytes == s.total_bytes,
    decreases events.len(),
{
    if events.len() > 0 {
        lemma_run_keeps_configuration(s, events.drop_last());
    }
}

/// An upload that was aborted stays aborted: no event changes its state, and
/// the only action it names is to hand out the error.
pub proof fn lemma_aborted_upload_stays_aborted(s: EngineView, events: Seq<EventView>)
    requires
        s.phase == UploadPhase::Errored,
    ensures
        run(s, events) == s,
        actions(s, events).len() == events.len(),
        forall|i: int| 0 <= i < events.len() ==> #[trigger] actions(s, events)[i] == pending_spec(s),
        chunks_in(actions(s, events)).len() == 0,
    decreases events.len(),
{
    if events.len() > 0 {
        lemma_aborted_upload_stays_aborted(s, events.drop_last());
        assert(actions(s, events).drop_last() == actions(s, events.drop_last()));
    }
}

/// Any answer to a chunk other than a text frame that reads `ACK` aborts the
/// upload with `UnexpectedMessage`, and no chunk is sent after that, whatever
/// is reported.
pub proof fn lemma_unexpected_message_aborts(
    s: EngineView,
    frame: FrameView,
    later: Seq<EventView>,
)
    requires
        s.phase == UploadPhase::AwaitingAck,
        !is_ack_frame(frame),
    ensures
        ({
            let aborted = step_spec(s, EventView::FrameReceived(frame));
            &&& aborted.phase == UploadPhase::Errored
            &&& aborted.error == Some(ErrorView::UnexpectedMessage(frame))
            &&& aborted.bytes_sent == s.bytes_sent
            &&& pending_spec(aborted) == ActionView::Fail(ErrorView::UnexpectedMessage(frame))
            &&& run(aborted, later) == aborted
            &&& chunks_in(actions(aborted, later)).len() == 0
            &&& forall|i: int|
                0 <= i < later.len() ==> #[trigger] actions(aborted, later)[i] == ActionView::Fail(
                    ErrorView::UnexpectedMessage(frame),
                )
        }),
{
    lemma_aborted_upload_stays_aborted(step_spec(s, EventView::FrameReceived(frame)), later);
}

/// A create call that is answered with anything but a session aborts the
/// upload with the error of that answer, and the upload channel is never
/// asked for, whatever is reported.
pub proof fn lemma_failed_create_never_connects(
    s: EngineView,
    status: u16,
    body: Seq<char>,
    later: Seq<EventView>,
)
    requires
        s.phase == UploadPhase::Creating,
        created_session(status, body) is Err,
    ensures
        ({
            let aborted = step_spec(s, EventView::CreateAnswered { status, body });
            &&& aborted.phase == UploadPhase::Errored
            &&& aborted.error == Some(created_session(status, body)->Err_0)
            &&& forall|i: int|
                0 <= i < later.len() ==> #[trigger] actions(aborted, later)[i] == ActionView::Fail(
                    created_session(status, body)->Err_0,
                )
        }),
{
    lemma_aborted_upload_stays_aborted(
        step_spec(s, EventView::CreateAnswered { status, body }),
        later,
    );
}

} // verus!
