//! Step logic of the two background tasks: the stream readers that drain the
//! supervised process's output, and the status poller that detects its exit.
//!
//! The runtime loops around these functions: it performs one read or wait,
//! hands the observed outcome in as an event, and gets back the next step
//! together with exactly what is owed to the caller-supplied sink for that
//! event — the decoded chunk to forward, or the exit status to report. The
//! runtime hands that payload to the sink and acts on the step (keep
//! draining, sleep and retry, check the shared slot, or finish).

use crate::status::ExitStatus;
use crate::text::decode_lossy;
use crate::text::lossy_decode;
use vstd::prelude::*;

verus! {

/// A caller-supplied sink for decoded output text.
pub trait OutputSink {
    /// Receives one decoded chunk of output.
    ///
    /// The sink is never invoked with empty text: every call carries at
    /// least one character, as `process_output` forwards a chunk only when
    /// its decoding is non-empty.
    fn on_output(&mut self, text: String)
        requires
            text@.len() > 0,
    ;
}

/// A caller-supplied sink for the exit status of the supervised process.
pub trait StatusSink {
    /// Receives the exit status, once, when the process is observed to have
    /// ended.
    fn on_status(&mut self, status: ExitStatus);
}

/// The default output handler: discards the text.
pub struct DiscardOutput;

impl OutputSink for DiscardOutput {
    fn on_output(&mut self, text: String) {
    }
}

/// The default status handler: discards the status.
pub struct DiscardStatus;

impl StatusSink for DiscardStatus {
    fn on_status(&mut self, status: ExitStatus) {
    }
}

/// One attempted read from an output stream, as the runtime observed it.
pub enum ReadEvent {
    /// The read yielded these bytes.
    Data(Vec<u8>),
    /// The read yielded zero bytes: the stream is at end of file for this
    /// attempt.
    Eof,
    /// No data is currently available on the non-blocking stream.
    WouldBlock,
    /// The read failed with an error other than would-block.
    Failed,
}

/// What a stream reader does next.
#[derive(Clone, Copy, Debug, PartialEq, Eq, Structural)]
pub enum ReadStep {
    /// Loop again at once: draining output takes priority over exit
    /// detection.
    Proceed,
    /// Sleep briefly, then loop again.
    SleepRetry,
    /// Check the shared slot, and abandon the stream when it is empty.
    CheckLiveness,
}

/// The step a stream reader takes after the given event.
pub open spec fn read_step_of(event: ReadEvent) -> ReadStep {
    match event {
        ReadEvent::Data(_) => ReadStep::Proceed,
        ReadEvent::WouldBlock => ReadStep::SleepRetry,
        ReadEvent::Eof => ReadStep::CheckLiveness,
        ReadEvent::Failed => ReadStep::CheckLiveness,
    }
}

/// What the reader owes the output sink for the given event: the permissive
/// decoding of received bytes when it is non-empty, and nothing otherwise.
pub open spec fn chunk_of(event: ReadEvent) -> Option<Seq<char>> {
    match event {
        ReadEvent::Data(bytes) => if lossy_decode(bytes@).len() > 0 {
            Some(lossy_decode(bytes@))
        } else {
            None
        },
        ReadEvent::Eof => None,
        ReadEvent::WouldBlock => None,
        ReadEvent::Failed => None,
    }
}

/// Handles one read outcome for a stream reader: received bytes are decoded
/// permissively (invalid sequences replaced, never a fatal error) and the
/// decoding is forwarded — exactly once, verbatim, and only when non-empty —
/// while draining takes priority over exit detection; an empty or failed
/// read falls through to the liveness check; an unready stream is retried
/// after a pause. The runtime hands the returned chunk to the output sink.
pub fn process_output(event: ReadEvent) -> (r: (ReadStep, Option<String>))
    ensures
        r.0 == read_step_of(event),
        r.1 matches Some(text) ==> chunk_of(event) == Some(text@),
        r.1 is Some <==> chunk_of(event) is Some,
        r.1 matches Some(text) ==> text@.len() > 0,
{
    match event {
        ReadEvent::Data(bytes) => {
            let text = decode_lossy(&bytes);
            if text.as_str().is_empty() {
                (ReadStep::Proceed, None)
            } else {
                (ReadStep::Proceed, Some(text))
            }
        },
        ReadEvent::WouldBlock => (ReadStep::SleepRetry, None),
        ReadEvent::Eof => (ReadStep::CheckLiveness, None),
        ReadEvent::Failed => (ReadStep::CheckLiveness, None),
    }
}

/// One attempted non-blocking wait, as the runtime observed it.
pub enum WaitEvent {
    /// The process has exited with this status.
    Exited(ExitStatus),
    /// The process is still running.
    StillRunning,
    /// The wait failed, or no process was registered to wait for.
    Failed,
}

/// What the status poller does next.
#[derive(Clone, Copy, Debug, PartialEq, Eq, Structural)]
pub enum PollStep {
    /// The poll is over: the runtime clears the shared slot and ends the
    /// poller task.
    Finished,
    /// Sleep, then poll again.
    SleepRetry,
}

/// The step the status poller takes after the given event.
pub open spec fn poll_step_of(event: WaitEvent) -> PollStep {
    match event {
        WaitEvent::Exited(_) => PollStep::Finished,
        WaitEvent::StillRunning => PollStep::SleepRetry,
        WaitEvent::Failed => PollStep::Finished,
    }
}

/// What the poller owes the status sink for the given event: the exit
/// status, verbatim, on an observed exit, and nothing otherwise — in
/// particular, no report on a failed wait.
pub open spec fn report_of(event: WaitEvent) -> Option<ExitStatus> {
    match event {
        WaitEvent::Exited(status) => Some(status),
        WaitEvent::StillRunning => None,
        WaitEvent::Failed => None,
    }
}

/// Handles one wait outcome for the status poller: an observed exit is
/// reported — exactly once, verbatim — and finishes the poll, a wait
/// failure finishes it defensively without a report, and a still-running
/// process is polled again after a pause. The runtime hands the returned
/// status to the status sink, and after a finished poll clears the shared
/// slot, which lets the stream readers terminate.
pub fn process_status(event: WaitEvent) -> (r: (PollStep, Option<ExitStatus>))
    ensures
        r.0 == poll_step_of(event),
        r.1 == report_of(event),
{
    match event {
        WaitEvent::Exited(status) => (PollStep::Finished, Some(status)),
        WaitEvent::StillRunning => (PollStep::SleepRetry, None),
        WaitEvent::Failed => (PollStep::Finished, None),
    }
}

} // verus!
