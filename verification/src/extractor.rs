//! The per-track extraction state machine: a run starts idle, begins
//! processing, and ends completed, aborted or failed. The owning thread
//! feeds it the backend's discrete events and the cancellation flag; a
//! periodic tick renders the progress line and requests shutdown when the
//! user has cancelled.

use vstd::prelude::*;

use crate::errors::RipError;
use crate::paranoia::{extraction_progress_percent, progress_percent_spec};
use crate::text::decimal_seq;

verus! {

/// A discrete message from the processing backend.
#[derive(Debug)]
pub enum PipelineEvent {
    /// Downstream signalled end-of-stream: the track is done.
    EndOfStream,
    /// A processing stage reported an error; carries the message.
    Error(String),
}

/// Where a track extraction stands.
#[derive(Debug)]
pub enum ExtractorState {
    Idle,
    Running,
    Completed,
    Aborted,
    /// A stage failed; carries the captured message.
    Failed(String),
}

impl ExtractorState {
    /// The states a run can end in; nothing leaves them.
    pub open spec fn is_terminal(self) -> bool {
        self is Completed || self is Aborted || self is Failed
    }

    /// Begin processing: an idle extractor starts running; every other
    /// state is unchanged.
    pub fn start(self) -> (s: ExtractorState)
        ensures
            self is Idle ==> s is Running,
            !(self is Idle) ==> s == self,
    {
        match self {
            ExtractorState::Idle => ExtractorState::Running,
            other => other,
        }
    }

    /// A backend event arrives: while running, end-of-stream completes the
    /// run and an error captures its message and fails it. Anything else,
    /// and any event in another state, changes nothing.
    pub fn on_event(self, event: PipelineEvent) -> (s: ExtractorState)
        ensures
            self is Running && event is EndOfStream ==> s is Completed,
            self is Running && event is Error ==> s is Failed && s->Failed_0@ == event->Error_0@,
            !(self is Running) ==> s == self,
    {
        match self {
            ExtractorState::Running => match event {
                PipelineEvent::EndOfStream => ExtractorState::Completed,
                PipelineEvent::Error(message) => ExtractorState::Failed(message),
            },
            other => other,
        }
    }

    /// The cancellation flag was found false: a running extraction is
    /// aborted; every other state is unchanged.
    pub fn on_cancel(self) -> (s: ExtractorState)
        ensures
            self is Running ==> s is Aborted,
            !(self is Running) ==> s == self,
    {
        match self {
            ExtractorState::Running => ExtractorState::Aborted,
            other => other,
        }
    }

    /// The outcome of a finished run. Completion succeeds; a failure
    /// carries its message as a processing error; cancellation is its own
    /// signal, which callers must not treat as a failure.
    pub fn outcome(&self) -> (r: Result<(), RipError>)
        requires
            self.is_terminal(),
        ensures
            self is Completed <==> r is Ok,
            self is Aborted ==> r->Err_0 is AbortedByUser,
            self is Failed ==> r->Err_0 is Processing && r->Err_0->Processing_0@
                == self->Failed_0@,
    {
        match self {
            ExtractorState::Completed => Ok(()),
            ExtractorState::Aborted => Err(RipError::AbortedByUser),
            ExtractorState::Failed(message) => Err(RipError::Processing(message.clone())),
            _ => Err(RipError::AbortedByUser),
        }
    }
}

/// What the periodic progress timer decides on one tick.
#[derive(Debug)]
pub enum TickAction {
    /// Keep going and emit this status line.
    Status(String),
    /// The run is over or the user cancelled: stop the timer.
    Shutdown,
}

/// The status line of one tick: the track's title and the percentage of
/// work done.
pub open spec fn status_line_spec(title: Seq<char>, pct: int) -> Seq<char> {
    "Encoding "@ + title + " : "@ + decimal_seq(pct as nat) + " %"@
}

/// One tick of the progress timer. While the run is live it reports
/// progress; once the cancellation flag flips or the run ends, it asks
/// for shutdown.
pub fn progress_tick(ripping: bool, working: bool, title: &str, current: u32, total: u32) -> (r:
    TickAction)
    requires
        current <= total,
    ensures
        !(ripping && working) ==> r is Shutdown,
        ripping && working ==> r is Status && r->Status_0@ == status_line_spec(
            title@,
            progress_percent_spec(current, total),
        ),
{
    if !ripping || !working {
        return TickAction::Shutdown;
    }
    let pct = extraction_progress_percent(current, total);
    let num = crate::text::u64_to_string(pct as u64);
    let mut line = String::from_str("Encoding ");
    line.append(title);
    line.append(" : ");
    line.append(num.as_str());
    line.append(" %");
    proof {
        assert(line@ =~= status_line_spec(title@, progress_percent_spec(current, total)));
    }
    TickAction::Status(line)
}

} // verus!
