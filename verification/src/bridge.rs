use vstd::prelude::*;
use crate::source::FileSource;
use crate::swupdate_request::SwupdateRequest;

verus! {

/// The ways one update session can fail, as reported to the caller.
///
/// These are the only fallible points of the public operation: every other
/// step (closing, signalling) always succeeds.
#[derive(Clone, Copy, PartialEq, Eq, Structural, Debug)]
pub enum UpdateError {
    /// The image path could not be opened for reading; the engine was never
    /// started.
    SourceOpen,
    /// The engine's start call returned this negative code; the source file
    /// was closed before reporting.
    EngineStart(i32),
}

impl UpdateError {
    /// A short operator-facing description of the failure.
    pub fn describe(&self) -> (m: &'static str)
        ensures
            *self is SourceOpen ==> m@ == "unable to open the update source file"@,
            *self is EngineStart ==> m@ == "software update failed to start"@,
    {
        match self {
            UpdateError::SourceOpen => "unable to open the update source file",
            UpdateError::EngineStart(_) => "software update failed to start",
        }
    }
}

/// Where one session stands, from the blocking caller's point of view.
#[derive(Clone, Copy, PartialEq, Eq, Structural, Debug)]
pub enum Phase {
    /// Nothing has happened yet.
    Idle,
    /// The source file is open; the engine has not been started.
    Sourced,
    /// The engine is running; the caller is waiting for completion.
    Running,
    /// The completion signal was observed; the session is over.
    Complete,
    /// The session failed (source open or engine start) and is over.
    Failed,
}

/// One observable outcome reported to the session while it runs.
#[derive(Clone, Copy, PartialEq, Eq, Structural, Debug)]
pub enum Event {
    /// The image path was opened successfully.
    SourceOk,
    /// The image path could not be opened.
    SourceFail,
    /// The engine's start call accepted the session.
    StartOk,
    /// The engine's start call returned a negative code.
    StartFail,
    /// The engine delivered a status message.
    Status,
    /// The engine signalled completion.
    Done,
}

/// The session's phase after observing one event.
///
/// An event that the current phase does not expect changes nothing: in
/// particular a finished session stays finished.
pub open spec fn phase_step(p: Phase, e: Event) -> Phase {
    match (p, e) {
        (Phase::Idle, Event::SourceOk) => Phase::Sourced,
        (Phase::Idle, Event::SourceFail) => Phase::Failed,
        (Phase::Sourced, Event::StartOk) => Phase::Running,
        (Phase::Sourced, Event::StartFail) => Phase::Failed,
        (Phase::Running, Event::Done) => Phase::Complete,
        _ => p,
    }
}

/// The session's phase after observing a whole sequence of events in order.
pub open spec fn phase_run(p: Phase, es: Seq<Event>) -> Phase
    decreases es.len(),
{
    if es.len() == 0 {
        p
    } else {
        phase_run(phase_step(p, es[0]), es.drop_first())
    }
}

/// Only the completion signal finishes a session: a step out of any
/// unfinished phase reaches `Complete` solely from `Running`, and solely on
/// `Done` — never on a different signal.
pub proof fn lemma_only_done_completes(p: Phase, e: Event)
    requires
        p != Phase::Complete,
        phase_step(p, e) == Phase::Complete,
    ensures
        p == Phase::Running && e == Event::Done,
{
}

/// The session returns successfully only after the completion signal: no
/// sequence of observations reaches `Complete` unless it contains `Done`,
/// and only a running session consumes it.
pub proof fn lemma_complete_requires_done(p: Phase, es: Seq<Event>)
    requires
        p != Phase::Complete,
        phase_run(p, es) == Phase::Complete,
    ensures
        exists|i: int| 0 <= i < es.len() && es[i] == Event::Done,
    decreases es.len(),
{
    if es.len() == 0 {
    } else {
        let q = phase_step(p, es[0]);
        if q == Phase::Complete {
            assert(es[0] == Event::Done);
        } else {
            lemma_complete_requires_done(q, es.drop_first());
            let j = choose|j: int| 0 <= j < es.drop_first().len()
                && es.drop_first()[j] == Event::Done;
            assert(es[j + 1] == Event::Done);
        }
    }
}

/// A finished session never changes phase again: no event moves a session
/// out of `Complete`, so the completion signal is consumed at most once.
pub proof fn lemma_complete_is_final(es: Seq<Event>)
    ensures
        phase_run(Phase::Complete, es) == Phase::Complete,
    decreases es.len(),
{
    if es.len() > 0 {
        lemma_complete_is_final(es.drop_first());
    }
}

/// Status messages never move the session: the relay may be invoked any
/// number of times without affecting when the caller returns.
pub proof fn lemma_status_preserves_phase(p: Phase)
    ensures
        phase_step(p, Event::Status) == p,
{
}

/// Any number of status messages in a row leaves the session where it was:
/// the relay may be invoked unboundedly often during one session without
/// affecting when the caller returns.
pub proof fn lemma_statuses_preserve_phase(p: Phase, es: Seq<Event>)
    requires
        forall|i: int| 0 <= i < es.len() ==> es[i] == Event::Status,
    ensures
        phase_run(p, es) == p,
    decreases es.len(),
{
    if es.len() > 0 {
        assert(phase_step(p, es[0]) == p);
        assert(forall|i: int| 0 <= i < es.drop_first().len() ==> es.drop_first()[i] == es[i + 1]);
        lemma_statuses_preserve_phase(p, es.drop_first());
    }
}

/// One update session: the open source, the caller's dry-run choice, and the
/// phase the session has reached.
///
/// The unverified layer around the engine drives a session in order: record
/// the outcome of opening the path, then of the engine's start call, then —
/// once the completion trampoline has fired and the waiting thread woke —
/// the completion itself. Each step says exactly which descriptor to
/// release and which error to report.
pub struct Session {
    pub source: FileSource,
    pub dry_run: bool,
    pub phase: Phase,
}

impl Session {
    /// The session's invariant: the source slot is valid, it is filled
    /// exactly while the session is between a successful open and its end,
    /// and a finished or failed session has released its descriptor.
    pub open spec fn wf(self) -> bool {
        &&& self.source.wf()
        &&& (self.phase == Phase::Sourced || self.phase == Phase::Running
            ==> self.source.fd is Some)
        &&& (self.phase == Phase::Idle || self.phase == Phase::Complete
            || self.phase == Phase::Failed ==> self.source.fd is None)
    }

    /// A fresh session for one call of the public operation.
    pub fn new(dry_run: bool) -> (s: Session)
        ensures
            s.wf(),
            s.phase == Phase::Idle,
            s.dry_run == dry_run,
            s.source.fd is None,
    {
        Session { source: FileSource::new(), dry_run, phase: Phase::Idle }
    }

    /// Record the outcome of opening the image path.
    ///
    /// On success the request to transmit is built — dry-run tag from the
    /// caller's flag, every buffer zeroed — and the session holds the open
    /// descriptor. On failure the session ends at once with a source-open
    /// error: the engine is never started and the relay never invoked.
    pub fn source_opened(&mut self, fd: i32) -> (r: Result<SwupdateRequest, UpdateError>)
        requires
            old(self).wf(),
            old(self).phase == Phase::Idle,
        ensures
            final(self).wf(),
            final(self).dry_run == old(self).dry_run,
            fd >= 0 ==> {
                &&& r matches Ok(req) && req.is_fresh(old(self).dry_run)
                &&& final(self).phase == phase_step(Phase::Idle, Event::SourceOk)
                &&& final(self).source.fd == Some(fd)
            },
            fd < 0 ==> {
                &&& r matches Err(e) && e == UpdateError::SourceOpen
                &&& final(self).phase == phase_step(Phase::Idle, Event::SourceFail)
                &&& final(self).source.fd is None
            },
    {
        match self.source.record_open(fd) {
            Ok(()) => {
                self.phase = Phase::Sourced;
                Ok(SwupdateRequest::new(self.dry_run))
            },
            Err(e) => {
                self.phase = Phase::Failed;
                Err(e)
            },
        }
    }

    /// Record the engine's answer to the start call.
    ///
    /// A negative code ends the session with an engine-start error carrying
    /// that code, and hands back the descriptor so the source is closed
    /// exactly once before reporting. A non-negative code leaves the session
    /// running, with the source still open for the engine's read callbacks.
    pub fn engine_started(&mut self, rc: i32) -> (r: (Option<i32>, Result<(), UpdateError>))
        requires
            old(self).wf(),
            old(self).phase == Phase::Sourced,
        ensures
            final(self).wf(),
            final(self).dry_run == old(self).dry_run,
            rc >= 0 ==> {
                &&& r.0 is None
                &&& r.1 is Ok
                &&& final(self).phase == phase_step(Phase::Sourced, Event::StartOk)
                &&& final(self).source == old(self).source
            },
            rc < 0 ==> {
                &&& r.0 == old(self).source.fd
                &&& r.1 == Result::<(), UpdateError>::Err(UpdateError::EngineStart(rc))
                &&& final(self).phase == phase_step(Phase::Sourced, Event::StartFail)
                &&& final(self).source.fd is None
            },
    {
        if rc >= 0 {
            self.phase = Phase::Running;
            (None, Ok(()))
        } else {
            let released = self.source.close();
            self.phase = Phase::Failed;
            (released, Err(UpdateError::EngineStart(rc)))
        }
    }

    /// Record the observed completion signal, once the waiting thread has
    /// woken. Ends the session and hands back the descriptor so the source
    /// is closed exactly once before the public operation returns success.
    pub fn completed(&mut self) -> (released: Option<i32>)
        requires
            old(self).wf(),
            old(self).phase == Phase::Running,
        ensures
            final(self).wf(),
            final(self).dry_run == old(self).dry_run,
            final(self).phase == phase_step(Phase::Running, Event::Done),
            final(self).source.fd is None,
            released == old(self).source.fd,
            released is Some,
    {
        let released = self.source.close();
        self.phase = Phase::Complete;
        released
    }
}

} // verus!
