use vstd::prelude::*;
use crate::packet_handler::Direction;
use crate::packet_handler::PacketHandler;
use crate::pipe::{handler_after, output_of, run_pipe, views_of, PipeError};

verus! {

/// Why a session ended without success: the backend could not be dialed, or
/// one of its two pipes failed.
#[derive(Clone, Copy, PartialEq, Eq, Structural, Debug)]
pub enum SessionError {
    Dial,
    Pipe(PipeError),
}

/// Where one connection session stands: dialing the backend, running both
/// pipes, waiting for the second pipe after the first ended cleanly, or
/// closed with its recorded outcome.
#[derive(Clone, Copy, PartialEq, Eq, Debug)]
pub enum SessionPhase {
    Dialing,
    Running,
    HalfDone { finished: Direction },
    Closed { outcome: Result<(), SessionError> },
}

/// What the surrounding task must do after a session event.
#[derive(Clone, Copy, PartialEq, Eq, Structural, Debug)]
pub enum SessionAction {
    /// The backend answered: build the two pipes, sharing one handler, and
    /// run them concurrently.
    StartPipes,
    /// The backend could not be dialed: abandon and close the client
    /// connection; no pipe ever ran.
    CloseClient,
    /// One pipe ended cleanly: the session stays up until its sibling ends.
    AwaitSibling,
    /// One pipe failed: tear the sibling down and close both endpoints now.
    CancelAndClose,
    /// Both pipes have ended: close both endpoints.
    CloseBoth,
}

/// The session's transition for the outcome of dialing the backend.
pub open spec fn dial_step(ok: bool) -> (SessionPhase, SessionAction) {
    if ok {
        (SessionPhase::Running, SessionAction::StartPipes)
    } else {
        (
            SessionPhase::Closed { outcome: Err(SessionError::Dial) },
            SessionAction::CloseClient,
        )
    }
}

/// The session's transition when the pipe of direction `dir` reports its
/// outcome `r`. Only a running or half-done session is ever stepped; in any
/// other phase the session stays where it is.
pub open spec fn pipe_done_step(phase: SessionPhase, dir: Direction, r: Result<(), PipeError>) -> (
    SessionPhase,
    SessionAction,
) {
    match phase {
        SessionPhase::Running => match r {
            Ok(_) => (SessionPhase::HalfDone { finished: dir }, SessionAction::AwaitSibling),
            Err(e) => (
                SessionPhase::Closed { outcome: Err(SessionError::Pipe(e)) },
                SessionAction::CancelAndClose,
            ),
        },
        SessionPhase::HalfDone { finished } => match r {
            Ok(_) => (SessionPhase::Closed { outcome: Ok(()) }, SessionAction::CloseBoth),
            Err(e) => (
                SessionPhase::Closed { outcome: Err(SessionError::Pipe(e)) },
                SessionAction::CloseBoth,
            ),
        },
        _ => (phase, SessionAction::CloseBoth),
    }
}

/// The lifecycle of one connection session: the pairing of a forward and a
/// backward pipe created for one accepted client connection. The machine
/// fixes the join policy — success only if both pipes end cleanly, otherwise
/// the first failure is the session's outcome — and makes every terminal
/// transition carry the action that releases the session's endpoints.
pub struct SessionMachine {
    /// The session's current phase.
    pub phase: SessionPhase,
}

impl SessionMachine {
    /// A fresh session for one accepted client connection, about to dial the
    /// backend.
    pub fn new() -> (m: Self)
        ensures
            m.phase is Dialing,
    {
        SessionMachine { phase: SessionPhase::Dialing }
    }

    /// The backend dial finished. A failure is fatal to this session alone:
    /// the client is closed and no pipe ever runs.
    pub fn on_dial(&mut self, ok: bool) -> (a: SessionAction)
        requires
            old(self).phase is Dialing,
        ensures
            (final(self).phase, a) == dial_step(ok),
    {
        if ok {
            self.phase = SessionPhase::Running;
            SessionAction::StartPipes
        } else {
            self.phase = SessionPhase::Closed { outcome: Err(SessionError::Dial) };
            SessionAction::CloseClient
        }
    }

    /// The pipe of direction `dir` terminated with outcome `r`: a clean end
    /// of stream, or the error that aborted it.
    pub fn on_pipe_done(&mut self, dir: Direction, r: Result<(), PipeError>) -> (a: SessionAction)
        requires
            old(self).phase is Running || (old(self).phase matches SessionPhase::HalfDone {
                finished,
            } && finished != dir),
        ensures
            (final(self).phase, a) == pipe_done_step(old(self).phase, dir, r),
    {
        let ph = self.phase;
        match ph {
            SessionPhase::Running => match r {
                Ok(_) => {
                    self.phase = SessionPhase::HalfDone { finished: dir };
                    SessionAction::AwaitSibling
                },
                Err(e) => {
                    self.phase = SessionPhase::Closed { outcome: Err(SessionError::Pipe(e)) };
                    SessionAction::CancelAndClose
                },
            },
            _ => match r {
                Ok(_) => {
                    self.phase = SessionPhase::Closed { outcome: Ok(()) };
                    SessionAction::CloseBoth
                },
                Err(e) => {
                    self.phase = SessionPhase::Closed { outcome: Err(SessionError::Pipe(e)) };
                    SessionAction::CloseBoth
                },
            },
        }
    }

    /// The outcome a closed session reports.
    pub fn outcome(&self) -> (r: Result<(), SessionError>)
        requires
            self.phase is Closed,
        ensures
            self.phase matches SessionPhase::Closed { outcome } && r == outcome,
    {
        match self.phase {
            SessionPhase::Closed { outcome } => outcome,
            _ => {
                proof {
                    assert(false);
                }
                Ok(())
            },
        }
    }
}

/// One whole session over in-memory streams: the client produces exactly the
/// non-empty chunks of `client_sends` and then closes, the backend produces
/// exactly those of `backend_sends` and then closes, every write succeeds,
/// and the one `handler` — shared by both directions, its inspections
/// serialized into a single total order, forward traffic first — inspects
/// every unit. The result is the session's outcome together with the chunks
/// the backend received and the chunks the client received.
///
/// The join is fail-fast: a refused forward chunk aborts the session before
/// any backward traffic is relayed, and the session succeeds exactly when the
/// handler refuses no chunk of either direction. The backend is taken as
/// reachable here, so the session's dial succeeds by construction.
pub fn run_session<H: PacketHandler>(
    handler: &mut H,
    client_sends: &Vec<Vec<u8>>,
    backend_sends: &Vec<Vec<u8>>,
) -> (r: (Result<(), SessionError>, Vec<Vec<u8>>, Vec<Vec<u8>>))
    requires
        forall|t: int| 0 <= t < client_sends@.len() ==> #[trigger] client_sends@[t]@.len() > 0,
        forall|t: int| 0 <= t < backend_sends@.len() ==> #[trigger] backend_sends@[t]@.len() > 0,
    ensures
        ({
            let fwd = views_of(client_sends@);
            let bwd = views_of(backend_sends@);
            let h1 = handler_after(*old(handler), Direction::Forward, fwd, fwd.len() as int);
            let fwd_ok = forall|j: int|
                0 <= j < fwd.len() ==> #[trigger] output_of(
                    *old(handler),
                    Direction::Forward,
                    fwd,
                    j,
                ) is Some;
            let bwd_ok = forall|j: int|
                0 <= j < bwd.len() ==> #[trigger] output_of(h1, Direction::Backward, bwd, j)
                    is Some;
            &&& (r.0 is Ok <==> fwd_ok && bwd_ok)
            &&& (!fwd_ok ==> r.0 == Err::<(), SessionError>(SessionError::Pipe(PipeError::Inspect))
                && r.1@.len() == 0 && r.2@.len() == 0)
            &&& (fwd_ok ==> r.1@.len() == fwd.len() && (forall|j: int|
                0 <= j < fwd.len() ==> #[trigger] output_of(*old(handler), Direction::Forward, fwd, j)
                    == Some(r.1@[j]@)))
            &&& (fwd_ok && !bwd_ok ==> r.0 == Err::<(), SessionError>(
                SessionError::Pipe(PipeError::Inspect),
            ) && r.2@.len() == 0)
            &&& (fwd_ok && bwd_ok ==> r.2@.len() == bwd.len() && (forall|j: int|
                0 <= j < bwd.len() ==> #[trigger] output_of(h1, Direction::Backward, bwd, j)
                    == Some(r.2@[j]@)) && *final(handler) == handler_after(
                h1,
                Direction::Backward,
                bwd,
                bwd.len() as int,
            ))
        }),
{
    let mut s = SessionMachine::new();
    let _ = s.on_dial(true);
    match run_pipe(handler, Direction::Forward, client_sends) {
        Err(e) => {
            let _ = s.on_pipe_done(Direction::Forward, Err(e));
            (s.outcome(), Vec::new(), Vec::new())
        },
        Ok(to_backend) => {
            let _ = s.on_pipe_done(Direction::Forward, Ok(()));
            match run_pipe(handler, Direction::Backward, backend_sends) {
                Err(e) => {
                    let _ = s.on_pipe_done(Direction::Backward, Err(e));
                    (s.outcome(), to_backend, Vec::new())
                },
                Ok(to_client) => {
                    let _ = s.on_pipe_done(Direction::Backward, Ok(()));
                    (s.outcome(), to_backend, to_client)
                },
            }
        },
    }
}

/// The fail-fast join of one session's two pipes. Whatever the two outcomes
/// and whichever direction reports first: a first failure closes the session
/// at once, tearing the surviving sibling down; a first clean end leaves the
/// session waiting for its sibling, and the sibling's outcome closes it. The
/// session succeeds exactly when both pipes end cleanly — so when either
/// direction's connection is closed by its peer or fails, the whole session
/// is torn down — and every transition into the terminal phase carries an
/// action that releases both endpoints.
pub proof fn lemma_fail_fast_join(
    d1: Direction,
    d2: Direction,
    r1: Result<(), PipeError>,
    r2: Result<(), PipeError>,
)
    requires
        d1 != d2,
    ensures
        ({
            let (p1, a1) = pipe_done_step(SessionPhase::Running, d1, r1);
            match r1 {
                Err(e) => p1 == (SessionPhase::Closed {
                    outcome: Err::<(), SessionError>(SessionError::Pipe(e)),
                }) && a1 == SessionAction::CancelAndClose,
                Ok(_) => ({
                    let (p2, a2) = pipe_done_step(p1, d2, r2);
                    &&& a1 == SessionAction::AwaitSibling
                    &&& a2 == SessionAction::CloseBoth
                    &&& match r2 {
                        Ok(_) => p2 == (SessionPhase::Closed {
                            outcome: Ok::<(), SessionError>(()),
                        }),
                        Err(e2) => p2 == (SessionPhase::Closed {
                            outcome: Err::<(), SessionError>(SessionError::Pipe(e2)),
                        }),
                    }
                }),
            }
        }),
{
}

/// Dial failures are contained: a session whose backend cannot be reached
/// closes, releasing its client connection, while a session whose backend
/// answers goes on to run its pipes. Each session steps on its own phase
/// alone, so one session's unreachable backend cannot keep a concurrent
/// session's dial from succeeding.
pub proof fn lemma_dial_isolation()
    ensures
        dial_step(false) == (
            SessionPhase::Closed { outcome: Err::<(), SessionError>(SessionError::Dial) },
            SessionAction::CloseClient,
        ),
        dial_step(true) == (SessionPhase::Running, SessionAction::StartPipes),
{
}

} // verus!
