//! The client session: connect, then a fixed number of rounds of one send
//! and one awaited reply, then close.
//!
//! The session decides; the program around it acts. The program performs
//! the action that [`ClientSession::pending`] names and reports how it went
//! with [`ClientSession::step`], which says what to log and moves on.
//!
//! A failed connect is fatal. A failed or short send and a failed receive
//! are reported and end the round they occur in, no more; the session goes
//! on to the next round. So a session that connected starts every one of
//! its rounds, and closes with status 0.

use vstd::prelude::*;
use crate::error::ProtocolError;
use crate::transport::Outcome;
use crate::transport::EXIT_FAILURE;
use crate::transport::EXIT_OK;

verus! {

/// The number of rounds that the client runs unless told otherwise.
pub const DEFAULT_ROUNDS: u32 = 3;

/// The pause between two rounds, in milliseconds, unless told otherwise.
pub const DEFAULT_DELAY_MS: u64 = 2000;

/// Where a client session stands.
#[derive(Clone, Copy, Debug, PartialEq, Eq, Structural)]
pub enum ClientState {
    Connecting,
    Sending,
    AwaitingReply,
    Closed,
}

/// What the program is to do for the session.
#[derive(Clone, Copy, Debug, PartialEq, Eq, Structural)]
pub enum ClientAction {
    /// Open the connection.
    Connect,
    /// Wait `wait_ms` milliseconds, then write the frame in one transmission.
    Send { wait_ms: u64 },
    /// Block until one reply arrives or the read fails.
    AwaitReply,
    /// Close the connection and end with this status.
    Exit { status: u8 },
}

/// The answer to one reported outcome.
#[derive(Clone, Copy, Debug, PartialEq, Eq, Structural)]
pub struct ClientStep {
    /// The error to log for the outcome, if it was one.
    pub error: Option<ProtocolError>,
    /// What to do next.
    pub next: ClientAction,
}

/// A client session as plain values.
pub struct ClientView {
    pub state: ClientState,
    /// Rounds to run in all.
    pub rounds: u32,
    /// Rounds begun so far: the number of sends asked for.
    pub started: u32,
    /// Length of the frame that every round sends.
    pub frame_len: usize,
    /// The pause before every round but the first.
    pub delay_ms: u64,
    /// The status to exit with once closed.
    pub status: u8,
}

impl ClientView {
    /// What holds of every session, whatever has been reported to it.
    pub open spec fn well_formed(self) -> bool {
        &&& self.started <= self.rounds
        &&& self.state == ClientState::Connecting ==> self.started == 0 && self.status == EXIT_OK
        &&& self.state == ClientState::Sending || self.state == ClientState::AwaitingReply
            ==> self.started >= 1 && self.status == EXIT_OK
        &&& self.state == ClientState::Closed ==> (self.status == EXIT_OK && self.started
            == self.rounds) || (self.status == EXIT_FAILURE && self.started == 0)
    }

    /// The action that the session waits for.
    pub open spec fn pending(self) -> ClientAction {
        match self.state {
            ClientState::Connecting => ClientAction::Connect,
            ClientState::Sending => ClientAction::Send {
                wait_ms: if self.started > 1 {
                    self.delay_ms
                } else {
                    0
                },
            },
            ClientState::AwaitingReply => ClientAction::AwaitReply,
            ClientState::Closed => ClientAction::Exit { status: self.status },
        }
    }

    /// The session once the current round is over: in the next round if
    /// one is left, closed with status 0 otherwise.
    pub open spec fn round_over(self) -> ClientView {
        if self.started < self.rounds {
            ClientView {
                state: ClientState::Sending,
                started: (self.started + 1) as u32,
                ..self
            }
        } else {
            ClientView { state: ClientState::Closed, status: EXIT_OK, ..self }
        }
    }

    /// The error that an outcome amounts to in this state, if any.
    pub open spec fn error_of(self, outcome: Outcome) -> Option<ProtocolError> {
        match (self.state, outcome) {
            (ClientState::Connecting, Outcome::Failed) => Some(ProtocolError::ConnectionError),
            (ClientState::Sending, Outcome::Failed) => Some(ProtocolError::SendError),
            (ClientState::Sending, Outcome::Done(written)) => if written == self.frame_len {
                None
            } else {
                Some(ProtocolError::SendError)
            },
            (ClientState::AwaitingReply, Outcome::Failed) => Some(ProtocolError::ReceiveError),
            _ => None,
        }
    }

    /// The session after `outcome` was reported for its pending action.
    pub open spec fn after(self, outcome: Outcome) -> ClientView {
        match self.state {
            ClientState::Connecting => match outcome {
                Outcome::Done(_) => self.round_over(),
                Outcome::Failed => ClientView {
                    state: ClientState::Closed,
                    status: EXIT_FAILURE,
                    ..self
                },
            },
            ClientState::Sending => if self.error_of(outcome) is None {
                ClientView { state: ClientState::AwaitingReply, ..self }
            } else {
                self.round_over()
            },
            ClientState::AwaitingReply => self.round_over(),
            ClientState::Closed => self,
        }
    }

    /// An upper bound on the outcomes that can still be reported before
    /// the session is closed.
    pub open spec fn steps_left(self) -> int {
        match self.state {
            ClientState::Connecting => 2 * self.rounds + 1,
            ClientState::Sending => 2 * (self.rounds - self.started) + 2,
            ClientState::AwaitingReply => 2 * (self.rounds - self.started) + 1,
            ClientState::Closed => 0,
        }
    }

    /// The session after every outcome of `outcomes` was reported, in
    /// order.
    pub open spec fn after_all(self, outcomes: Seq<Outcome>) -> ClientView
        decreases outcomes.len(),
    {
        if outcomes.len() == 0 {
            self
        } else {
            self.after(outcomes[0]).after_all(outcomes.drop_first())
        }
    }

    /// How many sends the session asks for while `outcomes` are reported:
    /// the number of steps that answer with a send.
    pub open spec fn sends_asked(self, outcomes: Seq<Outcome>) -> nat
        decreases outcomes.len(),
    {
        if outcomes.len() == 0 {
            0
        } else {
            let next = self.after(outcomes[0]);
            let asked: nat = if next.pending() is Send && self.state != ClientState::Closed {
                1
            } else {
                0
            };
            asked + next.sends_asked(outcomes.drop_first())
        }
    }

    /// The session that [`ClientSession::new`] makes.
    pub open spec fn fresh(frame_len: usize, rounds: u32, delay_ms: u64) -> ClientView {
        ClientView {
            state: ClientState::Connecting,
            rounds,
            started: 0,
            frame_len,
            delay_ms,
            status: EXIT_OK,
        }
    }
}

/// One client session.
#[derive(Debug)]
pub struct ClientSession {
    state: ClientState,
    rounds: u32,
    started: u32,
    frame_len: usize,
    delay_ms: u64,
    status: u8,
}

impl View for ClientSession {
    type V = ClientView;

    closed spec fn view(&self) -> ClientView {
        ClientView {
            state: self.state,
            rounds: self.rounds,
            started: self.started,
            frame_len: self.frame_len,
            delay_ms: self.delay_ms,
            status: self.status,
        }
    }
}

impl ClientSession {
    #[verifier::type_invariant]
    spec fn holds(self) -> bool {
        self@.well_formed()
    }

    /// A session that has yet to connect. It will send a frame of
    /// `frame_len` bytes `rounds` times, pausing `delay_ms` milliseconds
    /// between rounds.
    pub fn new(frame_len: usize, rounds: u32, delay_ms: u64) -> (session: Self)
        ensures
            session@ == ClientView::fresh(frame_len, rounds, delay_ms),
            session@.well_formed(),
    {
        ClientSession {
            state: ClientState::Connecting,
            rounds,
            started: 0,
            frame_len,
            delay_ms,
            status: EXIT_OK,
        }
    }

    /// Where the session stands.
    pub fn state(&self) -> (r: ClientState)
        ensures
            r == self@.state,
            self@.well_formed(),
    {
        proof {
            use_type_invariant(self);
        }
        self.state
    }

    /// How many rounds have begun.
    pub fn rounds_started(&self) -> (r: u32)
        ensures
            r == self@.started,
            r <= self@.rounds,
    {
        proof {
            use_type_invariant(self);
        }
        self.started
    }

    /// The action that the session waits for.
    pub fn pending(&self) -> (action: ClientAction)
        ensures
            action == self@.pending(),
    {
        match self.state {
            ClientState::Connecting => ClientAction::Connect,
            ClientState::Sending => ClientAction::Send {
                wait_ms: if self.started > 1 {
                    self.delay_ms
                } else {
                    0
                },
            },
            ClientState::AwaitingReply => ClientAction::AwaitReply,
            ClientState::Closed => ClientAction::Exit { status: self.status },
        }
    }

    /// The error that `outcome` amounts to in the session's state.
    fn error_of(&self, outcome: Outcome) -> (error: Option<ProtocolError>)
        ensures
            error == self@.error_of(outcome),
    {
        match (self.state, outcome) {
            (ClientState::Connecting, Outcome::Failed) => Some(ProtocolError::ConnectionError),
            (ClientState::Sending, Outcome::Failed) => Some(ProtocolError::SendError),
            (ClientState::Sending, Outcome::Done(written)) => if written == self.frame_len {
                None
            } else {
                Some(ProtocolError::SendError)
            },
            (ClientState::AwaitingReply, Outcome::Failed) => Some(ProtocolError::ReceiveError),
            _ => None,
        }
    }

    /// The session in `state`, with everything else as it is.
    fn moved_to(&self, state: ClientState) -> (next: Self)
        requires
            (ClientView { state, ..self@ }).well_formed(),
        ensures
            next@ == (ClientView { state, ..self@ }),
    {
        ClientSession {
            state,
            rounds: self.rounds,
            started: self.started,
            frame_len: self.frame_len,
            delay_ms: self.delay_ms,
            status: self.status,
        }
    }

    /// The session once the current round is over.
    fn round_over(&self) -> (next: Self)
        requires
            self@.state != ClientState::Closed,
        ensures
            next@ == self@.round_over(),
    {
        proof {
            use_type_invariant(self);
        }
        if self.started < self.rounds {
            ClientSession {
                state: ClientState::Sending,
                rounds: self.rounds,
                started: self.started + 1,
                frame_len: self.frame_len,
                delay_ms: self.delay_ms,
                status: self.status,
            }
        } else {
            self.moved_to(ClientState::Closed)
        }
    }

    /// The session closed for want of a connection.
    fn unconnected(&self) -> (next: Self)
        requires
            self@.state == ClientState::Connecting,
        ensures
            next@ == (ClientView { state: ClientState::Closed, status: EXIT_FAILURE, ..self@ }),
    {
        proof {
            use_type_invariant(self);
        }
        ClientSession {
            state: ClientState::Closed,
            rounds: self.rounds,
            started: self.started,
            frame_len: self.frame_len,
            delay_ms: self.delay_ms,
            status: EXIT_FAILURE,
        }
    }

    /// Takes the outcome of the pending action and moves on.
    ///
    /// Returns the error that the outcome amounts to, for the log, and the
    /// action to perform next. A closed session stays closed.
    pub fn step(&mut self, outcome: Outcome) -> (r: ClientStep)
        ensures
            final(self)@ == old(self)@.after(outcome),
            final(self)@.well_formed(),
            r.error == old(self)@.error_of(outcome),
            r.next == final(self)@.pending(),
    {
        proof {
            use_type_invariant(&*self);
        }
        let error: Option<ProtocolError> = self.error_of(outcome);
        match self.state {
            ClientState::Connecting => match outcome {
                Outcome::Done(_) => {
                    *self = self.round_over();
                },
                Outcome::Failed => {
                    *self = self.unconnected();
                },
            },
            ClientState::Sending => {
                if error.is_none() {
                    *self = self.moved_to(ClientState::AwaitingReply);
                } else {
                    *self = self.round_over();
                }
            },
            ClientState::AwaitingReply => {
                *self = self.round_over();
            },
            ClientState::Closed => {},
        }
        ClientStep { error, next: self.pending() }
    }
}

/// Every step keeps a session well formed.
pub proof fn step_keeps_well_formed(session: ClientView, outcome: Outcome)
    requires
        session.well_formed(),
    ensures
        session.after(outcome).well_formed(),
{
}

/// A session runs exactly the rounds it was made for. A step asks for a
/// send exactly when it begins a round, each round is begun once, and a
/// session that closes with status 0 has begun them all; one that closes
/// with another status never connected and has begun none.
pub proof fn rounds_are_exact(session: ClientView, outcome: Outcome)
    requires
        session.well_formed(),
    ensures
        ({
            let next = session.after(outcome);
            &&& next.rounds == session.rounds
            &&& next.started == session.started || next.started == session.started + 1
            &&& next.started == session.started + 1 <==> next.state == ClientState::Sending
            &&& next.state == ClientState::Sending <==> next.pending() is Send
            &&& next.state == ClientState::Closed && next.status == EXIT_OK ==> next.started
                == next.rounds
            &&& next.state == ClientState::Closed && next.status != EXIT_OK ==> next.started == 0
        }),
{
}

/// A closed session stays as it is and reports nothing.
pub proof fn closed_is_final(session: ClientView, outcome: Outcome)
    requires
        session.state == ClientState::Closed,
    ensures
        session.after(outcome) == session,
        session.error_of(outcome) is None,
{
}

/// Every session closes: each reported outcome brings an open session
/// nearer to it, and a session made for `n` rounds is closed after at most
/// `2 n + 1` outcomes.
pub proof fn session_closes(session: ClientView, outcome: Outcome)
    requires
        session.well_formed(),
        session.state != ClientState::Closed,
    ensures
        0 <= session.after(outcome).steps_left() < session.steps_left(),
        session.steps_left() <= 2 * session.rounds + 1,
        session.after(outcome).steps_left() == 0 <==> session.after(outcome).state
            == ClientState::Closed,
{
}

/// Only a failed connect is fatal: every other failure is reported and the
/// session goes on, to the next round or to a clean close.
pub proof fn only_connect_is_fatal(session: ClientView, outcome: Outcome)
    requires
        session.well_formed(),
    ensures
        session.after(outcome).status != EXIT_OK <==> session.status != EXIT_OK || (session.state
            == ClientState::Connecting && outcome is Failed),
{
}

/// Over any run, a well-formed session stays well formed, and the rounds
/// it has begun grow by exactly the sends it asked for.
pub proof fn sends_count_rounds(session: ClientView, outcomes: Seq<Outcome>)
    requires
        session.well_formed(),
    ensures
        session.after_all(outcomes).well_formed(),
        session.after_all(outcomes).rounds == session.rounds,
        session.after_all(outcomes).started == session.started + session.sends_asked(outcomes),
    decreases outcomes.len(),
{
    if outcomes.len() > 0 {
        rounds_are_exact(session, outcomes[0]);
        sends_count_rounds(session.after(outcomes[0]), outcomes.drop_first());
    }
}

/// Over any run, a session is closed once as many outcomes were reported
/// as it had steps left.
pub proof fn run_closes(session: ClientView, outcomes: Seq<Outcome>)
    requires
        session.well_formed(),
        outcomes.len() >= session.steps_left(),
    ensures
        session.after_all(outcomes).state == ClientState::Closed,
    decreases outcomes.len(),
{
    if session.state == ClientState::Closed {
        closed_stays_closed(session, outcomes);
    } else {
        session_closes(session, outcomes[0]);
        run_closes(session.after(outcomes[0]), outcomes.drop_first());
    }
}

/// Over any run, a closed session is what it was.
pub proof fn closed_stays_closed(session: ClientView, outcomes: Seq<Outcome>)
    requires
        session.state == ClientState::Closed,
    ensures
        session.after_all(outcomes) == session,
        session.sends_asked(outcomes) == 0,
    decreases outcomes.len(),
{
    if outcomes.len() > 0 {
        closed_stays_closed(session, outcomes.drop_first());
    }
}

/// A session performs exactly the cycles it was made for. Whatever is
/// reported to a new session of `rounds` rounds, it never asks for more
/// than `rounds` sends; after `2 * rounds + 1` reports it is closed; and
/// if it connected, it has by then asked for exactly `rounds` sends and
/// exits with status 0.
pub proof fn session_runs_every_round_once(
    frame_len: usize,
    rounds: u32,
    delay_ms: u64,
    outcomes: Seq<Outcome>,
)
    ensures
        ({
            let session = ClientView::fresh(frame_len, rounds, delay_ms);
            let end = session.after_all(outcomes);
            &&& session.sends_asked(outcomes) <= rounds
            &&& outcomes.len() >= 2 * rounds + 1 ==> end.state == ClientState::Closed
            &&& end.state == ClientState::Closed && outcomes[0] is Done ==> session.sends_asked(
                outcomes,
            ) == rounds && end.status == EXIT_OK
            &&& end.state == ClientState::Closed && outcomes[0] is Failed ==> session.sends_asked(
                outcomes,
            ) == 0 && end.status == EXIT_FAILURE
        }),
{
    let session = ClientView::fresh(frame_len, rounds, delay_ms);
    sends_count_rounds(session, outcomes);
    if outcomes.len() >= 2 * rounds + 1 {
        run_closes(session, outcomes);
    }
    if outcomes.len() > 0 {
        let first = session.after(outcomes[0]);
        let rest = outcomes.drop_first();
        sends_count_rounds(first, rest);
        if outcomes[0] is Failed {
            closed_stays_closed(first, rest);
        } else {
            status_stays_ok(first, rest);
        }
    }
}

/// Over any run, a session that connected keeps status 0.
proof fn status_stays_ok(session: ClientView, outcomes: Seq<Outcome>)
    requires
        session.well_formed(),
        session.state != ClientState::Connecting,
        session.status == EXIT_OK,
    ensures
        session.after_all(outcomes).status == EXIT_OK,
    decreases outcomes.len(),
{
    if outcomes.len() > 0 {
        only_connect_is_fatal(session, outcomes[0]);
        status_stays_ok(session.after(outcomes[0]), outcomes.drop_first());
    }
}

} // verus!
