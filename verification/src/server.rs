//! The server side: the accept loop's decisions, the decisions of the task
//! that serves one connection, and the reply to one request.
//!
//! The accept loop checks the shutdown flag, accepts one connection, hands
//! it to a task of its own and checks the flag again. A task reads a
//! request, answers it and reads again, until the peer closes or something
//! fails. Tasks share nothing: what a task answers depends on the bytes it
//! read and on nothing else, and the shutdown flag does not reach it.

use vstd::prelude::*;
use crate::cipher::decode;
use crate::cipher::decoded;
use crate::cipher::encoded;
use crate::cipher::encode_inverts_decode;
use crate::cipher::key_case_is_ignored;
use crate::cipher::lowercase;
use crate::cipher::valid_key;
use crate::error::ProtocolError;
use crate::framing::decode_frame;
use crate::framing::decode_frame_inverts_encode_frame;
use crate::framing::encode_frame;
use crate::framing::frame_bytes;
use crate::framing::parsed_frame;
use crate::framing::parsed_frame_rebuilds;
use crate::framing::valid_key_has_no_delimiter;
use crate::framing::FRAME_CAPACITY;
use crate::shutdown::ShutdownFlag;
use crate::transport::Outcome;
use crate::transport::EXIT_OK;

verus! {

/// The reply to a request, `received` being the bytes that one read
/// returned.
///
/// The request is split into key and message. The reply is the frame of
/// the same key and of the message decoded under it. A request without a
/// delimiter is malformed; one whose key is empty or holds anything but
/// letters has an invalid key; one longer than the transmission buffer
/// has no reply that would fit.
pub open spec fn reply_for(received: Seq<u8>) -> Result<Seq<u8>, ProtocolError> {
    match parsed_frame(received) {
        None => Err(ProtocolError::MalformedFrame),
        Some((key, message)) => if !valid_key(key) {
            Err(ProtocolError::InvalidKey)
        } else if received.len() > FRAME_CAPACITY {
            Err(ProtocolError::FrameTooLarge)
        } else {
            Ok(frame_bytes(key, decoded(key, message)))
        },
    }
}

/// Computes the reply to one request.
///
/// `buffer` is the receive buffer and `actual_len` the number of bytes that
/// the read put into it; what the buffer holds beyond them is not looked
/// at. The result is [`reply_for`] of those bytes.
pub fn split_payload(buffer: &[u8], actual_len: usize) -> (r: Result<Vec<u8>, ProtocolError>)
    requires
        actual_len <= buffer@.len(),
    ensures
        match r {
            Ok(reply) => reply_for(buffer@.take(actual_len as int)) == Ok::<
                Seq<u8>,
                ProtocolError,
            >(reply@),
            Err(e) => reply_for(buffer@.take(actual_len as int)) == Err::<Seq<u8>, ProtocolError>(
                e,
            ),
        },
{
    let ghost received = buffer@.take(actual_len as int);
    let (key, message) = match decode_frame(buffer, actual_len) {
        Ok(parts) => parts,
        Err(e) => {
            return Err(e);
        },
    };
    proof {
        parsed_frame_rebuilds(received);
    }
    let text: Vec<u8> = match decode(key.as_slice(), message.as_slice()) {
        Ok(text) => text,
        Err(e) => {
            return Err(e);
        },
    };
    encode_frame(key.as_slice(), text.as_slice())
}

/// A reply is as long as its request, and the client reads it back: it
/// parses to the request's key in lower case and to a text that, encoded
/// under that key, is the request's message again.
pub proof fn reply_answers_request(received: Seq<u8>)
    requires
        reply_for(received) is Ok,
    ensures
        ({
            let (key, message) = parsed_frame(received)->0;
            let reply = reply_for(received)->Ok_0;
            &&& reply.len() == received.len()
            &&& parsed_frame(reply) == Some((lowercase(key), decoded(key, message)))
            &&& encoded(lowercase(key), decoded(key, message)) == message
        }),
{
    let (key, message) = parsed_frame(received)->0;
    parsed_frame_rebuilds(received);
    decode_frame_inverts_encode_frame(key, decoded(key, message));
    encode_inverts_decode(key, message);
    key_case_is_ignored(key, decoded(key, message));
}

/// Every request that a client builds from a valid key and that fits the
/// transmission buffer has a reply: the frame of the same key and of the
/// message decoded under it.
pub proof fn valid_request_is_answered(key: Seq<u8>, message: Seq<u8>)
    requires
        valid_key(key),
        key.len() + 1 + message.len() <= FRAME_CAPACITY,
    ensures
        reply_for(frame_bytes(key, message)) == Ok::<Seq<u8>, ProtocolError>(
            frame_bytes(key, decoded(key, message)),
        ),
{
    let low = lowercase(key);
    valid_key_has_no_delimiter(key);
    decode_frame_inverts_encode_frame(key, message);
    key_case_is_ignored(key, message);
    assert(lowercase(low) =~= low);
}

/// Bytes beyond those that the read reported never bear on the reply: two
/// buffers that agree on their first `actual_len` bytes get the same one.
pub proof fn reply_ignores_stale_bytes(first: Seq<u8>, second: Seq<u8>, actual_len: int)
    requires
        0 <= actual_len <= first.len(),
        actual_len <= second.len(),
        forall|i: int| 0 <= i < actual_len ==> first[i] == second[i],
    ensures
        reply_for(first.take(actual_len)) == reply_for(second.take(actual_len)),
{
    assert(first.take(actual_len) =~= second.take(actual_len));
}

/// Where the accept loop stands.
#[derive(Clone, Copy, Debug, PartialEq, Eq, Structural)]
pub enum ListenerState {
    /// Between two accepts: the flag is checked next.
    Listening,
    /// An accept is under way.
    Accepting,
    /// The loop has ended and accepts no more.
    Stopped,
}

/// What the program is to do for the accept loop.
#[derive(Clone, Copy, Debug, PartialEq, Eq, Structural)]
pub enum ListenerAction {
    /// Check the shutdown flag: call [`Listener::poll`].
    Poll,
    /// Accept one connection and report with [`Listener::accepted`].
    Accept,
    /// Start a task of its own for the connection just accepted.
    Spawn,
    /// Log that the accept failed. The loop goes on.
    ReportAcceptError,
    /// Leave the loop and end the process with this status.
    Exit { status: u8 },
}

impl ListenerState {
    /// State and action after the flag was checked and said `running`.
    /// Only a listening loop looks at the flag: while an accept is under
    /// way it stays under way, and a stopped loop stays stopped.
    pub open spec fn polled(self, running: bool) -> (ListenerState, ListenerAction) {
        match self {
            ListenerState::Listening => if running {
                (ListenerState::Accepting, ListenerAction::Accept)
            } else {
                (ListenerState::Stopped, ListenerAction::Exit { status: EXIT_OK })
            },
            ListenerState::Accepting => (ListenerState::Accepting, ListenerAction::Accept),
            ListenerState::Stopped => (
                ListenerState::Stopped,
                ListenerAction::Exit { status: EXIT_OK },
            ),
        }
    }

    /// State and action after an accept returned, successfully or not.
    /// Either way the loop listens again; without an accept under way
    /// nothing is spawned.
    pub open spec fn after_accept(self, ok: bool) -> (ListenerState, ListenerAction) {
        match self {
            ListenerState::Accepting => if ok {
                (ListenerState::Listening, ListenerAction::Spawn)
            } else {
                (ListenerState::Listening, ListenerAction::ReportAcceptError)
            },
            ListenerState::Listening => (ListenerState::Listening, ListenerAction::Poll),
            ListenerState::Stopped => (
                ListenerState::Stopped,
                ListenerAction::Exit { status: EXIT_OK },
            ),
        }
    }
}

/// The accept loop of one listener. Its view is its state.
#[derive(Debug)]
pub struct Listener {
    state: ListenerState,
}

impl View for Listener {
    type V = ListenerState;

    closed spec fn view(&self) -> ListenerState {
        self.state
    }
}

impl Listener {
    /// A loop that is about to check the flag for the first time.
    pub fn new() -> (listener: Self)
        ensures
            listener@ == ListenerState::Listening,
    {
        Listener { state: ListenerState::Listening }
    }

    /// Where the loop stands.
    pub fn state(&self) -> (r: ListenerState)
        ensures
            r == self@,
    {
        self.state
    }

    /// Checks the shutdown flag between two accepts.
    pub fn poll(&mut self, flag: &ShutdownFlag) -> (action: ListenerAction)
        ensures
            (final(self)@, action) == old(self)@.polled(flag@),
    {
        match self.state {
            ListenerState::Listening => {
                if flag.is_running() {
                    self.state = ListenerState::Accepting;
                    ListenerAction::Accept
                } else {
                    self.state = ListenerState::Stopped;
                    ListenerAction::Exit { status: EXIT_OK }
                }
            },
            ListenerState::Accepting => ListenerAction::Accept,
            ListenerState::Stopped => ListenerAction::Exit { status: EXIT_OK },
        }
    }

    /// Takes the result of the accept that [`Listener::poll`] asked for.
    pub fn accepted(&mut self, ok: bool) -> (action: ListenerAction)
        ensures
            (final(self)@, action) == old(self)@.after_accept(ok),
    {
        match self.state {
            ListenerState::Accepting => {
                self.state = ListenerState::Listening;
                if ok {
                    ListenerAction::Spawn
                } else {
                    ListenerAction::ReportAcceptError
                }
            },
            ListenerState::Listening => ListenerAction::Poll,
            ListenerState::Stopped => ListenerAction::Exit { status: EXIT_OK },
        }
    }
}

/// A stopped loop stays stopped and spawns nothing, whatever the flag says
/// and whatever is reported to it.
pub proof fn stopped_is_final(running: bool, ok: bool)
    ensures
        ListenerState::Stopped.polled(running) == (
            ListenerState::Stopped,
            ListenerAction::Exit { status: EXIT_OK },
        ),
        ListenerState::Stopped.after_accept(ok) == (
            ListenerState::Stopped,
            ListenerAction::Exit { status: EXIT_OK },
        ),
{
}

/// The loop stops exactly where it checks the flag and finds it cleared,
/// and then exits with status 0; a failed accept never stops it.
pub proof fn only_the_flag_stops(state: ListenerState, running: bool, ok: bool)
    requires
        state != ListenerState::Stopped,
    ensures
        state.polled(running).0 == ListenerState::Stopped <==> state == ListenerState::Listening
            && !running,
        state.polled(running).0 == ListenerState::Stopped ==> state.polled(running).1 == (
            ListenerAction::Exit { status: EXIT_OK }
        ),
        state.after_accept(ok).0 != ListenerState::Stopped,
{
}

/// A task is spawned for every accepted connection and for nothing else.
pub proof fn spawn_follows_accept(state: ListenerState, running: bool, ok: bool)
    ensures
        state.after_accept(ok).1 == ListenerAction::Spawn <==> state == ListenerState::Accepting
            && ok,
        state.polled(running).1 != ListenerAction::Spawn,
{
}

/// Where the task of one connection stands.
#[derive(Clone, Copy, Debug, PartialEq, Eq, Structural)]
pub enum TaskState {
    /// A read is awaited.
    Reading,
    /// A reply is being written.
    Replying,
    /// The task has ended.
    Finished,
}

/// What the program is to do for a connection task.
#[derive(Debug)]
pub enum TaskAction {
    /// Read up to the buffer's capacity.
    Read,
    /// Write these bytes in one transmission.
    Reply(Vec<u8>),
    /// The peer closed, or the task had ended before: drop the connection.
    Close,
    /// Log the error and drop the connection.
    Abort(ProtocolError),
}

/// A task's action as plain values.
pub enum TaskActionView {
    Read,
    Reply(Seq<u8>),
    Close,
    Abort(ProtocolError),
}

impl View for TaskAction {
    type V = TaskActionView;

    open spec fn view(&self) -> TaskActionView {
        match self {
            TaskAction::Read => TaskActionView::Read,
            TaskAction::Reply(bytes) => TaskActionView::Reply(bytes@),
            TaskAction::Close => TaskActionView::Close,
            TaskAction::Abort(e) => TaskActionView::Abort(*e),
        }
    }
}

/// A connection task as plain values.
pub struct TaskView {
    pub state: TaskState,
    /// Length of the reply that is being written; 0 in any other state.
    pub reply_len: usize,
}

impl TaskView {
    /// The action that answers `outcome`, `buffer` being what the receive
    /// buffer holds.
    ///
    /// While reading: a read of no bytes means that the peer closed, a
    /// failed read ends the task, and a read of some bytes is answered
    /// with its reply, or ends the task where it has none. A read said to
    /// have brought more bytes than the buffer holds counts as failed. While
    /// replying: a write of the whole reply is followed by the next read,
    /// a short or failed write ends the task.
    pub open spec fn answer(self, buffer: Seq<u8>, outcome: Outcome) -> TaskActionView {
        match self.state {
            TaskState::Reading => match outcome {
                Outcome::Failed => TaskActionView::Abort(ProtocolError::ReceiveError),
                Outcome::Done(n) => if n == 0 {
                    TaskActionView::Close
                } else if n > buffer.len() {
                    TaskActionView::Abort(ProtocolError::ReceiveError)
                } else {
                    match reply_for(buffer.take(n as int)) {
                        Ok(reply) => TaskActionView::Reply(reply),
                        Err(e) => TaskActionView::Abort(e),
                    }
                },
            },
            TaskState::Replying => if outcome == Outcome::Done(self.reply_len) {
                TaskActionView::Read
            } else {
                TaskActionView::Abort(ProtocolError::SendError)
            },
            TaskState::Finished => TaskActionView::Close,
        }
    }

    /// The task once it has asked for `action`.
    pub open spec fn asked(action: TaskActionView) -> TaskView {
        match action {
            TaskActionView::Read => TaskView { state: TaskState::Reading, reply_len: 0 },
            TaskActionView::Reply(reply) => TaskView {
                state: TaskState::Replying,
                reply_len: reply.len() as usize,
            },
            TaskActionView::Close => TaskView { state: TaskState::Finished, reply_len: 0 },
            TaskActionView::Abort(_) => TaskView { state: TaskState::Finished, reply_len: 0 },
        }
    }
}

/// The task that serves one connection.
#[derive(Debug)]
pub struct ConnectionTask {
    state: TaskState,
    reply_len: usize,
}

impl View for ConnectionTask {
    type V = TaskView;

    closed spec fn view(&self) -> TaskView {
        TaskView { state: self.state, reply_len: self.reply_len }
    }
}

impl ConnectionTask {
    /// The task of a connection that was just accepted: it reads first.
    pub fn new() -> (task: Self)
        ensures
            task@ == (TaskView { state: TaskState::Reading, reply_len: 0 }),
    {
        ConnectionTask { state: TaskState::Reading, reply_len: 0 }
    }

    /// Where the task stands.
    pub fn state(&self) -> (r: TaskState)
        ensures
            r == self@.state,
    {
        self.state
    }

    /// Takes the outcome of the read or write that the task asked for
    /// last, and says what to do next.
    ///
    /// `buffer` is the task's receive buffer. Of a read that returned `n`
    /// bytes, only its first `n` bytes are looked at.
    pub fn step(&mut self, buffer: &[u8], outcome: Outcome) -> (action: TaskAction)
        ensures
            action@ == old(self)@.answer(buffer@, outcome),
            final(self)@ == TaskView::asked(action@),
    {
        let action: TaskAction = match self.state {
            TaskState::Reading => match outcome {
                Outcome::Failed => TaskAction::Abort(ProtocolError::ReceiveError),
                Outcome::Done(n) => if n == 0 {
                    TaskAction::Close
                } else if n > buffer.len() {
                    TaskAction::Abort(ProtocolError::ReceiveError)
                } else {
                    match split_payload(buffer, n) {
                        Ok(reply) => TaskAction::Reply(reply),
                        Err(e) => TaskAction::Abort(e),
                    }
                },
            },
            TaskState::Replying => match outcome {
                Outcome::Done(n) => if n == self.reply_len {
                    TaskAction::Read
                } else {
                    TaskAction::Abort(ProtocolError::SendError)
                },
                Outcome::Failed => TaskAction::Abort(ProtocolError::SendError),
            },
            TaskState::Finished => TaskAction::Close,
        };
        match &action {
            TaskAction::Read => {
                self.state = TaskState::Reading;
                self.reply_len = 0;
            },
            TaskAction::Reply(reply) => {
                self.state = TaskState::Replying;
                self.reply_len = reply.len();
            },
            TaskAction::Close => {
                self.state = TaskState::Finished;
                self.reply_len = 0;
            },
            TaskAction::Abort(_) => {
                self.state = TaskState::Finished;
                self.reply_len = 0;
            },
        }
        action
    }
}

/// A finished task stays finished: whatever is reported to it, it asks for
/// nothing but to drop the connection.
pub proof fn finished_is_final(task: TaskView, buffer: Seq<u8>, outcome: Outcome)
    requires
        task.state == TaskState::Finished,
    ensures
        task.answer(buffer, outcome) == TaskActionView::Close,
        TaskView::asked(task.answer(buffer, outcome)).state == TaskState::Finished,
{
}

/// A task ends only when its peer closes or something fails: a read that
/// brought a request with a reply, and a write that took the whole reply,
/// keep it running.
pub proof fn task_serves_until_close_or_error(task: TaskView, buffer: Seq<u8>, outcome: Outcome)
    requires
        task.state != TaskState::Finished,
    ensures
        ({
            let action = task.answer(buffer, outcome);
            TaskView::asked(action).state == TaskState::Finished <==> action
                == TaskActionView::Close || action is Abort
        }),
        task.answer(buffer, outcome) == TaskActionView::Close <==> task.state
            == TaskState::Reading && outcome == Outcome::Done(0),
{
}

/// What a task answers to a read depends on the bytes it read and on
/// nothing else: not on what its buffer held from earlier reads, not on any
/// other task, not on the shutdown flag.
pub proof fn tasks_are_isolated(
    task: TaskView,
    first: Seq<u8>,
    second: Seq<u8>,
    n: usize,
)
    requires
        n <= first.len(),
        n <= second.len(),
        forall|i: int| 0 <= i < n ==> first[i] == second[i],
    ensures
        task.answer(first, Outcome::Done(n)) == task.answer(second, Outcome::Done(n)),
{
    reply_ignores_stale_bytes(first, second, n as int);
}

} // verus!
