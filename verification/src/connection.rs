//! One connection: what it is doing, and what each thing that can happen to
//! it makes of it. The socket is carried along and never touched; the reads
//! and writes are made by the caller, who is told what to attempt and
//! reports how it went.

use vstd::prelude::*;
use vstd::string::StringExecFns;
use crate::parser::head_outcome;
use crate::parser::parse_head;
use crate::parser::ParseStatus;
use crate::parser::ParseStatusView;
use crate::request::PreRequest;
use crate::request::PreRequestView;
use crate::response::bad_request;
use crate::response::Response;
use crate::response::ResponseView;
use crate::server::Event;
use crate::text::append_bytes;
use crate::text::tail;
use crate::text::tail_bytes;

verus! {

/// The most bytes that the head of a request may take.
pub const HEADER_CAPACITY: usize = 2048;

/// The most bytes of a body that one read is asked for.
pub const BODY_CHUNK: usize = 2048;

/// Which timeout, if any, runs for a connection.
#[derive(Clone, Copy, Debug, PartialEq, Eq, Structural)]
pub enum TimerMode {
    /// The head of a request is being read.
    In,
    /// A response is being written.
    Out,
    /// The body of a POST is awaited.
    Post,
    /// No timeout runs.
    Off,
}

/// A line for the log, if a transition has one.
#[derive(Debug)]
pub enum LogMessage {
    Message(String),
    Error(String),
    Silent,
}

/// What a `LogMessage` holds.
pub enum LogView {
    Message(Seq<char>),
    Error(Seq<char>),
    Silent,
}

impl View for LogMessage {
    type V = LogView;

    open spec fn view(&self) -> LogView {
        match self {
            LogMessage::Message(text) => LogView::Message(text@),
            LogMessage::Error(text) => LogView::Error(text@),
            LogMessage::Silent => LogView::Silent,
        }
    }
}

/// What the event loop reports of a socket.
#[derive(Clone, Copy, Debug)]
pub struct Readiness {
    pub readable: bool,
    pub writable: bool,
    pub error: bool,
    pub hup: bool,
}

/// How a read that does not block went.
pub enum ReadOutcome {
    /// The bytes that were read, possibly none.
    Data(Vec<u8>),
    /// Nothing is there to be read yet.
    WouldBlock,
    /// The read failed; the text names the error.
    Failed(String),
}

/// How a write that does not block went.
pub enum WriteOutcome {
    /// The number of bytes that were written, possibly zero.
    Written(usize),
    /// Nothing can be written yet.
    WouldBlock,
    /// The write failed; the text names the error.
    Failed(String),
}

/// The body of a POST, as far as a waiting connection has it. `P` is what
/// the caller wants back when the body is whole or given up.
pub enum PostState<P> {
    /// The request has no body.
    Absent,
    /// A body of the given length is declared; the bytes that came with the
    /// head are held, and nobody has asked for the body yet.
    Data(Seq<u8>, nat),
    /// The body is being read for the one who asked.
    Reading(Seq<u8>, nat, P),
    /// The body has been handed over or given up.
    Complete,
}

/// What a connection is doing.
pub enum State<P> {
    /// The head of a request is being read; the bytes so far.
    ReadingRequest(Seq<u8>),
    /// A request has been handed out and its response is awaited; whether
    /// the connection is to be kept afterwards, and the state of the body.
    WaitingForServerResponse(bool, PostState<P>),
    /// A response is being written; whether the connection is to be kept
    /// afterwards, the bytes of the response, and how many of them are out.
    SendingResponse(bool, Seq<u8>, nat),
}

/// A transition as far as it can go without a read or a write.
pub enum ProgressView<P> {
    /// The transition is over: the state that follows, or none where the
    /// connection ends; the request to hand out, if one is whole; and a line
    /// for the log.
    Finished(Option<State<P>>, Option<PreRequestView>, LogView),
    /// A read of at most the given number of bytes is to be attempted.
    Read(State<P>, nat),
    /// A write of the unsent bytes is to be attempted.
    Write(State<P>),
}

/// How the body of a request is framed.
pub enum Framing {
    /// The request has no body.
    NoBody,
    /// A body of the given length, of which these bytes are there already.
    Body(Seq<u8>, usize),
    /// The request cannot be served: it has a body of unknown length, or
    /// more of it is there than it declared.
    Refused,
}

/// The bytes that came after the head, where the head ends at `consumed`.
pub open spec fn excess(filled: Seq<u8>, consumed: nat) -> Seq<u8> {
    tail(filled, consumed)
}

/// The framing of the body of a request that came with `excess` bytes
/// after its head. Only a POST has a body, and its length must be declared.
pub open spec fn framing(request: PreRequestView, excess: Seq<u8>) -> Framing {
    if !request.is_post() {
        Framing::NoBody
    } else {
        match request.header_number("Content-Length"@) {
            Some(length) => if length >= excess.len() {
                Framing::Body(excess, length)
            } else {
                Framing::Refused
            },
            None => Framing::Refused,
        }
    }
}

impl<P> State<P> {
    /// The state of a connection that has just been accepted, and of one
    /// that is kept after a response.
    pub open spec fn fresh() -> State<P> {
        State::ReadingRequest(Seq::empty())
    }

    /// The state in which a request is refused: the answer is
    /// `400 Bad Request`, and the connection is not kept.
    pub open spec fn refusal() -> State<P> {
        State::SendingResponse(false, bad_request().message, 0)
    }

    /// The bounds that every state of a connection keeps.
    pub open spec fn valid(self) -> bool {
        match self {
            State::ReadingRequest(filled) => filled.len() < HEADER_CAPACITY,
            State::WaitingForServerResponse(_, PostState::Data(bytes, length)) => bytes.len()
                <= length <= usize::MAX,
            State::WaitingForServerResponse(_, PostState::Reading(bytes, length, _)) => bytes.len()
                <= length <= usize::MAX,
            State::WaitingForServerResponse(_, _) => true,
            State::SendingResponse(_, bytes, sent) => sent <= bytes.len(),
        }
    }

    /// The readiness that the socket must be registered for.
    pub open spec fn event(self) -> Event {
        match self {
            State::ReadingRequest(_) => Event::Read,
            State::WaitingForServerResponse(_, PostState::Reading(_, _, _)) => Event::Read,
            State::WaitingForServerResponse(_, _) => Event::Quiet,
            State::SendingResponse(_, _, _) => Event::Write,
        }
    }

    /// The timeout that must run. While a body is declared and not yet
    /// whole, the client is still being waited for.
    pub open spec fn timer_mode(self) -> TimerMode {
        match self {
            State::ReadingRequest(_) => TimerMode::In,
            State::WaitingForServerResponse(_, PostState::Data(_, _)) => TimerMode::Post,
            State::WaitingForServerResponse(_, PostState::Reading(_, _, _)) => TimerMode::Post,
            State::WaitingForServerResponse(_, _) => TimerMode::Off,
            State::SendingResponse(_, _, _) => TimerMode::Out,
        }
    }

    /// The name of the state, for the log.
    pub open spec fn name(self) -> Seq<char> {
        match self {
            State::ReadingRequest(_) => "ReadingRequest"@,
            State::WaitingForServerResponse(_, PostState::Absent) =>
                "WaitingForServerResponse (post none)"@,
            State::WaitingForServerResponse(_, PostState::Data(_, _)) =>
                "WaitingForServerResponse (post data)"@,
            State::WaitingForServerResponse(_, PostState::Reading(_, _, _)) =>
                "WaitingForServerResponse (post reading)"@,
            State::WaitingForServerResponse(_, PostState::Complete) =>
                "WaitingForServerResponse (post complete)"@,
            State::SendingResponse(_, _, _) => "SendingResponse"@,
        }
    }

    /// The most bytes that a read may bring in this state; zero where no
    /// read is wanted.
    pub open spec fn read_limit(self) -> nat {
        match self {
            State::ReadingRequest(filled) => (HEADER_CAPACITY - filled.len()) as nat,
            State::WaitingForServerResponse(_, PostState::Reading(bytes, length, _)) => if length
                - bytes.len() < BODY_CHUNK {
                (length - bytes.len()) as nat
            } else {
                BODY_CHUNK as nat
            },
            _ => 0,
        }
    }

    /// The bytes of the response that are not out yet.
    pub open spec fn unsent(self) -> Seq<u8> {
        match self {
            State::SendingResponse(_, bytes, sent) => bytes.skip(sent as int),
            _ => Seq::empty(),
        }
    }

    /// A response arrives. A waiting connection starts to send it; the
    /// connection is kept afterwards only if the request asked for that, the
    /// response does not force a close, and no declared body is left unread.
    /// Whoever waits for a body that is still being read is released and
    /// must be told that it did not come. In any other state the response
    /// is dropped with an error in the log.
    pub open spec fn respond(self, response: ResponseView) -> (State<P>, Option<P>, LogView) {
        match self {
            State::WaitingForServerResponse(keep_alive, post) => (
                State::SendingResponse(
                    keep_alive && !response.close_connection && !(post is Data),
                    response.message,
                    0,
                ),
                match post {
                    PostState::Reading(_, _, pending) => Some(pending),
                    _ => None,
                },
                LogView::Silent,
            ),
            _ => (self, None, LogView::Error("send_data_to_user: incorrect state"@)),
        }
    }

    /// The timeout fires. A connection that reads a head or writes a
    /// response ends. A waiting connection stays, with its body given up:
    /// the one who asked for the body, if any, is released and must be told
    /// that it did not come.
    pub open spec fn expire(self) -> (Option<State<P>>, Option<P>, LogView) {
        match self {
            State::ReadingRequest(_) => (
                None,
                None,
                LogView::Message("timeout trigger - reading request"@),
            ),
            State::WaitingForServerResponse(keep_alive, post) => (
                Some(State::WaitingForServerResponse(keep_alive, PostState::Complete)),
                match post {
                    PostState::Reading(_, _, pending) => Some(pending),
                    _ => None,
                },
                LogView::Message("timeout trigger - reading post data"@),
            ),
            State::SendingResponse(_, _, _) => (
                None,
                None,
                LogView::Message("timeout trigger - sending request"@),
            ),
        }
    }

    /// The body is asked for. Where a body is declared and nobody has asked
    /// yet, reading starts. Where the request has no body, there is nothing
    /// to hand over, now or later. In any other state the connection ends.
    pub open spec fn register(self, pending: P) -> (Option<State<P>>, LogView) {
        match self {
            State::WaitingForServerResponse(keep_alive, PostState::Absent) => (
                Some(State::WaitingForServerResponse(keep_alive, PostState::Complete)),
                LogView::Silent,
            ),
            State::WaitingForServerResponse(keep_alive, PostState::Data(bytes, length)) => (
                Some(
                    State::WaitingForServerResponse(
                        keep_alive,
                        PostState::Reading(bytes, length, pending),
                    ),
                ),
                LogView::Silent,
            ),
            _ => (None, LogView::Error("set_callback_post: incorrect state"@)),
        }
    }

    /// A body that is whole is handed over: the state that follows, and the
    /// body with the one who asked for it.
    pub open spec fn settle(self) -> (State<P>, Option<(P, Seq<u8>)>) {
        match self {
            State::WaitingForServerResponse(keep_alive, PostState::Reading(bytes, length, pending)) =>
                if bytes.len() == length {
                (
                    State::WaitingForServerResponse(keep_alive, PostState::Complete),
                    Some((pending, bytes)),
                )
            } else {
                (self, None)
            },
            _ => (self, None),
        }
    }

    /// The event loop reports the socket. An error or a hang-up ends the
    /// connection. Otherwise the state says what to attempt: a read while a
    /// head is read and the socket is readable, a read while a body is
    /// incomplete, a write while a response is sent and the socket is
    /// writable; and nothing else.
    pub open spec fn begin(self, events: Readiness) -> ProgressView<P> {
        if events.error {
            ProgressView::Finished(None, None, LogView::Error("ready error"@))
        } else if events.hup {
            ProgressView::Finished(None, None, LogView::Error("ready, event hup"@))
        } else {
            match self {
                State::ReadingRequest(_) => if events.readable {
                    ProgressView::Read(self, self.read_limit())
                } else {
                    ProgressView::Finished(Some(self), None, LogView::Silent)
                },
                State::WaitingForServerResponse(_, PostState::Reading(_, _, _)) =>
                    if self.read_limit() > 0 {
                    ProgressView::Read(self, self.read_limit())
                } else {
                    ProgressView::Finished(Some(self), None, LogView::Silent)
                },
                State::WaitingForServerResponse(_, _) => ProgressView::Finished(
                    Some(self),
                    None,
                    LogView::Silent,
                ),
                State::SendingResponse(_, _, _) => if events.writable {
                    ProgressView::Write(self)
                } else {
                    ProgressView::Finished(Some(self), None, LogView::Silent)
                },
            }
        }
    }

    /// What the parser's verdict on the bytes read so far makes of a
    /// connection that reads a head. A whole head that is taken in, and
    /// whose body is framed well, is handed out, and the connection waits. A
    /// head that is not whole yet is read on, unless the buffer is full.
    /// Everything else is refused.
    pub open spec fn head_parsed(filled: Seq<u8>, status: ParseStatusView) -> (
        State<P>,
        Option<PreRequestView>,
        LogView,
    ) {
        match status {
            ParseStatusView::Complete(consumed, raw) => match raw.admitted() {
                Ok(request) => {
                    let keep_alive = request.header_is("Connection"@, "keep-alive"@);
                    match framing(request, excess(filled, consumed)) {
                        Framing::NoBody => (
                            State::WaitingForServerResponse(keep_alive, PostState::Absent),
                            Some(request),
                            LogView::Silent,
                        ),
                        Framing::Body(bytes, length) => (
                            State::WaitingForServerResponse(
                                keep_alive,
                                PostState::Data(bytes, length as nat),
                            ),
                            Some(request),
                            LogView::Silent,
                        ),
                        Framing::Refused => (State::refusal(), None, LogView::Silent),
                    }
                },
                Err(error) => (
                    State::refusal(),
                    None,
                    LogView::Error("error prepare request, "@ + error.text()),
                ),
            },
            ParseStatusView::Partial => if filled.len() >= HEADER_CAPACITY {
                (State::refusal(), None, LogView::Silent)
            } else {
                (State::ReadingRequest(filled), None, LogView::Silent)
            },
            ParseStatusView::Malformed => (State::refusal(), None, LogView::Silent),
        }
    }

    /// A read was attempted while a head is read, with `filled` there
    /// before. Bytes that came are added and the whole is parsed anew; no
    /// bytes, or a socket not ready, change nothing; a failed read ends the
    /// connection.
    pub open spec fn head_read(filled: Seq<u8>, outcome: ReadOutcome) -> ProgressView<P> {
        match outcome {
            ReadOutcome::Data(data) => if data@.len() > 0 {
                let (next, request, log) = Self::head_parsed(
                    filled + data@,
                    head_outcome(filled + data@),
                );
                ProgressView::Finished(Some(next), request, log)
            } else {
                ProgressView::Finished(Some(State::ReadingRequest(filled)), None, LogView::Silent)
            },
            ReadOutcome::WouldBlock => ProgressView::Finished(
                Some(State::ReadingRequest(filled)),
                None,
                LogView::Silent,
            ),
            ReadOutcome::Failed(error) => ProgressView::Finished(
                None,
                None,
                LogView::Error("error read from socket, "@ + error@),
            ),
        }
    }

    /// A read was attempted. While a head is read, see `head_read`. While a
    /// body is read, bytes that came are added, and another read is wanted
    /// if the body is still short; no bytes, a socket not ready or a failed
    /// read leave the state as it is. In any other state the outcome is
    /// ignored.
    pub open spec fn after_read(self, outcome: ReadOutcome) -> ProgressView<P> {
        match self {
            State::ReadingRequest(filled) => Self::head_read(filled, outcome),
            State::WaitingForServerResponse(keep_alive, PostState::Reading(bytes, length, pending)) =>
                match outcome {
                ReadOutcome::Data(data) => {
                    let next = State::WaitingForServerResponse(
                        keep_alive,
                        PostState::Reading(bytes + data@, length, pending),
                    );
                    if data@.len() > 0 && next.read_limit() > 0 {
                        ProgressView::Read(next, next.read_limit())
                    } else {
                        ProgressView::Finished(Some(next), None, LogView::Silent)
                    }
                },
                ReadOutcome::WouldBlock => ProgressView::Finished(
                    Some(self),
                    None,
                    LogView::Silent,
                ),
                ReadOutcome::Failed(error) => ProgressView::Finished(
                    Some(self),
                    None,
                    LogView::Error("error read from socket, "@ + error@),
                ),
            },
            _ => ProgressView::Finished(Some(self), None, LogView::Silent),
        }
    }

    /// A write was attempted while a response is sent. Bytes that went out
    /// are counted. When all are out, the connection reads the next request
    /// with an empty buffer if it is to be kept and the server is not going
    /// down, and ends otherwise. No bytes, a socket not ready or a failed
    /// write leave the state as it is. In any other state the outcome is
    /// ignored.
    pub open spec fn after_write(self, outcome: WriteOutcome, server_down: bool) -> ProgressView<
        P,
    > {
        match self {
            State::SendingResponse(keep_alive, bytes, sent) => match outcome {
                WriteOutcome::Written(count) => if count == 0 {
                    ProgressView::Finished(Some(self), None, LogView::Silent)
                } else if sent + count < bytes.len() {
                    ProgressView::Finished(
                        Some(State::SendingResponse(keep_alive, bytes, sent + count as nat)),
                        None,
                        LogView::Silent,
                    )
                } else if keep_alive && !server_down {
                    ProgressView::Finished(
                        Some(State::fresh()),
                        None,
                        LogView::Message("keep alive"@),
                    )
                } else {
                    ProgressView::Finished(None, None, LogView::Silent)
                },
                WriteOutcome::WouldBlock => ProgressView::Finished(
                    Some(self),
                    None,
                    LogView::Silent,
                ),
                WriteOutcome::Failed(error) => ProgressView::Finished(
                    Some(self),
                    None,
                    LogView::Error("error write to socket, "@ + error@),
                ),
            },
            _ => ProgressView::Finished(Some(self), None, LogView::Silent),
        }
    }
}

enum ConnectionPost<P> {
    Absent,
    Data(Vec<u8>, usize),
    Reading(Vec<u8>, usize, P),
    Complete,
}

enum ConnectionMode<P> {
    ReadingRequest(Vec<u8>),
    WaitingForServerResponse(bool, ConnectionPost<P>),
    SendingResponse(bool, Vec<u8>, usize),
}

impl<P> ConnectionPost<P> {
    spec fn state(self) -> PostState<P> {
        match self {
            ConnectionPost::Absent => PostState::Absent,
            ConnectionPost::Data(bytes, length) => PostState::Data(bytes@, length as nat),
            ConnectionPost::Reading(bytes, length, pending) => PostState::Reading(
                bytes@,
                length as nat,
                pending,
            ),
            ConnectionPost::Complete => PostState::Complete,
        }
    }
}

impl<P> ConnectionMode<P> {
    spec fn state(self) -> State<P> {
        match self {
            ConnectionMode::ReadingRequest(filled) => State::ReadingRequest(filled@),
            ConnectionMode::WaitingForServerResponse(keep_alive, post) =>
                State::WaitingForServerResponse(keep_alive, post.state()),
            ConnectionMode::SendingResponse(keep_alive, bytes, sent) => State::SendingResponse(
                keep_alive,
                bytes@,
                sent as nat,
            ),
        }
    }

    #[verifier::type_invariant]
    spec fn well_formed(self) -> bool {
        self.state().valid()
    }
}

/// A connection: its socket, of a type `S` that is only carried along, and
/// what it is doing.
pub struct Connection<S, P> {
    pub stream: S,
    mode: ConnectionMode<P>,
}

impl<S, P> View for Connection<S, P> {
    type V = State<P>;

    closed spec fn view(&self) -> State<P> {
        self.mode.state()
    }
}

/// Whether the result of a transition is the connection in the state
/// `next` on the same socket, or, where there is no such state, the socket
/// alone.
pub open spec fn carries<S, P>(
    result: Result<Connection<S, P>, S>,
    socket: S,
    next: Option<State<P>>,
) -> bool {
    match (result, next) {
        (Ok(connection), Some(state)) => connection@ == state && connection.socket() == socket,
        (Err(stream), None) => stream == socket,
        _ => false,
    }
}

/// A transition as far as it went: over, or held up by a read or a write
/// that the caller must attempt and report.
pub enum Progress<S, P> {
    /// The transition is over: the connection, or its socket alone where
    /// the connection ends; the request to hand out, if one is whole; and a
    /// line for the log.
    Finished(Result<Connection<S, P>, S>, Option<PreRequest>, LogMessage),
    /// A read of at most the given number of bytes is to be attempted and
    /// reported with `read_done`.
    Read(Connection<S, P>, usize),
    /// A write of the unsent bytes is to be attempted and reported with
    /// `write_done`.
    Write(Connection<S, P>),
}

impl<S, P> Progress<S, P> {
    /// Whether this is the progress `view`, made on the socket `socket`.
    pub open spec fn shows(self, socket: S, view: ProgressView<P>) -> bool {
        match (self, view) {
            (
                Progress::Finished(result, request, log),
                ProgressView::Finished(next, found, line),
            ) => {
                &&& carries(result, socket, next)
                &&& match (request, found) {
                    (Some(request), Some(found)) => request@ == found,
                    (None, None) => true,
                    _ => false,
                }
                &&& log@ == line
            },
            (Progress::Read(connection, limit), ProgressView::Read(state, most)) => {
                &&& connection@ == state
                &&& connection.socket() == socket
                &&& limit == most
            },
            (Progress::Write(connection), ProgressView::Write(state)) => {
                &&& connection@ == state
                &&& connection.socket() == socket
            },
            _ => false,
        }
    }
}

impl<S, P> Connection<S, P> {
    /// The socket of the connection.
    pub closed spec fn socket(self) -> S {
        self.stream
    }

    /// A connection that has just been accepted: it reads the head of a
    /// request and has no bytes yet.
    pub fn new(stream: S) -> (connection: Connection<S, P>)
        ensures
            connection@ == State::<P>::fresh(),
            connection.socket() == stream,
    {
        Connection { stream, mode: ConnectionMode::ReadingRequest(Vec::new()) }
    }

    /// The socket, for the reads and writes that the connection asks for.
    pub fn stream_mut(&mut self) -> (stream: &mut S)
        ensures
            final(self)@ == old(self)@,
            *stream == old(self).socket(),
            final(self).socket() == *final(stream),
    {
        &mut self.stream
    }

    /// The socket together with the bytes that are to be written to it.
    pub fn write_parts(&mut self) -> (parts: (&mut S, &[u8]))
        ensures
            final(self)@ == old(self)@,
            *parts.0 == old(self).socket(),
            final(self).socket() == *final(parts.0),
            parts.1@ == old(self)@.unsent(),
    {
        proof {
            use_type_invariant(&self.mode);
        }
        let bytes = match &self.mode {
            ConnectionMode::SendingResponse(_, bytes, sent) => vstd::slice::slice_subrange(
                bytes.as_slice(),
                *sent,
                bytes.len(),
            ),
            _ => no_bytes(),
        };
        (&mut self.stream, bytes)
    }

    fn make(stream: S, mode: ConnectionMode<P>) -> (connection: Connection<S, P>)
        ensures
            connection@ == mode.state(),
            connection.socket() == stream,
    {
        Connection { stream, mode }
    }

    /// The response to the request that was handed out arrives. The second
    /// part of the result is the one who asked for a body that has not come.
    pub fn send_data_to_user(self, response: Response) -> (sent: (
        Connection<S, P>,
        Option<P>,
        LogMessage,
    ))
        ensures
            sent.0@ == self@.respond(response@).0,
            sent.0.socket() == self.socket(),
            sent.1 == self@.respond(response@).1,
            sent.2@ == self@.respond(response@).2,
    {
        match self.mode {
            ConnectionMode::WaitingForServerResponse(keep_alive, connection_post) => {
                let (connection_post_close, released) = match connection_post {
                    ConnectionPost::Data(_, _) => (true, None),
                    ConnectionPost::Reading(_, _, pending) => (false, Some(pending)),
                    _ => (false, None),
                };
                let new_keep_alive = if response.close_connection() || connection_post_close {
                    false
                } else {
                    keep_alive
                };
                let mode = ConnectionMode::SendingResponse(new_keep_alive, response.as_bytes(), 0);
                (Connection::make(self.stream, mode), released, LogMessage::Silent)
            },
            _ => (
                self,
                None,
                LogMessage::Error("send_data_to_user: incorrect state".to_owned()),
            ),
        }
    }

    /// The timeout of the connection fires. The second part of the result
    /// is the one who asked for a body that has not come.
    pub fn timeout_trigger(self) -> (fired: (Result<Connection<S, P>, S>, Option<P>, LogMessage))
        ensures
            carries(fired.0, self.socket(), self@.expire().0),
            fired.1 == self@.expire().1,
            fired.2@ == self@.expire().2,
    {
        match self.mode {
            ConnectionMode::ReadingRequest(_) => (
                Err(self.stream),
                None,
                LogMessage::Message("timeout trigger - reading request".to_owned()),
            ),
            ConnectionMode::WaitingForServerResponse(keep_alive, connection_post) => {
                let released = match connection_post {
                    ConnectionPost::Reading(_, _, pending) => Some(pending),
                    _ => None,
                };
                let new_mode = ConnectionMode::WaitingForServerResponse(
                    keep_alive,
                    ConnectionPost::Complete,
                );
                (
                    Ok(Connection::make(self.stream, new_mode)),
                    released,
                    LogMessage::Message("timeout trigger - reading post data".to_owned()),
                )
            },
            ConnectionMode::SendingResponse(_, _, _) => (
                Err(self.stream),
                None,
                LogMessage::Message("timeout trigger - sending request".to_owned()),
            ),
        }
    }

    /// The readiness that the socket must be registered for.
    pub fn get_event(&self) -> (event: Event)
        ensures
            event == self@.event(),
    {
        match &self.mode {
            ConnectionMode::ReadingRequest(_) => Event::Read,
            ConnectionMode::WaitingForServerResponse(_, connection_post) => match connection_post {
                ConnectionPost::Reading(_, _, _) => Event::Read,
                _ => Event::Quiet,
            },
            ConnectionMode::SendingResponse(_, _, _) => Event::Write,
        }
    }

    /// The timeout that must run for the connection.
    pub fn get_timer_mode(&self) -> (mode: TimerMode)
        ensures
            mode == self@.timer_mode(),
    {
        match &self.mode {
            ConnectionMode::ReadingRequest(_) => TimerMode::In,
            ConnectionMode::WaitingForServerResponse(_, connection_post) => match connection_post {
                ConnectionPost::Absent => TimerMode::Off,
                ConnectionPost::Data(_, _) => TimerMode::Post,
                ConnectionPost::Reading(_, _, _) => TimerMode::Post,
                ConnectionPost::Complete => TimerMode::Off,
            },
            ConnectionMode::SendingResponse(_, _, _) => TimerMode::Out,
        }
    }

    /// The name of the state, for the log.
    pub fn get_name(&self) -> (name: &'static str)
        ensures
            name@ == self@.name(),
    {
        match &self.mode {
            ConnectionMode::ReadingRequest(_) => "ReadingRequest",
            ConnectionMode::WaitingForServerResponse(_, connection_post) => match connection_post {
                ConnectionPost::Absent => "WaitingForServerResponse (post none)",
                ConnectionPost::Data(_, _) => "WaitingForServerResponse (post data)",
                ConnectionPost::Reading(_, _, _) => "WaitingForServerResponse (post reading)",
                ConnectionPost::Complete => "WaitingForServerResponse (post complete)",
            },
            ConnectionMode::SendingResponse(_, _, _) => "SendingResponse",
        }
    }

    /// The body of the request is asked for; `pending` is handed back with
    /// the body once it is whole or given up.
    pub fn set_callback_post(self, pending: P) -> (set: (Result<Connection<S, P>, S>, LogMessage))
        ensures
            carries(set.0, self.socket(), self@.register(pending).0),
            set.1@ == self@.register(pending).1,
    {
        proof {
            use_type_invariant(&self.mode);
        }
        match self.mode {
            ConnectionMode::WaitingForServerResponse(keep_alive, ConnectionPost::Absent) => (
                Ok(
                    Connection::make(
                        self.stream,
                        ConnectionMode::WaitingForServerResponse(
                            keep_alive,
                            ConnectionPost::Complete,
                        ),
                    ),
                ),
                LogMessage::Silent,
            ),
            ConnectionMode::WaitingForServerResponse(
                keep_alive,
                ConnectionPost::Data(vector, len),
            ) => (
                Ok(
                    Connection::make(
                        self.stream,
                        ConnectionMode::WaitingForServerResponse(
                            keep_alive,
                            ConnectionPost::Reading(vector, len, pending),
                        ),
                    ),
                ),
                LogMessage::Silent,
            ),
            _ => (Err(self.stream), LogMessage::Error("set_callback_post: incorrect state".to_owned())),
        }
    }

    /// Hands over a body that is whole, with the one who asked for it.
    pub fn check_post(self) -> (checked: (Connection<S, P>, Option<(P, Vec<u8>)>))
        ensures
            checked.0@ == self@.settle().0,
            checked.0.socket() == self.socket(),
            match (checked.1, self@.settle().1) {
                (Some(handed), Some(due)) => handed.0 == due.0 && handed.1@ == due.1,
                (None, None) => true,
                _ => false,
            },
    {
        proof {
            use_type_invariant(&self.mode);
        }
        match self.mode {
            ConnectionMode::WaitingForServerResponse(
                keep_alive,
                ConnectionPost::Reading(vec, len, pending),
            ) => {
                if vec.len() == len {
                    let mode = ConnectionMode::WaitingForServerResponse(
                        keep_alive,
                        ConnectionPost::Complete,
                    );
                    (Connection::make(self.stream, mode), Some((pending, vec)))
                } else {
                    let mode = ConnectionMode::WaitingForServerResponse(
                        keep_alive,
                        ConnectionPost::Reading(vec, len, pending),
                    );
                    (Connection::make(self.stream, mode), None)
                }
            },
            mode => (Connection::make(self.stream, mode), None),
        }
    }

    /// The most bytes that a read may bring now; zero where no read is
    /// wanted.
    pub fn read_limit(&self) -> (limit: usize)
        ensures
            limit == self@.read_limit(),
    {
        proof {
            use_type_invariant(&self.mode);
        }
        match &self.mode {
            ConnectionMode::ReadingRequest(filled) => HEADER_CAPACITY - filled.len(),
            ConnectionMode::WaitingForServerResponse(_, ConnectionPost::Reading(bytes, length, _)) => {
                let missing = *length - bytes.len();
                if missing < BODY_CHUNK {
                    missing
                } else {
                    BODY_CHUNK
                }
            },
            _ => 0,
        }
    }

    /// The bytes of the response that are not out yet.
    pub fn unsent(&self) -> (bytes: &[u8])
        ensures
            bytes@ == self@.unsent(),
    {
        proof {
            use_type_invariant(&self.mode);
        }
        match &self.mode {
            ConnectionMode::SendingResponse(_, bytes, sent) => vstd::slice::slice_subrange(
                bytes.as_slice(),
                *sent,
                bytes.len(),
            ),
            _ => no_bytes(),
        }
    }

    /// The event loop reports the socket of the connection.
    pub fn ready(self, events: Readiness) -> (progress: Progress<S, P>)
        ensures
            progress.shows(self.socket(), self@.begin(events)),
    {
        if events.error {
            return Progress::Finished(
                Err(self.stream),
                None,
                LogMessage::Error("ready error".to_owned()),
            );
        }
        if events.hup {
            return Progress::Finished(
                Err(self.stream),
                None,
                LogMessage::Error("ready, event hup".to_owned()),
            );
        }
        let limit = self.read_limit();
        let read = match &self.mode {
            ConnectionMode::ReadingRequest(_) => events.readable,
            ConnectionMode::WaitingForServerResponse(_, ConnectionPost::Reading(_, _, _)) => limit
                > 0,
            _ => false,
        };
        let write = match &self.mode {
            ConnectionMode::SendingResponse(_, _, _) => events.writable,
            _ => false,
        };
        if read {
            Progress::Read(self, limit)
        } else if write {
            Progress::Write(self)
        } else {
            Progress::Finished(Ok(self), None, LogMessage::Silent)
        }
    }

    /// A read that `ready` or `read_done` asked for has been attempted.
    pub fn read_done(self, outcome: ReadOutcome) -> (progress: Progress<S, P>)
        requires
            outcome matches ReadOutcome::Data(data) ==> data@.len() <= self@.read_limit(),
        ensures
            progress.shows(self.socket(), self@.after_read(outcome)),
    {
        proof {
            use_type_invariant(&self.mode);
        }
        match self.mode {
            ConnectionMode::ReadingRequest(filled) => {
                let (result, request, log) = transform_from_waiting_for_user(
                    self.stream,
                    filled,
                    outcome,
                );
                Progress::Finished(result, request, log)
            },
            ConnectionMode::WaitingForServerResponse(
                keep_alive,
                ConnectionPost::Reading(mut vec, len, pending),
            ) => {
                match outcome {
                    ReadOutcome::Data(data) => {
                        let came = data.len();
                        append_bytes(&mut vec, data.as_slice());
                        let connection = Connection::make(
                            self.stream,
                            ConnectionMode::WaitingForServerResponse(
                                keep_alive,
                                ConnectionPost::Reading(vec, len, pending),
                            ),
                        );
                        let limit = connection.read_limit();
                        if came > 0 && limit > 0 {
                            Progress::Read(connection, limit)
                        } else {
                            Progress::Finished(Ok(connection), None, LogMessage::Silent)
                        }
                    },
                    ReadOutcome::WouldBlock => {
                        let connection = Connection::make(
                            self.stream,
                            ConnectionMode::WaitingForServerResponse(
                                keep_alive,
                                ConnectionPost::Reading(vec, len, pending),
                            ),
                        );
                        Progress::Finished(Ok(connection), None, LogMessage::Silent)
                    },
                    ReadOutcome::Failed(error) => {
                        let connection = Connection::make(
                            self.stream,
                            ConnectionMode::WaitingForServerResponse(
                                keep_alive,
                                ConnectionPost::Reading(vec, len, pending),
                            ),
                        );
                        let message = "error read from socket, ".to_owned().concat(error.as_str());
                        Progress::Finished(Ok(connection), None, LogMessage::Error(message))
                    },
                }
            },
            mode => Progress::Finished(
                Ok(Connection::make(self.stream, mode)),
                None,
                LogMessage::Silent,
            ),
        }
    }

    /// A write that `ready` asked for has been attempted.
    pub fn write_done(self, outcome: WriteOutcome, server_down: bool) -> (progress: Progress<S, P>)
        requires
            outcome matches WriteOutcome::Written(count) ==> count <= self@.unsent().len(),
        ensures
            progress.shows(self.socket(), self@.after_write(outcome, server_down)),
    {
        proof {
            use_type_invariant(&self.mode);
        }
        match self.mode {
            ConnectionMode::SendingResponse(keep_alive, bytes, sent) => {
                let (result, log) = transform_from_sending_to_user(
                    self.stream,
                    keep_alive,
                    bytes,
                    sent,
                    outcome,
                    server_down,
                );
                Progress::Finished(result, None, log)
            },
            mode => Progress::Finished(
                Ok(Connection::make(self.stream, mode)),
                None,
                LogMessage::Silent,
            ),
        }
    }
}

/// A slice of no bytes.
fn no_bytes() -> (bytes: &'static [u8])
    ensures
        bytes@ == Seq::<u8>::empty(),
{
    let all: &'static [u8] = &[];
    vstd::slice::slice_subrange(all, 0, 0)
}

/// The connection that refuses a request: it answers `400 Bad Request` and
/// is closed afterwards.
fn refuse<S, P>(stream: S, log: LogMessage) -> (refused: (
    Result<Connection<S, P>, S>,
    Option<PreRequest>,
    LogMessage,
))
    ensures
        carries(refused.0, stream, Some(State::<P>::refusal())),
        refused.1 is None,
        refused.2 == log,
{
    let response_400 = Response::create_400();
    let new_connection = ConnectionMode::SendingResponse(false, response_400.as_bytes(), 0);
    (Ok(Connection::make(stream, new_connection)), None, log)
}

/// What the parser's verdict on `filled`, the bytes read so far, makes of a
/// connection that reads the head of a request.
pub fn transform_from_parsed<S, P>(stream: S, filled: Vec<u8>, status: ParseStatus) -> (out: (
    Result<Connection<S, P>, S>,
    Option<PreRequest>,
    LogMessage,
))
    ensures
        Progress::Finished(out.0, out.1, out.2).shows(
            stream,
            ProgressView::Finished(
                Some(State::<P>::head_parsed(filled@, status@).0),
                State::<P>::head_parsed(filled@, status@).1,
                State::<P>::head_parsed(filled@, status@).2,
            ),
        ),
{
    match status {
        ParseStatus::Complete(size_parse, raw) => {
            match PreRequest::new(raw) {
                Ok(pre_request) => {
                    let keep_alive = pre_request.is_header_set("Connection", "keep-alive");
                    let connection_post = if pre_request.is_post() {
                        let post_data = tail_bytes(filled.as_slice(), size_parse);
                        match pre_request.get_header("Content-Length".to_owned()) {
                            Some(req_len) => {
                                if req_len >= post_data.len() {
                                    ConnectionPost::Data(post_data, req_len)
                                } else {
                                    return refuse(stream, LogMessage::Silent);
                                }
                            },
                            None => {
                                return refuse(stream, LogMessage::Silent);
                            },
                        }
                    } else {
                        ConnectionPost::Absent
                    };
                    let mode = ConnectionMode::WaitingForServerResponse(keep_alive, connection_post);
                    (Ok(Connection::make(stream, mode)), Some(pre_request), LogMessage::Silent)
                },
                Err(err) => {
                    let log_mess = "error prepare request, ".to_owned().concat(
                        err.describe().as_str(),
                    );
                    refuse(stream, LogMessage::Error(log_mess))
                },
            }
        },
        ParseStatus::Partial => {
            if filled.len() >= HEADER_CAPACITY {
                refuse(stream, LogMessage::Silent)
            } else {
                let mode = ConnectionMode::ReadingRequest(filled);
                (Ok(Connection::make(stream, mode)), None, LogMessage::Silent)
            }
        },
        ParseStatus::Malformed => refuse(stream, LogMessage::Silent),
    }
}

/// A read was attempted for a connection that reads the head of a request
/// and has the bytes `buf` so far.
pub fn transform_from_waiting_for_user<S, P>(stream: S, buf: Vec<u8>, outcome: ReadOutcome) -> (out: (
    Result<Connection<S, P>, S>,
    Option<PreRequest>,
    LogMessage,
))
    requires
        buf@.len() < HEADER_CAPACITY,
        outcome matches ReadOutcome::Data(data) ==> buf@.len() + data@.len() <= HEADER_CAPACITY,
    ensures
        Progress::Finished(out.0, out.1, out.2).shows(stream, State::<P>::head_read(buf@, outcome)),
{
    match outcome {
        ReadOutcome::Data(data) => {
            if data.len() > 0 {
                let mut filled = buf;
                append_bytes(&mut filled, data.as_slice());
                let status = parse_head(filled.as_slice());
                transform_from_parsed(stream, filled, status)
            } else {
                let mode = ConnectionMode::ReadingRequest(buf);
                (Ok(Connection::make(stream, mode)), None, LogMessage::Silent)
            }
        },
        ReadOutcome::WouldBlock => {
            let mode = ConnectionMode::ReadingRequest(buf);
            (Ok(Connection::make(stream, mode)), None, LogMessage::Silent)
        },
        ReadOutcome::Failed(error) => {
            let message = "error read from socket, ".to_owned().concat(error.as_str());
            (Err(stream), None, LogMessage::Error(message))
        },
    }
}

/// A write was attempted for a connection that sends the response `bytes`,
/// of which `sent` bytes were out before.
pub fn transform_from_sending_to_user<S, P>(
    stream: S,
    keep_alive: bool,
    bytes: Vec<u8>,
    sent: usize,
    outcome: WriteOutcome,
    server_down: bool,
) -> (out: (Result<Connection<S, P>, S>, LogMessage))
    requires
        sent <= bytes@.len(),
        outcome matches WriteOutcome::Written(count) ==> sent + count <= bytes@.len(),
    ensures
        Progress::Finished(out.0, None, out.1).shows(
            stream,
            State::<P>::SendingResponse(keep_alive, bytes@, sent as nat).after_write(
                outcome,
                server_down,
            ),
        ),
{
    match outcome {
        WriteOutcome::Written(size) => {
            if size > 0 {
                let total = bytes.len();
                let done = sent + size;
                if done == total {
                    if server_down == false && keep_alive == true {
                        let mess = "keep alive".to_owned();
                        let mode = ConnectionMode::ReadingRequest(Vec::new());
                        (Ok(Connection::make(stream, mode)), LogMessage::Message(mess))
                    } else {
                        (Err(stream), LogMessage::Silent)
                    }
                } else {
                    let mode = ConnectionMode::SendingResponse(keep_alive, bytes, done);
                    (Ok(Connection::make(stream, mode)), LogMessage::Silent)
                }
            } else {
                let mode = ConnectionMode::SendingResponse(keep_alive, bytes, sent);
                (Ok(Connection::make(stream, mode)), LogMessage::Silent)
            }
        },
        WriteOutcome::WouldBlock => {
            let mode = ConnectionMode::SendingResponse(keep_alive, bytes, sent);
            (Ok(Connection::make(stream, mode)), LogMessage::Silent)
        },
        WriteOutcome::Failed(error) => {
            let message = "error write to socket, ".to_owned().concat(error.as_str());
            let mode = ConnectionMode::SendingResponse(keep_alive, bytes, sent);
            (Ok(Connection::make(stream, mode)), LogMessage::Error(message))
        },
    }
}

} // verus!
