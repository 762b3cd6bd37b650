//! The bookkeeping of the reactor: the table of open connections, the
//! listener, and what each event makes of them. The event loop itself stays
//! with the caller, who hands in the events and carries out the registrations
//! and timer calls that are decided here.

use vstd::prelude::*;
use vstd::string::StringExecFns;
use std::collections::HashMap;
use crate::connection::Connection;
use crate::connection::LogMessage;
use crate::connection::LogView;
use crate::connection::Progress;
use crate::connection::ProgressView;
use crate::connection::ReadOutcome;
use crate::connection::Readiness;
use crate::connection::State;
use crate::connection::TimerMode;
use crate::connection::WriteOutcome;
use crate::request::PreRequest;
use crate::request::PreRequestView;
use crate::response::Response;
use crate::text::decimal;
use crate::text::push_decimal;
use crate::token_gen::ConnectionId;
use crate::token_gen::TokenGen;

verus! {

/// The readiness a socket is registered for with the event loop.
#[derive(Clone, Copy, Debug, PartialEq, Eq, Structural)]
pub enum Event {
    /// Not registered yet.
    Init,
    Write,
    Read,
    /// Registered for errors and hang-ups only.
    Quiet,
}

/// What reaches the reactor from other threads. `P` is what is kept for the
/// one who asks for the body of a POST.
pub enum MioMessage<P> {
    /// The response to the request of the given connection.
    Response(ConnectionId, Response),
    /// The server is to go down.
    Down,
    /// The body of the request of the given connection is asked for.
    GetPost(ConnectionId, P),
}

/// What to tell the event loop about the interest in a socket.
pub enum RegisterAction {
    /// Nothing: the registration stands.
    Nothing,
    /// Register the socket for the first time, for these reports.
    Register(Readiness),
    /// Change the registration to these reports.
    Reregister(Readiness),
}

/// What to do about the timer of a connection. `T` is the handle of a
/// running timer.
pub enum TimerAction<T> {
    /// The timer runs on: its deadline is not moved.
    Keep(T),
    /// The timer is to be cancelled.
    Clear(T),
    /// A timer of the given number of milliseconds is to be started.
    Arm(u64),
    /// No timer runs and none is needed.
    Idle,
}

/// The reports that a socket is registered for: errors and hang-ups
/// always, and what the connection waits for. A socket that is not
/// registered has none.
pub open spec fn interest(event: Event) -> Option<Readiness> {
    match event {
        Event::Init => None,
        Event::Write => Some(Readiness { readable: false, writable: true, error: true, hup: true }),
        Event::Read => Some(Readiness { readable: true, writable: false, error: true, hup: true }),
        Event::Quiet => Some(
            Readiness { readable: false, writable: false, error: true, hup: true },
        ),
    }
}

/// How a socket comes to be registered for `new_event`: for the first time
/// if it was not registered, by a change otherwise.
pub open spec fn registration(old_event: Event, new_event: Event) -> RegisterAction {
    match interest(new_event) {
        None => RegisterAction::Nothing,
        Some(mode) => if old_event == Event::Init {
            RegisterAction::Register(mode)
        } else {
            RegisterAction::Reregister(mode)
        },
    }
}

/// The registration of a connection that is put back into the table. A
/// registration lasts for one report: where the connection comes back from
/// a report of the event loop (`fired`), its socket is registered anew
/// whatever it waits for. Otherwise nothing is done where the socket is
/// registered for the right reports already.
pub open spec fn registration_change(
    old_event: Event,
    new_event: Event,
    fired: bool,
) -> RegisterAction {
    if old_event == new_event && !fired {
        RegisterAction::Nothing
    } else {
        registration(old_event, new_event)
    }
}

/// What becomes of the timer of a connection whose state asks for the
/// timeout `mode`. A timer that runs is kept as it is or cancelled; where
/// none runs and one is needed, it is started with the time that the mode
/// is given: the read timeout for a head and for a body, the write timeout
/// for a response.
pub open spec fn timer_action<T>(
    timeout_reading: u64,
    timeout_writing: u64,
    timeout: Option<T>,
    mode: TimerMode,
) -> TimerAction<T> {
    match timeout {
        Some(timer) => match mode {
            TimerMode::Off => TimerAction::Clear(timer),
            _ => TimerAction::Keep(timer),
        },
        None => match mode {
            TimerMode::In => TimerAction::Arm(timeout_reading),
            TimerMode::Out => TimerAction::Arm(timeout_writing),
            TimerMode::Post => TimerAction::Arm(timeout_reading),
            TimerMode::Off => TimerAction::Idle,
        },
    }
}

/// A connection that is to go into the table, and what has to be done with
/// the event loop before it does.
pub struct Placement<S, T, P> {
    pub token: ConnectionId,
    pub connection: Connection<S, P>,
    pub register: RegisterAction,
    pub timer: TimerAction<T>,
}

/// What is to be done with a connection after an event.
pub enum Next<S, T, P> {
    /// The table has no connection with this id.
    Missing,
    /// The connection has ended. Its timer, if it has one, is to be
    /// cancelled, and its socket deregistered and closed.
    Close(S, Option<T>),
    /// The connection goes on.
    Place(Placement<S, T, P>),
}

/// All that an event has led to.
pub struct Outcome<S, T, P> {
    /// A line for the log.
    pub log: LogMessage,
    /// What becomes of the connection.
    pub next: Next<S, T, P>,
    /// The one who asked for a body, with the body, or with none where it
    /// did not come in time.
    pub released: Option<(P, Option<Vec<u8>>)>,
    /// A request that is to be handed to the application.
    pub request: Option<PreRequest>,
}

/// What became of a connection that was handed to the table.
pub enum Inserted<S, T, P> {
    /// The connection is in the table, with the timer it was handed in with.
    Done,
    /// The connection is in the table without a timer, because its state
    /// asks for none; the timer it was handed in with is to be cancelled.
    Surplus(T),
    /// The connection is not in the table, because its id was never handed
    /// out; it comes back with its timer.
    Refused(Connection<S, P>, Option<T>),
}

/// What a read or a write is to be attempted for.
#[derive(Clone, Copy, Debug)]
pub enum Want {
    /// A read of at most this many bytes.
    Read(usize),
    /// A write of the unsent bytes.
    Write,
}

/// A connection that is out of the table while the caller attempts a read
/// or a write on its socket.
pub struct InFlight<S, T, P> {
    token: ConnectionId,
    connection: Connection<S, P>,
    old_event: Event,
    timeout: Option<T>,
    want: Want,
}

/// What the reactor makes of a report of the event loop.
pub enum ReadyStep<S, T, P> {
    /// The listener is ready: connections are to be accepted.
    Listener,
    /// The event has been dealt with.
    Settled(Outcome<S, T, P>),
    /// A read or a write is to be attempted and reported.
    Io(InFlight<S, T, P>),
}

/// What the reactor makes of a message.
pub enum Notified<L, S, T, P> {
    /// The message was for a connection.
    Settled(Outcome<S, T, P>),
    /// The server goes down: the listener is to be deregistered and closed.
    Down(L),
}

/// The entry of a connection in the table: the connection, the readiness
/// its socket is registered for, and its timer.
pub type Record<S, T, P> = (Connection<S, P>, Event, Option<T>);

impl<S, T, P> InFlight<S, T, P> {
    /// The id of the connection.
    pub closed spec fn token(self) -> ConnectionId {
        self.token
    }

    /// The connection.
    pub closed spec fn connection(self) -> Connection<S, P> {
        self.connection
    }

    /// The readiness that the socket was registered for when the connection
    /// was taken out of the table.
    pub closed spec fn old_event(self) -> Event {
        self.old_event
    }

    /// The timer that ran for the connection when it was taken out of the
    /// table.
    pub closed spec fn timeout(self) -> Option<T> {
        self.timeout
    }

    /// What is to be attempted.
    pub closed spec fn want(self) -> Want {
        self.want
    }

    /// The socket on which the read or the write is to be attempted.
    pub fn stream_mut(&mut self) -> (stream: &mut S)
        ensures
            final(self).token() == old(self).token(),
            final(self).old_event() == old(self).old_event(),
            final(self).timeout() == old(self).timeout(),
            final(self).want() == old(self).want(),
            final(self).connection()@ == old(self).connection()@,
            *stream == old(self).connection().socket(),
            final(self).connection().socket() == *final(stream),
    {
        self.connection.stream_mut()
    }

    /// The socket together with the bytes that a write is to be attempted
    /// with.
    pub fn write_parts(&mut self) -> (parts: (&mut S, &[u8]))
        ensures
            final(self).token() == old(self).token(),
            final(self).old_event() == old(self).old_event(),
            final(self).timeout() == old(self).timeout(),
            final(self).want() == old(self).want(),
            final(self).connection()@ == old(self).connection()@,
            *parts.0 == old(self).connection().socket(),
            final(self).connection().socket() == *final(parts.0),
            parts.1@ == old(self).connection()@.unsent(),
    {
        self.connection.write_parts()
    }

    /// What is to be attempted.
    pub fn wanted(&self) -> (want: Want)
        ensures
            want == self.want(),
    {
        self.want
    }

    /// The id of the connection.
    pub fn id(&self) -> (token: ConnectionId)
        ensures
            token == self.token(),
    {
        self.token
    }
}

/// Whether `outcome` is what the transition with the result `next`, the
/// request `found` and the log line `line` leads to, for the connection
/// `token` on `socket` that was registered for `old_event` and had the timer
/// `timeout`; `fired` says whether the transition was set off by a report of
/// the event loop. A connection that goes on first hands over a body that
/// is whole; then its registration and its timer are planned.
pub open spec fn outcome_shows<S, T, P>(
    outcome: Outcome<S, T, P>,
    timeout_reading: u64,
    timeout_writing: u64,
    token: ConnectionId,
    socket: S,
    old_event: Event,
    fired: bool,
    timeout: Option<T>,
    next: Option<State<P>>,
    found: Option<PreRequestView>,
    line: LogView,
) -> bool {
    &&& outcome.log@ == line
    &&& match (outcome.request, found) {
        (Some(request), Some(found)) => request@ == found,
        (None, None) => true,
        _ => false,
    }
    &&& match next {
        None => {
            &&& outcome.next matches Next::Close(stream, timer)
            &&& stream == socket
            &&& timer == timeout
            &&& outcome.released is None
        },
        Some(state) => {
            let (settled, handed) = state.settle();
            &&& outcome.next matches Next::Place(placement)
            &&& placement.token == token
            &&& placement.connection@ == settled
            &&& placement.connection.socket() == socket
            &&& placement.register == registration_change(old_event, settled.event(), fired)
            &&& placement.timer == timer_action(
                timeout_reading,
                timeout_writing,
                timeout,
                settled.timer_mode(),
            )
            &&& match (outcome.released, handed) {
                (Some((pending, Some(body))), Some(due)) => pending == due.0 && body@ == due.1,
                (None, None) => true,
                _ => false,
            }
        },
    }
}

/// Whether `outcome` is the one for an id that the table does not have:
/// nothing is to be done but to log it.
pub open spec fn outcome_missing<S, T, P>(outcome: Outcome<S, T, P>) -> bool {
    &&& outcome.log@ == LogView::Error("no socket by token"@)
    &&& outcome.next is Missing
    &&& outcome.released is None
    &&& outcome.request is None
}

/// The state of the reactor. `L` is the listener, `S` a socket, `T` the
/// handle of a timer.
pub struct MyHandler<L, S, T, P> {
    token: ConnectionId,
    server: Option<L>,
    hash: HashMap<ConnectionId, Record<S, T, P>>,
    tokens: TokenGen,
    timeout_reading: u64,
    timeout_writing: u64,
}

impl<L, S, T, P> MyHandler<L, S, T, P> {
    /// The table of open connections.
    pub closed spec fn records(self) -> Map<ConnectionId, Record<S, T, P>> {
        self.hash@
    }

    /// The id under which the listener is registered.
    pub closed spec fn listener_token(self) -> ConnectionId {
        self.token
    }

    /// The listener, while the server accepts connections.
    pub closed spec fn listener(self) -> Option<L> {
        self.server
    }

    /// How many ids have been handed out.
    pub closed spec fn issued(self) -> nat {
        self.tokens.issued()
    }

    /// The time, in milliseconds, that a client is given to send.
    pub closed spec fn reading_ms(self) -> u64 {
        self.timeout_reading
    }

    /// The time, in milliseconds, that a client is given to take a response.
    pub closed spec fn writing_ms(self) -> u64 {
        self.timeout_writing
    }

    /// Whether a record is as the state of its connection asks: the
    /// readiness is the one that the state waits for, and there is no timer
    /// where the state needs none.
    pub open spec fn record_valid(record: Record<S, T, P>) -> bool {
        &&& record.1 == record.0@.event()
        &&& record.0@.timer_mode() == TimerMode::Off ==> record.2 is None
    }

    /// What the table keeps at all times: only ids that have been handed
    /// out are in it, the listener's is not, and every record is as the
    /// state of its connection asks.
    pub open spec fn table_valid(self) -> bool {
        &&& self.records().dom().finite()
        &&& self.listener_token() < self.issued()
        &&& !self.records().contains_key(self.listener_token())
        &&& forall|id: ConnectionId| #[trigger]
            self.records().contains_key(id) ==> id < self.issued() && Self::record_valid(
                self.records()[id],
            )
    }

    #[verifier::type_invariant]
    spec fn well_formed(self) -> bool {
        self.table_valid()
    }

    /// Whether the reactor has nothing left to do: the server is going
    /// down and no connection is open.
    pub open spec fn finished(self) -> bool {
        self.listener() is None && self.records().len() == 0
    }

    /// Whether `step` is what the progress `view` of the connection `token`
    /// leads to: an outcome where the transition is over, and the
    /// connection handed out where a read or a write is to be attempted.
    pub open spec fn step_shows(
        self,
        step: ReadyStep<S, T, P>,
        token: ConnectionId,
        socket: S,
        old_event: Event,
        timeout: Option<T>,
        view: ProgressView<P>,
    ) -> bool {
        match view {
            ProgressView::Finished(next, found, line) => {
                &&& step matches ReadyStep::Settled(outcome)
                &&& outcome_shows(
                    outcome,
                    self.reading_ms(),
                    self.writing_ms(),
                    token,
                    socket,
                    old_event,
                    true,
                    timeout,
                    next,
                    found,
                    line,
                )
            },
            ProgressView::Read(state, most) => {
                &&& step matches ReadyStep::Io(flight)
                &&& flight.token() == token
                &&& flight.connection()@ == state
                &&& flight.connection().socket() == socket
                &&& flight.old_event() == old_event
                &&& flight.timeout() == timeout
                &&& flight.want() == Want::Read(most as usize)
            },
            ProgressView::Write(state) => {
                &&& step matches ReadyStep::Io(flight)
                &&& flight.token() == token
                &&& flight.connection()@ == state
                &&& flight.connection().socket() == socket
                &&& flight.old_event() == old_event
                &&& flight.timeout() == timeout
                &&& flight.want() == Want::Write
            },
        }
    }

    /// A reactor for the listener `server`, with no connection yet. The
    /// listener gets the first id.
    pub fn new(server: L, timeout_reading: u64, timeout_writing: u64) -> (handler: Self)
        ensures
            handler.table_valid(),
            handler.listener() == Some(server),
            handler.listener_token() == 0,
            handler.issued() == 1,
            handler.records() == Map::<ConnectionId, Record<S, T, P>>::empty(),
            handler.reading_ms() == timeout_reading,
            handler.writing_ms() == timeout_writing,
    {
        let mut tokens = TokenGen::new();
        let token = tokens.get();
        MyHandler {
            token,
            server: Some(server),
            hash: HashMap::new(),
            tokens,
            timeout_reading,
            timeout_writing,
        }
    }

    /// The id under which the listener is to be registered.
    pub fn token(&self) -> (token: ConnectionId)
        ensures
            token == self.listener_token(),
    {
        self.token
    }

    /// The listener, while the server accepts connections.
    pub fn server(&self) -> (server: Option<&L>)
        ensures
            match (server, self.listener()) {
                (Some(server), Some(listener)) => *server == listener,
                (None, None) => true,
                _ => false,
            },
    {
        self.server.as_ref()
    }

    /// Whether the server is going down and accepts no connections.
    pub fn is_server_down(&self) -> (down: bool)
        ensures
            down == (self.listener() is None),
    {
        self.server.is_none()
    }

    /// The number of open connections.
    pub fn connections(&self) -> (count: usize)
        ensures
            count == self.records().len(),
    {
        self.hash.len()
    }

    /// Whether the event loop is to stop.
    pub fn test_close_mio(&self) -> (stop: bool)
        ensures
            stop == self.finished(),
    {
        self.server.is_none() && self.hash.len() == 0
    }

    /// The text of a log line about the connection `token`.
    pub fn log_text(&self, token: ConnectionId, mess: &str) -> (text: String)
        ensures
            text@ == "miohttp "@ + decimal(token as nat) + " / "@ + decimal(self.records().len())
                + " -> "@ + mess@,
    {
        let mut text = "miohttp ".to_owned();
        push_decimal(&mut text, token);
        text.append(" / ");
        push_decimal(&mut text, self.hash.len());
        text.append(" -> ");
        text.append(mess);
        text
    }

    /// How a socket registered for `old_event` comes to be registered for
    /// `new_event`.
    pub fn set_event(old_event: &Event, new_event: &Event) -> (action: RegisterAction)
        ensures
            action == registration(*old_event, *new_event),
    {
        let new_mode = match *new_event {
            Event::Init => None,
            Event::Write => Some(
                Readiness { readable: false, writable: true, error: true, hup: true },
            ),
            Event::Read => Some(
                Readiness { readable: true, writable: false, error: true, hup: true },
            ),
            Event::Quiet => Some(
                Readiness { readable: false, writable: false, error: true, hup: true },
            ),
        };
        match new_mode {
            None => RegisterAction::Nothing,
            Some(mode) => {
                if *old_event == Event::Init {
                    RegisterAction::Register(mode)
                } else {
                    RegisterAction::Reregister(mode)
                }
            },
        }
    }

    /// What becomes of the timer `timeout` of a connection whose state asks
    /// for `timer_mode`.
    pub fn set_timer(&self, timeout: Option<T>, timer_mode: TimerMode) -> (action: TimerAction<T>)
        ensures
            action == timer_action(self.reading_ms(), self.writing_ms(), timeout, timer_mode),
    {
        match timeout {
            Some(timeout) => {
                match timer_mode {
                    TimerMode::In => TimerAction::Keep(timeout),
                    TimerMode::Out => TimerAction::Keep(timeout),
                    TimerMode::Post => TimerAction::Keep(timeout),
                    TimerMode::Off => TimerAction::Clear(timeout),
                }
            },
            None => {
                match timer_mode {
                    TimerMode::In => TimerAction::Arm(self.timeout_reading),
                    TimerMode::Out => TimerAction::Arm(self.timeout_writing),
                    TimerMode::Post => TimerAction::Arm(self.timeout_reading),
                    TimerMode::Off => TimerAction::Idle,
                }
            },
        }
    }
    /// Takes the connection with this id out of the table.
    fn take(&mut self, token: ConnectionId) -> (record: Option<Record<S, T, P>>)
        ensures
            final(self).records() == old(self).records().remove(token),
            final(self).listener() == old(self).listener(),
            final(self).listener_token() == old(self).listener_token(),
            final(self).issued() == old(self).issued(),
            final(self).reading_ms() == old(self).reading_ms(),
            final(self).writing_ms() == old(self).writing_ms(),
            record == if old(self).records().contains_key(token) {
                Some(old(self).records()[token])
            } else {
                None
            },
            record matches Some(taken) ==> Self::record_valid(taken),
            final(self).table_valid(),
    {
        proof {
            use_type_invariant(&*self);
        }
        let mut hash = HashMap::new();
        std::mem::swap(&mut hash, &mut self.hash);
        let record = hash.remove(&token);
        self.hash = hash;
        record
    }

    /// Puts a connection into the table, with the timer that runs for it.
    /// The readiness it is recorded with is the one that its state asks for,
    /// and a timer is recorded only where its state asks for one. Only an
    /// id that has been handed out, and is not the listener's, is taken.
    pub fn insert_connection(
        &mut self,
        token: ConnectionId,
        connection: Connection<S, P>,
        timer: Option<T>,
    ) -> (inserted: Inserted<S, T, P>)
        ensures
            final(self).listener() == old(self).listener(),
            final(self).listener_token() == old(self).listener_token(),
            final(self).issued() == old(self).issued(),
            final(self).reading_ms() == old(self).reading_ms(),
            final(self).writing_ms() == old(self).writing_ms(),
            final(self).table_valid(),
            if token == old(self).listener_token() || token >= old(self).issued() {
                &&& inserted matches Inserted::Refused(back, handle)
                &&& back == connection
                &&& handle == timer
                &&& final(self).records() == old(self).records()
            } else if connection@.timer_mode() == TimerMode::Off && timer is Some {
                &&& inserted matches Inserted::Surplus(handle)
                &&& Some(handle) == timer
                &&& final(self).records() == old(self).records().insert(
                    token,
                    (connection, connection@.event(), None),
                )
            } else {
                &&& inserted is Done
                &&& final(self).records() == old(self).records().insert(
                    token,
                    (connection, connection@.event(), timer),
                )
            },
    {
        proof {
            use_type_invariant(&*self);
        }
        if token == self.token || token >= self.tokens.count() {
            return Inserted::Refused(connection, timer);
        }
        let new_event = connection.get_event();
        let (kept, surplus) = match connection.get_timer_mode() {
            TimerMode::Off => (None, timer),
            _ => (timer, None),
        };
        let mut hash = HashMap::new();
        std::mem::swap(&mut hash, &mut self.hash);
        hash.insert(token, (connection, new_event, kept));
        self.hash = hash;
        match surplus {
            Some(handle) => Inserted::Surplus(handle),
            None => Inserted::Done,
        }
    }

    /// A connection has been accepted on `stream`. While the server accepts
    /// connections and ids are left, the connection gets a fresh id and is
    /// to be registered for reading, with a read timeout; it is not in the
    /// table before `insert_connection` puts it there. Otherwise the socket
    /// comes back, to be closed.
    pub fn new_connection(&mut self, stream: S) -> (placed: Result<Placement<S, T, P>, S>)
        ensures
            final(self).records() == old(self).records(),
            final(self).listener() == old(self).listener(),
            final(self).listener_token() == old(self).listener_token(),
            final(self).reading_ms() == old(self).reading_ms(),
            final(self).writing_ms() == old(self).writing_ms(),
            placed is Ok <==> old(self).listener() is Some && old(self).issued() < usize::MAX,
            match placed {
                Ok(placement) => {
                    &&& final(self).issued() == old(self).issued() + 1
                    &&& placement.token == old(self).issued()
                    &&& !old(self).records().contains_key(placement.token)
                    &&& placement.token != old(self).listener_token()
                    &&& placement.connection@ == State::<P>::fresh()
                    &&& placement.connection.socket() == stream
                    &&& placement.register == registration(Event::Init, Event::Read)
                    &&& placement.timer == TimerAction::<T>::Arm(old(self).reading_ms())
                },
                Err(back) => back == stream && final(self).issued() == old(self).issued(),
            },
            final(self).table_valid(),
    {
        proof {
            use_type_invariant(&*self);
        }
        if self.server.is_none() || self.tokens.exhausted() {
            return Err(stream);
        }
        let token = self.tokens.get();
        let connection = Connection::new(stream);
        let new_event = connection.get_event();
        let register = Self::set_event(&Event::Init, &new_event);
        let timer = self.set_timer(None, connection.get_timer_mode());
        Ok(Placement { token, connection, register, timer })
    }

    /// What is to be done after a transition of the connection `token`,
    /// which was registered for `old_event` and had the timer `timeout`;
    /// `fired` says whether a report of the event loop set the transition
    /// off. A connection that has ended is to be closed. One that goes on
    /// first hands over a body that is whole; then its registration and its
    /// timer are planned.
    pub fn transform_connection(
        &self,
        token: ConnectionId,
        old_event: Event,
        fired: bool,
        timeout: Option<T>,
        result: Result<Connection<S, P>, S>,
        request: Option<PreRequest>,
        log: LogMessage,
    ) -> (outcome: Outcome<S, T, P>)
        ensures
            outcome.log == log,
            outcome.request == request,
            match result {
                Ok(connection) => outcome_shows(
                    outcome,
                    self.reading_ms(),
                    self.writing_ms(),
                    token,
                    connection.socket(),
                    old_event,
                    fired,
                    timeout,
                    Some(connection@),
                    match request {
                        Some(request) => Some(request@),
                        None => None,
                    },
                    log@,
                ),
                Err(stream) => outcome_shows(
                    outcome,
                    self.reading_ms(),
                    self.writing_ms(),
                    token,
                    stream,
                    old_event,
                    fired,
                    timeout,
                    None,
                    match request {
                        Some(request) => Some(request@),
                        None => None,
                    },
                    log@,
                ),
            },
    {
        match result {
            Ok(connection_new) => {
                let (connection, handed) = connection_new.check_post();
                let released = match handed {
                    Some((pending, body)) => Some((pending, Some(body))),
                    None => None,
                };
                let new_event = connection.get_event();
                let register = if old_event != new_event || fired {
                    Self::set_event(&old_event, &new_event)
                } else {
                    RegisterAction::Nothing
                };
                let timer = self.set_timer(timeout, connection.get_timer_mode());
                Outcome {
                    log,
                    next: Next::Place(Placement { token, connection, register, timer }),
                    released,
                    request,
                }
            },
            Err(stream) => Outcome {
                log,
                next: Next::Close(stream, timeout),
                released: None,
                request,
            },
        }
    }
    fn missing() -> (outcome: Outcome<S, T, P>)
        ensures
            outcome_missing(outcome),
    {
        Outcome {
            log: LogMessage::Error("no socket by token".to_owned()),
            next: Next::Missing,
            released: None,
            request: None,
        }
    }

    /// What is to be done when a transition of the connection `token` has
    /// come as far as `progress`.
    fn progress_step(
        &self,
        token: ConnectionId,
        old_event: Event,
        timeout: Option<T>,
        progress: Progress<S, P>,
        Ghost(socket): Ghost<S>,
        Ghost(view): Ghost<ProgressView<P>>,
    ) -> (step: ReadyStep<S, T, P>)
        requires
            progress.shows(socket, view),
            view matches ProgressView::Read(_, most) ==> most <= usize::MAX,
        ensures
            self.step_shows(step, token, socket, old_event, timeout, view),
    {
        match progress {
            Progress::Finished(result, request, log) => ReadyStep::Settled(
                self.transform_connection(token, old_event, true, timeout, result, request, log),
            ),
            Progress::Read(connection, limit) => ReadyStep::Io(
                InFlight { token, connection, old_event, timeout, want: Want::Read(limit) },
            ),
            Progress::Write(connection) => ReadyStep::Io(
                InFlight { token, connection, old_event, timeout, want: Want::Write },
            ),
        }
    }

    /// The event loop reports `events` for the id `token`. For the
    /// listener's id nothing is done here: connections are to be accepted.
    /// Otherwise the connection is taken out of the table and makes its
    /// transition as far as it can without a read or a write.
    pub fn ready(&mut self, token: ConnectionId, events: Readiness) -> (step: ReadyStep<S, T, P>)
        ensures
            final(self).listener() == old(self).listener(),
            final(self).listener_token() == old(self).listener_token(),
            final(self).issued() == old(self).issued(),
            final(self).reading_ms() == old(self).reading_ms(),
            final(self).writing_ms() == old(self).writing_ms(),
            token == old(self).listener_token() ==> step is Listener && final(self).records() == old(
                self,
            ).records(),
            token != old(self).listener_token() ==> final(self).records() == old(
                self,
            ).records().remove(token),
            token != old(self).listener_token() && !old(self).records().contains_key(token) ==> (
            step matches ReadyStep::Settled(outcome) && outcome_missing(outcome)),
            token != old(self).listener_token() && old(self).records().contains_key(token) ==> {
                let record = old(self).records()[token];
                old(self).step_shows(
                    step,
                    token,
                    record.0.socket(),
                    record.1,
                    record.2,
                    record.0@.begin(events),
                )
            },
            final(self).table_valid(),
    {
        proof {
            use_type_invariant(&*self);
        }
        if token == self.token {
            return ReadyStep::Listener;
        }
        match self.take(token) {
            Some((connection_prev, old_event, timeout)) => {
                let ghost socket = connection_prev.socket();
                let ghost view = connection_prev@.begin(events);
                let progress = connection_prev.ready(events);
                self.progress_step(token, old_event, timeout, progress, Ghost(socket), Ghost(view))
            },
            None => ReadyStep::Settled(Self::missing()),
        }
    }

    /// The read that `flight` asked for has been attempted.
    pub fn read_done(&self, flight: InFlight<S, T, P>, outcome: ReadOutcome) -> (step: ReadyStep<
        S,
        T,
        P,
    >)
        requires
            outcome matches ReadOutcome::Data(data) ==> data@.len()
                <= flight.connection()@.read_limit(),
        ensures
            self.step_shows(
                step,
                flight.token(),
                flight.connection().socket(),
                flight.old_event(),
                flight.timeout(),
                flight.connection()@.after_read(outcome),
            ),
    {
        let InFlight { token, connection, old_event, timeout, want: _ } = flight;
        let ghost socket = connection.socket();
        let ghost view = connection@.after_read(outcome);
        let progress = connection.read_done(outcome);
        self.progress_step(token, old_event, timeout, progress, Ghost(socket), Ghost(view))
    }

    /// The write that `flight` asked for has been attempted.
    pub fn write_done(&self, flight: InFlight<S, T, P>, outcome: WriteOutcome) -> (step: ReadyStep<
        S,
        T,
        P,
    >)
        requires
            outcome matches WriteOutcome::Written(count) ==> count
                <= flight.connection()@.unsent().len(),
        ensures
            self.step_shows(
                step,
                flight.token(),
                flight.connection().socket(),
                flight.old_event(),
                flight.timeout(),
                flight.connection()@.after_write(outcome, self.listener() is None),
            ),
    {
        let InFlight { token, connection, old_event, timeout, want: _ } = flight;
        let ghost socket = connection.socket();
        let server_down = self.server.is_none();
        let ghost view = connection@.after_write(outcome, server_down);
        let progress = connection.write_done(outcome, server_down);
        self.progress_step(token, old_event, timeout, progress, Ghost(socket), Ghost(view))
    }

    /// The timer of the connection `token` fires. The connection is taken
    /// out of the table. One that reads a head or writes a response has
    /// ended and is to be closed; one that waits goes on, and whoever asked
    /// for its body is released with none.
    pub fn timeout(&mut self, token: ConnectionId) -> (outcome: Outcome<S, T, P>)
        ensures
            final(self).listener() == old(self).listener(),
            final(self).listener_token() == old(self).listener_token(),
            final(self).issued() == old(self).issued(),
            final(self).reading_ms() == old(self).reading_ms(),
            final(self).writing_ms() == old(self).writing_ms(),
            final(self).records() == old(self).records().remove(token),
            !old(self).records().contains_key(token) ==> outcome_missing(outcome),
            old(self).records().contains_key(token) ==> {
                let record = old(self).records()[token];
                let (next, released, line) = record.0@.expire();
                &&& outcome_shows(
                    Outcome { released: None, ..outcome },
                    old(self).reading_ms(),
                    old(self).writing_ms(),
                    token,
                    record.0.socket(),
                    record.1,
                    false,
                    record.2,
                    next,
                    None,
                    line,
                )
                &&& match (outcome.released, released) {
                    (Some((pending, None)), Some(due)) => pending == due,
                    (None, None) => true,
                    _ => false,
                }
            },
            old(self).records().contains_key(token) && !(old(self).records()[token].0@
                is WaitingForServerResponse) ==> {
                &&& outcome.next matches Next::Close(stream, timer)
                &&& stream == old(self).records()[token].0.socket()
                &&& timer == old(self).records()[token].2
            },
            final(self).table_valid(),
    {
        match self.take(token) {
            Some((connection_prev, old_event, timeout)) => {
                let (result, released, log) = connection_prev.timeout_trigger();
                let outcome = self.transform_connection(
                    token,
                    old_event,
                    false,
                    timeout,
                    result,
                    None,
                    log,
                );
                match released {
                    Some(pending) => Outcome { released: Some((pending, None)), ..outcome },
                    None => outcome,
                }
            },
            None => Self::missing(),
        }
    }

    /// A message arrives. A response goes to its connection, which starts
    /// to send it; a request for a body goes to its connection, which
    /// starts to read it; the connection is taken out of the table for
    /// that. The message that the server is to go down takes the listener
    /// away and leaves the connections as they are; it must not come twice.
    pub fn notify(&mut self, msg: MioMessage<P>) -> (notified: Notified<L, S, T, P>)
        requires
            msg is Down ==> old(self).listener() is Some,
        ensures
            final(self).listener_token() == old(self).listener_token(),
            final(self).issued() == old(self).issued(),
            final(self).reading_ms() == old(self).reading_ms(),
            final(self).writing_ms() == old(self).writing_ms(),
            match msg {
                MioMessage::Down => {
                    &&& notified matches Notified::Down(listener)
                    &&& Some(listener) == old(self).listener()
                    &&& final(self).listener() is None
                    &&& final(self).records() == old(self).records()
                },
                MioMessage::Response(token, response) => {
                    &&& notified matches Notified::Settled(outcome)
                    &&& final(self).listener() == old(self).listener()
                    &&& final(self).records() == old(self).records().remove(token)
                    &&& if old(self).records().contains_key(token) {
                        let record = old(self).records()[token];
                        let (next, released, line) = record.0@.respond(response@);
                        &&& outcome_shows(
                            Outcome { released: None, ..outcome },
                            old(self).reading_ms(),
                            old(self).writing_ms(),
                            token,
                            record.0.socket(),
                            record.1,
                            false,
                            record.2,
                            Some(next),
                            None,
                            line,
                        )
                        &&& match (outcome.released, released) {
                            (Some((pending, None)), Some(due)) => pending == due,
                            (None, None) => true,
                            _ => false,
                        }
                    } else {
                        outcome_missing(outcome)
                    }
                },
                MioMessage::GetPost(token, pending) => {
                    &&& notified matches Notified::Settled(outcome)
                    &&& final(self).listener() == old(self).listener()
                    &&& final(self).records() == old(self).records().remove(token)
                    &&& if old(self).records().contains_key(token) {
                        let record = old(self).records()[token];
                        outcome_shows(
                            outcome,
                            old(self).reading_ms(),
                            old(self).writing_ms(),
                            token,
                            record.0.socket(),
                            record.1,
                            false,
                            record.2,
                            record.0@.register(pending).0,
                            None,
                            record.0@.register(pending).1,
                        )
                    } else {
                        outcome_missing(outcome)
                    }
                },
            },
            final(self).table_valid(),
    {
        match msg {
            MioMessage::Response(token, response) => {
                match self.take(token) {
                    Some((connection_prev, old_event, timeout)) => {
                        let (new_conn, released, log_message) = connection_prev.send_data_to_user(
                            response,
                        );
                        let outcome = self.transform_connection(
                            token,
                            old_event,
                            false,
                            timeout,
                            Ok(new_conn),
                            None,
                            log_message,
                        );
                        Notified::Settled(
                            match released {
                                Some(pending) => Outcome {
                                    released: Some((pending, None)),
                                    ..outcome
                                },
                                None => outcome,
                            },
                        )
                    },
                    None => Notified::Settled(Self::missing()),
                }
            },
            MioMessage::Down => {
                proof {
                    use_type_invariant(&*self);
                }
                let mut server = None;
                std::mem::swap(&mut server, &mut self.server);
                proof {
                    use_type_invariant(&*self);
                }
                match server {
                    Some(listener) => Notified::Down(listener),
                    None => unreached(),
                }
            },
            MioMessage::GetPost(token, pending) => {
                match self.take(token) {
                    Some((connection_prev, old_event, timeout)) => {
                        let (conn, log_mess) = connection_prev.set_callback_post(pending);
                        Notified::Settled(
                            self.transform_connection(
                                token,
                                old_event,
                                false,
                                timeout,
                                conn,
                                None,
                                log_mess,
                            ),
                        )
                    },
                    None => Notified::Settled(Self::missing()),
                }
            },
        }
    }
}

} // verus!
