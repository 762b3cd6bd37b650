//! What holds of a connection and of its place in the reactor whatever
//! happens to it.

use vstd::prelude::*;
use crate::code::Code;
use crate::connection::excess;
use crate::connection::LogView;
use crate::connection::PostState;
use crate::connection::ProgressView;
use crate::connection::ReadOutcome;
use crate::connection::Readiness;
use crate::connection::State;
use crate::connection::TimerMode;
use crate::connection::WriteOutcome;
use crate::connection::HEADER_CAPACITY;
use crate::parser::ParseStatusView;
use crate::request::RawRequestView;
use crate::response::bad_request;
use crate::response::page;
use crate::response::ResponseView;
use crate::server::interest;
use crate::server::registration_change;
use crate::server::timer_action;
use crate::server::Event;
use crate::server::RegisterAction;
use crate::server::TimerAction;
use crate::typemod::Type;

verus! {

/// The state that a finished transition leads to, if the connection goes on.
pub open spec fn landing<P>(progress: ProgressView<P>) -> Option<State<P>> {
    match progress {
        ProgressView::Finished(next, _, _) => next,
        ProgressView::Read(state, _) => Some(state),
        ProgressView::Write(state) => Some(state),
    }
}

/// The total of a run of writes.
pub open spec fn written(counts: Seq<usize>) -> nat
    decreases counts.len(),
{
    if counts.len() == 0 {
        0
    } else {
        counts[0] as nat + written(counts.drop_first())
    }
}

/// The state after a run of writes, each reported in its turn; none where
/// the connection has ended.
pub open spec fn after_writes<P>(state: State<P>, counts: Seq<usize>, server_down: bool) -> Option<
    State<P>,
>
    decreases counts.len(),
{
    if counts.len() == 0 {
        Some(state)
    } else {
        match landing(state.after_write(WriteOutcome::Written(counts[0]), server_down)) {
            Some(next) => after_writes(next, counts.drop_first(), server_down),
            None => None,
        }
    }
}

/// A fresh connection, and the one that refuses a request, keep the bounds
/// of a state.
pub proof fn lemma_start_valid<P>()
    ensures
        State::<P>::fresh().valid(),
        State::<P>::refusal().valid(),
{
}

/// No transition leads out of the bounds of a state: a response, a
/// timeout, a request for the body, the handing over of a body, a report of
/// the event loop, a read within the limit asked for, and a write of no
/// more than was unsent.
pub proof fn lemma_valid_kept<P>(
    state: State<P>,
    response: ResponseView,
    pending: P,
    events: Readiness,
    read: ReadOutcome,
    write: WriteOutcome,
    server_down: bool,
)
    requires
        state.valid(),
        read matches ReadOutcome::Data(data) ==> data@.len() <= state.read_limit(),
        write matches WriteOutcome::Written(count) ==> count <= state.unsent().len(),
    ensures
        state.respond(response).0.valid(),
        state.expire().0 matches Some(next) ==> next.valid(),
        state.register(pending).0 matches Some(next) ==> next.valid(),
        state.settle().0.valid(),
        landing(state.begin(events)) matches Some(next) ==> next.valid(),
        landing(state.after_read(read)) matches Some(next) ==> next.valid(),
        landing(state.after_write(write, server_down)) matches Some(next) ==> next.valid(),
{
    lemma_start_valid::<P>();
    match state {
        State::ReadingRequest(filled) => {
            match read {
                ReadOutcome::Data(data) => {
                    lemma_head_parsed_valid::<P>(
                        filled + data@,
                        crate::parser::head_outcome(filled + data@),
                    );
                },
                _ => {},
            }
        },
        _ => {},
    }
}

/// Whatever the parser says of the bytes read so far, the state that
/// follows keeps the bounds of a state.
pub proof fn lemma_head_parsed_valid<P>(filled: Seq<u8>, status: ParseStatusView)
    ensures
        State::<P>::head_parsed(filled, status).0.valid(),
{
    lemma_start_valid::<P>();
}

/// A request is handed to the application only when its head is whole and
/// taken in, and then the connection waits for the answer. In every other
/// case the connection either reads on or refuses with `400 Bad Request`.
pub proof fn lemma_request_means_waiting<P>(filled: Seq<u8>, status: ParseStatusView)
    ensures
        ({
            let (next, request, _) = State::<P>::head_parsed(filled, status);
            &&& request matches Some(found) ==> {
                &&& status matches ParseStatusView::Complete(_, raw)
                &&& raw.admitted() == Ok::<_, crate::request::RequestErrorView>(found)
                &&& next is WaitingForServerResponse
            }
            &&& request is None ==> next == State::<P>::refusal() || (status is Partial && next
                == State::<P>::ReadingRequest(filled))
        }),
{
}

/// A head that is not whole when the buffer is full is refused, and so is
/// one that the parser rejects: the answer is `400 Bad Request`, the
/// connection is not kept, and no request is handed out.
pub proof fn lemma_overflow_refused<P>(filled: Seq<u8>)
    requires
        filled.len() >= HEADER_CAPACITY,
    ensures
        State::<P>::head_parsed(filled, ParseStatusView::Partial) == (
            State::<P>::refusal(),
            None::<crate::request::PreRequestView>,
            LogView::Silent,
        ),
        State::<P>::head_parsed(filled, ParseStatusView::Malformed) == (
            State::<P>::refusal(),
            None::<crate::request::PreRequestView>,
            LogView::Silent,
        ),
        State::<P>::refusal() == State::<P>::SendingResponse(false, bad_request().message, 0),
{
}

/// A POST whose head is followed by more bytes than it declares, or that
/// declares no length, is refused, and no request is handed out. One that
/// declares at least what is there waits, with the bytes held as the start
/// of its body.
pub proof fn lemma_framing<P>(filled: Seq<u8>, consumed: nat, raw: RawRequestView)
    requires
        raw.admitted() matches Ok(request) && request.is_post(),
    ensures
        ({
            let request = raw.admitted()->Ok_0;
            let rest = excess(filled, consumed);
            let (next, found, _) = State::<P>::head_parsed(
                filled,
                ParseStatusView::Complete(consumed, raw),
            );
            match request.header_number("Content-Length"@) {
                Some(length) => if length < rest.len() {
                    next == State::<P>::refusal() && found is None
                } else {
                    &&& next matches State::WaitingForServerResponse(
                        _,
                        PostState::Data(bytes, target),
                    )
                    &&& bytes == rest
                    &&& target == length
                    &&& found == Some(request)
                },
                None => next == State::<P>::refusal() && found is None,
            }
        }),
{
}

/// The read that brings the last bytes of a body leaves the body whole:
/// it is handed over with exactly the declared number of bytes, to the one
/// who asked, and the state that follows has nobody left to hand a body to.
pub proof fn lemma_body_completes<P>(
    keep_alive: bool,
    bytes: Seq<u8>,
    length: nat,
    pending: P,
    data: Vec<u8>,
)
    requires
        data@.len() > 0,
        bytes.len() + data@.len() == length,
    ensures
        ({
            let reading = State::WaitingForServerResponse(
                keep_alive,
                PostState::Reading(bytes, length, pending),
            );
            let whole = State::WaitingForServerResponse(
                keep_alive,
                PostState::Reading(bytes + data@, length, pending),
            );
            let complete = State::<P>::WaitingForServerResponse(keep_alive, PostState::Complete);
            &&& reading.after_read(ReadOutcome::Data(data)) == ProgressView::Finished(
                Some(whole),
                None,
                LogView::Silent,
            )
            &&& whole.settle() == (complete, Some((pending, bytes + data@)))
            &&& (bytes + data@).len() == length
            &&& complete.settle().1 is None
            &&& complete.expire().1 is None
        }),
{
}

/// While a body is short, a read that brings bytes asks for the next read,
/// and never for more than is missing.
pub proof fn lemma_body_read_on<P>(
    keep_alive: bool,
    bytes: Seq<u8>,
    length: nat,
    pending: P,
    data: Vec<u8>,
)
    requires
        data@.len() > 0,
        bytes.len() + data@.len() < length,
    ensures
        ({
            let reading = State::WaitingForServerResponse(
                keep_alive,
                PostState::Reading(bytes, length, pending),
            );
            let longer = State::WaitingForServerResponse(
                keep_alive,
                PostState::Reading(bytes + data@, length, pending),
            );
            &&& reading.after_read(ReadOutcome::Data(data)) == ProgressView::Read(
                longer,
                longer.read_limit(),
            )
            &&& 0 < longer.read_limit() <= length - (bytes + data@).len()
        }),
{
}

/// A response that goes out in several writes loses nothing and sends
/// nothing twice: while bytes are left, the count of bytes sent is the
/// count before plus the total of the writes, and the bytes of the response
/// stay as they were.
pub proof fn lemma_partial_writes<P>(
    keep_alive: bool,
    bytes: Seq<u8>,
    sent: nat,
    counts: Seq<usize>,
    server_down: bool,
)
    requires
        forall|i: int| 0 <= i < counts.len() ==> counts[i] > 0,
        sent + written(counts) < bytes.len(),
    ensures
        after_writes(
            State::<P>::SendingResponse(keep_alive, bytes, sent),
            counts,
            server_down,
        ) == Some(State::<P>::SendingResponse(keep_alive, bytes, sent + written(counts))),
        State::<P>::SendingResponse(keep_alive, bytes, sent + written(counts)).unsent()
            == bytes.skip((sent + written(counts)) as int),
    decreases counts.len(),
{
    if counts.len() > 0 {
        lemma_partial_writes::<P>(
            keep_alive,
            bytes,
            sent + counts[0] as nat,
            counts.drop_first(),
            server_down,
        );
    }
}

/// The write that brings the total of the writes to the length of the
/// response ends the sending: the connection reads the next request with an
/// empty buffer if it is to be kept and the server is not going down, and
/// ends otherwise.
pub proof fn lemma_last_write<P>(
    keep_alive: bool,
    bytes: Seq<u8>,
    sent: nat,
    counts: Seq<usize>,
    server_down: bool,
)
    requires
        counts.len() > 0,
        forall|i: int| 0 <= i < counts.len() ==> counts[i] > 0,
        sent + written(counts) == bytes.len(),
    ensures
        after_writes(State::<P>::SendingResponse(keep_alive, bytes, sent), counts, server_down)
            == if keep_alive && !server_down {
            Some(State::<P>::fresh())
        } else {
            None
        },
    decreases counts.len(),
{
    let rest = counts.drop_first();
    if rest.len() == 0 {
        assert(written(rest) == 0);
        assert(after_writes(State::<P>::fresh(), rest, server_down) == Some(State::<P>::fresh()));
    } else {
        lemma_last_write::<P>(keep_alive, bytes, sent + counts[0] as nat, rest, server_down);
    }
}

/// A waiting connection none of whose body is unread starts to send the
/// response it is given from its first byte, and nothing but the response.
/// Once the response is out, in however many writes, a connection whose
/// request asked to be kept reads the next request with an empty buffer,
/// provided the response does not force a close and the server is not going
/// down; in every other case the connection ends.
pub proof fn lemma_keep_alive<P>(
    keep_alive: bool,
    post: PostState<P>,
    response: ResponseView,
    counts: Seq<usize>,
    server_down: bool,
)
    requires
        post is Absent || post is Complete,
        counts.len() > 0,
        forall|i: int| 0 <= i < counts.len() ==> counts[i] > 0,
        written(counts) == response.message.len(),
    ensures
        ({
            let (sending, released, log) = State::WaitingForServerResponse(
                keep_alive,
                post,
            ).respond(response);
            &&& sending == State::<P>::SendingResponse(
                keep_alive && !response.close_connection,
                response.message,
                0,
            )
            &&& sending.unsent() == response.message
            &&& released is None
            &&& log == LogView::Silent
            &&& after_writes(sending, counts, server_down) == if keep_alive
                && !response.close_connection && !server_down {
                Some(State::<P>::fresh())
            } else {
                None
            }
        }),
{
    lemma_last_write::<P>(
        keep_alive && !response.close_connection,
        response.message,
        0,
        counts,
        server_down,
    );
}

/// The responses `400 Bad Request` and `500 Internal Server Error` force a
/// close: whatever the request asked for, the connection ends when they are
/// out.
pub proof fn lemma_error_closes<P>(
    code: Code,
    typ: Type,
    body: Seq<char>,
    keep_alive: bool,
    post: PostState<P>,
    counts: Seq<usize>,
    server_down: bool,
)
    requires
        code is Code400 || code is Code500,
        counts.len() > 0,
        forall|i: int| 0 <= i < counts.len() ==> counts[i] > 0,
        written(counts) == page(code, typ, body).message.len(),
    ensures
        page(code, typ, body).close_connection,
        after_writes(
            State::WaitingForServerResponse(keep_alive, post).respond(page(code, typ, body)).0,
            counts,
            server_down,
        ) == None::<State<P>>,
{
    lemma_last_write::<P>(false, page(code, typ, body).message, 0, counts, server_down);
}

/// A declared body that nobody asked for is unread when the response
/// comes: the connection is not kept.
pub proof fn lemma_unread_body_closes<P>(
    keep_alive: bool,
    bytes: Seq<u8>,
    length: nat,
    response: ResponseView,
)
    ensures
        State::<P>::WaitingForServerResponse(keep_alive, PostState::Data(bytes, length)).respond(
            response,
        ).0 == State::<P>::SendingResponse(false, response.message, 0),
{
}

/// A timeout ends a connection that reads a head or writes a response. A
/// waiting connection is never ended by it: its body is given up, whoever
/// asked for the body is released, and it goes on waiting for the answer
/// with no timeout running.
pub proof fn lemma_timeout<P>(state: State<P>)
    ensures
        state is ReadingRequest || state is SendingResponse ==> state.expire().0 is None
            && state.expire().1 is None,
        state matches State::WaitingForServerResponse(keep_alive, post) ==> {
            &&& state.expire().0 == Some(
                State::<P>::WaitingForServerResponse(keep_alive, PostState::Complete),
            )
            &&& state.expire().0->0.timer_mode() == TimerMode::Off
            &&& state.expire().0->0.event() == Event::Quiet
            &&& (state.expire().1 is Some <==> post is Reading)
        },
{
}

/// An error or a hang-up ends the connection in every state.
pub proof fn lemma_error_ends<P>(state: State<P>, events: Readiness)
    requires
        events.error || events.hup,
    ensures
        state.begin(events) matches ProgressView::Finished(None, None, LogView::Error(_)),
{
}

/// A socket that is not ready leaves the state as it is: a read or a write
/// that would block changes nothing, and neither does one of no bytes.
pub proof fn lemma_would_block<P>(state: State<P>, server_down: bool, nothing: Vec<u8>)
    requires
        nothing@.len() == 0,
        state.valid(),
    ensures
        landing(state.after_read(ReadOutcome::WouldBlock)) == Some(state),
        landing(state.after_write(WriteOutcome::WouldBlock, server_down)) == Some(state),
        landing(state.after_read(ReadOutcome::Data(nothing))) == Some(state),
        landing(state.after_write(WriteOutcome::Written(0), server_down)) == Some(state),
{
}

/// At most one timer runs for a connection, and only while its state asks
/// for one. A timer that runs is kept untouched while one is needed and
/// cancelled when none is; one is started only where none runs, with the
/// write timeout for a response and the read timeout otherwise.
pub proof fn lemma_timer_rule<T>(
    timeout_reading: u64,
    timeout_writing: u64,
    timeout: Option<T>,
    mode: TimerMode,
)
    ensures
        match timer_action(timeout_reading, timeout_writing, timeout, mode) {
            TimerAction::Keep(timer) => timeout == Some(timer) && mode != TimerMode::Off,
            TimerAction::Clear(timer) => timeout == Some(timer) && mode == TimerMode::Off,
            TimerAction::Arm(millis) => {
                &&& timeout is None
                &&& mode != TimerMode::Off
                &&& millis == if mode == TimerMode::Out {
                    timeout_writing
                } else {
                    timeout_reading
                }
            },
            TimerAction::Idle => timeout is None && mode == TimerMode::Off,
        },
{
}

/// A socket is registered for the first time exactly when it was not
/// registered before. A registration that a report of the event loop has
/// used up is always renewed. Where no report came and the socket is
/// registered for what its connection waits for, nothing is done. Errors
/// and hang-ups are always asked for, reading and writing never together.
pub proof fn lemma_registration_rule(old_event: Event, new_event: Event, fired: bool)
    requires
        new_event != Event::Init,
    ensures
        match registration_change(old_event, new_event, fired) {
            RegisterAction::Nothing => old_event == new_event && !fired,
            RegisterAction::Register(mode) => old_event == Event::Init && Some(mode) == interest(
                new_event,
            ),
            RegisterAction::Reregister(mode) => {
                &&& old_event != Event::Init
                &&& old_event != new_event || fired
                &&& Some(mode) == interest(new_event)
            },
        },
        interest(new_event) matches Some(mode) && {
            &&& mode.error
            &&& mode.hup
            &&& mode.readable == (new_event == Event::Read)
            &&& mode.writable == (new_event == Event::Write)
        },
{
}

/// The readiness a connection is registered for and the timeout that runs
/// for it go by its state: a head is read under the read timeout, a body
/// that is being read likewise, a response is written under the write
/// timeout, and a connection that only waits for the answer is registered
/// for neither reading nor writing.
pub proof fn lemma_interest<P>(state: State<P>)
    ensures
        state is ReadingRequest ==> state.event() == Event::Read && state.timer_mode()
            == TimerMode::In,
        state is SendingResponse ==> state.event() == Event::Write && state.timer_mode()
            == TimerMode::Out,
        state matches State::WaitingForServerResponse(_, post) ==> {
            &&& state.event() == if post is Reading {
                Event::Read
            } else {
                Event::Quiet
            }
            &&& state.timer_mode() == if post is Reading || post is Data {
                TimerMode::Post
            } else {
                TimerMode::Off
            }
        },
        state.event() != Event::Init,
{
}

} // verus!
