use miohttp::connection::{
    Connection, LogMessage, ReadOutcome, Readiness, TimerMode, WriteOutcome,
};
use miohttp::server::{
    Event, InFlight, Inserted, MioMessage, MyHandler, Next, Notified, Outcome, Placement,
    ReadyStep,
    RegisterAction, TimerAction, Want,
};
use miohttp::{Code, Response, Type};

/// Listener, socket, timer handle and whoever waits for a body are plain
/// values here, so that the tests can tell them apart.
type Handler = MyHandler<&'static str, u32, u16, u64>;
type Step = ReadyStep<u32, u16, u64>;
type Out = Outcome<u32, u16, u64>;

const READING: u64 = 4000;
const WRITING: u64 = 9000;

fn handler() -> Handler {
    MyHandler::new("listener", READING, WRITING)
}

fn readable() -> Readiness {
    Readiness { readable: true, writable: false, error: false, hup: false }
}

fn writable() -> Readiness {
    Readiness { readable: false, writable: true, error: false, hup: false }
}

fn interest(register: &RegisterAction) -> (bool, &Readiness) {
    match register {
        RegisterAction::Register(mode) => (true, mode),
        RegisterAction::Reregister(mode) => (false, mode),
        RegisterAction::Nothing => panic!("no registration"),
    }
}

fn flags(mode: &Readiness) -> (bool, bool, bool, bool) {
    (mode.readable, mode.writable, mode.error, mode.hup)
}

/// Accepts a connection on `socket` and puts it into the table with the
/// timer `timer`, as the event loop would after registering it.
fn accept(handler: &mut Handler, socket: u32, timer: u16) -> usize {
    let placement = handler.new_connection(socket).ok().unwrap();
    let Placement { token, connection, register, timer: action } = placement;
    let (fresh, mode) = interest(&register);
    assert!(fresh);
    assert_eq!(flags(mode), (true, false, true, true));
    assert!(matches!(action, TimerAction::Arm(READING)));
    assert!(matches!(handler.insert_connection(token, connection, Some(timer)), Inserted::Done));
    token
}

fn settled(step: Step) -> Out {
    match step {
        ReadyStep::Settled(outcome) => outcome,
        ReadyStep::Io(_) => panic!("a read or a write is asked for"),
        ReadyStep::Listener => panic!("the listener is ready"),
    }
}

fn flight(step: Step) -> InFlight<u32, u16, u64> {
    match step {
        ReadyStep::Io(flight) => flight,
        _ => panic!("no read or write is asked for"),
    }
}

fn placed(next: Next<u32, u16, u64>) -> Placement<u32, u16, u64> {
    match next {
        Next::Place(placement) => placement,
        Next::Close(_, _) => panic!("the connection has ended"),
        Next::Missing => panic!("no such connection"),
    }
}

/// Carries out a placement as the event loop would: the timer that runs
/// afterwards is the one kept, or `armed` where one is started.
fn put_back(handler: &mut Handler, placement: Placement<u32, u16, u64>, armed: u16) {
    let Placement { token, connection, register: _, timer } = placement;
    let timer = match timer {
        TimerAction::Keep(timer) => Some(timer),
        TimerAction::Clear(_) => None,
        TimerAction::Arm(_) => Some(armed),
        TimerAction::Idle => None,
    };
    assert!(matches!(handler.insert_connection(token, connection, timer), Inserted::Done));
}

/// Reads `head` on the connection `token` and puts the connection back.
fn request(handler: &mut Handler, token: usize, head: &[u8]) -> Out {
    let flight = flight(handler.ready(token, readable()));
    assert!(matches!(flight.wanted(), Want::Read(2048)));
    assert_eq!(flight.id(), token);
    settled(handler.read_done(flight, ReadOutcome::Data(head.to_vec())))
}

#[test]
fn a_new_reactor() {
    let handler = handler();
    assert_eq!(handler.token(), 0);
    assert_eq!(handler.server(), Some(&"listener"));
    assert!(!handler.is_server_down());
    assert_eq!(handler.connections(), 0);
    assert!(!handler.test_close_mio());
}

#[test]
fn accepted_connections_get_rising_ids() {
    let mut handler = handler();
    let first = handler.new_connection(11).ok().unwrap();
    assert_eq!(first.token, 1);
    assert_eq!(first.connection.stream, 11);
    assert_eq!(first.connection.get_name(), "ReadingRequest");
    // Not in the table before it is put there.
    assert_eq!(handler.connections(), 0);
    let second = handler.new_connection(12).ok().unwrap();
    assert_eq!(second.token, 2);
    assert!(matches!(
        handler.insert_connection(second.token, second.connection, Some(1)),
        Inserted::Done
    ));
    assert!(matches!(handler.insert_connection(first.token, first.connection, None), Inserted::Done));
    assert_eq!(handler.connections(), 2);
    assert_eq!(accept(&mut handler, 13, 7), 3);
    assert_eq!(handler.connections(), 3);
}

#[test]
fn only_issued_ids_go_into_the_table() {
    let mut handler = handler();
    match handler.insert_connection(0, Connection::new(1), Some(5)) {
        Inserted::Refused(connection, timer) => {
            assert_eq!(connection.stream, 1);
            assert_eq!(timer, Some(5));
        }
        _ => panic!("the listener's id was taken"),
    }
    assert!(matches!(
        handler.insert_connection(1, Connection::new(1), None),
        Inserted::Refused(_, None)
    ));
    assert!(matches!(
        handler.insert_connection(usize::MAX, Connection::new(1), None),
        Inserted::Refused(_, None)
    ));
    assert_eq!(handler.connections(), 0);
    let token = accept(&mut handler, 1, 5);
    assert_eq!(token, 1);
    assert!(matches!(
        handler.insert_connection(2, Connection::new(1), None),
        Inserted::Refused(_, None)
    ));
    assert_eq!(handler.connections(), 1);
}

#[test]
fn no_timer_is_kept_for_a_state_that_needs_none() {
    let mut handler = handler();
    let token = accept(&mut handler, 11, 21);
    let outcome = request(&mut handler, token, b"GET /a HTTP/1.1\r\n\r\n");
    let Placement { token, connection, register: _, timer: _ } = placed(outcome.next);
    // The plan was to cancel the timer; handing it in all the same gets it back.
    assert!(matches!(handler.insert_connection(token, connection, Some(21)), Inserted::Surplus(21)));
    assert_eq!(handler.connections(), 1);
    // The connection is in the table, without a timer.
    let response = Response::create(Code::Code200, Type::TextHtml, "ok".to_owned());
    let outcome = match handler.notify(MioMessage::Response(token, response)) {
        Notified::Settled(outcome) => outcome,
        Notified::Down(_) => panic!("no shutdown was asked for"),
    };
    assert!(matches!(placed(outcome.next).timer, TimerAction::Arm(WRITING)));
}

#[test]
fn the_listener_is_told_apart() {
    let mut handler = handler();
    accept(&mut handler, 11, 1);
    assert!(matches!(handler.ready(0, readable()), ReadyStep::Listener));
    assert_eq!(handler.connections(), 1);
}

#[test]
fn an_unknown_id_is_logged() {
    let mut handler = handler();
    let outcome = settled(handler.ready(5, readable()));
    assert!(matches!(outcome.next, Next::Missing));
    assert!(outcome.request.is_none());
    assert!(outcome.released.is_none());
    match outcome.log {
        LogMessage::Error(text) => assert_eq!(text, "no socket by token"),
        _ => panic!("expected an error"),
    }
    assert!(matches!(handler.timeout(5).next, Next::Missing));
    let response = Response::create(Code::Code200, Type::TextHtml, "late".to_owned());
    match handler.notify(MioMessage::Response(5, response)) {
        Notified::Settled(outcome) => assert!(matches!(outcome.next, Next::Missing)),
        Notified::Down(_) => panic!("no shutdown was asked for"),
    }
    match handler.notify(MioMessage::GetPost(5, 1)) {
        Notified::Settled(outcome) => assert!(matches!(outcome.next, Next::Missing)),
        Notified::Down(_) => panic!("no shutdown was asked for"),
    }
}

#[test]
fn a_request_and_its_response() {
    let mut handler = handler();
    let token = accept(&mut handler, 11, 21);

    // The head arrives.
    let outcome = request(&mut handler, token, b"GET /a HTTP/1.1\r\nConnection: keep-alive\r\n\r\n");
    assert_eq!(handler.connections(), 0);
    assert!(matches!(outcome.log, LogMessage::Silent));
    assert!(outcome.released.is_none());
    assert_eq!(outcome.request.unwrap().path(), "/a");
    let placement = placed(outcome.next);
    assert_eq!(placement.token, token);
    assert_eq!(placement.connection.stream, 11);
    let (fresh, mode) = interest(&placement.register);
    assert!(!fresh);
    assert_eq!(flags(mode), (false, false, true, true));
    // Nothing is awaited from the client: the read timer is cancelled.
    assert!(matches!(placement.timer, TimerAction::Clear(21)));
    put_back(&mut handler, placement, 0);
    assert_eq!(handler.connections(), 1);

    // The response arrives.
    let response = Response::create(Code::Code200, Type::TextHtml, "hello".to_owned());
    let bytes = Response::create(Code::Code200, Type::TextHtml, "hello".to_owned()).as_bytes();
    let outcome = match handler.notify(MioMessage::Response(token, response)) {
        Notified::Settled(outcome) => outcome,
        Notified::Down(_) => panic!("no shutdown was asked for"),
    };
    assert!(outcome.request.is_none());
    let placement = placed(outcome.next);
    let (fresh, mode) = interest(&placement.register);
    assert!(!fresh);
    assert_eq!(flags(mode), (false, true, true, true));
    assert!(matches!(placement.timer, TimerAction::Arm(WRITING)));
    put_back(&mut handler, placement, 22);

    // A first write takes a part of it.
    let mut flight = flight(handler.ready(token, writable()));
    assert!(matches!(flight.wanted(), Want::Write));
    assert_eq!(flight.write_parts().1, &bytes[..]);
    let outcome = settled(handler.write_done(flight, WriteOutcome::Written(30)));
    let placement = placed(outcome.next);
    // Still writing: the registration, which lasts for one report, is
    // renewed; the timer is not touched.
    let (fresh, mode) = interest(&placement.register);
    assert!(!fresh);
    assert_eq!(flags(mode), (false, true, true, true));
    assert!(matches!(placement.timer, TimerAction::Keep(22)));
    put_back(&mut handler, placement, 0);

    // A second write takes the rest.
    let mut flight = flight_of(&mut handler, token);
    assert_eq!(flight.write_parts().1, &bytes[30..]);
    assert_eq!(*flight.stream_mut(), 11);
    let rest = flight.write_parts().1.len();
    let outcome = settled(handler.write_done(flight, WriteOutcome::Written(rest)));
    match &outcome.log {
        LogMessage::Message(text) => assert_eq!(text, "keep alive"),
        _ => panic!("expected a message"),
    }
    let placement = placed(outcome.next);
    assert_eq!(placement.connection.get_name(), "ReadingRequest");
    let (fresh, mode) = interest(&placement.register);
    assert!(!fresh);
    assert_eq!(flags(mode), (true, false, true, true));
    // The write timer runs on: a timer that runs is never moved.
    assert!(matches!(placement.timer, TimerAction::Keep(22)));
    put_back(&mut handler, placement, 0);
    assert_eq!(handler.connections(), 1);
    assert!(!handler.test_close_mio());
}

fn flight_of(handler: &mut Handler, token: usize) -> InFlight<u32, u16, u64> {
    flight(handler.ready(token, writable()))
}

#[test]
fn a_connection_that_is_not_kept_is_closed_with_its_timer() {
    let mut handler = handler();
    let token = accept(&mut handler, 11, 21);
    let outcome = request(&mut handler, token, b"GET /a HTTP/1.1\r\n\r\n");
    put_back(&mut handler, placed(outcome.next), 0);
    let response = Response::create(Code::Code200, Type::TextHtml, "bye".to_owned());
    let outcome = match handler.notify(MioMessage::Response(token, response)) {
        Notified::Settled(outcome) => outcome,
        Notified::Down(_) => panic!("no shutdown was asked for"),
    };
    put_back(&mut handler, placed(outcome.next), 33);
    let mut flight = flight_of(&mut handler, token);
    let total = flight.write_parts().1.len();
    let outcome = settled(handler.write_done(flight, WriteOutcome::Written(total)));
    match outcome.next {
        Next::Close(stream, timer) => {
            assert_eq!(stream, 11);
            assert_eq!(timer, Some(33));
        }
        _ => panic!("the connection was to end"),
    }
    assert_eq!(handler.connections(), 0);
}

#[test]
fn an_idle_connection_is_closed_by_its_timeout() {
    let mut handler = handler();
    let idle = accept(&mut handler, 11, 21);
    let other = accept(&mut handler, 12, 22);
    assert_eq!(handler.connections(), 2);
    let outcome = handler.timeout(idle);
    match outcome.log {
        LogMessage::Message(text) => assert_eq!(text, "timeout trigger - reading request"),
        _ => panic!("expected a message"),
    }
    assert!(outcome.request.is_none());
    assert!(outcome.released.is_none());
    match outcome.next {
        Next::Close(stream, timer) => {
            assert_eq!(stream, 11);
            assert_eq!(timer, Some(21));
        }
        _ => panic!("the connection was to end"),
    }
    // The entry is gone, the other connection is untouched.
    assert_eq!(handler.connections(), 1);
    assert!(matches!(handler.timeout(idle).next, Next::Missing));
    let flight = flight(handler.ready(other, readable()));
    assert_eq!(flight.id(), other);
}

#[test]
fn a_slow_reader_is_closed_by_the_write_timeout() {
    let mut handler = handler();
    let token = accept(&mut handler, 11, 21);
    let outcome = request(&mut handler, token, b"GET /a HTTP/1.1\r\nConnection: keep-alive\r\n\r\n");
    put_back(&mut handler, placed(outcome.next), 0);
    let outcome = match handler.notify(MioMessage::Response(token, Response::create_500())) {
        Notified::Settled(outcome) => outcome,
        Notified::Down(_) => panic!("no shutdown was asked for"),
    };
    put_back(&mut handler, placed(outcome.next), 44);
    let outcome = handler.timeout(token);
    match outcome.next {
        Next::Close(stream, timer) => {
            assert_eq!(stream, 11);
            assert_eq!(timer, Some(44));
        }
        _ => panic!("the connection was to end"),
    }
    assert_eq!(handler.connections(), 0);
}

#[test]
fn a_refused_request_is_answered_and_closed() {
    let mut handler = handler();
    let token = accept(&mut handler, 11, 21);
    let outcome = request(&mut handler, token, b"GET / HTTP/7.7\r\n\r\n");
    assert!(outcome.request.is_none());
    let placement = placed(outcome.next);
    assert_eq!(placement.connection.unsent(), &Response::create_400().as_bytes()[..]);
    let (_, mode) = interest(&placement.register);
    assert_eq!(flags(mode), (false, true, true, true));
    // The read timer is running and is left alone.
    assert!(matches!(placement.timer, TimerAction::Keep(21)));
    put_back(&mut handler, placement, 0);
    let mut flight = flight_of(&mut handler, token);
    let total = flight.write_parts().1.len();
    let outcome = settled(handler.write_done(flight, WriteOutcome::Written(total)));
    assert!(matches!(outcome.next, Next::Close(11, Some(21))));
}

#[test]
fn the_body_of_a_post_is_read_and_handed_over() {
    let mut handler = handler();
    let token = accept(&mut handler, 11, 21);
    let outcome = request(
        &mut handler,
        token,
        b"POST /form HTTP/1.1\r\nContent-Length: 10\r\nConnection: keep-alive\r\n\r\nabcd",
    );
    assert!(outcome.request.unwrap().is_post());
    let placement = placed(outcome.next);
    assert_eq!(placement.connection.get_name(), "WaitingForServerResponse (post data)");
    // The client still owes bytes: the timer runs on.
    assert!(matches!(placement.timer, TimerAction::Keep(21)));
    put_back(&mut handler, placement, 0);

    let outcome = match handler.notify(MioMessage::GetPost(token, 77)) {
        Notified::Settled(outcome) => outcome,
        Notified::Down(_) => panic!("no shutdown was asked for"),
    };
    assert!(outcome.released.is_none());
    let placement = placed(outcome.next);
    let (_, mode) = interest(&placement.register);
    assert_eq!(flags(mode), (true, false, true, true));
    assert!(matches!(placement.timer, TimerAction::Keep(21)));
    put_back(&mut handler, placement, 0);

    let flight = flight(handler.ready(token, readable()));
    assert!(matches!(flight.wanted(), Want::Read(6)));
    let step = handler.read_done(flight, ReadOutcome::Data(b"efg".to_vec()));
    let flight = match step {
        ReadyStep::Io(flight) => flight,
        _ => panic!("the body is short: another read is due"),
    };
    assert!(matches!(flight.wanted(), Want::Read(3)));
    let outcome = settled(handler.read_done(flight, ReadOutcome::Data(b"hij".to_vec())));
    assert_eq!(outcome.released, Some((77, Some(b"abcdefghij".to_vec()))));
    let placement = placed(outcome.next);
    assert_eq!(placement.connection.get_name(), "WaitingForServerResponse (post complete)");
    let (_, mode) = interest(&placement.register);
    assert_eq!(flags(mode), (false, false, true, true));
    assert!(matches!(placement.timer, TimerAction::Clear(21)));
    put_back(&mut handler, placement, 0);
}

#[test]
fn a_body_that_came_whole_is_handed_over_at_once() {
    let mut handler = handler();
    let token = accept(&mut handler, 11, 21);
    let outcome = request(&mut handler, token, b"POST /form HTTP/1.1\r\nContent-Length: 4\r\n\r\nabcd");
    put_back(&mut handler, placed(outcome.next), 0);
    let outcome = match handler.notify(MioMessage::GetPost(token, 77)) {
        Notified::Settled(outcome) => outcome,
        Notified::Down(_) => panic!("no shutdown was asked for"),
    };
    assert_eq!(outcome.released, Some((77, Some(b"abcd".to_vec()))));
    let placement = placed(outcome.next);
    assert_eq!(placement.connection.get_name(), "WaitingForServerResponse (post complete)");
    assert!(matches!(placement.register, RegisterAction::Nothing));
    assert!(matches!(placement.timer, TimerAction::Clear(21)));
}

#[test]
fn a_body_that_does_not_come_is_given_up() {
    let mut handler = handler();
    let token = accept(&mut handler, 11, 21);
    let outcome = request(&mut handler, token, b"POST /form HTTP/1.1\r\nContent-Length: 10\r\n\r\nab");
    put_back(&mut handler, placed(outcome.next), 0);
    let outcome = match handler.notify(MioMessage::GetPost(token, 77)) {
        Notified::Settled(outcome) => outcome,
        Notified::Down(_) => panic!("no shutdown was asked for"),
    };
    put_back(&mut handler, placed(outcome.next), 0);

    let outcome = handler.timeout(token);
    assert_eq!(outcome.released, Some((77, None)));
    match &outcome.log {
        LogMessage::Message(text) => assert_eq!(text, "timeout trigger - reading post data"),
        _ => panic!("expected a message"),
    }
    // The connection is not closed: the application may still answer.
    let placement = placed(outcome.next);
    assert_eq!(placement.connection.get_name(), "WaitingForServerResponse (post complete)");
    let (_, mode) = interest(&placement.register);
    assert_eq!(flags(mode), (false, false, true, true));
    assert!(matches!(placement.timer, TimerAction::Clear(21)));
    put_back(&mut handler, placement, 0);
    assert_eq!(handler.connections(), 1);
    let outcome = match handler.notify(MioMessage::Response(token, Response::create_400())) {
        Notified::Settled(outcome) => outcome,
        Notified::Down(_) => panic!("no shutdown was asked for"),
    };
    let placement = placed(outcome.next);
    assert_eq!(placement.connection.unsent(), &Response::create_400().as_bytes()[..]);
    assert!(matches!(placement.timer, TimerAction::Arm(WRITING)));
}

#[test]
fn a_response_while_the_body_is_read() {
    let mut handler = handler();
    let token = accept(&mut handler, 11, 21);
    let outcome = request(&mut handler, token, b"POST /form HTTP/1.1\r\nContent-Length: 10\r\n\r\nab");
    put_back(&mut handler, placed(outcome.next), 0);
    let outcome = match handler.notify(MioMessage::GetPost(token, 77)) {
        Notified::Settled(outcome) => outcome,
        Notified::Down(_) => panic!("no shutdown was asked for"),
    };
    put_back(&mut handler, placed(outcome.next), 0);
    let outcome = match handler.notify(MioMessage::Response(token, Response::create_500())) {
        Notified::Settled(outcome) => outcome,
        Notified::Down(_) => panic!("no shutdown was asked for"),
    };
    assert_eq!(outcome.released, Some((77, None)));
    let placement = placed(outcome.next);
    assert_eq!(placement.connection.unsent(), &Response::create_500().as_bytes()[..]);
    let (_, mode) = interest(&placement.register);
    assert_eq!(flags(mode), (false, true, true, true));
    assert!(matches!(placement.timer, TimerAction::Keep(21)));
}

#[test]
fn a_head_in_pieces_renews_the_registration_each_time() {
    let mut handler = handler();
    let token = accept(&mut handler, 11, 21);
    let outcome = request(&mut handler, token, b"GET /a HT");
    assert!(outcome.request.is_none());
    let placement = placed(outcome.next);
    assert_eq!(placement.connection.get_name(), "ReadingRequest");
    let (fresh, mode) = interest(&placement.register);
    assert!(!fresh);
    assert_eq!(flags(mode), (true, false, true, true));
    // The read timer is not moved by the bytes that came.
    assert!(matches!(placement.timer, TimerAction::Keep(21)));
    put_back(&mut handler, placement, 0);
    let flight = flight(handler.ready(token, readable()));
    assert!(matches!(flight.wanted(), Want::Read(2039)));
    let outcome = settled(handler.read_done(flight, ReadOutcome::Data(b"TP/1.1\r\n\r\n".to_vec())));
    assert_eq!(outcome.request.unwrap().path(), "/a");
}

#[test]
fn a_report_that_changes_nothing_renews_the_registration() {
    let mut handler = handler();
    let token = accept(&mut handler, 11, 21);
    let outcome = settled(handler.ready(token, writable()));
    let placement = placed(outcome.next);
    let (fresh, mode) = interest(&placement.register);
    assert!(!fresh);
    assert_eq!(flags(mode), (true, false, true, true));
    assert!(matches!(placement.timer, TimerAction::Keep(21)));
}

#[test]
fn an_error_on_the_socket_closes_the_connection() {
    let mut handler = handler();
    let token = accept(&mut handler, 11, 21);
    let events = Readiness { readable: true, writable: false, error: true, hup: false };
    let outcome = settled(handler.ready(token, events));
    assert!(matches!(outcome.log, LogMessage::Error(_)));
    assert!(matches!(outcome.next, Next::Close(11, Some(21))));
    assert_eq!(handler.connections(), 0);
}

#[test]
fn shutdown_stops_accepting_and_lets_connections_finish() {
    let mut handler = handler();
    let token = accept(&mut handler, 11, 21);
    let outcome = request(&mut handler, token, b"GET /a HTTP/1.1\r\nConnection: keep-alive\r\n\r\n");
    put_back(&mut handler, placed(outcome.next), 0);

    match handler.notify(MioMessage::Down) {
        Notified::Down(listener) => assert_eq!(listener, "listener"),
        Notified::Settled(_) => panic!("the listener was to be handed out"),
    }
    assert!(handler.is_server_down());
    assert!(handler.server().is_none());
    // A connection is still open: the loop goes on.
    assert_eq!(handler.connections(), 1);
    assert!(!handler.test_close_mio());
    // Nothing is accepted any more.
    assert_eq!(handler.new_connection(12).err(), Some(12));
    assert_eq!(handler.connections(), 1);

    // The connection in flight is served to its end.
    let response = Response::create(Code::Code200, Type::TextHtml, "last".to_owned());
    let outcome = match handler.notify(MioMessage::Response(token, response)) {
        Notified::Settled(outcome) => outcome,
        Notified::Down(_) => panic!("the server is down already"),
    };
    put_back(&mut handler, placed(outcome.next), 33);
    assert!(!handler.test_close_mio());
    let mut flight = flight_of(&mut handler, token);
    let total = flight.write_parts().1.len();
    let outcome = settled(handler.write_done(flight, WriteOutcome::Written(total)));
    // It asked to be kept, but a server that goes down keeps nothing.
    assert!(matches!(outcome.next, Next::Close(11, Some(33))));
    assert_eq!(handler.connections(), 0);
    assert!(handler.test_close_mio());
}

#[test]
fn shutdown_with_no_connection_stops_the_loop_at_once() {
    let mut handler = handler();
    assert!(!handler.test_close_mio());
    assert!(matches!(handler.notify(MioMessage::Down), Notified::Down("listener")));
    assert!(handler.test_close_mio());
}

#[test]
fn shutdown_leaves_an_idle_connection_to_its_timeout() {
    let mut handler = handler();
    let token = accept(&mut handler, 11, 21);
    assert!(matches!(handler.notify(MioMessage::Down), Notified::Down(_)));
    assert!(!handler.test_close_mio());
    assert!(matches!(handler.timeout(token).next, Next::Close(11, Some(21))));
    assert!(handler.test_close_mio());
}

#[test]
fn registrations() {
    let all = [Event::Init, Event::Write, Event::Read, Event::Quiet];
    for old in all.iter() {
        assert!(matches!(Handler::set_event(old, &Event::Init), RegisterAction::Nothing));
        for new in [Event::Write, Event::Read, Event::Quiet].iter() {
            let action = Handler::set_event(old, new);
            let (fresh, mode) = interest(&action);
            assert_eq!(fresh, *old == Event::Init);
            assert_eq!(
                flags(mode),
                (*new == Event::Read, *new == Event::Write, true, true)
            );
        }
    }
}

#[test]
fn timers() {
    let handler = handler();
    assert!(matches!(handler.set_timer(None, TimerMode::In), TimerAction::Arm(READING)));
    assert!(matches!(handler.set_timer(None, TimerMode::Out), TimerAction::Arm(WRITING)));
    assert!(matches!(handler.set_timer(None, TimerMode::Post), TimerAction::Arm(READING)));
    assert!(matches!(handler.set_timer(None, TimerMode::Off), TimerAction::Idle));
    assert!(matches!(handler.set_timer(Some(3), TimerMode::In), TimerAction::Keep(3)));
    assert!(matches!(handler.set_timer(Some(3), TimerMode::Out), TimerAction::Keep(3)));
    assert!(matches!(handler.set_timer(Some(3), TimerMode::Post), TimerAction::Keep(3)));
    assert!(matches!(handler.set_timer(Some(3), TimerMode::Off), TimerAction::Clear(3)));
}

#[test]
fn log_lines() {
    let mut handler = handler();
    assert_eq!(handler.log_text(0, "ready"), "miohttp 0 / 0 -> ready");
    accept(&mut handler, 11, 1);
    accept(&mut handler, 12, 2);
    assert_eq!(handler.log_text(17, "close connection"), "miohttp 17 / 2 -> close connection");
    assert_eq!(handler.log_text(usize::MAX, ""), format!("miohttp {} / 2 -> ", usize::MAX));
}

#[test]
fn the_transition_plans_registration_and_timer() {
    let handler = handler();
    // A connection that stays in its state keeps registration and timer.
    let outcome = handler.transform_connection(
        4, Event::Read, false, Some(8), Ok(Connection::new(11)), None, LogMessage::Silent,
    );
    let placement = placed(outcome.next);
    assert_eq!(placement.token, 4);
    assert!(matches!(placement.register, RegisterAction::Nothing));
    assert!(matches!(placement.timer, TimerAction::Keep(8)));
    // After a report of the event loop the registration is used up.
    let outcome = handler.transform_connection(
        4, Event::Read, true, Some(8), Ok(Connection::new(11)), None, LogMessage::Silent,
    );
    let placement = placed(outcome.next);
    let (fresh, mode) = interest(&placement.register);
    assert!(!fresh);
    assert_eq!(flags(mode), (true, false, true, true));
    assert!(matches!(placement.timer, TimerAction::Keep(8)));
    // One that is new is registered, and its timer started.
    let outcome = handler.transform_connection(
        4, Event::Init, false, None, Ok(Connection::new(11)), None, LogMessage::Silent,
    );
    let placement = placed(outcome.next);
    assert!(matches!(placement.register, RegisterAction::Register(_)));
    assert!(matches!(placement.timer, TimerAction::Arm(READING)));
    // One that has ended hands back socket and timer.
    let outcome = handler.transform_connection(
        4, Event::Read, true, Some(8), Err(11), None, LogMessage::Message("over".to_owned()),
    );
    assert!(matches!(outcome.next, Next::Close(11, Some(8))));
    match outcome.log {
        LogMessage::Message(text) => assert_eq!(text, "over"),
        _ => panic!("expected a message"),
    }
}
