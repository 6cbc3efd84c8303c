use codectrl_gui::session::{
    step, Connection, Event, GrpcConnection, Log, Outcome, RequestStatus, ServerDetails, Work,
};
use codectrl_gui::status::{Code, Status};

type State = GrpcConnection<u32, ()>;

fn log(message: &str) -> Log {
    Log {
        message: message.to_string(),
        file_name: "main.rs".to_string(),
        line_number: 7,
        address: "127.0.0.1".to_string(),
        time: "2022-01-01 00:00:00".to_string(),
    }
}

fn token(id: &str) -> Connection {
    Connection { connection_id: id.to_string() }
}

fn status(code: Code, message: &str) -> Status {
    Status::new(code, message.to_string())
}

fn run(state: State, outcome: Outcome<u32, ()>) -> (Event, State) {
    assert!(state.accepts(&outcome));
    step(state, outcome)
}

#[test]
fn unreachable_server_keeps_retrying_silently() {
    let mut state: State = GrpcConnection::new("127.0.0.1".to_string(), 3002);
    for _ in 0..5 {
        assert_eq!(state.work(), Work::Connect);
        let (event, next) = run(state, Outcome::Unreachable);
        assert!(matches!(event, Event::NoOp));
        match &next {
            GrpcConnection::NotConnected(host, port) => {
                assert_eq!(host, "127.0.0.1");
                assert_eq!(*port, 3002);
            },
            _ => panic!("left the not-connected stage"),
        }
        state = next;
    }
    let (event, next) = run(state, Outcome::Connected(9));
    assert!(matches!(event, Event::NoOp));
    assert!(matches!(next, GrpcConnection::Connected(9, None)));
}

#[test]
fn fresh_registration_publishes_details_once_before_logs() {
    let state: State = GrpcConnection::Connected(1, None);
    assert_eq!(state.work(), Work::RegisterNew);
    let mut events = vec![];
    let (e, state) = run(state, Outcome::Token(token("abc")));
    events.push(e);
    assert_eq!(state.work(), Work::FetchDetails);
    let details = ServerDetails { host: "127.0.0.1".to_string(), port: 3002, uptime: 42 };
    let (e, state) = run(state, Outcome::Details(details));
    events.push(e);
    assert_eq!(state.work(), Work::OpenStream);
    let (e, state) = run(state, Outcome::Opened(Some(Ok(log("first"))), ()));
    events.push(e);
    let (e, _state) = run(state, Outcome::Pulled(None));
    events.push(e);

    let updates: Vec<usize> = events
        .iter()
        .enumerate()
        .filter(|(_, e)| matches!(e, Event::UpdateDetails(_)))
        .map(|(i, _)| i)
        .collect();
    assert_eq!(updates.len(), 1);
    match &events[updates[0]] {
        Event::UpdateDetails(d) => {
            assert_eq!(d.host, "127.0.0.1");
            assert_eq!(d.port, 3002);
            assert_eq!(d.uptime, 42);
        },
        _ => unreachable!(),
    }
    let first_append = events.iter().position(|e| matches!(e, Event::AppendLog(_))).unwrap();
    assert!(updates[0] < first_append);
}

fn stream_logs(logs: Vec<Log>) -> (Vec<String>, Vec<Event>, State) {
    let mut items: Vec<Option<Result<Log, Status>>> = logs.into_iter().map(|l| Some(Ok(l))).collect();
    items.push(None);
    let mut items = items.into_iter();
    let (e, mut state) = run(
        GrpcConnection::Registered(4, token("t")),
        Outcome::Opened(items.next().unwrap(), ()),
    );
    let mut others = vec![e];
    let mut appended = vec![];
    loop {
        let outcome = match state.work() {
            Work::PullNext => Outcome::Pulled(items.next().unwrap_or(None)),
            Work::Decide => Outcome::Idle,
            _ => break,
        };
        let (e, next) = run(state, outcome);
        state = next;
        match e {
            Event::AppendLog(l) => appended.push(l.message),
            other => others.push(other),
        }
    }
    (appended, others, state)
}

#[test]
fn stream_then_close_reopens_without_errors() {
    let (appended, others, state) = stream_logs(vec![log("logA"), log("logB")]);
    assert_eq!(appended, vec!["logA".to_string(), "logB".to_string()]);
    assert!(others.iter().all(|e| !matches!(e, Event::ReportError(_) | Event::TokenRejected)));
    match &state {
        GrpcConnection::Registered(4, t) => assert_eq!(t.connection_id, "t"),
        _ => panic!("did not return to the registered stage"),
    }
    assert_eq!(state.work(), Work::OpenStream);
}

#[test]
fn stream_keeps_transport_order() {
    let (appended, _, _) = stream_logs(vec![log("A"), log("B"), log("C")]);
    assert_eq!(appended, vec!["A".to_string(), "B".to_string(), "C".to_string()]);
}

#[test]
fn benign_error_resumes_with_same_token() {
    for code in [Code::Success, Code::ResourceExhausted] {
        let state: State = GrpcConnection::Error(status(code, "busy"), 3, Some(token("keep")));
        assert_eq!(state.work(), Work::Decide);
        let (event, next) = run(state, Outcome::Idle);
        assert!(matches!(event, Event::NoOp));
        match next {
            GrpcConnection::Registered(3, t) => assert_eq!(t.connection_id, "keep"),
            _ => panic!("did not resume"),
        }
    }
}

#[test]
fn fatal_error_reports_and_reregisters() {
    let state: State = GrpcConnection::Error(status(Code::Unavailable, "gone"), 3, Some(token("keep")));
    let (event, next) = run(state, Outcome::Idle);
    match event {
        Event::ReportError(st) => {
            assert_eq!(st.code, Code::Unavailable);
            assert_eq!(st.message, "gone");
        },
        _ => panic!("no error reported"),
    }
    match next {
        GrpcConnection::Connected(3, Some(t)) => assert_eq!(t.connection_id, "keep"),
        _ => panic!("did not fall back to registration"),
    }
}

#[test]
fn benign_error_without_token_reregisters() {
    let state: State = GrpcConnection::Error(status(Code::Success, ""), 3, None);
    let (event, next) = run(state, Outcome::Idle);
    assert!(matches!(event, Event::ReportError(_)));
    assert!(matches!(next, GrpcConnection::Connected(3, None)));
}

#[test]
fn fresh_registration_failure_has_no_token() {
    let state: State = GrpcConnection::Connected(2, None);
    let (event, next) = run(state, Outcome::Failed(status(Code::Internal, "no")));
    assert!(matches!(event, Event::NoOp));
    match next {
        GrpcConnection::Error(st, 2, None) => assert_eq!(st.code, Code::Internal),
        _ => panic!("wrong stage"),
    }
}

#[test]
fn resumed_stream_failure_keeps_token() {
    let state: State = GrpcConnection::Error(status(Code::ResourceExhausted, "slow"), 5, Some(token("T")));
    let (_, state) = run(state, Outcome::Idle);
    let (_, state) = run(state, Outcome::Failed(status(Code::Unavailable, "closed")));
    match state {
        GrpcConnection::Error(st, 5, Some(t)) => {
            assert_eq!(st.code, Code::Unavailable);
            assert_eq!(t.connection_id, "T");
        },
        _ => panic!("token lost"),
    }
}

#[test]
fn existing_token_confirmed_fetches_details() {
    let state: State = GrpcConnection::Connected(6, Some(token("old")));
    assert_eq!(state.work(), Work::RegisterExisting);
    let (event, next) = run(state, Outcome::Reply(RequestStatus::Confirmed));
    assert!(matches!(event, Event::RefreshDetails));
    match next {
        GrpcConnection::FetchingDetails(6, t) => assert_eq!(t.connection_id, "old"),
        _ => panic!("wrong stage"),
    }
}

#[test]
fn existing_token_rejected_registers_anew() {
    let state: State = GrpcConnection::Connected(6, Some(token("old")));
    let (event, next) = run(state, Outcome::Reply(RequestStatus::Error));
    assert!(matches!(event, Event::TokenRejected));
    assert!(matches!(next, GrpcConnection::Connected(6, None)));
}

#[test]
fn existing_token_transport_fault_keeps_token() {
    let state: State = GrpcConnection::Connected(6, Some(token("old")));
    let (event, next) = run(state, Outcome::Failed(status(Code::Unavailable, "x")));
    assert!(matches!(event, Event::NoOp));
    assert!(matches!(next, GrpcConnection::Error(_, 6, Some(_))));
}

#[test]
fn details_failure_keeps_token() {
    let state: State = GrpcConnection::FetchingDetails(8, token("d"));
    let (event, next) = run(state, Outcome::Failed(status(Code::DeadlineExceeded, "late")));
    assert!(matches!(event, Event::RefreshDetails));
    match next {
        GrpcConnection::Error(st, 8, Some(t)) => {
            assert_eq!(st.code, Code::DeadlineExceeded);
            assert_eq!(t.connection_id, "d");
        },
        _ => panic!("wrong stage"),
    }
}

#[test]
fn stream_item_error_demotes_to_error_stage() {
    let state: State = GrpcConnection::Streaming(
        (Some(Err(status(Code::DataLoss, "broken"))), ()),
        1,
        token("s"),
    );
    assert_eq!(state.work(), Work::Decide);
    let (event, next) = run(state, Outcome::Idle);
    assert!(matches!(event, Event::RefreshDetails));
    match next {
        GrpcConnection::Error(st, 1, Some(t)) => {
            assert_eq!(st.message, "broken");
            assert_eq!(t.connection_id, "s");
        },
        _ => panic!("wrong stage"),
    }
}

#[test]
fn outcomes_that_do_not_fit_are_refused() {
    let state: State = GrpcConnection::NotConnected("h".to_string(), 1);
    assert!(!state.accepts(&Outcome::Idle));
    assert!(!state.accepts(&Outcome::Token(token("x"))));
    let state: State = GrpcConnection::Registered(1, token("x"));
    assert!(!state.accepts(&Outcome::Pulled(None)));
    assert!(state.accepts(&Outcome::Failed(status(Code::Aborted, ""))));
}

#[test]
fn benign_codes() {
    assert!(status(Code::Success, "").is_benign());
    assert!(status(Code::ResourceExhausted, "").is_benign());
    assert!(!status(Code::Cancelled, "").is_benign());
    assert!(!status(Code::Unauthenticated, "").is_benign());
}
