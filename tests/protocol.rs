use snas::frame::{
    Connection, ConnectionAction, ConnectionEvent, drain_budget, drain_outcome, frame_request, frame_response, response_envelope, Drain,
    DrainRead, FrameStage, ParseStep, ReadStep, RequestParser, MISBEHAVING_LIMIT,
};

/// Cuts the next token from `stream` the way a reader following `step` would.
fn cut(step: ReadStep, stream: &[u8]) -> usize {
    match step {
        ReadStep::Exact(n) => n.min(stream.len()),
        ReadStep::Until(d) => match stream.iter().position(|b| *b == d) {
            Some(i) => i + 1,
            None => stream.len(),
        },
    }
}

/// Feeds `stream` to the parser token by token until it is used up or a request ends.
fn read_one(parser: &mut RequestParser, stream: &mut Vec<u8>) -> ParseStep {
    loop {
        let n = cut(parser.next_read(), stream);
        let token: Vec<u8> = stream.drain(..n).collect();
        match parser.accept(token) {
            ParseStep::Continue => {
                if stream.is_empty() {
                    return ParseStep::Continue;
                }
            }
            other => return other,
        }
    }
}

const BODY: &[u8] = b"{\"foo\": \"hello\", \"bar\": 123}";

#[test]
fn protocol_good_requests() {
    let req = frame_request("coolmethod", BODY);
    let mut expected = b"REQ\ncoolmethod\n".to_vec();
    expected.extend_from_slice(BODY);
    expected.extend_from_slice(b"\r\nEND\n");
    assert_eq!(req, expected);

    let mut parser = RequestParser::new();
    let mut stream = req.clone();
    stream.extend_from_slice(&req);
    for _ in 0..2 {
        match read_one(&mut parser, &mut stream) {
            ParseStep::Request(method, body) => {
                assert_eq!(method, "coolmethod", "Method should be correct");
                assert_eq!(body, BODY, "Body should be correct");
            }
            other => panic!("Should be able to parse incoming body, got {other:?}"),
        }
        assert_eq!(parser.stage(), FrameStage::Identifier);
    }
    assert!(stream.is_empty());
}

#[test]
fn protocol_timeouts_follow_stage() {
    let mut parser = RequestParser::new();
    assert!(!parser.timed());
    assert_eq!(parser.next_read(), ReadStep::Exact(4));
    assert!(matches!(parser.accept(b"REQ\n".to_vec()), ParseStep::Continue));
    assert!(parser.timed());
    assert_eq!(parser.next_read(), ReadStep::Until(b'\n'));
    assert!(matches!(parser.accept(b"m\n".to_vec()), ParseStep::Continue));
    assert_eq!(parser.next_read(), ReadStep::Until(b'\r'));
    assert!(matches!(parser.accept(b"{}\r".to_vec()), ParseStep::Continue));
    assert_eq!(parser.next_read(), ReadStep::Exact(5));
}

#[test]
fn protocol_bad_requests_then_resync() {
    let mut parser = RequestParser::new();
    let mut stream = b"garbage".to_vec();
    assert!(matches!(read_one(&mut parser, &mut stream), ParseStep::BadRequest(_)));
    assert_eq!(parser.stage(), FrameStage::Identifier);

    // Interrupted after the method: the body token has no carriage return.
    let mut stream = b"REQ\ncoolmethod\n".to_vec();
    assert!(matches!(read_one(&mut parser, &mut stream), ParseStep::Continue));
    assert!(matches!(parser.accept(Vec::new()), ParseStep::BadRequest(_)));

    // Garbage terminator.
    let mut stream = b"REQ\ncoolmethod\n".to_vec();
    stream.extend_from_slice(BODY);
    stream.extend_from_slice(b"\rgarbage");
    assert!(matches!(read_one(&mut parser, &mut stream), ParseStep::BadRequest(_)));
    assert_eq!(parser.stage(), FrameStage::Identifier);

    // A valid request right after is read correctly.
    let mut stream = frame_request("coolmethod", BODY);
    match read_one(&mut parser, &mut stream) {
        ParseStep::Request(method, _) => assert_eq!(method, "coolmethod"),
        other => panic!("Should be able to handle subsequent valid request, got {other:?}"),
    }

    // A method that is not UTF-8.
    let mut stream = b"REQ\n".to_vec();
    stream.extend_from_slice(&[99, 111, 255, b'\n']);
    stream.extend_from_slice(BODY);
    stream.extend_from_slice(b"\r\nEND\n");
    assert!(matches!(read_one(&mut parser, &mut stream), ParseStep::BadRequest(_)));

    // A method token cut short by the end of the stream.
    let mut parser = RequestParser::new();
    assert!(matches!(parser.accept(b"REQ\n".to_vec()), ParseStep::Continue));
    assert!(matches!(parser.accept(b"cool".to_vec()), ParseStep::BadRequest(_)));
    assert!(matches!(parser.accept(b"REQ\n".to_vec()), ParseStep::Continue));
    assert!(matches!(parser.accept(Vec::new()), ParseStep::BadRequest(_)));
}

#[test]
fn drain_limits() {
    assert_eq!(drain_budget(0), Some(MISBEHAVING_LIMIT));
    assert_eq!(drain_budget(12), Some(2036));
    assert_eq!(drain_budget(3000), None);
    assert_eq!(drain_budget(2048), None);
    // 3000 bytes of garbage fill the whole budget of the drain read.
    assert_eq!(drain_outcome(2048, DrainRead::Bytes(2048)), Drain::TooMuchGarbage);
    assert_eq!(drain_outcome(2048, DrainRead::Bytes(7)), Drain::Resynced);
    assert_eq!(drain_outcome(2048, DrainRead::Bytes(0)), Drain::Closed);
    assert_eq!(drain_outcome(2048, DrainRead::TimedOut), Drain::Resynced);
    assert_eq!(drain_outcome(2048, DrainRead::Failed), Drain::Failed);
}

#[test]
fn response_frames() {
    let env = b"{\"success\":true,\"message\":\"ok\"}";
    let frame = frame_response(env);
    let mut expected = b"RES\n".to_vec();
    expected.extend_from_slice(env);
    expected.extend_from_slice(b"\nEND\n");
    assert_eq!(frame, expected);

    let ident = &frame[..4];
    let line_end = 4 + frame[4..].iter().position(|b| *b == b'\n').unwrap() + 1;
    let line = frame[4..line_end].to_vec();
    let tail = &frame[line_end..];
    assert_eq!(response_envelope(ident, line.clone(), tail), Some(env.to_vec()));
    assert_eq!(response_envelope(b"REQ\n", line.clone(), tail), None);
    assert_eq!(response_envelope(ident, line, b"EN\n\n"), None);
    assert_eq!(response_envelope(ident, b"{}".to_vec(), tail), None);
}

/// Runs a connection over `stream` until it asks for something other than a read.
fn run(conn: &mut Connection, stream: &mut Vec<u8>) -> ConnectionAction {
    let mut action = conn.next_read();
    loop {
        match action {
            ConnectionAction::Read(step, _) => {
                if stream.is_empty() {
                    return conn.on_event(ConnectionEvent::Closed);
                }
                let n = cut(step, stream);
                let token: Vec<u8> = stream.drain(..n).collect();
                action = conn.on_event(ConnectionEvent::Token(token));
            }
            other => return other,
        }
    }
}

#[test]
fn connection_answers_garbage_then_resyncs() {
    let mut conn = Connection::new();
    let mut stream = b"garbage".to_vec();
    assert!(matches!(run(&mut conn, &mut stream), ConnectionAction::DrainLeftover));
    match conn.on_event(ConnectionEvent::Drained(Drain::Resynced)) {
        ConnectionAction::SendError(m) => assert_eq!(m, "Invalid request identifier"),
        other => panic!("expected an error envelope, got {other:?}"),
    }
    let mut stream = frame_request("verify", b"{}");
    match run(&mut conn, &mut stream) {
        ConnectionAction::Handle(method, body) => {
            assert_eq!(method, "verify");
            assert_eq!(body, b"{}");
        }
        other => panic!("the valid frame should be answered, got {other:?}"),
    }
    assert!(matches!(run(&mut conn, &mut Vec::new()), ConnectionAction::Close));
}

#[test]
fn connection_gives_up_on_too_much_garbage() {
    let mut conn = Connection::new();
    let mut stream = vec![12u8; 3000];
    assert!(matches!(run(&mut conn, &mut stream), ConnectionAction::DrainLeftover));
    // The rest of the garbage already sits in the read buffer: more than the limit.
    assert_eq!(stream.len(), 2996);
    let drained = match drain_budget(stream.len()) {
        None => Drain::TooMuchGarbage,
        Some(b) => drain_outcome(b, DrainRead::Bytes(b)),
    };
    assert_eq!(drained, Drain::TooMuchGarbage);
    assert!(matches!(conn.on_event(ConnectionEvent::Drained(drained)), ConnectionAction::Abort));
}

#[test]
fn connection_timeouts_and_failures() {
    let mut conn = Connection::new();
    assert!(matches!(conn.next_read(), ConnectionAction::Read(ReadStep::Exact(4), false)));
    assert!(matches!(
        conn.on_event(ConnectionEvent::Token(b"REQ\n".to_vec())),
        ConnectionAction::Read(ReadStep::Until(b'\n'), true)
    ));
    assert!(matches!(conn.on_event(ConnectionEvent::TimedOut), ConnectionAction::DrainLeftover));
    match conn.on_event(ConnectionEvent::Drained(Drain::Resynced)) {
        ConnectionAction::SendError(m) => assert_eq!(m, "Timed out reading request"),
        other => panic!("expected an error envelope, got {other:?}"),
    }
    assert!(matches!(conn.next_read(), ConnectionAction::Read(ReadStep::Exact(4), false)));
    assert!(matches!(conn.on_event(ConnectionEvent::ReadFailed), ConnectionAction::Abort));
    assert!(matches!(
        conn.on_event(ConnectionEvent::Drained(Drain::Closed)),
        ConnectionAction::Close
    ));
}
