use ws_endpoint::connection::{
    accept, handle_frame_bytes, handle_request_bytes, is_routable, route_request, step,
    Action, ConnectionState, Event, Transition, ACKNOWLEDGMENT, MAX_HEADERS, ROOT_PATH,
    WEBSOCKET_PATH,
};
use ws_endpoint::error::ConnectionError;
use ws_endpoint::frame::{encode_frame, encode_masked_frame, Opcode};
use ws_endpoint::page::generate_connect_websocket_response;
use ws_endpoint::request::{HeaderField, IncomingRequest};

const HANDSHAKE_REQUEST: &[u8] = b"GET /websocket HTTP/1.1\r\n\
Host: localhost:8080\r\n\
Upgrade: websocket\r\n\
Connection: Upgrade\r\n\
Sec-WebSocket-Key: dGhlIHNhbXBsZSBub25jZQ==\r\n\
Sec-WebSocket-Protocol: test, chat\r\n\
Sec-WebSocket-Version: 13\r\n\r\n";

const HANDSHAKE_RESPONSE: &[u8] = b"HTTP/1.1 101 Switching Protocols\r\n\
Upgrade: websocket\r\n\
Connection: Upgrade\r\n\
Sec-WebSocket-Accept: s3pPLMBiTxaQ9kYGzzhZRbK+xOo=\r\n\
Sec-WebSocket-Protocol: chat\r\n\r\n";

fn closed(error: Option<ConnectionError>) -> Transition {
    Transition { state: ConnectionState::Closed, action: Action::Close, error }
}

fn reading(state: ConnectionState) -> Transition {
    Transition { state, action: Action::Read, error: None }
}

fn request(path: &str, headers: &[(&str, &[u8])]) -> IncomingRequest {
    IncomingRequest {
        path: path.to_string(),
        headers: headers
            .iter()
            .map(|(name, value)| HeaderField { name: name.to_string(), value: value.to_vec() })
            .collect(),
    }
}

fn get(path: &str) -> Vec<u8> {
    format!("GET {} HTTP/1.1\r\nHost: localhost:8080\r\n\r\n", path).into_bytes()
}

#[test]
fn constants() {
    assert_eq!(ROOT_PATH, "/");
    assert_eq!(WEBSOCKET_PATH, "/websocket");
    assert_eq!(ACKNOWLEDGMENT, "Hello");
    assert_eq!(MAX_HEADERS, 16);
}

#[test]
fn a_connection_starts_by_reading() {
    assert_eq!(accept(), reading(ConnectionState::AwaitingRequest));
}

#[test]
fn end_to_end_handshake_and_one_text_message() {
    let opened = accept();
    assert_eq!(opened.action, Action::Read);

    let upgraded = step(opened.state, Event::Received(HANDSHAKE_REQUEST.to_vec()));
    assert_eq!(upgraded.state, ConnectionState::HandshakeSent);
    assert_eq!(upgraded.error, None);
    assert_eq!(upgraded.action, Action::Write(HANDSHAKE_RESPONSE.to_vec()));
    let response = match &upgraded.action {
        Action::Write(bytes) => String::from_utf8(bytes.clone()).unwrap(),
        other => panic!("no write: {:?}", other),
    };
    assert!(response.starts_with("HTTP/1.1 101 Switching Protocols\r\n"));
    assert!(response.contains("Sec-WebSocket-Accept: s3pPLMBiTxaQ9kYGzzhZRbK+xOo=\r\n"));

    let streaming = step(upgraded.state, Event::Written);
    assert_eq!(streaming, reading(ConnectionState::Streaming));

    let message = encode_masked_frame(Opcode::Text, &[0x12, 0x34, 0x56, 0x78], b"test");
    let answered = step(streaming.state, Event::Received(message));
    assert_eq!(
        answered,
        Transition {
            state: ConnectionState::Streaming,
            action: Action::Reply {
                message: "test".to_string(),
                frame: vec![129, 5, 72, 101, 108, 108, 111],
            },
            error: None,
        }
    );

    let again = step(answered.state, Event::Written);
    assert_eq!(again, reading(ConnectionState::Streaming));

    let over = step(again.state, Event::EndOfStream);
    assert_eq!(over, closed(None));
}

#[test]
fn acknowledgment_is_a_text_frame_with_the_fixed_payload() {
    let message = encode_masked_frame(Opcode::Text, &[1, 1, 1, 1], b"anything at all");
    match handle_frame_bytes(&message).action {
        Action::Reply { message, frame } => {
            assert_eq!(message, "anything at all");
            assert_eq!(frame, encode_frame(Opcode::Text, ACKNOWLEDGMENT.as_bytes()));
            assert_eq!(frame, encode_frame(Opcode::Text, b"Hello"));
        }
        other => panic!("no reply: {:?}", other),
    }
}

#[test]
fn root_path_gets_the_page_and_then_the_connection_ends() {
    let served = step(ConnectionState::AwaitingRequest, Event::Received(get("/")));
    assert_eq!(served.state, ConnectionState::RespondedPlain);
    assert_eq!(served.error, None);
    assert_eq!(served.action, Action::Write(generate_connect_websocket_response().into_bytes()));
    assert_eq!(step(served.state, Event::Written), closed(None));
}

#[test]
fn other_paths_close_with_nothing_written() {
    for path in ["/index.html", "/websocket/", "/websocket2", "/Websocket", "//", "/?", "*", "/a/b"] {
        let transition = step(ConnectionState::AwaitingRequest, Event::Received(get(path)));
        assert_eq!(transition, closed(None), "path {}", path);
    }
}

#[test]
fn other_paths_close_even_with_a_key() {
    let bytes = b"GET /chat HTTP/1.1\r\nSec-WebSocket-Key: dGhlIHNhbXBsZSBub25jZQ==\r\n\r\n";
    assert_eq!(handle_request_bytes(bytes), closed(None));
    let parsed = request("/chat", &[("Sec-WebSocket-Key", b"dGhlIHNhbXBsZSBub25jZQ==")]);
    assert_eq!(route_request(&parsed), closed(None));
    assert_eq!(route_request(&request("", &[])), closed(None));
}

#[test]
fn routing_a_parsed_request() {
    let page = route_request(&request("/", &[]));
    assert_eq!(page.state, ConnectionState::RespondedPlain);
    assert_eq!(page.action, Action::Write(generate_connect_websocket_response().into_bytes()));

    let upgrade =
        route_request(&request("/websocket", &[("Sec-WebSocket-Key", b"dGhlIHNhbXBsZSBub25jZQ==")]));
    assert_eq!(
        upgrade,
        Transition {
            state: ConnectionState::HandshakeSent,
            action: Action::Write(HANDSHAKE_RESPONSE.to_vec()),
            error: None,
        }
    );

    let no_key = route_request(&request("/websocket", &[("Host", b"localhost")]));
    assert_eq!(no_key, closed(Some(ConnectionError::MissingHandshakeKey)));
}

#[test]
fn request_bytes_are_read_by_the_tokenizer() {
    // would fail if the bytes were taken for the path, or the request made up
    let with_key = handle_request_bytes(HANDSHAKE_REQUEST);
    assert_eq!(with_key.action, Action::Write(HANDSHAKE_RESPONSE.to_vec()));
    let other_key = handle_request_bytes(
        b"POST /websocket HTTP/1.0\r\nSec-WebSocket-Key: x3JJHMbDL1EzLkh9GBhXDw==\r\n\r\nbody",
    );
    match other_key.action {
        Action::Write(bytes) => {
            let text = String::from_utf8(bytes).unwrap();
            assert!(text.contains("Sec-WebSocket-Accept: HSmrc0sMlYUkAGmm5OPpG2HaGWk=\r\n"));
        }
        other => panic!("no write: {:?}", other),
    }
}

#[test]
fn upgrade_without_a_key_is_an_error() {
    let bytes = b"GET /websocket HTTP/1.1\r\nHost: localhost\r\nUpgrade: websocket\r\n\r\n";
    assert_eq!(
        step(ConnectionState::AwaitingRequest, Event::Received(bytes.to_vec())),
        closed(Some(ConnectionError::MissingHandshakeKey))
    );
    let lower = b"GET /websocket HTTP/1.1\r\nsec-websocket-key: dGhlIHNhbXBsZSBub25jZQ==\r\n\r\n";
    assert_eq!(handle_request_bytes(lower), closed(Some(ConnectionError::MissingHandshakeKey)));
}

#[test]
fn malformed_request_closes_the_connection() {
    let malformed: [&[u8]; 6] = [
        b"",
        b"\x00\x01\x02 not http at all",
        b"GET /websocket HTTP/1.1\r\nHost: localhost\r\n",
        b"GET /websocket",
        b"GET / HTTP/9.9\r\n\r\n",
        b"GET / HTTP/1.1\r\nbad header line\r\n\r\n",
    ];
    for bytes in malformed {
        assert_eq!(
            step(ConnectionState::AwaitingRequest, Event::Received(bytes.to_vec())),
            closed(Some(ConnectionError::MalformedRequest)),
            "bytes {:?}",
            bytes
        );
    }
}

#[test]
fn request_with_more_headers_than_slots_is_malformed() {
    let mut bytes = b"GET / HTTP/1.1\r\n".to_vec();
    for i in 0..16 {
        bytes.extend_from_slice(format!("X-Header-{}: {}\r\n", i, i).as_bytes());
    }
    let mut full = bytes.clone();
    full.extend_from_slice(b"\r\n");
    assert_eq!(handle_request_bytes(&full).state, ConnectionState::RespondedPlain);
    bytes.extend_from_slice(b"X-One-Too-Many: 1\r\n\r\n");
    assert_eq!(handle_request_bytes(&bytes), closed(Some(ConnectionError::MalformedRequest)));
}

#[test]
fn key_of_any_real_length_fits() {
    assert!(is_routable(&request("/websocket", &[])));
    assert!(is_routable(&request("/websocket", &[("Sec-WebSocket-Key", b"")])));
    let long = vec![b'k'; 100_000];
    assert!(is_routable(&request("/websocket", &[("Sec-WebSocket-Key", &long)])));
}

#[test]
fn frames_that_are_not_text_are_passed_over() {
    for opcode in [Opcode::Continuation, Opcode::Binary, Opcode::Close, Opcode::Ping, Opcode::Pong] {
        // a payload that is no UTF-8 does not matter here
        let bytes = encode_masked_frame(opcode, &[1, 2, 3, 4], &[0xff, 0xfe]);
        assert_eq!(
            step(ConnectionState::Streaming, Event::Received(bytes)),
            reading(ConnectionState::Streaming)
        );
    }
}

#[test]
fn every_frame_is_taken_as_complete() {
    // a text frame without FIN is answered like any other
    let mut bytes = encode_masked_frame(Opcode::Text, &[4, 3, 2, 1], b"part");
    bytes[0] &= 0x7f;
    match step(ConnectionState::Streaming, Event::Received(bytes)).action {
        Action::Reply { message, frame } => {
            assert_eq!(message, "part");
            assert_eq!(frame, vec![129, 5, 72, 101, 108, 108, 111]);
        }
        other => panic!("no reply: {:?}", other),
    }
}

#[test]
fn only_the_first_frame_of_a_read_is_looked_at() {
    let mut bytes = encode_masked_frame(Opcode::Text, &[4, 3, 2, 1], b"one");
    bytes.extend(encode_frame(Opcode::Text, b"not masked, and never decoded"));
    bytes.resize(1024, 0);
    match handle_frame_bytes(&bytes).action {
        Action::Reply { message, .. } => assert_eq!(message, "one"),
        other => panic!("no reply: {:?}", other),
    }
}

#[test]
fn text_that_is_not_utf8_closes_the_connection() {
    let invalid: [&[u8]; 4] = [&[0xff], &[0xc3], &[b'a', 0x80, b'b'], &[0xed, 0xa0, 0x80]];
    for payload in invalid {
        let bytes = encode_masked_frame(Opcode::Text, &[7, 7, 7, 7], payload);
        assert_eq!(
            step(ConnectionState::Streaming, Event::Received(bytes)),
            closed(Some(ConnectionError::InvalidUtf8Payload))
        );
    }
}

#[test]
fn text_of_several_bytes_to_a_character_is_delivered() {
    let text = "gr\u{fc}\u{df}e \u{4e16}\u{754c} \u{1f600}";
    let bytes = encode_masked_frame(Opcode::Text, &[0xa1, 0xb2, 0xc3, 0xd4], text.as_bytes());
    match handle_frame_bytes(&bytes).action {
        Action::Reply { message, .. } => assert_eq!(message, text),
        other => panic!("no reply: {:?}", other),
    }
    let empty = encode_masked_frame(Opcode::Text, &[0xa1, 0xb2, 0xc3, 0xd4], b"");
    match handle_frame_bytes(&empty).action {
        Action::Reply { message, .. } => assert_eq!(message, ""),
        other => panic!("no reply: {:?}", other),
    }
}

#[test]
fn less_than_a_frame_is_a_protocol_violation() {
    let whole = encode_masked_frame(Opcode::Text, &[1, 2, 3, 4], b"test");
    for cut in 0..whole.len() {
        assert_eq!(
            step(ConnectionState::Streaming, Event::Received(whole[..cut].to_vec())),
            closed(Some(ConnectionError::ProtocolViolation))
        );
    }
}

#[test]
fn unmasked_frame_closes_the_connection() {
    let bytes = encode_frame(Opcode::Text, b"test");
    assert_eq!(
        step(ConnectionState::Streaming, Event::Received(bytes)),
        closed(Some(ConnectionError::ProtocolViolation))
    );
    let reserved = vec![0x83, 0x80, 0, 0, 0, 0];
    assert_eq!(handle_frame_bytes(&reserved), closed(Some(ConnectionError::ProtocolViolation)));
}

#[test]
fn failed_io_closes_with_an_error_in_every_open_state() {
    for state in [
        ConnectionState::AwaitingRequest,
        ConnectionState::RespondedPlain,
        ConnectionState::HandshakeSent,
        ConnectionState::Streaming,
    ] {
        assert_eq!(step(state, Event::IoFailed), closed(Some(ConnectionError::IoError)));
        assert_eq!(step(state, Event::EndOfStream), closed(None));
    }
}

#[test]
fn closed_is_terminal() {
    let events = [
        Event::Received(HANDSHAKE_REQUEST.to_vec()),
        Event::Received(Vec::new()),
        Event::EndOfStream,
        Event::Written,
        Event::IoFailed,
    ];
    for event in events {
        assert_eq!(step(ConnectionState::Closed, event), closed(None));
    }
}

#[test]
fn events_that_answer_nothing_close_the_connection() {
    assert_eq!(step(ConnectionState::AwaitingRequest, Event::Written), closed(None));
    assert_eq!(
        step(ConnectionState::RespondedPlain, Event::Received(get("/"))),
        closed(None)
    );
    assert_eq!(
        step(ConnectionState::HandshakeSent, Event::Received(HANDSHAKE_REQUEST.to_vec())),
        closed(None)
    );
}

#[test]
fn each_connection_stands_alone() {
    // two connections step by step, one failing: the other is not touched
    let a = step(accept().state, Event::Received(HANDSHAKE_REQUEST.to_vec()));
    let b = step(accept().state, Event::Received(b"garbage".to_vec()));
    assert_eq!(b.state, ConnectionState::Closed);
    assert_eq!(a.state, ConnectionState::HandshakeSent);
    assert_eq!(step(a.state, Event::Written).state, ConnectionState::Streaming);
}
