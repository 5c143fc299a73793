use listener_loop::buffer::fill_connection_buffer;
use listener_loop::buffer::BUFFER_LEN;
use listener_loop::logline::render_request;
use listener_loop::machine::next_action;
use listener_loop::machine::step;
use listener_loop::machine::Event;
use listener_loop::machine::ListenerState;
use listener_loop::machine::PendingAction;

#[test]
fn it_works() {
    assert_eq!(2 + 2, 4);
}

#[test]
fn buffer_pads_short_payload_with_zeros() {
    let buf = fill_connection_buffer(&[1u8, 2, 3]);
    let mut expected = vec![1u8, 2, 3];
    expected.resize(BUFFER_LEN, 0u8);
    assert_eq!(buf, expected);
}

#[test]
fn buffer_of_empty_payload_is_all_zeros() {
    let buf = fill_connection_buffer(&[]);
    assert_eq!(buf, vec![0u8; BUFFER_LEN]);
}

#[test]
fn buffer_truncates_long_payload() {
    let payload = vec![9u8; BUFFER_LEN + 100];
    let buf = fill_connection_buffer(&payload);
    assert_eq!(buf, vec![9u8; BUFFER_LEN]);
}

#[test]
fn buffer_exactly_full_is_kept_whole() {
    let payload: Vec<u8> = (0..BUFFER_LEN).map(|i| (i % 256) as u8).collect();
    let buf = fill_connection_buffer(&payload);
    assert_eq!(buf, payload);
}

#[test]
fn render_matches_lossy_decode_of_padded_buffer() {
    let payload = b"hello \xF0\x9F\x98\x80 world";
    let mut buffer = payload.to_vec();
    buffer.resize(BUFFER_LEN, 0u8);
    let expected = format!("Request: {}", String::from_utf8_lossy(&buffer));
    assert_eq!(render_request(payload), expected);
}

#[test]
fn render_of_http_request_line() {
    let payload = b"GET / HTTP/1.1\r\n\r\n";
    let padding = "\u{0}".repeat(BUFFER_LEN - payload.len());
    let expected = format!("Request: GET / HTTP/1.1\r\n\r\n{}", padding);
    assert_eq!(render_request(payload), expected);
}

#[test]
fn render_of_empty_payload_is_all_nul_padding() {
    let expected = format!("Request: {}", "\u{0}".repeat(BUFFER_LEN));
    assert_eq!(render_request(&[]), expected);
}

#[test]
fn render_replaces_invalid_utf8() {
    let expected = format!("Request: \u{FFFD}{}", "\u{0}".repeat(BUFFER_LEN - 1));
    assert_eq!(render_request(&[0xFF]), expected);
}

#[test]
fn render_of_long_payload_uses_first_chunk_only() {
    let mut payload = vec![b'a'; BUFFER_LEN + 500];
    payload[0] = b'z';
    assert_eq!(
        render_request(&payload),
        render_request(&payload[..BUFFER_LEN])
    );
    let expected = format!("Request: z{}", "a".repeat(BUFFER_LEN - 1));
    assert_eq!(render_request(&payload), expected);
}

#[test]
fn machine_handles_connections_one_at_a_time() {
    let state = ListenerState::Unbound;
    assert_eq!(next_action(&state), PendingAction::Bind);

    let (state, out) = step(state, Event::BindSucceeded);
    assert_eq!(state, ListenerState::Listening);
    assert!(out.is_none());
    assert_eq!(next_action(&state), PendingAction::Accept);

    let (state, out) = step(state, Event::ConnectionAccepted);
    assert_eq!(state, ListenerState::Handling);
    assert!(out.is_none());
    // while the first connection is being handled, no accept is pending
    assert_eq!(next_action(&state), PendingAction::Read);

    let payload = b"GET / HTTP/1.1\r\n\r\n";
    let (state, out) = step(state, Event::BytesRead(payload.to_vec()));
    assert_eq!(state, ListenerState::Listening);
    assert_eq!(out.unwrap(), render_request(payload));
    // only now may a second connection be accepted
    assert_eq!(next_action(&state), PendingAction::Accept);
}

#[test]
fn machine_halts_on_bind_failure_before_any_accept() {
    let (state, out) = step(ListenerState::Unbound, Event::BindFailed);
    assert_eq!(state, ListenerState::Halted);
    assert!(out.is_none());
    assert_eq!(next_action(&state), PendingAction::Terminate);
}

#[test]
fn machine_halts_on_accept_failure() {
    let (state, out) = step(ListenerState::Listening, Event::AcceptFailed);
    assert_eq!(state, ListenerState::Halted);
    assert!(out.is_none());
    assert_eq!(next_action(&state), PendingAction::Terminate);
}

#[test]
fn machine_halts_on_read_failure() {
    let (state, out) = step(ListenerState::Handling, Event::ReadFailed);
    assert_eq!(state, ListenerState::Halted);
    assert!(out.is_none());
    assert_eq!(next_action(&state), PendingAction::Terminate);
}
