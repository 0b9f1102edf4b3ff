use netcat_relay::iopoll::{EventLoop, EventSet, EventSetBuilder, Token, POLLIN, POLLOUT};
use netcat_relay::relay::{EndpointKind, IoAction, NetcatClientEventHandler};

fn stream_session() -> NetcatClientEventHandler {
    NetcatClientEventHandler::new(EndpointKind::Stream)
}

fn datagram_session() -> NetcatClientEventHandler {
    NetcatClientEventHandler::new(EndpointKind::Datagram)
}

fn loop_with_stdin_and(fd: i32) -> EventLoop {
    let mut lp = EventLoop::new();
    lp.register_stdin();
    lp.register_fd(fd, EventSetBuilder::new().readable().finalize());
    lp.begin_run();
    lp
}

#[test]
fn fresh_session_has_both_sides_open() {
    let sess = stream_session();
    assert!(sess.stdin_open);
    assert!(sess.network_open);
    assert_eq!(sess.endpoint, EndpointKind::Stream);
}

#[test]
fn only_readable_notifications_are_acted_on() {
    let sess = stream_session();
    let writable = EventSet { events: POLLOUT };
    assert_eq!(sess.ready_for_io_action(Token(0), writable), IoAction::Idle);
    assert_eq!(sess.ready_for_io_action(Token(7), writable), IoAction::Idle);
    let readable = EventSet { events: POLLIN };
    assert_eq!(sess.ready_for_io_action(Token(0), readable), IoAction::ConsoleRead);
    assert_eq!(sess.ready_for_io_action(Token(7), readable), IoAction::NetworkRead);
}

#[test]
fn console_readiness_after_close_is_ignored() {
    let mut sess = stream_session();
    sess.stdin_open = false;
    let readable = EventSet { events: POLLIN };
    assert_eq!(sess.ready_for_io_action(Token(0), readable), IoAction::Idle);
    // The network side has no such guard.
    assert_eq!(sess.ready_for_io_action(Token(7), readable), IoAction::NetworkRead);
}

#[test]
fn console_bytes_are_forwarded_verbatim() {
    // Console produces "hi\n" while a stream endpoint is open: exactly that
    // data is handed over for one write, and no state flag changes.
    let mut sess = stream_session();
    let mut lp = loop_with_stdin_and(7);
    let fwd = sess.on_console_read(&mut lp, Some(b"hi\n".to_vec()));
    assert_eq!(fwd, Some(b"hi\n".to_vec()));
    let half_close = sess.on_console_forwarded(&mut lp, 3);
    assert!(!half_close);
    assert!(sess.stdin_open);
    assert!(sess.network_open);
    assert!(lp.is_active());
    assert_eq!(lp.pollfds.len(), 2);
}

#[test]
fn console_eof_on_stream_half_closes_and_keeps_running() {
    // A zero-length console read: stdin latch closes, console input is
    // unregistered, exactly one half-close is requested, the network side
    // stays open and the loop keeps running.
    let mut sess = stream_session();
    let mut lp = loop_with_stdin_and(7);
    let fwd = sess.on_console_read(&mut lp, Some(Vec::new()));
    assert_eq!(fwd, Some(Vec::new()));
    let half_close = sess.on_console_forwarded(&mut lp, 0);
    assert!(half_close);
    assert!(!sess.stdin_open);
    assert!(sess.network_open);
    assert!(lp.is_active());
    let fds: Vec<i32> = lp.pollfds.iter().map(|e| e.fd).collect();
    assert_eq!(fds, vec![7]);
}

#[test]
fn console_eof_on_datagram_unregisters_without_half_close() {
    let mut sess = datagram_session();
    let mut lp = loop_with_stdin_and(7);
    let half_close = sess.on_console_forwarded(&mut lp, 0);
    assert!(!half_close);
    assert!(!sess.stdin_open);
    assert!(sess.network_open);
    assert!(lp.is_active());
    let fds: Vec<i32> = lp.pollfds.iter().map(|e| e.fd).collect();
    assert_eq!(fds, vec![7]);
}

#[test]
fn console_read_failure_requests_shutdown() {
    let sess = stream_session();
    let mut lp = loop_with_stdin_and(7);
    let fwd = sess.on_console_read(&mut lp, None);
    assert_eq!(fwd, None);
    assert!(!lp.is_active());
    assert_eq!(lp.pollfds.len(), 2);
}

#[test]
fn network_bytes_are_written_verbatim_to_console() {
    let mut sess = stream_session();
    let mut lp = loop_with_stdin_and(7);
    let out = sess.on_network_read(&mut lp, Some(b"pong".to_vec()));
    assert_eq!(out, Some(b"pong".to_vec()));
    assert!(sess.network_open);
    assert!(sess.stdin_open);
    assert!(lp.is_active());
}

#[test]
fn network_keeps_relaying_after_console_eof() {
    // Half-close asymmetry: after the console side has closed, inbound
    // network data still reaches the console until the network side itself
    // signals end-of-stream.
    let mut sess = stream_session();
    let mut lp = loop_with_stdin_and(7);
    sess.on_console_read(&mut lp, Some(Vec::new()));
    sess.on_console_forwarded(&mut lp, 0);
    let out = sess.on_network_read(&mut lp, Some(b"late data".to_vec()));
    assert_eq!(out, Some(b"late data".to_vec()));
    assert!(lp.is_active());
    let out = sess.on_network_read(&mut lp, Some(Vec::new()));
    assert_eq!(out, Some(Vec::new()));
    assert!(!sess.network_open);
    assert!(!lp.is_active());
}

#[test]
fn network_eof_latches_and_requests_shutdown() {
    let mut sess = stream_session();
    let mut lp = loop_with_stdin_and(7);
    let out = sess.on_network_read(&mut lp, Some(Vec::new()));
    assert_eq!(out, Some(Vec::new()));
    assert!(!sess.network_open);
    assert!(sess.stdin_open);
    assert!(!lp.is_active());
}

#[test]
fn network_read_failure_is_swallowed() {
    let mut sess = stream_session();
    let mut lp = loop_with_stdin_and(7);
    let out = sess.on_network_read(&mut lp, None);
    assert_eq!(out, None);
    assert!(sess.network_open);
    assert!(sess.stdin_open);
    assert!(lp.is_active());
}

#[test]
fn short_datagram_send_requests_graceful_shutdown() {
    // A 10-byte chunk of which only 6 bytes were sent: shutdown is
    // requested, with no error abort of the run.
    let sess = datagram_session();
    let mut lp = loop_with_stdin_and(7);
    sess.on_datagram_send_result(&mut lp, 10, Some(6));
    assert!(!lp.is_active());
    assert_eq!(lp.pollfds.len(), 2);
}

#[test]
fn exact_datagram_send_keeps_running() {
    let sess = datagram_session();
    let mut lp = loop_with_stdin_and(7);
    sess.on_datagram_send_result(&mut lp, 10, Some(10));
    assert!(lp.is_active());
}

#[test]
fn failed_datagram_send_requests_shutdown() {
    let sess = datagram_session();
    let mut lp = loop_with_stdin_and(7);
    sess.on_datagram_send_result(&mut lp, 10, None);
    assert!(!lp.is_active());
}

#[test]
fn console_hangup_requests_shutdown() {
    let mut sess = stream_session();
    let mut lp = loop_with_stdin_and(7);
    sess.hangup(&mut lp, Token(0));
    assert!(!lp.is_active());
}

#[test]
fn network_hangup_alone_does_not_shut_down() {
    let mut sess = stream_session();
    let mut lp = loop_with_stdin_and(7);
    sess.hangup(&mut lp, Token(7));
    assert!(lp.is_active());
}

#[test]
fn error_callback_forces_no_transition() {
    let mut sess = stream_session();
    let mut lp = loop_with_stdin_and(7);
    sess.error(&mut lp, Token(7));
    assert!(lp.is_active());
    assert!(sess.stdin_open);
    assert!(sess.network_open);
    assert_eq!(lp.pollfds.len(), 2);
}

#[test]
fn session_timeout_requests_shutdown() {
    let mut sess = stream_session();
    let mut lp = loop_with_stdin_and(7);
    sess.timeout(&mut lp);
    assert!(!lp.is_active());
}
