//! Tests driving the dispatcher state machine through accept, relay and
//! teardown, the way the event loop does.

use tcprelay::relay::{Direction, ForwardPlan, RelayError, TokenClass};
use tcprelay::server::{Server, SetupError};
use tcprelay::{ACCEPTOR_TOKEN, FIRST_ID, IDLE_TIMEOUT_MS, TIMER_TOKEN};

fn fresh_server() -> Server {
    Server::new(
        4000,
        String::from("cat"),
        Vec::new(),
    )
}

/// Accept one connection the way the event loop does: three fresh tokens,
/// then commit. Returns (link, child_out_tok, net_in_tok, timeout_tok).
fn accept_one(s: &mut Server) -> (u64, u64, u64, u64) {
    let child_out_tok = s.next_tok();
    let net_in_tok = s.next_tok();
    let timeout_tok = s.next_tok();
    let link = s
        .install_connection(net_in_tok, child_out_tok, timeout_tok)
        .expect("setup refused");
    (link, child_out_tok, net_in_tok, timeout_tok)
}

#[test]
fn fresh_state_has_reserved_tokens_and_empty_registry() {
    let s = fresh_server();
    assert_eq!(s.acceptor_token, ACCEPTOR_TOKEN);
    assert_eq!(s.timer_token, TIMER_TOKEN);
    assert_eq!(s.tok_gen, FIRST_ID);
    assert_eq!(s.link_gen, FIRST_ID);
    assert_eq!(s.lookup_link(FIRST_ID), None);
    assert_eq!(IDLE_TIMEOUT_MS, 5000);
}

#[test]
fn classify_routes_reserved_and_connection_tokens() {
    let s = fresh_server();
    assert_eq!(s.classify_token(ACCEPTOR_TOKEN), TokenClass::Acceptor);
    assert_eq!(s.classify_token(TIMER_TOKEN), TokenClass::TimerFacility);
    assert_eq!(s.classify_token(42), TokenClass::Connection);
}

#[test]
fn accept_registers_exactly_three_tokens_for_the_link() {
    let mut s = fresh_server();
    let (link, child_out_tok, net_in_tok, timeout_tok) = accept_one(&mut s);
    assert_eq!(link, FIRST_ID + 1);
    assert_eq!(s.lookup_link(child_out_tok), Some(link));
    assert_eq!(s.lookup_link(net_in_tok), Some(link));
    assert_eq!(s.lookup_link(timeout_tok), Some(link));
    // no stray registrations
    assert_eq!(s.lookup_link(FIRST_ID), None);
    assert_eq!(s.lookup_link(timeout_tok + 1), None);
}

#[test]
fn two_connections_never_share_a_token() {
    let mut s = fresh_server();
    let (link_a, co_a, ni_a, to_a) = accept_one(&mut s);
    let (link_b, co_b, ni_b, to_b) = accept_one(&mut s);
    assert_ne!(link_a, link_b);
    for t in [co_a, ni_a, to_a] {
        assert_eq!(s.lookup_link(t), Some(link_a));
    }
    for t in [co_b, ni_b, to_b] {
        assert_eq!(s.lookup_link(t), Some(link_b));
    }
}

#[test]
fn relay_direction_picks_the_side_that_fired() {
    let mut s = fresh_server();
    let (link, child_out_tok, net_in_tok, timeout_tok) = accept_one(&mut s);
    assert_eq!(s.relay_direction(link, net_in_tok), Some(Direction::NetToChild));
    assert_eq!(s.relay_direction(link, child_out_tok), Some(Direction::ChildToNet));
    // the timer token arriving in the connection branch is a no-op
    assert_eq!(s.relay_direction(link, timeout_tok), None);
    // a stale link is a no-op
    assert_eq!(s.relay_direction(link + 7, net_in_tok), None);
}

fn expect_forward(r: Result<Option<ForwardPlan>, RelayError>) -> ForwardPlan {
    match r {
        Ok(Some(plan)) => plan,
        other => panic!("expected a forward plan, got {:?}", other),
    }
}

#[test]
fn echo_round_trip_forwards_the_same_bytes_both_ways() {
    let mut s = fresh_server();
    let (link, child_out_tok, net_in_tok, timeout_tok) = accept_one(&mut s);

    // client sends "hello": socket-readable fires
    let plan = expect_forward(s.process_link_token(link, net_in_tok, b"hello"));
    assert_eq!(plan.dir, Direction::NetToChild);
    assert_eq!(plan.bytes, b"hello".to_vec());
    assert_eq!(plan.rearm_tok, timeout_tok);

    // an echo child writes "hello" back: child-output-readable fires
    let plan = expect_forward(s.process_link_token(link, child_out_tok, b"hello"));
    assert_eq!(plan.dir, Direction::ChildToNet);
    assert_eq!(plan.bytes, b"hello".to_vec());
    assert_eq!(plan.rearm_tok, timeout_tok);

    // the connection stays open the whole time
    assert_eq!(s.lookup_link(net_in_tok), Some(link));
}

#[test]
fn chunked_bytes_are_forwarded_unchanged_and_in_order() {
    let mut s = fresh_server();
    let (link, _co, net_in_tok, _to) = accept_one(&mut s);
    let chunks: [&[u8]; 3] = [b"ab", b"c", b"defg"];
    let mut relayed = Vec::new();
    for chunk in chunks {
        let plan = expect_forward(s.process_link_token(link, net_in_tok, chunk));
        assert_eq!(plan.bytes, chunk.to_vec());
        relayed.extend_from_slice(&plan.bytes);
    }
    assert_eq!(relayed, b"abcdefg".to_vec());
}

#[test]
fn a_full_buffer_is_forwarded_whole() {
    let mut s = fresh_server();
    let (link, _co, net_in_tok, _to) = accept_one(&mut s);
    let payload = vec![0xa5u8; tcprelay::BUFFER_SIZE];
    let plan = expect_forward(s.process_link_token(link, net_in_tok, &payload));
    assert_eq!(plan.bytes, payload);
}

#[test]
fn every_forward_rearms_under_the_same_timeout_token() {
    let mut s = fresh_server();
    let (link, child_out_tok, net_in_tok, timeout_tok) = accept_one(&mut s);
    for _ in 0..3 {
        let plan = expect_forward(s.process_link_token(link, net_in_tok, b"x"));
        assert_eq!(plan.rearm_tok, timeout_tok);
        let plan = expect_forward(s.process_link_token(link, child_out_tok, b"y"));
        assert_eq!(plan.rearm_tok, timeout_tok);
    }
    // the rearmed token still resolves to the connection
    assert_eq!(s.lookup_link(timeout_tok), Some(link));
}

#[test]
fn peer_close_is_a_connection_reset() {
    let mut s = fresh_server();
    let (link, _co, net_in_tok, _to) = accept_one(&mut s);
    // client closed its write side: the socket read returns zero bytes
    let r = s.process_link_token(link, net_in_tok, b"");
    assert!(matches!(r, Err(RelayError::ConnectionReset)));
    // the dispatcher tears the connection down; the table forgets the link
    assert_eq!(s.close_connection_and_child(link).is_some(), true);
    assert_eq!(s.lookup_link(net_in_tok), None);
    assert_eq!(s.relay_direction(link, net_in_tok), None);
}

#[test]
fn child_exit_is_a_connection_abort() {
    let mut s = fresh_server();
    let (link, child_out_tok, net_in_tok, timeout_tok) = accept_one(&mut s);
    // the child exited right after spawn: its output reads zero bytes
    let r = s.process_link_token(link, child_out_tok, b"");
    assert!(matches!(r, Err(RelayError::ConnectionAborted)));
    let rec = s.close_connection_and_child(link).expect("was open");
    assert_eq!(rec.child_out_tok, child_out_tok);
    assert_eq!(rec.net_in_tok, net_in_tok);
    assert_eq!(rec.timeout_tok, timeout_tok);
    assert_eq!(s.lookup_link(child_out_tok), None);
}

#[test]
fn teardown_removes_all_three_tokens() {
    let mut s = fresh_server();
    let (link, child_out_tok, net_in_tok, timeout_tok) = accept_one(&mut s);
    let rec = s.close_connection_and_child(link).expect("was open");
    assert_eq!(rec.net_in_tok, net_in_tok);
    assert_eq!(s.lookup_link(net_in_tok), None);
    assert_eq!(s.lookup_link(child_out_tok), None);
    assert_eq!(s.lookup_link(timeout_tok), None);
}

#[test]
fn teardown_is_idempotent_and_one_shot() {
    let mut s = fresh_server();
    let (link, _co, _ni, _to) = accept_one(&mut s);
    assert!(s.close_connection_and_child(link).is_some());
    // the record was handed out once; a second teardown yields nothing
    assert!(s.close_connection_and_child(link).is_none());
    assert!(s.close_connection_and_child(link).is_none());
}

#[test]
fn idle_expiry_evicts_the_connection() {
    let mut s = fresh_server();
    let (link, _co, net_in_tok, timeout_tok) = accept_one(&mut s);
    // client sent one byte, then nothing for longer than the idle bound
    let _ = expect_forward(s.process_link_token(link, net_in_tok, b"q"));
    // the timer facility reports the connection's timeout token as expired
    let evicted = s.lookup_link(timeout_tok).expect("timer token resolves");
    assert_eq!(evicted, link);
    assert!(s.close_connection_and_child(evicted).is_some());
    assert_eq!(s.lookup_link(net_in_tok), None);
    assert_eq!(s.lookup_link(timeout_tok), None);
}

#[test]
fn stale_timer_entry_is_silently_ignored() {
    let mut s = fresh_server();
    let (link, _co, _ni, timeout_tok) = accept_one(&mut s);
    assert!(s.close_connection_and_child(link).is_some());
    // the timeout raced with the teardown: its token no longer resolves
    assert_eq!(s.lookup_link(timeout_tok), None);
}

#[test]
fn spurious_events_are_no_ops() {
    let mut s = fresh_server();
    let (link, _co, _ni, timeout_tok) = accept_one(&mut s);
    // a repeated notification for a token that is not an I/O token
    assert!(matches!(s.process_link_token(link, timeout_tok, b"zz"), Ok(None)));
    // a notification for a link that was never (or is no longer) open
    assert!(matches!(s.process_link_token(link + 9, 999, b"zz"), Ok(None)));
    // the connection is unharmed
    assert_eq!(s.lookup_link(timeout_tok), Some(link));
}

#[test]
fn errors_in_one_connection_leave_others_untouched() {
    let mut s = fresh_server();
    let (link_a, _co_a, ni_a, _to_a) = accept_one(&mut s);
    let (link_b, co_b, ni_b, to_b) = accept_one(&mut s);
    // connection A fails and is torn down
    assert!(matches!(
        s.process_link_token(link_a, ni_a, b""),
        Err(RelayError::ConnectionReset)
    ));
    assert!(s.close_connection_and_child(link_a).is_some());
    // connection B still relays
    for t in [co_b, ni_b, to_b] {
        assert_eq!(s.lookup_link(t), Some(link_b));
    }
    let plan = expect_forward(s.process_link_token(link_b, ni_b, b"still here"));
    assert_eq!(plan.bytes, b"still here".to_vec());
}

#[test]
fn setup_with_clashing_identifiers_is_refused_whole() {
    let mut s = fresh_server();
    let (link, child_out_tok, _ni, _to) = accept_one(&mut s);
    // a wrapped-around generator could hand out a token already in use
    let t = s.next_tok();
    assert_eq!(
        s.install_connection(child_out_tok, t, t + 1),
        Err(SetupError::IdInUse)
    );
    // nothing was registered for the aborted attempt
    assert_eq!(s.lookup_link(t), None);
    assert_eq!(s.lookup_link(t + 1), None);
    assert_eq!(s.lookup_link(child_out_tok), Some(link));
    // duplicate tokens within one setup are refused too
    let u = s.next_tok();
    assert_eq!(s.install_connection(u, u, u), Err(SetupError::IdInUse));
}

#[test]
fn generators_wrap_on_overflow() {
    let mut s = fresh_server();
    s.tok_gen = u64::MAX;
    assert_eq!(s.next_tok(), 0);
    assert_eq!(s.next_tok(), 1);
    s.link_gen = u64::MAX;
    assert_eq!(s.next_link(), 0);
}
