use msger::buffer::{PullOutcome, StreamBuf};
use msger::codec::{decode, encode, frame_total_len};
use msger::errors::Error;
use msger::msg::{Message, MsgBody, Messages};
use msger::msger::{CheckEffects, Messager, ParseOutcome, SendStep, INTERVAL_MS, TIMEOUT_MS};
use msger::queue::{OutQueue, RecvOutcome, TrySendOutcome};
use msger::timer::Timer;

fn plain(control: i32, cmds: &str) -> Messages {
    Messages {
        control,
        cmds: Some(cmds.to_string()),
        heads: None,
        bodys: None,
        bodybuf: None,
    }
}

fn full_msg() -> Messages {
    Messages {
        control: 5,
        cmds: Some("ping".to_string()),
        heads: Some(vec![1, 2, 3]),
        bodys: Some(vec![9, 8, 7, 6]),
        bodybuf: None,
    }
}

#[test]
fn msg_body_len_uniform() {
    assert_eq!(MsgBody::Empty.len(), 0);
    assert_eq!(MsgBody::Bytes(vec![1, 2, 3]).len(), 3);
    assert_eq!(MsgBody::BoxBuf(vec![1, 2]).len(), 2);
}

#[test]
fn message_new_is_empty() {
    let m = Message::new();
    assert_eq!(m.version, 0);
    assert_eq!(m.control, 0);
    assert_eq!(m.cmds, String::new());
    assert!(m.heads.is_none());
    assert!(matches!(m.bodys, MsgBody::Empty));
}

#[test]
fn own_bodys_moves_out_and_replaces() {
    let mut m = Message::new();
    m.bodys = MsgBody::Bytes(vec![4, 5]);
    let taken = m.own_bodys();
    assert!(matches!(taken, MsgBody::Bytes(ref v) if v == &vec![4, 5]));
    assert!(matches!(m.bodys, MsgBody::Empty));
}

#[test]
fn body_box_materializes_every_variant() {
    let mut m = Message::new();
    assert!(m.body_box().is_none());
    m.bodys = MsgBody::Bytes(vec![1, 2]);
    assert_eq!(m.body_box(), Some(vec![1, 2]));
    m.bodys = MsgBody::BoxBuf(vec![3]);
    assert_eq!(m.body_box(), Some(vec![3]));
}

#[test]
fn encode_decode_round_trip_full() {
    let wire = encode(&full_msg());
    let m = decode(&wire).expect("well-formed frame");
    assert_eq!(m.version, 1);
    assert_eq!(m.control, 5);
    assert_eq!(m.cmds, "ping".to_string());
    assert_eq!(m.heads, Some(vec![1, 2, 3]));
    assert!(matches!(m.bodys, MsgBody::Bytes(ref v) if v == &vec![9, 8, 7, 6]));
}

#[test]
fn encode_decode_negative_control() {
    let mut msg = plain(-7, "neg");
    msg.heads = None;
    let wire = encode(&msg);
    let m = decode(&wire).expect("well-formed frame");
    assert_eq!(m.control, -7);
    assert_eq!(m.cmds, "neg".to_string());
}

#[test]
fn encode_decode_streamed_body() {
    let msg = Messages {
        control: 2,
        cmds: None,
        heads: None,
        bodys: None,
        bodybuf: Some(vec![0xAA, 0xBB]),
    };
    let wire = encode(&msg);
    let m = decode(&wire).expect("well-formed frame");
    assert_eq!(m.cmds, String::new());
    assert!(matches!(m.bodys, MsgBody::BoxBuf(ref v) if v == &vec![0xAA, 0xBB]));
}

#[test]
fn encode_decode_control_extremes() {
    for control in [i32::MIN, -1, 0, 1, i32::MAX] {
        let mut msg = plain(control, "c");
        msg.cmds = None;
        let m = decode(&encode(&msg)).expect("well-formed frame");
        assert_eq!(m.control, control);
    }
}

#[test]
fn encode_decode_fully_empty_message() {
    let msg = Messages { control: 0, cmds: None, heads: None, bodys: None, bodybuf: None };
    let wire = encode(&msg);
    assert_eq!(wire.len(), 16);
    let m = decode(&wire).expect("well-formed frame");
    assert_eq!(m.version, 1);
    assert_eq!(m.control, 0);
    assert_eq!(m.cmds, String::new());
    assert!(m.heads.is_none());
    assert!(matches!(m.bodys, MsgBody::Empty));
}

#[test]
fn empty_heads_reads_as_absent() {
    let msg = Messages {
        control: 1,
        cmds: Some("x".to_string()),
        heads: Some(vec![]),
        bodys: None,
        bodybuf: None,
    };
    let m = decode(&encode(&msg)).expect("well-formed frame");
    assert!(m.heads.is_none());
    assert!(matches!(m.bodys, MsgBody::Empty));
}

#[test]
fn frame_total_len_counts_header_and_parts() {
    let wire = encode(&full_msg());
    // 16-byte header + 4 command bytes + 3 header bytes + 4 body bytes
    assert_eq!(frame_total_len(&wire), 16 + 4 + 3 + 4);
    assert_eq!(wire.len() as u64, frame_total_len(&wire));
}

#[test]
fn decode_rejects_short_frame() {
    assert!(matches!(decode(&[0u8; 7]), Err(Error::ParseError)));
}

#[test]
fn decode_rejects_length_mismatch() {
    let mut wire = encode(&full_msg());
    wire.push(0); // one trailing byte the header does not account for
    assert!(matches!(decode(&wire), Err(Error::ParseError)));
}

#[test]
fn decode_rejects_bad_utf8_command() {
    let mut wire = encode(&plain(1, "a"));
    // the single command byte sits right after the 16-byte header
    wire[16] = 0xFF;
    assert!(matches!(decode(&wire), Err(Error::ParseError)));
}

#[test]
fn assembler_reassembles_one_byte_at_a_time() {
    let wire = encode(&full_msg());
    let mut buf = StreamBuf::new();
    for b in wire.iter() {
        buf.push(vec![*b]).expect("open assembler");
    }
    match buf.pull() {
        PullOutcome::Frame(f) => {
            assert_eq!(f, wire);
            let m = decode(&f).expect("well-formed frame");
            assert_eq!(m.control, 5);
            assert_eq!(m.cmds, "ping".to_string());
        }
        _ => panic!("expected a complete frame"),
    }
    assert!(matches!(buf.pull(), PullOutcome::Pending));
}

#[test]
fn assembler_handles_odd_chunk_boundaries() {
    let first = encode(&plain(3, "abc"));
    let second = encode(&full_msg());
    let mut all = first.clone();
    all.extend_from_slice(&second);
    let mut buf = StreamBuf::new();
    for chunk in all.chunks(7) {
        buf.push(chunk.to_vec()).expect("open assembler");
    }
    match buf.pull() {
        PullOutcome::Frame(f) => assert_eq!(f, first),
        _ => panic!("expected first frame"),
    }
    match buf.pull() {
        PullOutcome::Frame(f) => assert_eq!(f, second),
        _ => panic!("expected second frame"),
    }
}

#[test]
fn assembler_close_is_idempotent_and_rejects_push() {
    let mut buf = StreamBuf::new();
    buf.close();
    buf.close();
    assert!(matches!(buf.push(vec![1]), Err(Error::ClosedError)));
    assert!(matches!(buf.pull(), PullOutcome::Closed));
}

#[test]
fn queue_fifo_order() {
    let mut q = OutQueue::new(10);
    assert!(matches!(q.try_send(plain(1, "a")), TrySendOutcome::Sent));
    assert!(matches!(q.try_send(plain(2, "b")), TrySendOutcome::Sent));
    assert!(matches!(q.try_send(plain(3, "c")), TrySendOutcome::Sent));
    for expected in [1, 2, 3] {
        match q.recv() {
            RecvOutcome::Msg(m) => assert_eq!(m.control, expected),
            _ => panic!("expected a message"),
        }
    }
    assert!(matches!(q.recv(), RecvOutcome::Pending));
}

#[test]
fn queue_close_drains_then_reports_closed() {
    let mut q = OutQueue::new(4);
    assert!(matches!(q.try_send(plain(1, "a")), TrySendOutcome::Sent));
    q.close();
    assert!(matches!(q.try_send(plain(2, "b")), TrySendOutcome::Closed(_)));
    assert!(matches!(q.recv(), RecvOutcome::Msg(_)));
    assert!(matches!(q.recv(), RecvOutcome::Closed));
}

#[test]
fn sender_writes_in_enqueue_order() {
    let mut s = Messager::new(10);
    let m1 = plain(1, "first");
    let m2 = plain(2, "second");
    let expected = [encode(&m1), encode(&m2)].concat();
    assert!(matches!(s.send(m1), TrySendOutcome::Sent));
    assert!(matches!(s.send(m2), TrySendOutcome::Sent));
    let mut wire = Vec::new();
    s.sender_flush(&mut wire);
    assert_eq!(wire, expected);
    assert!(matches!(s.sender_step(), SendStep::Pending));
}

#[test]
fn backpressure_with_bound_one() {
    // Scenario: queue bound 1, sender loop paused. The second send must
    // wait until the first message is drained.
    let mut s = Messager::new(1);
    assert!(matches!(s.send(plain(1, "a")), TrySendOutcome::Sent));
    let held = match s.send(plain(2, "b")) {
        TrySendOutcome::Full(m) => m,
        _ => panic!("second send must see a full queue"),
    };
    match s.sender_step() {
        SendStep::Write(w) => assert_eq!(w, encode(&plain(1, "a"))),
        _ => panic!("sender must drain the first message"),
    }
    assert!(matches!(s.send(held), TrySendOutcome::Sent));
}

#[test]
fn stop_shuts_socket_exactly_once() {
    // Two detection points race to stop the session: only the first call
    // may shut the socket down, and both succeed.
    let mut s = Messager::new(0);
    let first = s.stop();
    let second = s.stop();
    assert!(first.shutdown_socket);
    assert!(!second.shutdown_socket);
    assert!(s.is_shut());
    assert!(s.done());
}

#[test]
fn send_after_stop_fails_closed() {
    let mut s = Messager::new(0);
    let _ = s.stop();
    assert!(matches!(s.send(plain(1, "late")), TrySendOutcome::Closed(_)));
}

#[test]
fn timeout_cancels_session_exactly_once() {
    let mut s = Messager::new(0);
    s.start(false, true, 1_000);
    // within the deadline nothing happens
    let eff: CheckEffects = s.check_tick(1_000 + TIMEOUT_MS - 1);
    assert!(!eff.timed_out);
    assert!(eff.do_on_check);
    assert!(!s.done());
    // at the deadline the session cancels
    let eff = s.check_tick(1_000 + TIMEOUT_MS);
    assert!(eff.timed_out);
    assert!(!eff.do_on_check);
    assert!(s.done());
    // the run loop then stops it; later stops are successful no-ops
    assert!(s.stop().shutdown_socket);
    assert!(!s.stop().shutdown_socket);
}

#[test]
fn heartbeat_resets_timeout_in_both_roles() {
    for serv in [false, true] {
        let mut s = Messager::new(0);
        s.start(serv, false, 0);
        // a heartbeat frame arrives just before the deadline
        let heart_wire = encode(&plain(0, "heart"));
        let r = s.recv_step(heart_wire, TIMEOUT_MS - 1);
        assert!(matches!(r, ParseOutcome::Heart));
        // the old deadline passes harmlessly: the timer was reset
        let eff = s.check_tick(TIMEOUT_MS);
        assert!(!eff.timed_out);
        // the new deadline still fires
        let eff = s.check_tick(TIMEOUT_MS - 1 + TIMEOUT_MS);
        assert!(eff.timed_out);
        assert!(s.done());
    }
}

#[test]
fn server_acks_heartbeat_at_most_once() {
    let mut s = Messager::new(10);
    s.start(true, false, 0);
    let r = s.recv_step(encode(&plain(0, "heart")), 5);
    assert!(matches!(r, ParseOutcome::Heart));
    // exactly one acknowledgement was queued
    match s.sender_step() {
        SendStep::Write(w) => {
            let m = decode(&w).expect("well-formed frame");
            assert_eq!(m.control, 0);
            assert_eq!(m.cmds, "heart".to_string());
        }
        _ => panic!("server must queue one acknowledgement"),
    }
    assert!(matches!(s.sender_step(), SendStep::Pending));
}

#[test]
fn client_never_acks_heartbeat() {
    let mut s = Messager::new(10);
    s.start(false, false, 0);
    let r = s.recv_step(encode(&plain(0, "heart")), 5);
    assert!(matches!(r, ParseOutcome::Heart));
    assert!(matches!(s.sender_step(), SendStep::Pending));
}

#[test]
fn server_ack_dropped_when_queue_full() {
    // The acknowledgement is best-effort: with the queue full it is
    // silently dropped and nothing fails.
    let mut s = Messager::new(1);
    s.start(true, false, 0);
    assert!(matches!(s.send(plain(9, "busy")), TrySendOutcome::Sent));
    let r = s.recv_step(encode(&plain(0, "heart")), 5);
    assert!(matches!(r, ParseOutcome::Heart));
    match s.sender_step() {
        SendStep::Write(w) => {
            let m = decode(&w).expect("well-formed frame");
            assert_eq!(m.control, 9);
        }
        _ => panic!("the queued message must still be there"),
    }
    assert!(matches!(s.sender_step(), SendStep::Pending));
}

#[test]
fn scenario_client_command_reaches_server_handler() {
    // Client sends control 5 "ping"; the server's dispatch hands the
    // application a matching message.
    let mut client = Messager::new(0);
    client.start(false, false, 0);
    let mut server = Messager::new(0);
    server.start(true, true, 0);
    assert!(matches!(client.send(full_msg()), TrySendOutcome::Sent));
    let wire = match client.sender_step() {
        SendStep::Write(w) => w,
        _ => panic!("client must emit the frame"),
    };
    // the bytes cross the socket in arbitrary chunks
    for chunk in wire.chunks(5) {
        server.reader_step(chunk.to_vec()).expect("reader pushes");
    }
    match server.parser_step(10) {
        ParseOutcome::Dispatch(m) => {
            assert_eq!(m.control, 5);
            assert_eq!(m.cmds, "ping".to_string());
            assert_eq!(m.heads, Some(vec![1, 2, 3]));
            assert!(matches!(m.bodys, MsgBody::Bytes(ref v) if v == &vec![9, 8, 7, 6]));
        }
        _ => panic!("server must dispatch the application frame"),
    }
    assert!(matches!(server.parser_step(10), ParseOutcome::Pending));
}

#[test]
fn scenario_heartbeat_round() {
    // Client's interval fires and enqueues a heartbeat; the server resets
    // its deadline and replies; the client resets its deadline in turn.
    let mut client = Messager::new(0);
    client.start(false, false, 0);
    let mut server = Messager::new(0);
    server.start(true, false, 0);
    let eff = client.check_tick(INTERVAL_MS);
    assert!(eff.heart_queued);
    let wire = match client.sender_step() {
        SendStep::Write(w) => w,
        _ => panic!("client must emit the heartbeat"),
    };
    let r = server.recv_step(wire, INTERVAL_MS + 1);
    assert!(matches!(r, ParseOutcome::Heart));
    assert!(!server.check_tick(TIMEOUT_MS).timed_out);
    let reply = match server.sender_step() {
        SendStep::Write(w) => w,
        _ => panic!("server must reply with a heartbeat"),
    };
    let r = client.recv_step(reply, INTERVAL_MS + 2);
    assert!(matches!(r, ParseOutcome::Heart));
    assert!(!client.check_tick(TIMEOUT_MS).timed_out);
    assert!(!client.done());
    assert!(!server.done());
}

#[test]
fn scenario_read_eof_cancels_and_stops() {
    // The socket read returns zero bytes: the reader fails with an I/O
    // error, the parser observes the closed assembler and cancels, and
    // stop shuts the socket down.
    let mut s = Messager::new(0);
    s.start(true, true, 0);
    let err = s.reader_step(Vec::new()).expect_err("EOF is fatal");
    match err {
        Error::IOError(msg) => assert!(msg.contains("read size=0")),
        _ => panic!("EOF must surface as an I/O error"),
    }
    match s.parser_step(1) {
        ParseOutcome::Stopped(e) => assert!(matches!(e, Error::ClosedError)),
        _ => panic!("parser must observe the closed assembler"),
    }
    assert!(s.done());
    assert!(s.stop().shutdown_socket);
    assert!(!s.stop().shutdown_socket);
}

#[test]
fn parse_error_cancels_session() {
    let mut s = Messager::new(0);
    s.start(false, false, 0);
    let mut bad = encode(&plain(1, "a"));
    bad[16] = 0xFF; // command byte is not UTF-8
    match s.recv_step(bad, 1) {
        ParseOutcome::Stopped(e) => assert!(matches!(e, Error::ParseError)),
        _ => panic!("undecodable frame must stop the session"),
    }
    assert!(s.done());
}

#[test]
fn interrupted_handler_cancels_session() {
    let mut s = Messager::new(0);
    s.start(true, false, 0);
    s.handler_result(false);
    assert!(!s.done());
    s.handler_result(true);
    assert!(s.done());
}

#[test]
fn timer_tick_and_tmout() {
    let mut t = Timer::new(20);
    assert!(!t.tick(19));
    assert!(t.tick(20));
    // tick restarts the count
    assert!(!t.tick(39));
    assert!(t.tick(40));
    let t2 = Timer::new(30);
    assert!(!t2.tmout(29));
    assert!(t2.tmout(30));
    assert!(t2.tmout(31));
}

#[test]
fn checker_heartbeat_cadence_is_client_only() {
    let mut server = Messager::new(0);
    server.start(true, false, 0);
    let eff = server.check_tick(INTERVAL_MS);
    assert!(!eff.heart_queued);
    assert!(!eff.heart_dropped);
    assert!(matches!(server.sender_step(), SendStep::Pending));
    let mut client = Messager::new(0);
    client.start(false, false, 0);
    let eff = client.check_tick(INTERVAL_MS);
    assert!(eff.heart_queued);
}

#[test]
fn jmap_err_not_mutable() {
    let e = msger::maps::JMapErr::nomut();
    drop(e);
    let r: Result<i32, msger::maps::JMapErr> = msger::maps::JMapErr::nomuts();
    assert!(r.is_err());
}

#[test]
fn sender_stops_on_closed_drained_queue() {
    let mut s = Messager::new(0);
    let _ = s.stop();
    assert!(matches!(s.sender_step(), SendStep::Stopped));
    assert!(s.done());
}
