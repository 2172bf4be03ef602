use tcpstate::conn::{Connection, State};
use tcpstate::segment::{ProtocolError, TcpSegment};

fn seg(seq: u32, ack: Option<u32>, payload_len: u32) -> TcpSegment {
    TcpSegment {
        src_port: 4321,
        dst_port: 80,
        seq,
        ack: ack.unwrap_or(0),
        wnd: 50,
        syn: false,
        ack_set: ack.is_some(),
        fin: false,
        rst: false,
        urg: false,
        payload_len,
    }
}

fn syn(seq: u32, wnd: u16) -> TcpSegment {
    TcpSegment {
        src_port: 4321,
        dst_port: 80,
        seq,
        ack: 0,
        wnd,
        syn: true,
        ack_set: false,
        fin: false,
        rst: false,
        urg: false,
        payload_len: 0,
    }
}

/// A connection that has completed the handshake: iss 1000, irs 100,
/// recv.nxt 101, send.nxt 1001, peer window 50.
fn established() -> Connection {
    let (mut c, _) = Connection::accept(&syn(100, 50), 1000).unwrap();
    let r = c.on_packet(&seg(101, Some(1001), 0));
    assert_eq!(r, Ok(None));
    assert_eq!(c.state, State::Established);
    c
}

#[test]
fn accept_syn_creates_syn_received() {
    let (c, out) = Connection::accept(&syn(100, 50), 1000).unwrap();
    assert_eq!(c.state, State::SynReceived);
    assert_eq!(c.recv.irs, 100);
    assert_eq!(c.recv.nxt, 101);
    assert_eq!(c.recv.wnd, 50);
    assert_eq!(c.send.iss, 1000);
    assert_eq!(c.send.una, 1000);
    assert_eq!(c.send.nxt, 1001);
    assert!(out.syn && out.ack_set);
    assert_eq!(out.seq, 1000);
    assert_eq!(out.ack, 101);
    assert_eq!(out.src_port, 80);
    assert_eq!(out.dst_port, 4321);
}

#[test]
fn accept_ignores_non_syn() {
    assert!(Connection::accept(&seg(100, None, 0), 1000).is_none());
    assert!(Connection::accept(&seg(100, Some(5), 0), 1000).is_none());
    let mut synack = syn(100, 50);
    synack.ack_set = true;
    synack.ack = 7;
    assert!(Connection::accept(&synack, 1000).is_none());
}

#[test]
fn accept_wrapping_sequence_number() {
    let (c, out) = Connection::accept(&syn(0xFFFF_FFFF, 50), 0xFFFF_FFFE).unwrap();
    assert_eq!(c.recv.nxt, 0);
    assert_eq!(c.send.nxt, 0xFFFF_FFFF);
    assert_eq!(out.ack, 0);
}

#[test]
fn handshake_completion_reaches_established() {
    let (mut c, _) = Connection::accept(&syn(100, 50), 1000).unwrap();
    let r = c.on_packet(&seg(101, Some(1001), 0));
    assert_eq!(r, Ok(None));
    assert_eq!(c.state, State::Established);
    assert_eq!(c.send.una, 1001);
    assert!(c.rtx.is_none());
}

#[test]
fn syn_retransmit_draws_syn_ack_again() {
    let (mut c, first) = Connection::accept(&syn(100, 50), 1000).unwrap();
    let r = c.on_packet(&syn(100, 50)).unwrap().unwrap();
    assert_eq!(r, first);
    assert_eq!(c.state, State::SynReceived);
    assert_eq!(c.recv.nxt, 101);
}

#[test]
fn bad_handshake_ack_draws_rst() {
    let (mut c, _) = Connection::accept(&syn(100, 50), 1000).unwrap();
    // acknowledges something never sent during the handshake
    let r = c.on_packet(&seg(101, Some(4000), 0)).unwrap().unwrap();
    assert!(r.rst);
    assert_eq!(r.seq, 4000);
    assert_eq!(c.state, State::SynReceived);
}

#[test]
fn in_order_data_advances_and_is_acked() {
    let mut c = established();
    let r = c.on_packet(&seg(101, Some(1001), 3)).unwrap().unwrap();
    assert_eq!(c.recv.nxt, 104);
    assert!(r.ack_set && !r.syn && !r.fin && !r.rst);
    assert_eq!(r.ack, 104);
    assert_eq!(r.seq, 1001);
    assert_eq!(c.state, State::Established);
}

#[test]
fn out_of_order_data_is_dropped_with_duplicate_ack() {
    let mut c = established();
    // a gap: bytes from 110 while 101 is expected, still inside the window
    let r = c.on_packet(&seg(110, Some(1001), 3)).unwrap().unwrap();
    assert_eq!(c.recv.nxt, 101);
    assert_eq!(r.ack, 101);
    assert_eq!(c.state, State::Established);
}

#[test]
fn redelivered_segment_does_not_advance_again() {
    let mut c = established();
    c.on_packet(&seg(101, Some(1001), 3)).unwrap();
    assert_eq!(c.recv.nxt, 104);
    let before = c;
    // the very same bytes again: already accepted, already acknowledged
    let r = c.on_packet(&seg(101, Some(1001), 3)).unwrap().unwrap();
    assert_eq!(c.recv.nxt, 104);
    assert_eq!(c.state, before.state);
    assert_eq!(c.send, before.send);
    assert_eq!(c.recv, before.recv);
    assert_eq!(r.ack, 104);
}

#[test]
fn partial_overlap_accepts_only_the_new_bytes() {
    let mut c = established();
    c.on_packet(&seg(101, Some(1001), 3)).unwrap();
    assert_eq!(c.recv.nxt, 104);
    // bytes 102..106: the first two were already accepted, two are new
    let r = c.on_packet(&seg(102, Some(1001), 4)).unwrap().unwrap();
    assert_eq!(c.recv.nxt, 106);
    assert_eq!(r.ack, 106);
}

#[test]
fn payload_beyond_the_window_is_trimmed_to_it() {
    let mut c = established();
    // 60 bytes offered into a 50-slot window: only the window's worth lands
    let r = c.on_packet(&seg(101, Some(1001), 60)).unwrap().unwrap();
    assert_eq!(c.recv.nxt, 151);
    assert_eq!(r.ack, 151);
    assert_eq!(c.state, State::Established);
}

#[test]
fn fin_outside_the_window_does_not_close() {
    let mut c = established();
    // the payload exactly fills the window, pushing the FIN past its edge
    let mut full = seg(101, Some(1001), 50);
    full.fin = true;
    let r = c.on_packet(&full).unwrap().unwrap();
    assert_eq!(c.recv.nxt, 151);
    assert_eq!(r.ack, 151);
    assert_eq!(c.state, State::Established);
}

#[test]
fn out_of_window_segment_changes_nothing_and_corrects() {
    let mut c = established();
    let before = c;
    // far outside [101, 151)
    let r = c.on_packet(&seg(500, Some(1001), 1)).unwrap().unwrap();
    assert_eq!(c.send, before.send);
    assert_eq!(c.recv, before.recv);
    assert_eq!(c.state, State::Established);
    assert_eq!(r.ack, 101);
    assert_eq!(r.seq, 1001);
}

#[test]
fn zero_window_rejects_data() {
    let (mut c, _) = Connection::accept(&syn(100, 0), 1000).unwrap();
    c.on_packet(&seg(101, Some(1001), 0)).unwrap();
    assert_eq!(c.state, State::Established);
    // recv window is zero: payload cannot be accepted
    let r = c.on_packet(&seg(101, Some(1001), 1)).unwrap().unwrap();
    assert_eq!(c.recv.nxt, 101);
    assert_eq!(r.ack, 101);
}

#[test]
fn stale_segment_cannot_move_the_window() {
    let mut c = established();
    // last window update came from seq 101 / ack 1001 (wl1/wl2)
    assert_eq!(c.send.wl1, 101);
    assert_eq!(c.send.wl2, 1001);
    assert_eq!(c.send.wnd, 50);
    // same seq, but an older acknowledgment: the guard must hold the window
    let mut stale = seg(101, Some(1000), 0);
    stale.wnd = 999;
    c.on_packet(&stale).unwrap();
    assert_eq!(c.send.wnd, 50);
    assert_eq!(c.send.wl1, 101);
    assert_eq!(c.send.wl2, 1001);
}

#[test]
fn fresh_segment_updates_the_window() {
    let mut c = established();
    let mut update = seg(101, Some(1001), 0);
    update.wnd = 77;
    let r = c.on_packet(&update);
    assert_eq!(r, Ok(None));
    assert_eq!(c.send.wnd, 77);
}

#[test]
fn ack_of_unsent_data_aborts() {
    let mut c = established();
    let r = c.on_packet(&seg(101, Some(9999), 0));
    assert_eq!(r, Err(ProtocolError::ProtocolViolation));
    assert_eq!(c.state, State::Closed);
}

#[test]
fn rst_aborts_established() {
    let mut c = established();
    let mut rst = seg(101, None, 0);
    rst.rst = true;
    let r = c.on_packet(&rst);
    assert_eq!(r, Err(ProtocolError::ProtocolViolation));
    assert_eq!(c.state, State::Closed);
    assert!(c.rtx.is_none());
    // a closed connection emits nothing further
    assert_eq!(c.on_packet(&seg(101, Some(1001), 1)), Ok(None));
    assert_eq!(c.on_tick(), Ok(None));
}

#[test]
fn rst_aborts_syn_received() {
    let (mut c, _) = Connection::accept(&syn(100, 50), 1000).unwrap();
    let mut rst = seg(101, None, 0);
    rst.rst = true;
    assert_eq!(c.on_packet(&rst), Err(ProtocolError::ProtocolViolation));
    assert_eq!(c.state, State::Closed);
}

#[test]
fn out_of_window_rst_is_ignored() {
    let mut c = established();
    let mut rst = seg(500, None, 0);
    rst.rst = true;
    assert_eq!(c.on_packet(&rst), Ok(None));
    assert_eq!(c.state, State::Established);
}

#[test]
fn listener_ignores_stray_segments_but_dies_on_rst() {
    let mut c = Connection::listen(80);
    assert_eq!(c.state, State::Listen);
    assert_eq!(c.on_packet(&seg(7, Some(9), 0)), Ok(None));
    assert_eq!(c.state, State::Listen);
    let mut rst = seg(7, None, 0);
    rst.rst = true;
    assert_eq!(c.on_packet(&rst), Err(ProtocolError::ProtocolViolation));
    assert_eq!(c.state, State::Closed);
}

#[test]
fn close_is_not_connected_outside_data_states() {
    let (mut c, _) = Connection::accept(&syn(100, 50), 1000).unwrap();
    assert_eq!(c.close(), Err(ProtocolError::NotConnected));
    assert_eq!(c.state, State::SynReceived);
}

#[test]
fn graceful_close_runs_the_fin_handshake() {
    let mut c = established();
    let fin = c.close().unwrap();
    assert_eq!(c.state, State::FinWait1);
    assert!(fin.fin && fin.ack_set);
    assert_eq!(fin.seq, 1001);
    assert_eq!(c.send.nxt, 1002);
    // the peer acknowledges our FIN
    assert_eq!(c.on_packet(&seg(101, Some(1002), 0)), Ok(None));
    assert_eq!(c.state, State::FinWait2);
    assert_eq!(c.send.una, 1002);
    // then sends its own FIN
    let mut peer_fin = seg(101, Some(1002), 0);
    peer_fin.fin = true;
    let last_ack = c.on_packet(&peer_fin).unwrap().unwrap();
    assert_eq!(c.state, State::TimeWait);
    assert_eq!(c.recv.nxt, 102);
    assert_eq!(last_ack.ack, 102);
    // quiescence: the ticker drives TimeWait down to Closed
    let mut ticks = 0;
    while c.state == State::TimeWait {
        assert_eq!(c.on_tick(), Ok(None));
        ticks += 1;
        assert!(ticks < 100, "TimeWait never quiesced");
    }
    assert_eq!(c.state, State::Closed);
}

#[test]
fn simultaneous_close_goes_through_closing() {
    let mut c = established();
    c.close().unwrap();
    assert_eq!(c.state, State::FinWait1);
    // the peer's FIN arrives before any ACK of ours
    let mut peer_fin = seg(101, Some(1001), 0);
    peer_fin.fin = true;
    let r = c.on_packet(&peer_fin).unwrap().unwrap();
    assert_eq!(c.state, State::Closing);
    assert_eq!(r.ack, 102);
    // now the ACK of our FIN lands
    assert_eq!(c.on_packet(&seg(102, Some(1002), 0)), Ok(None));
    assert_eq!(c.state, State::TimeWait);
}

#[test]
fn passive_close_goes_through_close_wait() {
    let mut c = established();
    let mut peer_fin = seg(101, Some(1001), 0);
    peer_fin.fin = true;
    let r = c.on_packet(&peer_fin).unwrap().unwrap();
    assert_eq!(c.state, State::CloseWait);
    assert_eq!(c.recv.nxt, 102);
    assert_eq!(r.ack, 102);
    let fin = c.close().unwrap();
    assert_eq!(c.state, State::LastAck);
    assert!(fin.fin);
    assert_eq!(fin.seq, 1001);
    // the final acknowledgment closes us for good
    assert_eq!(c.on_packet(&seg(102, Some(1002), 0)), Ok(None));
    assert_eq!(c.state, State::Closed);
}

#[test]
fn duplicate_fin_in_time_wait_is_acked_again() {
    let mut c = established();
    c.close().unwrap();
    c.on_packet(&seg(101, Some(1002), 0)).unwrap();
    let mut peer_fin = seg(101, Some(1002), 0);
    peer_fin.fin = true;
    c.on_packet(&peer_fin).unwrap();
    assert_eq!(c.state, State::TimeWait);
    // the final ACK was lost; the peer repeats its FIN
    let again = c.on_packet(&peer_fin).unwrap().unwrap();
    assert_eq!(c.state, State::TimeWait);
    assert_eq!(c.recv.nxt, 102);
    assert_eq!(again.ack, 102);
}

#[test]
fn unacknowledged_syn_ack_is_retransmitted() {
    let (mut c, out) = Connection::accept(&syn(100, 50), 1000).unwrap();
    assert_eq!(c.on_tick(), Ok(None));
    let resent = c.on_tick().unwrap().unwrap();
    assert_eq!(resent, out);
    assert_eq!(c.state, State::SynReceived);
}

#[test]
fn retransmission_budget_exhaustion_times_out() {
    let (mut c, _) = Connection::accept(&syn(100, 50), 1000).unwrap();
    let mut resends = 0;
    let mut outcome = Ok(None);
    for _ in 0..500 {
        outcome = c.on_tick();
        match outcome {
            Ok(Some(_)) => resends += 1,
            Ok(None) => {}
            Err(_) => break,
        }
    }
    assert_eq!(outcome, Err(ProtocolError::Timeout));
    assert_eq!(resends, 5);
    assert_eq!(c.state, State::Closed);
}
