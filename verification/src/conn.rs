//! The per-connection TCP protocol engine: state machine, send/receive
//! sequence-space bookkeeping, segment acceptance and the decision logic
//! for which control segments to emit.
//!
//! Every executable entry point is specified against a functional
//! transition model (`accept_spec`, `step`, `close_spec`, `tick_spec`), so
//! the protocol laws can be stated and proved over that model.
use vstd::prelude::*;

use crate::segment::{OutSegment, ProtocolError, TcpSegment, seg_len};
use crate::seqspace::{
    distance, is_between_wrapped, is_seq_le, is_seq_lt, seq_add, seq_distance, seq_le, seq_lt,
    spec_between, wrap_add,
};

verus! {

/// Window this endpoint advertises when answering a SYN.
pub const ADVERTISED_WINDOW: u16 = 10;

/// Ticks of the external sweep before an unacknowledged segment is resent.
pub const INITIAL_RTO_TICKS: u32 = 2;

/// Cap on the doubling retransmission timeout.
pub const MAX_RTO_TICKS: u32 = 64;

/// Retransmissions tolerated before the peer counts as unreachable.
pub const MAX_RETRANSMITS: u32 = 5;

/// Quiet ticks a TimeWait connection waits before it closes.
pub const TIME_WAIT_TICKS: u32 = 8;

/// RFC 793 connection states. Only the passive (responder) role is
/// supported, so SynSent does not occur.
#[derive(Clone, Copy, PartialEq, Eq, Structural, Debug)]
pub enum State {
    Closed,
    Listen,
    SynReceived,
    Established,
    FinWait1,
    FinWait2,
    Closing,
    CloseWait,
    LastAck,
    TimeWait,
}

/// Send sequence space: bytes in `[una, nxt)` are in flight, unacknowledged.
#[derive(Clone, Copy, PartialEq, Eq, Structural, Debug)]
pub struct SendSequenceSpace {
    /// Oldest unacknowledged sequence number.
    pub una: u32,
    /// Next sequence number this side will send.
    pub nxt: u32,
    /// Send window, as last accepted from the peer.
    pub wnd: u16,
    /// Urgent pointer flag (carried, never acted on).
    pub up: bool,
    /// Sequence number of the segment that last updated the window.
    pub wl1: u32,
    /// Acknowledgment number of the segment that last updated the window.
    pub wl2: u32,
    /// Initial send sequence number, chosen at connection creation.
    pub iss: u32,
}

/// Receive sequence space: `nxt` only advances, and only by in-order,
/// in-window sequence slots actually accepted.
#[derive(Clone, Copy, PartialEq, Eq, Structural, Debug)]
pub struct ReceiveSequenceSpace {
    /// Next sequence number expected from the peer.
    pub nxt: u32,
    /// Window governing which incoming sequence numbers are acceptable.
    pub wnd: u16,
    /// Urgent pointer flag (carried, never acted on).
    pub up: bool,
    /// Peer's initial sequence number, captured from its SYN.
    pub irs: u32,
}

/// The most recently sent unacknowledged control segment, retained for
/// retransmission, with its tick-based timer bookkeeping.
#[derive(Clone, Copy, PartialEq, Eq, Structural, Debug)]
pub struct RtxRecord {
    /// The segment to resend.
    pub seg: OutSegment,
    /// Ticks since it was (re)sent.
    pub age: u32,
    /// Current retransmission timeout, in ticks.
    pub rto: u32,
    /// How many times it has already been resent.
    pub retries: u32,
}

/// One TCP connection: current state plus its two sequence spaces. Mutated
/// only through `on_packet`, `close` and `on_tick`; a caller-side table maps
/// each flow key to at most one instance.
#[derive(Clone, Copy, Debug)]
pub struct Connection {
    /// Current protocol state.
    pub state: State,
    /// Send sequence space.
    pub send: SendSequenceSpace,
    /// Receive sequence space.
    pub recv: ReceiveSequenceSpace,
    /// This endpoint's port (destination port of incoming segments).
    pub local_port: u16,
    /// The peer's port.
    pub remote_port: u16,
    /// Pending retransmission record, if anything sent is unacknowledged.
    pub rtx: Option<RtxRecord>,
    /// Ticks spent quiescent in TimeWait.
    pub quiet_ticks: u32,
}

/// States in which the general segment-processing rules (acceptability,
/// RST, ACK, data) apply.
pub open spec fn synchronized(s: State) -> bool {
    ||| s is SynReceived
    ||| s is Established
    ||| s is FinWait1
    ||| s is FinWait2
    ||| s is Closing
    ||| s is CloseWait
    ||| s is LastAck
    ||| s is TimeWait
}

/// States in which incoming payload and FIN still consume sequence space.
pub open spec fn consumes_data(s: State) -> bool {
    ||| s is Established
    ||| s is FinWait1
    ||| s is FinWait2
}

/// `x` lies in the receive window `[recv.nxt, recv.nxt + recv.wnd)`,
/// wraparound-aware.
pub open spec fn in_recv_window(rcv: ReceiveSequenceSpace, x: u32) -> bool {
    distance(rcv.nxt, x) < rcv.wnd
}

/// A segment is acceptable iff at least one of its endpoints falls in the
/// receive window, or it occupies no sequence space and sits exactly at the
/// window edge `recv.nxt` (pure ACK/control segment).
pub open spec fn spec_acceptable(rcv: ReceiveSequenceSpace, seg: TcpSegment) -> bool {
    let len = seg_len(seg);
    if len == 0 {
        if rcv.wnd == 0 {
            seg.seq == rcv.nxt
        } else {
            in_recv_window(rcv, seg.seq)
        }
    } else {
        rcv.wnd > 0 && (in_recv_window(rcv, seg.seq) || in_recv_window(
            rcv,
            wrap_add(seg.seq, (len - 1) as u32),
        ))
    }
}

/// The wl1/wl2 rule: a segment may update the send window only if its
/// sequence number is later than that of the last accepted update, or equal
/// with an acknowledgment number at least as late. Prevents an old
/// duplicate ACK from shrinking or growing the window.
pub open spec fn window_update_ok(snd: SendSequenceSpace, seg: TcpSegment) -> bool {
    seq_lt(snd.wl1, seg.seq) || (snd.wl1 == seg.seq && seq_le(snd.wl2, seg.ack))
}

/// `ack` acknowledges something currently in flight: `una < ack <= nxt`.
pub open spec fn ack_acceptable(snd: SendSequenceSpace, ack: u32) -> bool {
    spec_between(snd.una, ack, wrap_add(snd.nxt, 1))
}

/// One step's outcome: the connection afterwards and what the caller gets
/// back (possibly a control segment to transmit).
pub struct Step {
    /// The connection after the step.
    pub conn: Connection,
    /// What the entry point returns: at most one segment to emit, or the
    /// error that aborted or rejected the operation.
    pub out: Result<Option<OutSegment>, ProtocolError>,
}

impl Connection {
    /// Internal well-formedness: at most one sequence slot is ever in
    /// flight (this core sends only SYN and FIN, never payload), and the
    /// sequence spaces agree with the state tag.
    pub open spec fn wf(self) -> bool {
        &&& distance(self.send.una, self.send.nxt) <= 1
        &&& (self.state is SynReceived ==> self.send.una == self.send.iss && self.send.nxt
            == wrap_add(self.send.iss, 1))
        &&& ((self.state is Established || self.state is CloseWait || self.state is Listen)
            ==> self.send.una == self.send.nxt)
    }

    /// The ACK this side would send right now: our next sequence number,
    /// acknowledging everything received in order so far.
    pub open spec fn ack_reply(self) -> OutSegment {
        OutSegment {
            src_port: self.local_port,
            dst_port: self.remote_port,
            seq: self.send.nxt,
            ack: self.recv.nxt,
            wnd: self.recv.wnd,
            syn: false,
            ack_set: true,
            fin: false,
            rst: false,
        }
    }

    /// The SYN-ACK answering the peer's SYN; resent verbatim while the
    /// handshake is incomplete.
    pub open spec fn syn_ack_reply(self) -> OutSegment {
        OutSegment {
            src_port: self.local_port,
            dst_port: self.remote_port,
            seq: self.send.iss,
            ack: self.recv.nxt,
            wnd: self.send.wnd,
            syn: true,
            ack_set: true,
            fin: false,
            rst: false,
        }
    }

    /// The RST answering an ACK that matches nothing we sent during the
    /// handshake: it carries the offending acknowledgment number.
    pub open spec fn rst_reply(self, seg: TcpSegment) -> OutSegment {
        OutSegment {
            src_port: self.local_port,
            dst_port: self.remote_port,
            seq: seg.ack,
            ack: 0,
            wnd: 0,
            syn: false,
            ack_set: false,
            fin: false,
            rst: true,
        }
    }

    /// The connection once aborted: Closed, nothing left to retransmit.
    pub open spec fn aborted(self) -> Connection {
        Connection { state: State::Closed, rtx: None, ..self }
    }
}

/// What `Connection::accept` yields for a first-contact segment: a fresh
/// SynReceived connection and its SYN-ACK, or nothing if the segment is not
/// a pure SYN.
pub open spec fn accept_spec(seg: TcpSegment, iss: u32) -> Option<(Connection, OutSegment)> {
    if seg.syn && !seg.ack_set {
        let c = Connection {
            state: State::SynReceived,
            send: SendSequenceSpace {
                una: iss,
                nxt: wrap_add(iss, 1),
                wnd: ADVERTISED_WINDOW,
                up: false,
                wl1: 0,
                wl2: 0,
                iss,
            },
            recv: ReceiveSequenceSpace {
                nxt: wrap_add(seg.seq, 1),
                wnd: seg.wnd,
                up: false,
                irs: seg.seq,
            },
            local_port: seg.dst_port,
            remote_port: seg.src_port,
            rtx: None,
            quiet_ticks: 0,
        };
        let out = c.syn_ack_reply();
        let c1 = Connection {
            rtx: Some(RtxRecord { seg: out, age: 0, rto: INITIAL_RTO_TICKS, retries: 0 }),
            ..c
        };
        Some((c1, out))
    } else {
        None
    }
}

/// A stray segment reaching a passive listener is ignored, except that a
/// RST aborts it.
pub open spec fn step_listen(c: Connection, seg: TcpSegment) -> Step {
    if seg.rst {
        Step { conn: c.aborted(), out: Err(ProtocolError::ProtocolViolation) }
    } else {
        Step { conn: c, out: Ok(None) }
    }
}

/// The send space after a fresh or duplicate acknowledgment: `una` advances
/// to the acknowledged point and the advertised window is taken over only
/// under the wl1/wl2 guard.
pub open spec fn ack_update(snd: SendSequenceSpace, seg: TcpSegment) -> SendSequenceSpace {
    if window_update_ok(snd, seg) {
        SendSequenceSpace { una: seg.ack, wnd: seg.wnd, wl1: seg.seq, wl2: seg.ack, ..snd }
    } else {
        SendSequenceSpace { una: seg.ack, ..snd }
    }
}

/// State transitions driven purely by the peer acknowledging our FIN.
pub open spec fn ack_transition(c: Connection) -> Connection {
    let fin_acked = c.send.una == c.send.nxt;
    if c.state is FinWait1 && fin_acked {
        Connection { state: State::FinWait2, ..c }
    } else if c.state is Closing && fin_acked {
        Connection { state: State::TimeWait, quiet_ticks: 0, ..c }
    } else if c.state is LastAck && fin_acked {
        Connection { state: State::Closed, ..c }
    } else {
        c
    }
}

/// Consumption of the peer's sequence space: in-order bytes within the
/// window advance `recv.nxt`; a FIN reached in order consumes one more slot
/// and moves the close sequence along; anything newly consumed is
/// acknowledged at once. Out-of-order bytes are dropped (no reassembly
/// buffer) and draw a duplicate ACK so the peer retransmits. An incoming
/// SYN bit in these states matches nothing we expect and is ignored.
pub open spec fn step_data(c: Connection, seg: TcpSegment) -> Step {
    if consumes_data(c.state) {
        let d = distance(seg.seq, c.recv.nxt);
        let plen = seg.payload_len as int;
        if d <= plen {
            let avail = plen - d;
            let wnd = c.recv.wnd as int;
            let take = if avail <= wnd {
                avail
            } else {
                wnd
            };
            let fin_taken = seg.fin && avail < wnd;
            let consumed = take + if fin_taken {
                1int
            } else {
                0int
            };
            let next_state = if !fin_taken {
                c.state
            } else if c.state is Established {
                State::CloseWait
            } else if c.state is FinWait1 {
                State::Closing
            } else {
                State::TimeWait
            };
            let c1 = Connection {
                state: next_state,
                recv: ReceiveSequenceSpace {
                    nxt: wrap_add(c.recv.nxt, consumed as u32),
                    ..c.recv
                },
                quiet_ticks: if next_state is TimeWait {
                    0
                } else {
                    c.quiet_ticks
                },
                ..c
            };
            if consumed > 0 {
                Step { conn: c1, out: Ok(Some(c1.ack_reply())) }
            } else {
                Step { conn: c1, out: Ok(None) }
            }
        } else {
            if plen > 0 || seg.fin {
                Step { conn: c, out: Ok(Some(c.ack_reply())) }
            } else {
                Step { conn: c, out: Ok(None) }
            }
        }
    } else {
        Step { conn: c, out: Ok(None) }
    }
}

/// SynReceived: an unacceptable segment (a retransmitted SYN above all)
/// draws the SYN-ACK again; an acceptable RST aborts; the ACK completing
/// the handshake moves to Established and is then processed like any
/// synchronized segment; an ACK matching nothing we sent draws a RST.
pub open spec fn step_syn_received(c: Connection, seg: TcpSegment) -> Step {
    if !spec_acceptable(c.recv, seg) {
        if seg.rst {
            Step { conn: c, out: Ok(None) }
        } else {
            Step { conn: c, out: Ok(Some(c.syn_ack_reply())) }
        }
    } else if seg.rst {
        Step { conn: c.aborted(), out: Err(ProtocolError::ProtocolViolation) }
    } else if !seg.ack_set {
        Step { conn: c, out: Ok(None) }
    } else if ack_acceptable(c.send, seg.ack) {
        let c1 = Connection {
            state: State::Established,
            send: SendSequenceSpace {
                una: seg.ack,
                wnd: seg.wnd,
                wl1: seg.seq,
                wl2: seg.ack,
                ..c.send
            },
            rtx: None,
            ..c
        };
        step_data(c1, seg)
    } else {
        Step { conn: c, out: Ok(Some(c.rst_reply(seg))) }
    }
}

/// The synchronized states: unacceptable segments never mutate state and
/// (unless they carry RST) draw one corrective ACK; an acceptable RST
/// aborts; a valid or duplicate ACK advances `una` under the wl1/wl2
/// window rule and may complete a close; an ACK for data never sent aborts
/// the connection; in-order data and FIN are then consumed.
pub open spec fn step_synchronized(c: Connection, seg: TcpSegment) -> Step {
    if !spec_acceptable(c.recv, seg) {
        if seg.rst {
            Step { conn: c, out: Ok(None) }
        } else {
            Step { conn: c, out: Ok(Some(c.ack_reply())) }
        }
    } else if seg.rst {
        Step { conn: c.aborted(), out: Err(ProtocolError::ProtocolViolation) }
    } else if !seg.ack_set {
        Step { conn: c, out: Ok(None) }
    } else if ack_acceptable(c.send, seg.ack) || seg.ack == c.send.una {
        let c1 = Connection {
            send: ack_update(c.send, seg),
            rtx: if seg.ack == c.send.nxt {
                None
            } else {
                c.rtx
            },
            ..c
        };
        step_data(ack_transition(c1), seg)
    } else if seq_lt(seg.ack, c.send.una) {
        // an old duplicate acknowledgment: its ack field is ignored
        step_data(c, seg)
    } else {
        // it acknowledges data this side never sent
        Step { conn: c.aborted(), out: Err(ProtocolError::ProtocolViolation) }
    }
}

/// The full transition relation of `Connection::on_packet`.
pub open spec fn step(c: Connection, seg: TcpSegment) -> Step {
    if c.state is Closed {
        Step { conn: c, out: Ok(None) }
    } else if c.state is Listen {
        step_listen(c, seg)
    } else if c.state is SynReceived {
        step_syn_received(c, seg)
    } else {
        step_synchronized(c, seg)
    }
}

/// What `Connection::close` does: from Established or CloseWait it emits a
/// FIN consuming one slot of `send.nxt` and waits for its acknowledgment;
/// anywhere else it is a usage error.
pub open spec fn close_spec(c: Connection) -> (Connection, Result<OutSegment, ProtocolError>) {
    if c.state is Established || c.state is CloseWait {
        let fin = OutSegment {
            src_port: c.local_port,
            dst_port: c.remote_port,
            seq: c.send.nxt,
            ack: c.recv.nxt,
            wnd: c.recv.wnd,
            syn: false,
            ack_set: true,
            fin: true,
            rst: false,
        };
        let c1 = Connection {
            state: if c.state is Established {
                State::FinWait1
            } else {
                State::LastAck
            },
            send: SendSequenceSpace { nxt: wrap_add(c.send.nxt, 1), ..c.send },
            rtx: Some(RtxRecord { seg: fin, age: 0, rto: INITIAL_RTO_TICKS, retries: 0 }),
            ..c
        };
        (c1, Ok(fin))
    } else {
        (c, Err(ProtocolError::NotConnected))
    }
}

/// What one sweep tick does: TimeWait quiesces towards Closed; elsewhere an
/// unacknowledged segment ages, is resent with a doubled (capped) timeout
/// once the timeout elapses, and aborts the connection as a timeout failure
/// once the retry budget is spent.
pub open spec fn tick_spec(c: Connection) -> Step {
    if c.state is Closed {
        Step { conn: c, out: Ok(None) }
    } else if c.state is TimeWait {
        if c.quiet_ticks + 1 >= TIME_WAIT_TICKS {
            Step { conn: c.aborted(), out: Ok(None) }
        } else {
            Step {
                conn: Connection { quiet_ticks: (c.quiet_ticks + 1) as u32, ..c },
                out: Ok(None),
            }
        }
    } else {
        match c.rtx {
            None => Step { conn: c, out: Ok(None) },
            Some(r) => {
                if r.age + 1 < r.rto {
                    Step {
                        conn: Connection {
                            rtx: Some(RtxRecord { age: (r.age + 1) as u32, ..r }),
                            ..c
                        },
                        out: Ok(None),
                    }
                } else if r.retries >= MAX_RETRANSMITS {
                    Step { conn: c.aborted(), out: Err(ProtocolError::Timeout) }
                } else {
                    let doubled = if r.rto > MAX_RTO_TICKS / 2 {
                        MAX_RTO_TICKS
                    } else {
                        (r.rto * 2) as u32
                    };
                    Step {
                        conn: Connection {
                            rtx: Some(
                                RtxRecord {
                                    seg: r.seg,
                                    age: 0,
                                    rto: doubled,
                                    retries: (r.retries + 1) as u32,
                                },
                            ),
                            ..c
                        },
                        out: Ok(Some(r.seg)),
                    }
                }
            },
        }
    }
}

impl Connection {
    /// A passive listener bound to `local_port`: no sequence numbers yet.
    pub fn listen(local_port: u16) -> (r: Connection)
        ensures
            r.state is Listen,
            r.local_port == local_port,
            r.wf(),
    {
        Connection {
            state: State::Listen,
            send: SendSequenceSpace { una: 0, nxt: 0, wnd: 0, up: false, wl1: 0, wl2: 0, iss: 0 },
            recv: ReceiveSequenceSpace { nxt: 0, wnd: 0, up: false, irs: 0 },
            local_port,
            remote_port: 0,
            rtx: None,
            quiet_ticks: 0,
        }
    }

    /// Accept a first-contact segment: a SYN without ACK creates a fully
    /// initialized SynReceived connection and its SYN-ACK answer; anything
    /// else creates nothing (unsolicited non-SYN traffic is ignored, not an
    /// error). `iss` is the initial send sequence number the caller chose.
    pub fn accept(seg: &TcpSegment, iss: u32) -> (r: Option<(Connection, OutSegment)>)
        ensures
            r == accept_spec(*seg, iss),
            (seg.syn && !seg.ack_set) <==> r is Some,
            r is Some ==> ({
                let (c, out) = r.unwrap();
                &&& c.state is SynReceived
                &&& c.wf()
                &&& c.recv.irs == seg.seq
                &&& c.recv.nxt == wrap_add(seg.seq, 1)
                &&& c.recv.wnd == seg.wnd
                &&& c.send.iss == iss
                &&& c.send.una == iss
                &&& c.send.nxt == wrap_add(iss, 1)
                &&& out.syn
                &&& out.ack_set
                &&& out.seq == iss
                &&& out.ack == wrap_add(seg.seq, 1)
            }),
    {
        if seg.syn && !seg.ack_set {
            let out = OutSegment {
                src_port: seg.dst_port,
                dst_port: seg.src_port,
                seq: iss,
                ack: seq_add(seg.seq, 1),
                wnd: ADVERTISED_WINDOW,
                syn: true,
                ack_set: true,
                fin: false,
                rst: false,
            };
            let c = Connection {
                state: State::SynReceived,
                send: SendSequenceSpace {
                    una: iss,
                    nxt: seq_add(iss, 1),
                    wnd: ADVERTISED_WINDOW,
                    up: false,
                    wl1: 0,
                    wl2: 0,
                    iss,
                },
                recv: ReceiveSequenceSpace {
                    nxt: seq_add(seg.seq, 1),
                    wnd: seg.wnd,
                    up: false,
                    irs: seg.seq,
                },
                local_port: seg.dst_port,
                remote_port: seg.src_port,
                rtx: Some(RtxRecord { seg: out, age: 0, rto: INITIAL_RTO_TICKS, retries: 0 }),
                quiet_ticks: 0,
            };
            Some((c, out))
        } else {
            None
        }
    }

    /// Is this segment acceptable in the current receive window?
    fn acceptable(&self, seg: &TcpSegment) -> (r: bool)
        requires
            seg.payload_len <= 0xFFFF,
        ensures
            r == spec_acceptable(self.recv, *seg),
    {
        let len: u32 = seg.payload_len + (if seg.syn {
            1
        } else {
            0
        }) + (if seg.fin {
            1
        } else {
            0
        });
        if len == 0 {
            if self.recv.wnd == 0 {
                seg.seq == self.recv.nxt
            } else {
                seq_distance(self.recv.nxt, seg.seq) < self.recv.wnd as u32
            }
        } else {
            self.recv.wnd > 0 && (seq_distance(self.recv.nxt, seg.seq) < self.recv.wnd as u32
                || seq_distance(self.recv.nxt, seq_add(seg.seq, len - 1)) < self.recv.wnd as u32)
        }
    }

    /// Build the corrective/duplicate ACK for the current state.
    fn make_ack_reply(&self) -> (r: OutSegment)
        ensures
            r == self.ack_reply(),
    {
        OutSegment {
            src_port: self.local_port,
            dst_port: self.remote_port,
            seq: self.send.nxt,
            ack: self.recv.nxt,
            wnd: self.recv.wnd,
            syn: false,
            ack_set: true,
            fin: false,
            rst: false,
        }
    }

    /// Consume in-order payload and FIN as `step_data` describes.
    fn handle_data(&mut self, seg: &TcpSegment) -> (r: Result<Option<OutSegment>, ProtocolError>)
        requires
            seg.payload_len <= 0xFFFF,
        ensures
            *final(self) == step_data(*old(self), *seg).conn,
            r == step_data(*old(self), *seg).out,
    {
        match self.state {
            State::Established | State::FinWait1 | State::FinWait2 => {},
            _ => {
                return Ok(None);
            },
        }
        let d: u32 = seq_distance(seg.seq, self.recv.nxt);
        let plen: u32 = seg.payload_len;
        if d <= plen {
            let avail: u32 = plen - d;
            let wnd: u32 = self.recv.wnd as u32;
            let take: u32 = if avail <= wnd {
                avail
            } else {
                wnd
            };
            let fin_taken = seg.fin && avail < wnd;
            let consumed: u32 = take + (if fin_taken {
                1
            } else {
                0
            });
            self.recv.nxt = seq_add(self.recv.nxt, consumed);
            if fin_taken {
                match self.state {
                    State::Established => {
                        self.state = State::CloseWait;
                    },
                    State::FinWait1 => {
                        self.state = State::Closing;
                    },
                    _ => {
                        self.state = State::TimeWait;
                        self.quiet_ticks = 0;
                    },
                }
            }
            if consumed > 0 {
                Ok(Some(self.make_ack_reply()))
            } else {
                Ok(None)
            }
        } else {
            if plen > 0 || seg.fin {
                Ok(Some(self.make_ack_reply()))
            } else {
                Ok(None)
            }
        }
    }

    /// Handle a segment in SynReceived, per `step_syn_received`.
    fn handle_syn_received(&mut self, seg: &TcpSegment) -> (r: Result<
        Option<OutSegment>,
        ProtocolError,
    >)
        requires
            old(self).state is SynReceived,
            seg.payload_len <= 0xFFFF,
        ensures
            *final(self) == step_syn_received(*old(self), *seg).conn,
            r == step_syn_received(*old(self), *seg).out,
    {
        if !self.acceptable(seg) {
            if seg.rst {
                return Ok(None);
            }
            let out = OutSegment {
                src_port: self.local_port,
                dst_port: self.remote_port,
                seq: self.send.iss,
                ack: self.recv.nxt,
                wnd: self.send.wnd,
                syn: true,
                ack_set: true,
                fin: false,
                rst: false,
            };
            return Ok(Some(out));
        }
        if seg.rst {
            self.state = State::Closed;
            self.rtx = None;
            return Err(ProtocolError::ProtocolViolation);
        }
        if !seg.ack_set {
            return Ok(None);
        }
        if is_between_wrapped(self.send.una, seg.ack, seq_add(self.send.nxt, 1)) {
            self.state = State::Established;
            self.send.una = seg.ack;
            self.send.wnd = seg.wnd;
            self.send.wl1 = seg.seq;
            self.send.wl2 = seg.ack;
            self.rtx = None;
            self.handle_data(seg)
        } else {
            let out = OutSegment {
                src_port: self.local_port,
                dst_port: self.remote_port,
                seq: seg.ack,
                ack: 0,
                wnd: 0,
                syn: false,
                ack_set: false,
                fin: false,
                rst: true,
            };
            Ok(Some(out))
        }
    }

    /// Handle a segment in a synchronized state, per `step_synchronized`.
    fn handle_synchronized(&mut self, seg: &TcpSegment) -> (r: Result<
        Option<OutSegment>,
        ProtocolError,
    >)
        requires
            synchronized(old(self).state),
            !(old(self).state is SynReceived),
            seg.payload_len <= 0xFFFF,
        ensures
            *final(self) == step_synchronized(*old(self), *seg).conn,
            r == step_synchronized(*old(self), *seg).out,
    {
        if !self.acceptable(seg) {
            if seg.rst {
                return Ok(None);
            }
            return Ok(Some(self.make_ack_reply()));
        }
        if seg.rst {
            self.state = State::Closed;
            self.rtx = None;
            return Err(ProtocolError::ProtocolViolation);
        }
        if !seg.ack_set {
            return Ok(None);
        }
        if is_between_wrapped(self.send.una, seg.ack, seq_add(self.send.nxt, 1)) || seg.ack
            == self.send.una {
            if is_seq_lt(self.send.wl1, seg.seq) || (self.send.wl1 == seg.seq && is_seq_le(
                self.send.wl2,
                seg.ack,
            )) {
                self.send.una = seg.ack;
                self.send.wnd = seg.wnd;
                self.send.wl1 = seg.seq;
                self.send.wl2 = seg.ack;
            } else {
                self.send.una = seg.ack;
            }
            if seg.ack == self.send.nxt {
                self.rtx = None;
            }
            let fin_acked = self.send.una == self.send.nxt;
            match self.state {
                State::FinWait1 => {
                    if fin_acked {
                        self.state = State::FinWait2;
                    }
                },
                State::Closing => {
                    if fin_acked {
                        self.state = State::TimeWait;
                        self.quiet_ticks = 0;
                    }
                },
                State::LastAck => {
                    if fin_acked {
                        self.state = State::Closed;
                    }
                },
                _ => {},
            }
            self.handle_data(seg)
        } else if is_seq_lt(seg.ack, self.send.una) {
            self.handle_data(seg)
        } else {
            self.state = State::Closed;
            self.rtx = None;
            Err(ProtocolError::ProtocolViolation)
        }
    }

    /// Process one received segment addressed to this flow. The whole
    /// behaviour is `step`; segments outside the window never mutate state,
    /// an acceptable RST (or an ACK of unsent data) aborts to Closed, and
    /// everything newly consumed is acknowledged in the returned segment.
    pub fn on_packet(&mut self, seg: &TcpSegment) -> (r: Result<Option<OutSegment>, ProtocolError>)
        requires
            seg.payload_len <= 0xFFFF,
        ensures
            *final(self) == step(*old(self), *seg).conn,
            r == step(*old(self), *seg).out,
    {
        match self.state {
            State::Closed => Ok(None),
            State::Listen => {
                if seg.rst {
                    self.state = State::Closed;
                    self.rtx = None;
                    Err(ProtocolError::ProtocolViolation)
                } else {
                    Ok(None)
                }
            },
            State::SynReceived => self.handle_syn_received(seg),
            _ => self.handle_synchronized(seg),
        }
    }

    /// Request a graceful close: emit our FIN and start waiting for its
    /// acknowledgment. Valid only in Established or CloseWait; elsewhere
    /// the connection is left untouched and the caller told NotConnected.
    pub fn close(&mut self) -> (r: Result<OutSegment, ProtocolError>)
        ensures
            *final(self) == close_spec(*old(self)).0,
            r == close_spec(*old(self)).1,
            old(self).state is Established ==> final(self).state is FinWait1 && r is Ok,
            old(self).state is CloseWait ==> final(self).state is LastAck && r is Ok,
            !(old(self).state is Established || old(self).state is CloseWait) ==> (*final(self)
                == *old(self) && r == Err::<OutSegment, ProtocolError>(
                ProtocolError::NotConnected,
            )),
    {
        match self.state {
            State::Established | State::CloseWait => {},
            _ => {
                return Err(ProtocolError::NotConnected);
            },
        }
        let fin = OutSegment {
            src_port: self.local_port,
            dst_port: self.remote_port,
            seq: self.send.nxt,
            ack: self.recv.nxt,
            wnd: self.recv.wnd,
            syn: false,
            ack_set: true,
            fin: true,
            rst: false,
        };
        self.state = if matches!(self.state, State::Established) {
            State::FinWait1
        } else {
            State::LastAck
        };
        self.send.nxt = seq_add(self.send.nxt, 1);
        self.rtx = Some(RtxRecord { seg: fin, age: 0, rto: INITIAL_RTO_TICKS, retries: 0 });
        Ok(fin)
    }

    /// One sweep of the external ticker: ages the pending retransmission
    /// (resending and backing off when its timeout elapses, aborting with a
    /// timeout once the budget is spent) and quiesces TimeWait to Closed.
    pub fn on_tick(&mut self) -> (r: Result<Option<OutSegment>, ProtocolError>)
        ensures
            *final(self) == tick_spec(*old(self)).conn,
            r == tick_spec(*old(self)).out,
    {
        if matches!(self.state, State::Closed) {
            return Ok(None);
        }
        if matches!(self.state, State::TimeWait) {
            if self.quiet_ticks >= TIME_WAIT_TICKS - 1 {
                self.state = State::Closed;
                self.rtx = None;
            } else {
                self.quiet_ticks = self.quiet_ticks + 1;
            }
            return Ok(None);
        }
        match self.rtx {
            None => Ok(None),
            Some(r) => {
                if (r.age as u64) + 1 < (r.rto as u64) {
                    self.rtx = Some(RtxRecord { age: r.age + 1, ..r });
                    Ok(None)
                } else if r.retries >= MAX_RETRANSMITS {
                    self.state = State::Closed;
                    self.rtx = None;
                    Err(ProtocolError::Timeout)
                } else {
                    let doubled: u32 = if r.rto > MAX_RTO_TICKS / 2 {
                        MAX_RTO_TICKS
                    } else {
                        r.rto * 2
                    };
                    self.rtx = Some(
                        RtxRecord { seg: r.seg, age: 0, rto: doubled, retries: r.retries + 1 },
                    );
                    Ok(Some(r.seg))
                }
            },
        }
    }
}

} // verus!
