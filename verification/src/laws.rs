//! The protocol laws, stated and proved over the transition model that the
//! executable entry points are specified against: handshake completion,
//! the window-update guard, graceful close, abort on RST, idempotence of
//! redelivery, out-of-window behaviour, and preservation of the
//! connection's internal invariant.
use vstd::prelude::*;

use crate::conn::{
    ack_acceptable, close_spec, spec_acceptable, step, synchronized, tick_spec, window_update_ok,
    Connection, TIME_WAIT_TICKS,
};
use crate::segment::{seg_len, OutSegment, ProtocolError, TcpSegment};
use crate::seqspace::{
    distance, lemma_distance_antisym, lemma_distance_chain, lemma_distance_concat,
    lemma_distance_wrap_add, wrap_add,
};

verus! {

/// The connection after `n` sweeps of the external ticker (ignoring the
/// segments those sweeps may emit).
pub open spec fn iter_ticks(c: Connection, n: nat) -> Connection
    decreases n,
{
    if n == 0 {
        c
    } else {
        iter_ticks(tick_spec(c).conn, (n - 1) as nat)
    }
}

/// A closed connection stays closed under the ticker.
pub proof fn lemma_closed_stays_closed(c: Connection, n: nat)
    requires
        c.state is Closed,
    ensures
        iter_ticks(c, n).state is Closed,
    decreases n,
{
    if n > 0 {
        lemma_closed_stays_closed(tick_spec(c).conn, (n - 1) as nat);
    }
}

/// TimeWait quiesces: once enough further ticks pass with no segment, the
/// connection reaches Closed.
pub proof fn lemma_time_wait_quiesces(c: Connection, n: nat)
    requires
        c.state is TimeWait,
        c.quiet_ticks + n >= TIME_WAIT_TICKS,
        n >= 1,
    ensures
        iter_ticks(c, n).state is Closed,
    decreases n,
{
    if c.quiet_ticks + 1 >= TIME_WAIT_TICKS {
        lemma_closed_stays_closed(tick_spec(c).conn, (n - 1) as nat);
    } else {
        lemma_time_wait_quiesces(tick_spec(c).conn, (n - 1) as nat);
    }
}

/// Every step of segment processing preserves the connection invariant.
pub proof fn lemma_step_preserves_wf(c: Connection, seg: TcpSegment)
    requires
        c.wf(),
    ensures
        step(c, seg).conn.wf(),
{
    let s = c.send;
    lemma_distance_wrap_add(s.nxt, 1);
    lemma_distance_wrap_add(s.iss, 1);
    lemma_distance_wrap_add(wrap_add(s.iss, 1), 1);
    lemma_distance_concat(s.iss, wrap_add(s.iss, 1), wrap_add(wrap_add(s.iss, 1), 1));
    if distance(s.una, s.nxt) + 1 < 0x1_0000_0000 {
        lemma_distance_concat(s.una, s.nxt, wrap_add(s.nxt, 1));
    }
    if ack_acceptable(s, seg.ack) {
        lemma_distance_chain(s.una, seg.ack, s.nxt);
    }
}

/// `close` preserves the connection invariant.
pub proof fn lemma_close_preserves_wf(c: Connection)
    requires
        c.wf(),
    ensures
        close_spec(c).0.wf(),
{
    lemma_distance_wrap_add(c.send.una, 1);
}

/// The ticker preserves the connection invariant.
pub proof fn lemma_tick_preserves_wf(c: Connection)
    requires
        c.wf(),
    ensures
        tick_spec(c).conn.wf(),
{
}

/// Handshake completion: a well-formed SynReceived connection fed an
/// acceptable segment acknowledging exactly `iss + 1` moves to Established,
/// with `send.una` advanced to that acknowledgment.
pub proof fn lemma_handshake_completion(c: Connection, seg: TcpSegment)
    requires
        c.wf(),
        c.state is SynReceived,
        seg.seq == c.recv.nxt,
        seg.payload_len == 0,
        !seg.syn,
        !seg.fin,
        !seg.rst,
        seg.ack_set,
        seg.ack == wrap_add(c.send.iss, 1),
    ensures
        step(c, seg).conn.state is Established,
        step(c, seg).conn.send.una == seg.ack,
        step(c, seg).conn.recv.nxt == c.recv.nxt,
        step(c, seg).out is Ok,
{
    let s = c.send;
    lemma_distance_wrap_add(s.iss, 1);
    lemma_distance_wrap_add(wrap_add(s.iss, 1), 1);
    lemma_distance_concat(s.iss, wrap_add(s.iss, 1), wrap_add(wrap_add(s.iss, 1), 1));
}

/// Window-update guard: in the synchronized states past the handshake, a
/// segment older than the one that last updated the window (the wl1/wl2
/// rule) leaves `send.wnd` and the update markers untouched, whatever else
/// it does.
pub proof fn lemma_stale_window_update(c: Connection, seg: TcpSegment)
    requires
        synchronized(c.state),
        !(c.state is SynReceived),
        !window_update_ok(c.send, seg),
    ensures
        step(c, seg).conn.send.wnd == c.send.wnd,
        step(c, seg).conn.send.wl1 == c.send.wl1,
        step(c, seg).conn.send.wl2 == c.send.wl2,
{
}

/// Abort on reset: an acceptable RST in any state but Closed yields Closed
/// at once, with no reply and nothing left behind to retransmit.
pub proof fn lemma_rst_aborts(c: Connection, seg: TcpSegment)
    requires
        !(c.state is Closed),
        seg.rst,
        c.state is Listen || spec_acceptable(c.recv, seg),
    ensures
        step(c, seg).conn.state is Closed,
        step(c, seg).conn.rtx is None,
        step(c, seg).out == Err::<Option<OutSegment>, ProtocolError>(
            ProtocolError::ProtocolViolation,
        ),
{
}

/// Idempotence of redelivery: a data segment that was already accepted and
/// acknowledged in full (its whole range lies before `recv.nxt`, and that
/// range does not reach back into the live window) mutates nothing and
/// draws at most a duplicate ACK carrying the current `recv.nxt`.
pub proof fn lemma_redelivery_idempotent(c: Connection, seg: TcpSegment)
    requires
        synchronized(c.state),
        !(c.state is SynReceived),
        !seg.rst,
        seg_len(seg) > 0,
        seg_len(seg) <= distance(seg.seq, c.recv.nxt),
        distance(seg.seq, c.recv.nxt) + c.recv.wnd <= 0x1_0000_0000,
    ensures
        step(c, seg).conn == c,
        step(c, seg).out == Ok::<Option<OutSegment>, ProtocolError>(
            Some(c.ack_reply()),
        ),
{
    let len = seg_len(seg);
    let d = distance(seg.seq, c.recv.nxt);
    assert(seg.seq != c.recv.nxt);
    lemma_distance_antisym(seg.seq, c.recv.nxt);
    assert(distance(c.recv.nxt, seg.seq) == 0x1_0000_0000 - d);
    let last = wrap_add(seg.seq, (len - 1) as u32);
    lemma_distance_wrap_add(seg.seq, (len - 1) as u32);
    lemma_distance_concat(c.recv.nxt, seg.seq, last);
    assert(distance(c.recv.nxt, last) == 0x1_0000_0000 - d + len - 1);
    assert(!spec_acceptable(c.recv, seg));
}

/// Out-of-window behaviour: in the synchronized states past the handshake,
/// an unacceptable segment without RST leaves the connection entirely
/// unchanged and triggers exactly one corrective ACK carrying the current
/// `recv.nxt` and `send.nxt`.
pub proof fn lemma_out_of_window(c: Connection, seg: TcpSegment)
    requires
        synchronized(c.state),
        !(c.state is SynReceived),
        !seg.rst,
        !spec_acceptable(c.recv, seg),
    ensures
        step(c, seg).conn == c,
        step(c, seg).out == Ok::<Option<OutSegment>, ProtocolError>(
            Some(c.ack_reply()),
        ),
{
}

/// A retransmitted SYN (or any unacceptable non-RST segment) reaching a
/// SynReceived connection changes nothing and draws the SYN-ACK again.
pub proof fn lemma_syn_retransmit_idempotent(c: Connection, seg: TcpSegment)
    requires
        c.state is SynReceived,
        !seg.rst,
        !spec_acceptable(c.recv, seg),
    ensures
        step(c, seg).conn == c,
        step(c, seg).out == Ok::<Option<OutSegment>, ProtocolError>(
            Some(c.syn_ack_reply()),
        ),
{
}

/// The receive edge only advances, and only by the in-order, in-window
/// sequence slots actually accepted: one step moves `recv.nxt` forward by
/// at most the advertised receive window (and the window never spans half
/// the circle, so a backward move would show as a far larger distance).
pub proof fn lemma_recv_edge_advances_within_window(c: Connection, seg: TcpSegment)
    ensures
        distance(c.recv.nxt, step(c, seg).conn.recv.nxt) <= c.recv.wnd,
{
    let d = distance(seg.seq, c.recv.nxt);
    let plen = seg.payload_len as int;
    if d <= plen {
        let avail = plen - d;
        let wnd = c.recv.wnd as int;
        let take = if avail <= wnd {
            avail
        } else {
            wnd
        };
        let consumed = take + if seg.fin && avail < wnd {
            1int
        } else {
            0int
        };
        lemma_distance_wrap_add(c.recv.nxt, consumed as u32);
    }
    lemma_distance_wrap_add(c.recv.nxt, 0);
}

/// The emission rule: whenever a step consumes peer-sent sequence space
/// (the receive edge moves), the step emits an acknowledgment reflecting
/// the new `recv.nxt`.
pub proof fn lemma_consumption_is_acknowledged(c: Connection, seg: TcpSegment)
    requires
        step(c, seg).conn.recv.nxt != c.recv.nxt,
    ensures
        step(c, seg).out matches Ok(Some(reply)) && reply.ack_set && reply.ack == step(
            c,
            seg,
        ).conn.recv.nxt,
{
}

/// Graceful close: from a well-formed Established connection, `close` goes
/// to FinWait1; the peer's ACK of our FIN moves it to FinWait2; the peer's
/// own FIN moves it to TimeWait and is answered with the final ACK; and
/// `n` quiescent ticks later the connection is Closed. The receive edge
/// and `send.una` each advance by exactly the consumed FIN, never
/// backwards.
pub proof fn lemma_graceful_close(c: Connection, ack_seg: TcpSegment, fin_seg: TcpSegment, n: nat)
    requires
        c.wf(),
        c.state is Established,
        c.recv.wnd > 0,
        // the peer acknowledges exactly our FIN, carrying no data
        ack_seg.seq == c.recv.nxt,
        ack_seg.payload_len == 0,
        !ack_seg.syn,
        !ack_seg.fin,
        !ack_seg.rst,
        ack_seg.ack_set,
        ack_seg.ack == wrap_add(c.send.nxt, 1),
        // then sends its own bare FIN
        fin_seg.seq == c.recv.nxt,
        fin_seg.payload_len == 0,
        !fin_seg.syn,
        fin_seg.fin,
        !fin_seg.rst,
        fin_seg.ack_set,
        fin_seg.ack == wrap_add(c.send.nxt, 1),
        n >= TIME_WAIT_TICKS,
    ensures
        ({
            let c1 = close_spec(c).0;
            let c2 = step(c1, ack_seg).conn;
            let c3 = step(c2, fin_seg).conn;
            &&& close_spec(c).1 is Ok
            &&& c1.state is FinWait1
            &&& c2.state is FinWait2
            &&& c3.state is TimeWait
            &&& step(c2, fin_seg).out == Ok::<Option<OutSegment>, ProtocolError>(
                Some(c3.ack_reply()),
            )
            &&& iter_ticks(c3, n).state is Closed
            // recv.nxt is unchanged until the peer's FIN consumes one slot
            &&& c1.recv.nxt == c.recv.nxt
            &&& c2.recv.nxt == c.recv.nxt
            &&& c3.recv.nxt == wrap_add(c.recv.nxt, 1)
            // send.una advances exactly to cover our FIN
            &&& c1.send.una == c.send.una
            &&& c2.send.una == wrap_add(c.send.nxt, 1)
            &&& c3.send.una == wrap_add(c.send.nxt, 1)
        }),
{
    let c1 = close_spec(c).0;
    lemma_distance_wrap_add(c.send.nxt, 1);
    lemma_distance_wrap_add(wrap_add(c.send.nxt, 1), 1);
    lemma_distance_concat(
        c.send.nxt,
        wrap_add(c.send.nxt, 1),
        wrap_add(wrap_add(c.send.nxt, 1), 1),
    );
    let c2 = step(c1, ack_seg).conn;
    assert(c2.state is FinWait2);
    let c3 = step(c2, fin_seg).conn;
    assert(c3.state is TimeWait && c3.quiet_ticks == 0);
    lemma_time_wait_quiesces(c3, n);
}

} // verus!
