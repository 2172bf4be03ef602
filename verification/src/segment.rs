//! Plain-value views of TCP segments as the connection core consumes and
//! produces them. Decoding raw bytes into an incoming view and rendering an
//! outgoing view into bytes are the header codec's business, not the core's.
use vstd::prelude::*;

verus! {

/// A decoded incoming TCP segment: exactly the fields the protocol engine
/// reads. The payload itself is not needed by the state machine, only its
/// length in sequence-number space.
#[derive(Clone, Copy, PartialEq, Eq, Structural, Debug)]
pub struct TcpSegment {
    /// Source port of the sender (the remote peer).
    pub src_port: u16,
    /// Destination port (this endpoint).
    pub dst_port: u16,
    /// Sequence number of the segment's first byte.
    pub seq: u32,
    /// Acknowledgment number; meaningful only when `ack_set` holds.
    pub ack: u32,
    /// Window the peer advertises.
    pub wnd: u16,
    /// SYN control bit.
    pub syn: bool,
    /// ACK control bit.
    pub ack_set: bool,
    /// FIN control bit.
    pub fin: bool,
    /// RST control bit.
    pub rst: bool,
    /// URG control bit (carried through; the core never acts on it).
    pub urg: bool,
    /// Number of payload bytes the segment carries.
    pub payload_len: u32,
}

/// Field values of an outgoing control segment, handed to the header codec
/// for rendering. The core emits pure control segments only; it never sends
/// payload bytes of its own.
#[derive(Clone, Copy, PartialEq, Eq, Structural, Debug)]
pub struct OutSegment {
    /// Source port (this endpoint).
    pub src_port: u16,
    /// Destination port (the remote peer).
    pub dst_port: u16,
    /// Sequence number to send.
    pub seq: u32,
    /// Acknowledgment number to send; meaningful only when `ack_set` holds.
    pub ack: u32,
    /// Window to advertise.
    pub wnd: u16,
    /// SYN control bit.
    pub syn: bool,
    /// ACK control bit.
    pub ack_set: bool,
    /// FIN control bit.
    pub fin: bool,
    /// RST control bit.
    pub rst: bool,
}

/// Errors a connection surfaces to its caller. Out-of-window segments are
/// recovered locally (dropped or answered with a corrective ACK) and are
/// never surfaced as failures.
#[derive(Clone, Copy, PartialEq, Eq, Structural, Debug)]
pub enum ProtocolError {
    /// A RST arrived, or an ACK acknowledged data this side never sent;
    /// the connection aborts and the owner should remove it.
    ProtocolViolation,
    /// An operation such as `close` was invoked in a state that does not
    /// permit it.
    NotConnected,
    /// The retransmission budget was exhausted with no acknowledgment;
    /// the peer is treated as unreachable and the connection aborts.
    Timeout,
}

/// The sequence-number space a segment occupies: its payload bytes plus one
/// slot each for SYN and FIN.
pub open spec fn seg_len(seg: TcpSegment) -> int {
    seg.payload_len + (if seg.syn { 1int } else { 0int }) + (if seg.fin { 1int } else { 0int })
}

} // verus!
