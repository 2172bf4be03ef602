//! Rendering an outgoing control segment into transmittable bytes: an
//! IPv4 header followed by a TCP header, both with checksums. The header
//! codec itself is etherparse; the core only hands it field values.
use vstd::prelude::*;

use crate::segment::OutSegment;

verus! {

/// The bytes etherparse renders for an IPv4+TCP header pair with the given
/// field values (checksums included). A pure function of the fields alone.
pub uninterp spec fn encoded_headers(
    src_ip: u32,
    dst_ip: u32,
    src_port: u16,
    dst_port: u16,
    seq: u32,
    ack: u32,
    wnd: u16,
    syn: bool,
    ack_set: bool,
    fin: bool,
    rst: bool,
) -> Seq<u8>;

/// Relies on etherparse's `Ipv4Header::new`, `TcpHeader::new`, the two
/// checksum calculations and the two `to_bytes`: rendering depends on the
/// header field values alone, and without options both headers are 20
/// bytes long.
#[verifier::external_body]
fn render_headers(src_ip: u32, dst_ip: u32, seg: &OutSegment) -> (r: Vec<u8>)
    ensures
        r@ == encoded_headers(
            src_ip,
            dst_ip,
            seg.src_port,
            seg.dst_port,
            seg.seq,
            seg.ack,
            seg.wnd,
            seg.syn,
            seg.ack_set,
            seg.fin,
            seg.rst,
        ),
        r@.len() == 40,
{
    let mut tcp = etherparse::TcpHeader::new(seg.src_port, seg.dst_port, seg.seq, seg.wnd);
    tcp.acknowledgment_number = seg.ack;
    tcp.syn = seg.syn; tcp.ack = seg.ack_set; tcp.fin = seg.fin; tcp.rst = seg.rst;
    let mut ip = etherparse::Ipv4Header::new(
        tcp.header_len_u16(), 64, etherparse::IpNumber::TCP,
        src_ip.to_be_bytes(), dst_ip.to_be_bytes(),
    ).unwrap();
    ip.header_checksum = ip.calc_header_checksum();
    tcp.checksum = tcp.calc_checksum_ipv4(&ip, &[]).unwrap();
    let mut out: Vec<u8> = Vec::new();
    out.extend_from_slice(&ip.to_bytes());
    out.extend_from_slice(&tcp.to_bytes());
    out
}

/// Encode an outgoing segment between the given IPv4 addresses into the
/// bytes to hand to the interface sink: 20 bytes of IPv4 header and 20 of
/// TCP header, exactly as the codec renders them for these field values.
pub fn encode_segment(src_ip: u32, dst_ip: u32, seg: &OutSegment) -> (r: Vec<u8>)
    ensures
        r@ == encoded_headers(
            src_ip,
            dst_ip,
            seg.src_port,
            seg.dst_port,
            seg.seq,
            seg.ack,
            seg.wnd,
            seg.syn,
            seg.ack_set,
            seg.fin,
            seg.rst,
        ),
        r@.len() == 40,
{
    render_headers(src_ip, dst_ip, seg)
}

} // verus!
