use tcpstate::codec::encode_segment;
use tcpstate::conn::Connection;
use tcpstate::segment::TcpSegment;

fn syn(seq: u32, wnd: u16) -> TcpSegment {
    TcpSegment {
        src_port: 4321,
        dst_port: 80,
        seq,
        ack: 0,
        wnd,
        syn: true,
        ack_set: false,
        fin: false,
        rst: false,
        urg: false,
        payload_len: 0,
    }
}

#[test]
fn syn_ack_encodes_and_parses_back() {
    let (_, out) = Connection::accept(&syn(100, 50), 1000).unwrap();
    let src_ip = u32::from_be_bytes([10, 0, 0, 2]);
    let dst_ip = u32::from_be_bytes([10, 0, 0, 1]);
    let bytes = encode_segment(src_ip, dst_ip, &out);
    assert_eq!(bytes.len(), 40);

    let ip = etherparse::Ipv4HeaderSlice::from_slice(&bytes).unwrap();
    assert_eq!(ip.source(), [10, 0, 0, 2]);
    assert_eq!(ip.destination(), [10, 0, 0, 1]);
    assert_eq!(ip.protocol(), etherparse::IpNumber::TCP);
    assert_eq!(ip.slice().len(), 20);

    let tcp = etherparse::TcpHeaderSlice::from_slice(&bytes[20..]).unwrap();
    assert_eq!(tcp.source_port(), 80);
    assert_eq!(tcp.destination_port(), 4321);
    assert_eq!(tcp.sequence_number(), 1000);
    assert_eq!(tcp.acknowledgment_number(), 101);
    assert!(tcp.syn());
    assert!(tcp.ack());
    assert!(!tcp.fin());
    assert!(!tcp.rst());
    assert_eq!(tcp.window_size(), 10);

    // the rendered checksums hold up
    let ip_owned = ip.to_header();
    assert_eq!(ip.header_checksum(), ip_owned.calc_header_checksum());
    let expected = tcp
        .to_header()
        .calc_checksum_ipv4(&ip_owned, &[])
        .unwrap();
    assert_eq!(tcp.checksum(), expected);
}

#[test]
fn rst_flag_round_trips() {
    let out = tcpstate::segment::OutSegment {
        src_port: 80,
        dst_port: 4321,
        seq: 7,
        ack: 0,
        wnd: 0,
        syn: false,
        ack_set: false,
        fin: false,
        rst: true,
    };
    let bytes = encode_segment(1, 2, &out);
    let tcp = etherparse::TcpHeaderSlice::from_slice(&bytes[20..]).unwrap();
    assert!(tcp.rst());
    assert!(!tcp.syn() && !tcp.ack() && !tcp.fin());
    assert_eq!(tcp.sequence_number(), 7);
}
