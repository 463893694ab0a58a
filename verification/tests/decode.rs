use etherparse::PacketBuilder;
use yaulta::capture::PacketCapture;
use yaulta::frame::{Layers, Network, Transport};
use yaulta::packet::decode;

fn tcp_frame(payload: &[u8]) -> Vec<u8> {
    let builder = PacketBuilder::ethernet2([1, 2, 3, 4, 5, 6], [7, 8, 9, 10, 11, 12])
        .ipv4([10, 0, 0, 1], [10, 0, 0, 2], 64)
        .tcp(40000, 8080, 1, 1024);
    let mut frame = Vec::with_capacity(builder.size(payload.len()));
    builder.write(&mut frame, payload).unwrap();
    frame
}

fn udp_frame(payload: &[u8]) -> Vec<u8> {
    let builder = PacketBuilder::ethernet2([1, 2, 3, 4, 5, 6], [7, 8, 9, 10, 11, 12])
        .ipv4([192, 168, 1, 1], [192, 168, 1, 255], 20)
        .udp(21, 1234);
    let mut frame = Vec::with_capacity(builder.size(payload.len()));
    builder.write(&mut frame, payload).unwrap();
    frame
}

fn udp6_frame(payload: &[u8]) -> Vec<u8> {
    let source = [0x20, 0x01, 0x0d, 0xb8, 0, 0, 0, 0, 0, 0, 0, 0, 0, 0, 0, 1];
    let destination = [0xff, 0x02, 0, 0, 0, 0, 0, 0, 0, 0, 0, 0, 0, 1, 0, 2];
    let builder = PacketBuilder::ethernet2([1, 2, 3, 4, 5, 6], [7, 8, 9, 10, 11, 12])
        .ipv6(source, destination, 47)
        .udp(546, 547);
    let mut frame = Vec::with_capacity(builder.size(payload.len()));
    builder.write(&mut frame, payload).unwrap();
    frame
}

#[test]
fn tcp_frame_end_to_end() {
    let session = PacketCapture::new("eth0").unwrap();
    let frame = tcp_frame(&[]);
    let info = session.parse_packet(&frame, 74);
    assert_eq!(info.protocol, "tcp");
    assert_eq!(info.src_ip, "10.0.0.1");
    assert_eq!(info.dst_ip, "10.0.0.2");
    assert_eq!(info.dst_port, 8080);
    assert_eq!(info.bytes, 74);
    assert_eq!(info.ip_protocol, "tcp");
    assert_eq!(info.data_bytes, 0);
    assert!(info.raw_data.is_empty());
    let line = session.display_packet(&info);
    let expected = format!(
        "tcp | 10.0.0.1 | 10.0.0.2 | {} | 8080    | 74    | tcp        | 0",
        info.timestamp
    );
    assert_eq!(line, expected);
}

#[test]
fn tcp_payload_length_is_counted() {
    let session = PacketCapture::new("eth0").unwrap();
    let frame = tcp_frame(&[1, 2, 3, 4, 5]);
    let info = session.parse_packet(&frame, frame.len() as u32);
    assert_eq!(info.protocol, "tcp");
    assert_eq!(info.data_bytes, 5);
    assert_eq!(info.bytes, 59);
}

#[test]
fn udp_frame_is_labelled_udp() {
    let session = PacketCapture::new("eth0").unwrap();
    let frame = udp_frame(&[1, 2, 3, 4, 5, 6, 7, 8]);
    let info = session.parse_packet(&frame, frame.len() as u32);
    assert_eq!(info.protocol, "udp");
    assert_eq!(info.ip_protocol, "udp");
    assert_eq!(info.src_ip, "192.168.1.1");
    assert_eq!(info.dst_ip, "192.168.1.255");
    assert_eq!(info.dst_port, 1234);
    assert_eq!(info.data_bytes, 8);
}

#[test]
fn ipv6_addresses_are_canonical() {
    let session = PacketCapture::new("eth0").unwrap();
    let frame = udp6_frame(&[9, 9]);
    let info = session.parse_packet(&frame, frame.len() as u32);
    assert_eq!(info.src_ip, "2001:db8::1");
    assert_eq!(info.dst_ip, "ff02::1:2");
    assert_eq!(info.protocol, "udp");
    assert_eq!(info.dst_port, 547);
    assert_eq!(info.data_bytes, 2);
}

#[test]
fn frame_without_network_layer_has_dashes() {
    let session = PacketCapture::new("eth0").unwrap();
    // An Ethernet II header with the ARP ether type and some bytes after it.
    let mut frame = vec![1, 2, 3, 4, 5, 6, 7, 8, 9, 10, 11, 12, 0x08, 0x06];
    frame.extend_from_slice(&[0u8; 28]);
    let info = session.parse_packet(&frame, 42);
    assert_eq!(info.src_ip, "-");
    assert_eq!(info.dst_ip, "-");
    assert_eq!(info.protocol, "tcp");
    assert_eq!(info.ip_protocol, "tcp");
    assert_eq!(info.dst_port, 0);
    assert_eq!(info.data_bytes, 0);
    assert_eq!(info.bytes, 42);
}

#[test]
fn truncated_frame_still_gives_a_record() {
    let session = PacketCapture::new("eth0").unwrap();
    let info = session.parse_packet(&[1, 2, 3], 3);
    assert_eq!(info.src_ip, "-");
    assert_eq!(info.dst_ip, "-");
    assert_eq!(info.protocol, "tcp");
    assert_eq!(info.dst_port, 0);
    assert_eq!(info.bytes, 3);
    assert_eq!(info.data_bytes, 0);
}

#[test]
fn raw_bytes_are_carried_only_when_publishing() {
    let mut session = PacketCapture::new("eth0").unwrap();
    let frame = tcp_frame(&[7, 7, 7]);
    assert!(session.parse_packet(&frame, 57).raw_data.is_empty());
    session.set_nats_options(&None, "network.packets").unwrap();
    assert_eq!(session.parse_packet(&frame, 57).raw_data, frame);
}

#[test]
fn decode_of_given_layers() {
    let layers = Some(Layers {
        network: Network::V4 { source: [172, 16, 254, 1], destination: [8, 8, 8, 8] },
        transport: Transport::Udp { destination_port: 53 },
        payload: vec![0; 30],
    });
    let info = decode(&layers, 72, String::from("now"), vec![1, 2]);
    assert_eq!(info.timestamp, "now");
    assert_eq!(info.protocol, "udp");
    assert_eq!(info.src_ip, "172.16.254.1");
    assert_eq!(info.dst_ip, "8.8.8.8");
    assert_eq!(info.dst_port, 53);
    assert_eq!(info.bytes, 72);
    assert_eq!(info.ip_protocol, "udp");
    assert_eq!(info.data_bytes, 30);
    assert_eq!(info.raw_data, vec![1, 2]);
}

#[test]
fn decode_without_transport_keeps_defaults() {
    let layers = Some(Layers {
        network: Network::V4 { source: [10, 1, 2, 3], destination: [10, 1, 2, 4] },
        transport: Transport::Other,
        payload: vec![0; 12],
    });
    let info = decode(&layers, 60, String::from("t"), Vec::new());
    assert_eq!(info.src_ip, "10.1.2.3");
    assert_eq!(info.protocol, "tcp");
    assert_eq!(info.dst_port, 0);
    assert_eq!(info.data_bytes, 0);
    let none = decode(&None, 60, String::from("t"), Vec::new());
    assert_eq!(none.src_ip, "-");
    assert_eq!(none.dst_ip, "-");
}
