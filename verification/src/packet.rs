//! The record that one captured frame is decoded into, and the capture
//! session's configuration.

use vstd::prelude::*;
use crate::addr::{ipv4_string, ipv4_text, ipv6_string, ipv6_text};
use crate::frame::{Layers, LayersView, Network, Transport};
use crate::text::{decimal, pad_right, push_decimal, push_decimal_padded, push_repeat, push_text};

verus! {

/// One frame's normalized fields.
#[derive(Debug)]
pub struct PacketData {
    pub timestamp: String,
    pub protocol: String,
    pub src_ip: String,
    pub dst_ip: String,
    pub dst_port: u16,
    pub bytes: usize,
    pub ip_protocol: String,
    pub data_bytes: usize,
    pub raw_data: Vec<u8>,
}

/// The mathematical value of a [`PacketData`].
pub struct Record {
    pub timestamp: Seq<char>,
    pub protocol: Seq<char>,
    pub src_ip: Seq<char>,
    pub dst_ip: Seq<char>,
    pub dst_port: u16,
    pub bytes: nat,
    pub ip_protocol: Seq<char>,
    pub data_bytes: nat,
    pub raw_data: Seq<u8>,
}

impl View for PacketData {
    type V = Record;

    open spec fn view(&self) -> Record {
        Record {
            timestamp: self.timestamp@,
            protocol: self.protocol@,
            src_ip: self.src_ip@,
            dst_ip: self.dst_ip@,
            dst_port: self.dst_port,
            bytes: self.bytes as nat,
            ip_protocol: self.ip_protocol@,
            data_bytes: self.data_bytes as nat,
            raw_data: self.raw_data@,
        }
    }
}

/// The layers of a frame that was sliced, if it was, as a mathematical
/// value.
pub open spec fn layers_view(layers: Option<Layers>) -> Option<LayersView> {
    match layers {
        Some(l) => Some(l@),
        None => None,
    }
}

/// The network layer that a record is made from: absent where the frame
/// could not be sliced.
pub open spec fn network_of(layers: Option<LayersView>) -> Network {
    match layers {
        Some(l) => l.network,
        None => Network::Absent,
    }
}

/// The transport layer that a record is made from: `Other` where the frame
/// could not be sliced.
pub open spec fn transport_of(layers: Option<LayersView>) -> Transport {
    match layers {
        Some(l) => l.transport,
        None => Transport::Other,
    }
}

/// The source address as text, `-` without a network layer.
pub open spec fn source_text(network: Network) -> Seq<char> {
    match network {
        Network::Absent => "-"@,
        Network::V4 { source, destination } => ipv4_text(source@),
        Network::V6 { source, destination } => ipv6_text(source@),
    }
}

/// The destination address as text, `-` without a network layer.
pub open spec fn destination_text(network: Network) -> Seq<char> {
    match network {
        Network::Absent => "-"@,
        Network::V4 { source, destination } => ipv4_text(destination@),
        Network::V6 { source, destination } => ipv6_text(destination@),
    }
}

/// The transport label: `udp` for UDP, and `tcp` for TCP and for every
/// frame without a recognized transport layer.
pub open spec fn transport_label(transport: Transport) -> Seq<char> {
    match transport {
        Transport::Udp { destination_port } => "udp"@,
        _ => "tcp"@,
    }
}

/// The destination port, 0 without TCP or UDP.
pub open spec fn port_of(transport: Transport) -> u16 {
    match transport {
        Transport::Tcp { destination_port } => destination_port,
        Transport::Udp { destination_port } => destination_port,
        Transport::Other => 0,
    }
}

/// The record of a frame: what its layers say where it has them, and the
/// defaults where it does not.
pub open spec fn decoded(
    layers: Option<LayersView>,
    captured_len: nat,
    timestamp: Seq<char>,
    raw_data: Seq<u8>,
) -> Record {
    Record {
        timestamp,
        protocol: transport_label(transport_of(layers)),
        src_ip: source_text(network_of(layers)),
        dst_ip: destination_text(network_of(layers)),
        dst_port: port_of(transport_of(layers)),
        bytes: captured_len,
        ip_protocol: transport_label(transport_of(layers)),
        data_bytes: match layers {
            Some(l) => match l.transport {
                Transport::Other => 0,
                _ => l.payload.len(),
            },
            None => 0,
        },
        raw_data,
    }
}

/// The separator between the columns of a display line.
pub open spec fn column_gap() -> Seq<char> {
    seq![' ', '|', ' ']
}

/// The display line of a record: its columns separated by ` | `, the
/// destination port padded to 7 characters, the frame length to 5 and the
/// second transport label to 10.
pub open spec fn display_text(r: Record) -> Seq<char> {
    r.protocol + column_gap() + r.src_ip + column_gap() + r.dst_ip + column_gap() + r.timestamp
        + column_gap() + pad_right(decimal(r.dst_port as nat), 7) + column_gap() + pad_right(
        decimal(r.bytes),
        5,
    ) + column_gap() + pad_right(r.ip_protocol, 10) + column_gap() + decimal(r.data_bytes)
}

/// Makes the record of a frame from its layers, if it could be sliced,
/// the captured length, the timestamp and the bytes to carry along.
pub fn decode(
    layers: &Option<Layers>,
    captured_len: u32,
    timestamp: String,
    raw_data: Vec<u8>,
) -> (info: PacketData)
    ensures
        info@ == decoded(layers_view(*layers), captured_len as nat, timestamp@, raw_data@),
{
    let mut info = PacketData {
        timestamp,
        protocol: String::from_str("tcp"),
        src_ip: String::from_str("-"),
        dst_ip: String::from_str("-"),
        dst_port: 0,
        bytes: captured_len as usize,
        ip_protocol: String::from_str("tcp"),
        data_bytes: 0,
        raw_data,
    };
    if let Some(sliced) = layers {
        match &sliced.network {
            Network::V4 { source, destination } => {
                info.src_ip = ipv4_string(source);
                info.dst_ip = ipv4_string(destination);
            },
            Network::V6 { source, destination } => {
                info.src_ip = ipv6_string(source);
                info.dst_ip = ipv6_string(destination);
            },
            Network::Absent => {},
        }
        match &sliced.transport {
            Transport::Tcp { destination_port } => {
                info.dst_port = *destination_port;
                info.data_bytes = sliced.payload.len();
            },
            Transport::Udp { destination_port } => {
                info.protocol = String::from_str("udp");
                info.ip_protocol = String::from_str("udp");
                info.dst_port = *destination_port;
                info.data_bytes = sliced.payload.len();
            },
            Transport::Other => {},
        }
    }
    info
}

fn push_gap(out: &mut String)
    ensures
        final(out)@ == old(out)@ + column_gap(),
{
    out.push(' ');
    out.push('|');
    out.push(' ');
    assert(out@ =~= old(out)@ + column_gap());
}

/// Appends `piece`, then spaces up to `width` characters.
fn push_text_padded(out: &mut String, piece: &str, width: usize)
    ensures
        final(out)@ == old(out)@ + pad_right(piece@, width as nat),
{
    let len = piece.unicode_len();
    push_text(out, piece);
    if len < width {
        push_repeat(out, ' ', width - len);
    }
    assert(out@ =~= old(out)@ + pad_right(piece@, width as nat));
}

impl PacketData {
    /// The line that shows this record on the live display.
    pub fn display_line(&self) -> (line: String)
        ensures
            line@ == display_text(self@),
    {
        let mut out = String::new();
        push_text(&mut out, self.protocol.as_str());
        push_gap(&mut out);
        push_text(&mut out, self.src_ip.as_str());
        push_gap(&mut out);
        push_text(&mut out, self.dst_ip.as_str());
        push_gap(&mut out);
        push_text(&mut out, self.timestamp.as_str());
        assert(out@ =~= self.protocol@ + column_gap() + self.src_ip@ + column_gap() + self.dst_ip@
            + column_gap() + self.timestamp@);
        push_gap(&mut out);
        push_decimal_padded(&mut out, self.dst_port as u64, 7);
        push_gap(&mut out);
        push_decimal_padded(&mut out, self.bytes as u64, 5);
        assert(out@ =~= self.protocol@ + column_gap() + self.src_ip@ + column_gap() + self.dst_ip@
            + column_gap() + self.timestamp@ + column_gap() + pad_right(
            decimal(self.dst_port as nat),
            7,
        ) + column_gap() + pad_right(decimal(self.bytes as nat), 5));
        push_gap(&mut out);
        push_text_padded(&mut out, self.ip_protocol.as_str(), 10);
        push_gap(&mut out);
        push_decimal(&mut out, self.data_bytes as u64);
        assert(out@ =~= display_text(self@));
        out
    }
}

/// A frame without a recognized network layer has `-` for both addresses.
pub proof fn lemma_no_network_gives_dashes(
    layers: Option<LayersView>,
    captured_len: nat,
    timestamp: Seq<char>,
    raw_data: Seq<u8>,
)
    requires
        network_of(layers) is Absent,
    ensures
        decoded(layers, captured_len, timestamp, raw_data).src_ip == "-"@,
        decoded(layers, captured_len, timestamp, raw_data).dst_ip == "-"@,
{
}

/// A frame with a TCP layer is labelled `tcp`, has the TCP header's
/// destination port, and counts as data the bytes after that header.
pub proof fn lemma_tcp_record(
    layers: LayersView,
    captured_len: nat,
    timestamp: Seq<char>,
    raw_data: Seq<u8>,
)
    requires
        layers.transport is Tcp,
    ensures
        decoded(Some(layers), captured_len, timestamp, raw_data).protocol == "tcp"@,
        decoded(Some(layers), captured_len, timestamp, raw_data).ip_protocol == "tcp"@,
        decoded(Some(layers), captured_len, timestamp, raw_data).data_bytes
            == layers.payload.len(),
        decoded(Some(layers), captured_len, timestamp, raw_data).dst_port
            == layers.transport->Tcp_destination_port,
{
}

/// A frame with a UDP layer is labelled `udp` in both of its labels.
pub proof fn lemma_udp_record(
    layers: LayersView,
    captured_len: nat,
    timestamp: Seq<char>,
    raw_data: Seq<u8>,
)
    requires
        layers.transport is Udp,
    ensures
        decoded(Some(layers), captured_len, timestamp, raw_data).protocol == "udp"@,
        decoded(Some(layers), captured_len, timestamp, raw_data).ip_protocol == "udp"@,
        decoded(Some(layers), captured_len, timestamp, raw_data).data_bytes
            == layers.payload.len(),
{
}

/// Whatever the frame holds, its record has the captured length and the
/// timestamp as they were given, one label in both places, and that label
/// is `tcp` or `udp`.
pub proof fn lemma_record_of_any_frame(
    layers: Option<LayersView>,
    captured_len: nat,
    timestamp: Seq<char>,
    raw_data: Seq<u8>,
)
    ensures
        decoded(layers, captured_len, timestamp, raw_data).bytes == captured_len,
        decoded(layers, captured_len, timestamp, raw_data).timestamp == timestamp,
        decoded(layers, captured_len, timestamp, raw_data).raw_data == raw_data,
        decoded(layers, captured_len, timestamp, raw_data).ip_protocol == decoded(
            layers,
            captured_len,
            timestamp,
            raw_data,
        ).protocol,
        decoded(layers, captured_len, timestamp, raw_data).protocol == "tcp"@ || decoded(
            layers,
            captured_len,
            timestamp,
            raw_data,
        ).protocol == "udp"@,
{
}

} // verus!
