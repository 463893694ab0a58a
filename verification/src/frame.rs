//! The layers of a captured Ethernet frame, as plain values.

use vstd::prelude::*;

verus! {

/// The network layer that was recognized in a frame.
#[allow(inconsistent_fields)]
#[derive(Clone, Copy, Debug)]
pub enum Network {
    /// No IPv4 or IPv6 header was recognized.
    Absent,
    /// An IPv4 header, with its two addresses in network byte order.
    V4 { source: [u8; 4], destination: [u8; 4] },
    /// An IPv6 header, with its two addresses in network byte order.
    V6 { source: [u8; 16], destination: [u8; 16] },
}

/// The transport layer that was recognized in a frame.
#[derive(Clone, Copy, Debug)]
pub enum Transport {
    /// A TCP header.
    Tcp { destination_port: u16 },
    /// A UDP header.
    Udp { destination_port: u16 },
    /// ICMP, another protocol, or no transport header at all.
    Other,
}

/// A frame cut into its layers: what the headers say, and the bytes that
/// follow the last recognized header.
#[derive(Debug)]
pub struct Layers {
    pub network: Network,
    pub transport: Transport,
    pub payload: Vec<u8>,
}

/// The mathematical value of a [`Layers`].
pub struct LayersView {
    pub network: Network,
    pub transport: Transport,
    pub payload: Seq<u8>,
}

impl View for Layers {
    type V = LayersView;

    open spec fn view(&self) -> LayersView {
        LayersView { network: self.network, transport: self.transport, payload: self.payload@ }
    }
}

/// What slicing the bytes of an Ethernet II frame gives: the layers, or
/// `None` where a header is cut short or inconsistent.
pub uninterp spec fn sliced_layers(frame: Seq<u8>) -> Option<LayersView>;

/// Calls `etherparse::SlicedPacket::from_ethernet` on the frame and copies
/// out what the library reads of its result: the addresses of the IP
/// header, the destination port of a TCP or UDP header, and the payload.
/// The contract only gives that result its name; a read error is `None`.
#[verifier::external_body]
pub(crate) fn slice_ethernet(frame: &[u8]) -> (layers: Option<Layers>)
    ensures
        sliced_layers(frame@) == match layers {
            Some(l) => Some(l@),
            None => None,
        },
{
    let sliced = etherparse::SlicedPacket::from_ethernet(frame).ok()?;
    let network = match &sliced.ip {
        Some(etherparse::InternetSlice::Ipv4(h, _)) => Network::V4 { source: h.source(), destination: h.destination() },
        Some(etherparse::InternetSlice::Ipv6(h, _)) => Network::V6 { source: h.source(), destination: h.destination() },
        None => Network::Absent,
    };
    let transport = match &sliced.transport {
        Some(etherparse::TransportSlice::Tcp(h)) => Transport::Tcp { destination_port: h.destination_port() },
        Some(etherparse::TransportSlice::Udp(h)) => Transport::Udp { destination_port: h.destination_port() },
        _ => Transport::Other,
    };
    Some(Layers { network, transport, payload: sliced.payload.to_vec() })
}

} // verus!
