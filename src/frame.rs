//! Frame decoder: locates the UDP datagram carried by an Ethernet frame.

use etherparse::{SlicedPacket, TransportSlice};
use vstd::prelude::*;

verus! {

/// The UDP datagram (destination port and payload) that an Ethernet frame
/// carries, as etherparse slices it; `None` when the frame does not parse
/// down to a UDP header.
pub uninterp spec fn udp_datagram_of(frame: Seq<u8>) -> Option<(u16, Seq<u8>)>;

/// What the decoder yields for a frame: its destination port and payload.
pub open spec fn decoded(frame: Seq<u8>) -> Option<(u16, Seq<u8>)> {
    udp_datagram_of(frame)
}

/// The destination port of a frame, where the frame carries UDP.
pub open spec fn port_of(frame: Seq<u8>) -> Option<u16> {
    match decoded(frame) {
        Some((port, _)) => Some(port),
        None => None,
    }
}

/// `part` lies in `whole` as one contiguous run of bytes.
pub open spec fn is_view_into(part: Seq<u8>, whole: Seq<u8>) -> bool {
    exists|s: int, e: int| 0 <= s <= e <= whole.len() && part == whole.subrange(s, e)
}

/// Relies on etherparse::SlicedPacket::from_ethernet, which slices the
/// frame from its Ethernet II header down; where the transport slice is UDP,
/// `UdpHeaderSlice::destination_port` gives the port and the `payload` field
/// the rest of the frame after the UDP header, a sub-slice of the input.
#[verifier::external_body]
fn slice_udp(frame: &[u8]) -> (r: Option<(u16, &[u8])>)
    ensures
        match r {
            Some((port, payload)) => udp_datagram_of(frame@) == Some((port, payload@))
                && is_view_into(payload@, frame@),
            None => udp_datagram_of(frame@) is None,
        },
{
    match SlicedPacket::from_ethernet(frame) {
        Ok(packet) => match packet.transport {
            Some(TransportSlice::Udp(udp)) => Some((udp.destination_port(), packet.payload)),
            _ => None,
        },
        Err(_) => None,
    }
}

/// Decodes one link-layer frame. Returns the destination port and a view of
/// the payload, borrowed from the frame, when the frame carries a UDP
/// datagram; `None` otherwise (a silent miss, not a fault).
pub fn extract_udp_info(packet_data: &[u8]) -> (r: Option<(u16, &[u8])>)
    ensures
        match r {
            Some((port, payload)) => decoded(packet_data@) == Some((port, payload@))
                && is_view_into(payload@, packet_data@),
            None => decoded(packet_data@) is None,
        },
{
    slice_udp(packet_data)
}

} // verus!
