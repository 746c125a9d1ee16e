use vstd::prelude::*;

use crate::color::OurRGB8;
use crate::store::{clipped_count, written, PixelStore};

verus! {

/// The tag that the first byte of every update packet must hold.
pub const PROTOCOL_VERSION: u8 = 4;

/// Bytes before the first color triple: tag, reserved byte, start index.
pub const HEADER_LEN: usize = 4;

/// Why an update packet was dropped.
#[derive(Clone, Copy, Debug, PartialEq, Eq, Structural)]
pub enum PacketError {
    /// Too short to hold a full header.
    Truncated,
    /// The first byte is not the protocol version tag.
    WrongKind,
}

/// A decoded update packet.
pub struct UpdatePacket {
    pub kind: u8,
    /// Present on the wire, carries no meaning.
    pub reserved: u8,
    pub start_index: u16,
    pub colors: Vec<OurRGB8>,
}

/// A big-endian 16-bit value from its two bytes.
pub open spec fn be16(hi: u8, lo: u8) -> u16 {
    (hi as int * 256 + lo as int) as u16
}

/// The complete color triples of `bytes`; a trailing partial triple is dropped.
pub open spec fn triples(bytes: Seq<u8>) -> Seq<OurRGB8> {
    Seq::new(
        bytes.len() / 3,
        |k: int| OurRGB8 { r: bytes[3 * k], g: bytes[3 * k + 1], b: bytes[3 * k + 2] },
    )
}

/// The error a packet is dropped with, or `None` for a well-formed one.
pub open spec fn packet_error(data: Seq<u8>) -> Option<PacketError> {
    if data.len() == 0 {
        Some(PacketError::Truncated)
    } else if data[0] != PROTOCOL_VERSION {
        Some(PacketError::WrongKind)
    } else if data.len() < HEADER_LEN {
        Some(PacketError::Truncated)
    } else {
        None
    }
}

/// The start index a well-formed packet carries.
pub open spec fn packet_start(data: Seq<u8>) -> int {
    be16(data[2], data[3]) as int
}

/// The colors a well-formed packet carries.
pub open spec fn packet_colors(data: Seq<u8>) -> Seq<OurRGB8> {
    triples(data.subrange(HEADER_LEN as int, data.len() as int))
}

/// The complete color triples of `data` from byte `from` on.
fn triples_from(data: &[u8], from: usize) -> (out: Vec<OurRGB8>)
    requires
        from <= data@.len(),
    ensures
        out@ == triples(data@.subrange(from as int, data@.len() as int)),
{
    let ghost tail = data@.subrange(from as int, data@.len() as int);
    let mut out: Vec<OurRGB8> = Vec::new();
    let mut idx: usize = from;
    let ghost mut k: int = 0;
    while idx <= data.len() && data.len() - idx >= 3
        invariant
            from <= idx <= data@.len(),
            idx == from + 3 * k,
            0 <= k,
            out@.len() == k,
            tail == data@.subrange(from as int, data@.len() as int),
            forall|j: int|
                0 <= j < k ==> #[trigger] out@[j] == (OurRGB8 {
                    r: tail[3 * j],
                    g: tail[3 * j + 1],
                    b: tail[3 * j + 2],
                }),
        decreases data@.len() - idx,
    {
        out.push(OurRGB8::new(data[idx], data[idx + 1], data[idx + 2]));
        idx = idx + 3;
        proof {
            k = k + 1;
        }
    }
    let ghost len = tail.len() as int;
    assert(k == len / 3) by (nonlinear_arith)
        requires
            3 * k <= len,
            len < 3 * k + 3,
            0 <= k,
    ;
    assert(out@ =~= triples(tail));
    out
}

/// Decodes an update packet: `[tag = 4][reserved][start index, big-endian
/// u16][r g b]*`. Trailing bytes that do not make a full triple are ignored.
pub fn decode_packet(data: &[u8]) -> (r: Result<UpdatePacket, PacketError>)
    ensures
        match r {
            Ok(p) => {
                &&& packet_error(data@) is None
                &&& p.kind == PROTOCOL_VERSION
                &&& p.reserved == data@[1]
                &&& p.start_index as int == packet_start(data@)
                &&& p.colors@ == packet_colors(data@)
            },
            Err(e) => packet_error(data@) == Some(e),
        },
{
    if data.len() == 0 {
        return Err(PacketError::Truncated);
    }
    if data[0] != PROTOCOL_VERSION {
        return Err(PacketError::WrongKind);
    }
    if data.len() < HEADER_LEN {
        return Err(PacketError::Truncated);
    }
    let start_index: u16 = (data[2] as u16) * 256 + (data[3] as u16);
    let colors = triples_from(data, HEADER_LEN);
    Ok(UpdatePacket { kind: data[0], reserved: data[1], start_index, colors })
}

impl PixelStore {
    /// Applies one update packet: a well-formed packet overwrites the range
    /// it names, clipped to the store; a malformed one changes nothing.
    /// Returns how many colors were written.
    pub fn apply_packet(&mut self, data: &[u8]) -> (r: Result<usize, PacketError>)
        ensures
            match r {
                Ok(count) => {
                    &&& packet_error(data@) is None
                    &&& final(self)@ == written(old(self)@, packet_start(data@), packet_colors(data@))
                    &&& count == clipped_count(
                        old(self)@.len() as int,
                        packet_start(data@),
                        packet_colors(data@).len() as int,
                    )
                },
                Err(e) => {
                    &&& packet_error(data@) == Some(e)
                    &&& final(self)@ == old(self)@
                },
            },
    {
        match decode_packet(data) {
            Ok(p) => {
                let count = self.write_range(p.start_index as usize, p.colors.as_slice());
                Ok(count)
            },
            Err(e) => Err(e),
        }
    }
}

} // verus!
