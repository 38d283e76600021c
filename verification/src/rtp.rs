//! RTP packets that carry H.264 for one encoder generation.

use crate::bits::{be16, be32, from_be16, from_be32, has_bit, lemma_byte_fields};
use crate::values::Generation;
use vstd::prelude::*;

verus! {

pub const RTP_CLOCK_HZ: u32 = 90_000;

pub const DYNAMIC_PAYLOAD_TYPE: u8 = 96;

#[derive(Clone, Copy, Debug, PartialEq, Eq, Structural)]
pub struct RtpTimestamp(pub u32);

impl RtpTimestamp {
    /// Clock ticks from `earlier` to this timestamp on the 32-bit clock, which wraps.
    pub fn elapsed_since(self, earlier: Self) -> (r: RtpTicks)
        ensures
            r.0 == (self.0 - earlier.0) % 0x1_0000_0000,
    {
        RtpTicks(self.0.wrapping_sub(earlier.0))
    }
}

#[derive(Clone, Copy, Debug, PartialEq, Eq, Structural)]
pub struct RtpTicks(pub u32);

#[derive(Clone, Copy, Debug, PartialEq, Eq, Structural)]
pub struct RtpSequence(pub u16);

impl RtpSequence {
    /// The sequence number that follows on the 16-bit counter, which wraps.
    pub open spec fn spec_next(self) -> Self {
        RtpSequence(((self.0 + 1) % 0x1_0000) as u16)
    }

    pub fn next(self) -> (r: Self)
        ensures
            r == self.spec_next(),
    {
        RtpSequence(self.0.wrapping_add(1))
    }
}

/// The type of a single NAL unit, as opposed to one of RTP's aggregates.
#[derive(Clone, Copy, Debug, PartialEq, Eq, Structural)]
pub struct NalType(u8);

impl NalType {
    pub open spec fn valid(value: int) -> bool {
        1 <= value <= 23
    }

    #[verifier::type_invariant]
    spec fn inv(self) -> bool {
        Self::valid(self.0 as int)
    }

    pub closed spec fn view(&self) -> u8 {
        self.0
    }

    pub fn new(value: u8) -> (r: Option<Self>)
        ensures
            r is Some <==> Self::valid(value as int),
            r matches Some(kind) ==> kind@ == value,
    {
        match value {
            1..=23 => Some(NalType(value)),
            _ => None,
        }
    }

    pub fn value(self) -> (r: u8)
        ensures
            r == self@,
            Self::valid(r as int),
    {
        proof {
            use_type_invariant(&self);
        }
        self.0
    }

    /// Type 5 is a coded slice of an instantaneous decoding refresh picture.
    pub fn is_keyframe(self) -> (r: bool)
        ensures
            r == (self@ == 5),
    {
        self.0 == 5
    }
}

#[derive(Clone, Copy, Debug, PartialEq, Eq, Structural)]
pub enum AccessUnitEnd {
    Final,
    More,
}

#[derive(Debug)]
pub struct Packet {
    pub end: AccessUnitEnd,
    pub sequence: RtpSequence,
    pub timestamp: RtpTimestamp,
    pub generation: Generation,
    pub payload: Vec<u8>,
}

/// The source of a datagram: the address in network byte order, and the port.
#[derive(Clone, Copy, Debug, PartialEq, Eq, Structural)]
pub enum PeerAddress {
    V4 { octets: u32, port: u16 },
    V6 { segments: u128, port: u16 },
}

impl PeerAddress {
    /// 127.0.0.0/8, or ::1.
    pub open spec fn spec_is_loopback(self) -> bool {
        match self {
            PeerAddress::V4 { octets, .. } => octets / 0x100_0000 == 127,
            PeerAddress::V6 { segments, .. } => segments == 1,
        }
    }

    pub fn is_loopback(self) -> (r: bool)
        ensures
            r == self.spec_is_loopback(),
    {
        match self {
            PeerAddress::V4 { octets, .. } => octets / 0x100_0000 == 127,
            PeerAddress::V6 { segments, .. } => segments == 1,
        }
    }
}

/// Why a datagram cannot be part of the video stream.
#[derive(Clone, Copy, Debug, PartialEq, Eq, Structural)]
pub enum PacketReject {
    InvalidHeader,
    TruncatedCsrc,
    TruncatedExtension,
    ExtensionOverflow,
    TruncatedExtensionPayload,
    InvalidPadding,
    WrongPayloadTypeOrEmptyPayload,
    ZeroGeneration,
    NonLoopbackSource { address: PeerAddress },
    TimestampChangedDuringFu,
    EmptyPayload,
    NalInterleavedWithFu,
    TruncatedStapLength,
    InvalidStapNalLength,
    UnsupportedPacketization { kind: u8 },
    TruncatedFuPayload,
    InvalidFuHeader,
    InvalidFuSequence,
    MarkerEndedIncompleteFu,
    AccessUnitTooLarge,
}

/// Where the contributing-source list ends: twelve fixed bytes and four per source.
pub open spec fn csrc_end(data: Seq<u8>) -> int {
    12 + 4 * (data[0] % 16)
}

/// Where the payload starts, behind the header extension if there is one. The
/// extension counts its length in 32-bit words, without its own four bytes.
pub open spec fn payload_start(data: Seq<u8>) -> int {
    if has_bit(data[0], 0x10) {
        csrc_end(data) + 4 + 4 * be16(data[csrc_end(data) + 2], data[csrc_end(data) + 3])
    } else {
        csrc_end(data)
    }
}

/// Padding bytes at the end of the datagram; the last of them holds their number.
pub open spec fn padding_length(data: Seq<u8>) -> int {
    if has_bit(data[0], 0x20) {
        data.last() as int
    } else {
        0
    }
}

pub open spec fn payload_end(data: Seq<u8>) -> int {
    data.len() - padding_length(data)
}

/// The synchronization source, which numbers the encoder generation.
pub open spec fn packet_ssrc(data: Seq<u8>) -> int {
    be32(data[8], data[9], data[10], data[11])
}

/// The first reason, in the order in which the header is read, why `data` is not
/// an RTP packet of the video stream.
pub open spec fn packet_rejection(data: Seq<u8>) -> Option<PacketReject> {
    if data.len() < 12 || data[0] / 64 != 2 {
        Some(PacketReject::InvalidHeader)
    } else if csrc_end(data) > data.len() {
        Some(PacketReject::TruncatedCsrc)
    } else if has_bit(data[0], 0x10) && csrc_end(data) + 4 > data.len() {
        Some(PacketReject::TruncatedExtension)
    } else if payload_start(data) > data.len() {
        Some(PacketReject::TruncatedExtensionPayload)
    } else if has_bit(data[0], 0x20) && (padding_length(data) == 0 || payload_end(data)
        < payload_start(data)) {
        Some(PacketReject::InvalidPadding)
    } else if payload_start(data) == payload_end(data) || data[1] % 128
        != DYNAMIC_PAYLOAD_TYPE {
        Some(PacketReject::WrongPayloadTypeOrEmptyPayload)
    } else if packet_ssrc(data) == 0 {
        Some(PacketReject::ZeroGeneration)
    } else {
        None
    }
}

/// Whether `packet` is what `data` says, given that `data` is not rejected.
pub open spec fn packet_of(data: Seq<u8>, packet: Packet) -> bool {
    &&& packet.end == if has_bit(data[1], 0x80) {
        AccessUnitEnd::Final
    } else {
        AccessUnitEnd::More
    }
    &&& packet.sequence.0 == be16(data[2], data[3])
    &&& packet.timestamp.0 == be32(data[4], data[5], data[6], data[7])
    &&& packet.generation@ == packet_ssrc(data)
    &&& packet.payload@ == data.subrange(payload_start(data), payload_end(data))
}

/// Reads the RTP header of one datagram.
pub fn decode_packet(data: &[u8]) -> (r: Result<Packet, PacketReject>)
    ensures
        match r {
            Ok(packet) => packet_rejection(data@) is None && packet_of(data@, packet),
            Err(reason) => packet_rejection(data@) == Some(reason),
        },
{
    if data.len() < 12 {
        return Err(PacketReject::InvalidHeader);
    }
    proof {
        lemma_byte_fields(data[0]);
        lemma_byte_fields(data[1]);
    }
    if data[0] >> 6 != 2 {
        return Err(PacketReject::InvalidHeader);
    }
    let mut start: usize = 12 + (data[0] & 15) as usize * 4;
    if start > data.len() {
        return Err(PacketReject::TruncatedCsrc);
    }
    if data[0] & 0x10 != 0 {
        if start + 4 > data.len() {
            return Err(PacketReject::TruncatedExtension);
        }
        let words: usize = from_be16(data[start + 2], data[start + 3]) as usize;
        start =
        match start.checked_add(4 + words * 4) {
            Some(start) => start,
            None => {
                return Err(PacketReject::ExtensionOverflow);
            },
        };
        if start > data.len() {
            return Err(PacketReject::TruncatedExtensionPayload);
        }
    }
    let mut end: usize = data.len();
    if data[0] & 0x20 != 0 {
        let padding: usize = data[data.len() - 1] as usize;
        if padding == 0 || padding > end - start {
            return Err(PacketReject::InvalidPadding);
        }
        end -= padding;
    }
    if start == end || data[1] & 0x7f != DYNAMIC_PAYLOAD_TYPE {
        return Err(PacketReject::WrongPayloadTypeOrEmptyPayload);
    }
    let generation = match Generation::new(from_be32(data[8], data[9], data[10], data[11])) {
        Ok(generation) => generation,
        Err(_) => {
            return Err(PacketReject::ZeroGeneration);
        },
    };
    Ok(
        Packet {
            end: if data[1] & 0x80 == 0 {
                AccessUnitEnd::More
            } else {
                AccessUnitEnd::Final
            },
            sequence: RtpSequence(from_be16(data[2], data[3])),
            timestamp: RtpTimestamp(from_be32(data[4], data[5], data[6], data[7])),
            generation,
            payload: vstd::slice::slice_to_vec(vstd::slice::slice_subrange(data, start, end)),
        },
    )
}

/// A datagram of the stream and nothing else is decoded: what comes out carries a
/// nonempty payload that lies inside the datagram.
pub proof fn law_accepted_payload_is_inside_datagram(data: Seq<u8>)
    requires
        packet_rejection(data) is None,
    ensures
        12 <= payload_start(data) < payload_end(data) <= data.len(),
        0 < packet_ssrc(data) <= u32::MAX,
{
}

/// The sequence counter has a period of 2^16, so the packet after the largest
/// number carries zero.
pub proof fn law_sequence_wraps(sequence: RtpSequence)
    ensures
        sequence.0 < u16::MAX ==> sequence.spec_next().0 == sequence.0 + 1,
        sequence.0 == u16::MAX ==> sequence.spec_next().0 == 0,
{
}

/// The parts of a datagram: what an RTP packet is made of, as bytes.
pub struct Parts {
    pub final_packet: bool,
    pub sequence: (u8, u8),
    pub timestamp: (u8, u8, u8, u8),
    pub source: (u8, u8, u8, u8),
    /// Four bytes for each contributing source.
    pub contributors: Seq<u8>,
    /// Two bytes of the profile's own and whole words of four bytes.
    pub extension: Option<(u8, u8, Seq<u8>)>,
    pub payload: Seq<u8>,
    /// What comes before the byte that counts the padding, itself included.
    pub padding: Option<Seq<u8>>,
}

pub open spec fn valid_parts(parts: Parts) -> bool {
    &&& parts.contributors.len() % 4 == 0 && parts.contributors.len() <= 60
    &&& parts.extension matches Some((_, _, words)) ==> words.len() % 4 == 0 && words.len()
        <= 262_140
    &&& parts.payload.len() > 0
    &&& parts.padding matches Some(fill) ==> fill.len() <= 254
    &&& parts.source != (0u8, 0u8, 0u8, 0u8)
}

/// The datagram that carries the parts: version 2, the payload type 96.
pub open spec fn datagram(parts: Parts) -> Seq<u8> {
    let flags = 0x80 + (if parts.padding is Some {
        0x20int
    } else {
        0
    }) + (if parts.extension is Some {
        0x10int
    } else {
        0
    }) + parts.contributors.len() / 4;
    let header = seq![
        flags as u8,
        if parts.final_packet {
            224u8
        } else {
            96u8
        },
        parts.sequence.0,
        parts.sequence.1,
        parts.timestamp.0,
        parts.timestamp.1,
        parts.timestamp.2,
        parts.timestamp.3,
        parts.source.0,
        parts.source.1,
        parts.source.2,
        parts.source.3,
    ];
    let extension = match parts.extension {
        Some((a, b, words)) => seq![
            a,
            b,
            (words.len() / 4 / 256) as u8,
            (words.len() / 4 % 256) as u8,
        ] + words,
        None => Seq::empty(),
    };
    let padding = match parts.padding {
        Some(fill) => fill.push((fill.len() + 1) as u8),
        None => Seq::empty(),
    };
    header + parts.contributors + extension + parts.payload + padding
}

/// Every datagram of the stream is read as what it was made of, whatever contributing
/// sources, extension and padding it has: the payload comes out whole and without them,
/// with its numbers in network byte order.
pub proof fn law_datagrams_are_read_back(parts: Parts, packet: Packet)
    requires
        valid_parts(parts),
    ensures
        packet_rejection(datagram(parts)) is None,
        packet_of(datagram(parts), packet) ==> {
            &&& packet.end == AccessUnitEnd::Final <==> parts.final_packet
            &&& packet.sequence.0 == 256 * parts.sequence.0 + parts.sequence.1
            &&& packet.timestamp.0 == 16_777_216 * parts.timestamp.0 + 65_536 * parts.timestamp.1
                + 256 * parts.timestamp.2 + parts.timestamp.3
            &&& packet.generation@ == 16_777_216 * parts.source.0 + 65_536 * parts.source.1 + 256
                * parts.source.2 + parts.source.3
            &&& packet.payload@ == parts.payload
        },
{
    let data = datagram(parts);
    let contributors = parts.contributors.len() as int;
    let flags = data[0] as int;
    assert(flags == 0x80 + (if parts.padding is Some {
        0x20int
    } else {
        0
    }) + (if parts.extension is Some {
        0x10int
    } else {
        0
    }) + contributors / 4);
    assert(flags / 64 == 2 && flags % 16 == contributors / 4);
    assert(has_bit(data[0], 0x20) == parts.padding is Some);
    assert(has_bit(data[0], 0x10) == parts.extension is Some);
    assert(csrc_end(data) == 12 + contributors);
    let end = 12 + contributors;
    let start = match parts.extension {
        Some((_, _, words)) => {
            assert(data[end + 2] == (words.len() / 4 / 256) as u8);
            assert(data[end + 3] == (words.len() / 4 % 256) as u8);
            end + 4 + words.len() as int
        },
        None => end,
    };
    assert(payload_start(data) == start);
    assert(start + parts.payload.len() + (match parts.padding {
        Some(fill) => fill.len() + 1,
        None => 0,
    }) == data.len());
    if parts.padding is Some {
        assert(data.last() == (parts.padding->0.len() + 1) as u8);
    }
    assert(payload_end(data) == start + parts.payload.len());
    assert(data.subrange(start, start + parts.payload.len() as int) =~= parts.payload);
}

/// What each rejection stands for, in the order in which a datagram is looked at: fewer
/// than twelve bytes or another version than 2; contributing sources, then an
/// extension, that end behind the datagram; padding that counts none or more than there
/// is; an empty payload or another payload type than 96; source zero.
pub proof fn law_rejections_tell_what_is_wrong(data: Seq<u8>)
    ensures
        data.len() < 12 ==> packet_rejection(data) == Some(PacketReject::InvalidHeader),
        data.len() >= 12 && (data[0] < 0x80 || data[0] >= 0xc0) ==> packet_rejection(data) == Some(
            PacketReject::InvalidHeader,
        ),
        data.len() >= 12 && 0x80 <= data[0] < 0xc0 ==> {
            let contributors = 12 + 4 * (data[0] % 16);
            let extended = (data[0] / 16) % 2 == 1;
            let padded = (data[0] / 32) % 2 == 1;
            &&& contributors > data.len() ==> packet_rejection(data) == Some(
                PacketReject::TruncatedCsrc,
            )
            &&& contributors <= data.len() < contributors + 4 && extended ==> packet_rejection(data)
                == Some(PacketReject::TruncatedExtension)
            &&& contributors <= data.len() && (!extended || contributors + 4 <= data.len()) ==> {
                let start: int = if extended {
                    contributors + 4 + 4 * (256 * data[contributors + 2] + data[contributors + 3])
                } else {
                    contributors as int
                };
                let last = data[data.len() - 1];
                &&& start > data.len() ==> packet_rejection(data) == Some(
                    PacketReject::TruncatedExtensionPayload,
                )
                &&& start <= data.len() && padded && (last == 0 || start + last > data.len())
                    ==> packet_rejection(data) == Some(PacketReject::InvalidPadding)
                &&& start <= data.len() && !padded && (start == data.len() || data[1] % 128 != 96)
                    ==> packet_rejection(data) == Some(
                    PacketReject::WrongPayloadTypeOrEmptyPayload,
                )
                &&& start <= data.len() && padded && last != 0 && start + last <= data.len() && (
                start + last == data.len() || data[1] % 128 != 96) ==> packet_rejection(data)
                    == Some(PacketReject::WrongPayloadTypeOrEmptyPayload)
                &&& start < data.len() && (!padded || last != 0 && start + last < data.len())
                    && data[1] % 128 == 96 ==> packet_rejection(data) == if data[8] == 0 && data[9]
                    == 0 && data[10] == 0 && data[11] == 0 {
                    Some(PacketReject::ZeroGeneration)
                } else {
                    None
                }
            }
        },
{
}

/// The local host is 127.0.0.0/8 and ::1, on any port.
pub proof fn law_the_local_host_is_loopback(octets: u32, segments: u128, port: u16)
    ensures
        (PeerAddress::V4 { octets, port }).spec_is_loopback() <==> 0x7f00_0000 <= octets
            <= 0x7fff_ffff,
        (PeerAddress::V6 { segments, port }).spec_is_loopback() <==> segments == 1,
{
}

} // verus!
