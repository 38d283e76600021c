//! Reassembles H.264 access units from RTP packets.

use crate::bits::{be16, from_be16, has_bit, lemma_byte_fields};
use crate::rtp::{AccessUnitEnd, NalType, Packet, PacketReject, RtpSequence, RtpTimestamp};
use crate::values::{
    Continuity, FrameKind, Generation, GopState, NonZeroCount, MAX_VIDEO_DATA_BYTES,
};
use std::sync::Arc;
use vstd::prelude::*;

verus! {

pub const MAX_ACCESS_UNIT: usize = MAX_VIDEO_DATA_BYTES;

/// A completed access unit in Annex B form.
#[derive(Debug)]
pub struct Unit {
    pub data: Arc<Vec<u8>>,
    pub kind: FrameKind,
    pub continuity: Continuity,
    pub timestamp: RtpTimestamp,
    pub generation: Generation,
}

/// Why packets were discarded although each of them was a valid packet.
#[derive(Clone, Copy, Debug, PartialEq, Eq, Structural)]
pub enum AssemblyDrop {
    EmptyAccessUnit,
    GenerationDiscontinuity,
    PacketRejection,
    RecoveringWithoutKeyframe,
    SequenceDiscontinuity,
    StaleGeneration,
    TimestampDiscontinuity,
}

impl AssemblyDrop {
    pub open spec fn spec_message(self) -> Seq<char> {
        match self {
            AssemblyDrop::EmptyAccessUnit => "empty RTP access unit"@,
            AssemblyDrop::GenerationDiscontinuity =>
                "RTP generation changed during a buffered access unit"@,
            AssemblyDrop::PacketRejection =>
                "buffered RTP access unit discarded after packet rejection"@,
            AssemblyDrop::RecoveringWithoutKeyframe =>
                "RTP access unit dropped while awaiting a keyframe"@,
            AssemblyDrop::SequenceDiscontinuity =>
                "RTP sequence changed during a buffered access unit"@,
            AssemblyDrop::StaleGeneration => "stale RTP generation"@,
            AssemblyDrop::TimestampDiscontinuity =>
                "RTP timestamp changed during a buffered access unit"@,
        }
    }

    pub fn message(self) -> (text: &'static str)
        ensures
            text@ == self.spec_message(),
    {
        match self {
            AssemblyDrop::EmptyAccessUnit => "empty RTP access unit",
            AssemblyDrop::GenerationDiscontinuity =>
                "RTP generation changed during a buffered access unit",
            AssemblyDrop::PacketRejection =>
                "buffered RTP access unit discarded after packet rejection",
            AssemblyDrop::RecoveringWithoutKeyframe =>
                "RTP access unit dropped while awaiting a keyframe",
            AssemblyDrop::SequenceDiscontinuity =>
                "RTP sequence changed during a buffered access unit",
            AssemblyDrop::StaleGeneration => "stale RTP generation",
            AssemblyDrop::TimestampDiscontinuity =>
                "RTP timestamp changed during a buffered access unit",
        }
    }
}

#[derive(Clone, Copy, Debug, PartialEq, Eq, Structural)]
pub enum PacketFailure {
    Drop(AssemblyDrop),
    Reject(PacketReject),
}

#[derive(Debug)]
pub enum AssemblyOutcome {
    Incomplete,
    Complete(Unit),
    Dropped,
}

/// Packets discarded while one packet was consumed, and the last reason.
#[derive(Clone, Copy, Debug, PartialEq, Eq, Structural)]
pub struct DroppedPackets {
    pub packets: NonZeroCount,
    pub reason: AssemblyDrop,
}

/// A number of packets and the reason why they were discarded.
pub struct DropCount {
    pub packets: int,
    pub reason: AssemblyDrop,
}

pub open spec fn saturated(value: int) -> int {
    if value <= u64::MAX {
        value
    } else {
        u64::MAX as int
    }
}

/// One more discard: the counts add up and the reason is the latest.
pub open spec fn drop_recorded(
    slot: Option<DropCount>,
    packets: int,
    reason: AssemblyDrop,
) -> Option<DropCount> {
    let earlier = if slot is Some {
        slot->0.packets
    } else {
        0
    };
    Some(DropCount { packets: saturated(earlier + packets), reason })
}

impl DroppedPackets {
    pub open spec fn slot_view(slot: Option<Self>) -> Option<DropCount> {
        match slot {
            Some(dropped) => Some(
                DropCount { packets: dropped.packets@ as int, reason: dropped.reason },
            ),
            None => None,
        }
    }

    pub fn record(slot: &mut Option<Self>, packets: NonZeroCount, reason: AssemblyDrop)
        ensures
            Self::slot_view(*final(slot)) == drop_recorded(
                Self::slot_view(*old(slot)),
                packets@ as int,
                reason,
            ),
    {
        let packets = match *slot {
            Some(dropped) => dropped.packets.saturating_add(packets.get()),
            None => packets,
        };
        *slot = Some(DroppedPackets { packets, reason });
    }
}

#[derive(Debug)]
pub struct AssemblyResult {
    pub outcome: Result<AssemblyOutcome, PacketReject>,
    pub drops: Option<DroppedPackets>,
}

#[derive(Clone, Copy, Debug, PartialEq, Eq, Structural)]
pub enum StreamCursor {
    Fresh,
    Streaming { generation: Generation, next_sequence: RtpSequence },
}

#[derive(Debug)]
pub enum AccessUnit {
    Idle,
    Collecting(PartialUnit),
}

#[derive(Debug)]
pub struct PartialUnit {
    pub timestamp: RtpTimestamp,
    pub kind: FrameKind,
    pub data: Vec<u8>,
    pub packets: NonZeroCount,
    pub fragment: Option<NalType>,
}

#[derive(Debug)]
pub struct Assembler {
    pub cursor: StreamCursor,
    pub keyframe: GopState,
    pub unit: AccessUnit,
}

/// How a packet continues the stream.
#[derive(Clone, Copy, Debug, PartialEq, Eq, Structural)]
pub enum CursorAdvance {
    Started,
    Continuous,
    GenerationChanged,
    SequenceChanged,
    Stale,
}

// ---------------------------------------------------------------------------
// The model: what a sequence of payloads assembles to
// ---------------------------------------------------------------------------

/// What the payloads so far amount to.
#[verifier::ext_equal]
pub struct Contents {
    pub data: Seq<u8>,
    pub kind: FrameKind,
    /// The type of the NAL unit whose fragments are still arriving.
    pub fragment: Option<u8>,
}

pub open spec fn no_contents() -> Contents {
    Contents { data: Seq::empty(), kind: FrameKind::Delta, fragment: None }
}

/// The Annex B start code that precedes every NAL unit.
pub open spec fn start_code() -> Seq<u8> {
    seq![0u8, 0u8, 0u8, 1u8]
}

pub open spec fn kind_with(kind: FrameKind, nal_type: int) -> FrameKind {
    if nal_type == 5 {
        FrameKind::Key
    } else {
        kind
    }
}

/// One whole NAL unit is added behind a start code.
pub open spec fn with_nal(contents: Contents, nal: Seq<u8>) -> Result<Contents, PacketReject> {
    if contents.data.len() + 4 + nal.len() > MAX_ACCESS_UNIT {
        Err(PacketReject::AccessUnitTooLarge)
    } else {
        Ok(
            Contents {
                data: contents.data + start_code() + nal,
                kind: kind_with(contents.kind, (nal[0] % 32) as int),
                ..contents
            },
        )
    }
}

/// An aggregate is a list of NAL units, each behind its length in two bytes.
pub open spec fn with_stap(contents: Contents, members: Seq<u8>) -> Result<
    Contents,
    PacketReject,
>
    decreases members.len(),
{
    if members.len() == 0 {
        Ok(contents)
    } else if members.len() < 2 {
        Err(PacketReject::TruncatedStapLength)
    } else {
        let length = be16(members[0], members[1]);
        if length == 0 || length > members.len() - 2 {
            Err(PacketReject::InvalidStapNalLength)
        } else {
            match with_nal(contents, members.subrange(2, 2 + length)) {
                Err(reason) => Err(reason),
                Ok(next) => with_stap(next, members.skip(2 + length)),
            }
        }
    }
}

/// A fragment of one NAL unit. The first carries the start bit and opens the unit
/// with a rebuilt NAL header, the last carries the end bit; those after the first
/// must name the type that the first named.
pub open spec fn with_fu(contents: Contents, payload: Seq<u8>) -> Result<Contents, PacketReject> {
    let header = payload[1];
    let nal_type = header % 32;
    let first = has_bit(header, 0x80);
    let last = has_bit(header, 0x40);
    let nal_header = if first {
        start_code().push((payload[0] / 32 * 32 + nal_type) as u8)
    } else {
        Seq::<u8>::empty()
    };
    let data = contents.data + nal_header + payload.skip(2);
    if payload.len() < 3 {
        Err(PacketReject::TruncatedFuPayload)
    } else if has_bit(header, 0x20) || !NalType::valid(nal_type as int) || (first && last) {
        Err(PacketReject::InvalidFuHeader)
    } else if first != (contents.fragment is None) {
        Err(PacketReject::InvalidFuSequence)
    } else if contents.fragment is Some && contents.fragment->0 != nal_type {
        Err(PacketReject::InvalidFuSequence)
    } else if data.len() > MAX_ACCESS_UNIT {
        Err(PacketReject::AccessUnitTooLarge)
    } else {
        Ok(
            Contents {
                data,
                kind: kind_with(contents.kind, nal_type as int),
                fragment: if last {
                    None
                } else {
                    Some(nal_type)
                },
            },
        )
    }
}

/// One RTP payload, by the packetization type in its first byte. While a NAL unit
/// is fragmented only further fragments may follow.
pub open spec fn with_payload(contents: Contents, payload: Seq<u8>) -> Result<
    Contents,
    PacketReject,
> {
    let packet_type = payload[0] % 32;
    if payload.len() == 0 {
        Err(PacketReject::EmptyPayload)
    } else if contents.fragment is Some && packet_type != 28 {
        Err(PacketReject::NalInterleavedWithFu)
    } else if NalType::valid(packet_type as int) {
        with_nal(contents, payload)
    } else if packet_type == 24 {
        with_stap(contents, payload.skip(1))
    } else if packet_type == 28 {
        with_fu(contents, payload)
    } else {
        Err(PacketReject::UnsupportedPacketization { kind: packet_type })
    }
}

// ---------------------------------------------------------------------------
// The model: the assembler's state and one step of it
// ---------------------------------------------------------------------------

#[verifier::ext_equal]
pub struct BufferedUnit {
    pub timestamp: RtpTimestamp,
    pub packets: int,
    pub contents: Contents,
}

#[verifier::ext_equal]
pub struct AssemblerState {
    pub cursor: StreamCursor,
    pub keyframe: GopState,
    pub unit: Option<BufferedUnit>,
}

pub enum OutcomeView {
    Incomplete,
    Complete { data: Seq<u8>, kind: FrameKind, continuity: Continuity },
    Dropped,
}

#[verifier::ext_equal]
pub struct Step {
    pub state: AssemblerState,
    pub outcome: Result<OutcomeView, PacketReject>,
    pub drops: Option<DropCount>,
}

/// Generations only grow: a packet of an older one is stale, one of a newer one
/// starts over, and within one the sequence numbers follow each other.
pub open spec fn cursor_advance(
    cursor: StreamCursor,
    generation: Generation,
    sequence: RtpSequence,
) -> CursorAdvance {
    match cursor {
        StreamCursor::Fresh => CursorAdvance::Started,
        StreamCursor::Streaming { generation: current, next_sequence } => if generation@
            < current@ {
            CursorAdvance::Stale
        } else if generation@ > current@ {
            CursorAdvance::GenerationChanged
        } else if sequence == next_sequence {
            CursorAdvance::Continuous
        } else {
            CursorAdvance::SequenceChanged
        },
    }
}

/// What breaks the stream before the packet's payload is looked at.
pub open spec fn interruption(state: AssemblerState, packet: Packet) -> Option<AssemblyDrop> {
    match cursor_advance(state.cursor, packet.generation, packet.sequence) {
        CursorAdvance::Stale => None,
        CursorAdvance::GenerationChanged => Some(AssemblyDrop::GenerationDiscontinuity),
        CursorAdvance::SequenceChanged => Some(AssemblyDrop::SequenceDiscontinuity),
        CursorAdvance::Started | CursorAdvance::Continuous => if state.unit is Some
            && state.unit->0.timestamp != packet.timestamp {
            Some(AssemblyDrop::TimestampDiscontinuity)
        } else {
            None
        },
    }
}

/// A unit whose last packet has arrived is handed out, unless it is empty or the
/// stream still waits for a keyframe.
pub open spec fn finished(
    state: AssemblerState,
    contents: Contents,
    packets: int,
    drops: Option<DropCount>,
) -> Step {
    let idle = AssemblerState { unit: None, ..state };
    if contents.data.len() == 0 {
        Step {
            state: idle,
            outcome: Ok(OutcomeView::Dropped),
            drops: drop_recorded(drops, packets, AssemblyDrop::EmptyAccessUnit),
        }
    } else if state.keyframe == GopState::Recovering && contents.kind == FrameKind::Delta {
        Step {
            state: idle,
            outcome: Ok(OutcomeView::Dropped),
            drops: drop_recorded(drops, packets, AssemblyDrop::RecoveringWithoutKeyframe),
        }
    } else {
        Step {
            state: AssemblerState { keyframe: GopState::KeyframeCached, ..idle },
            outcome: Ok(
                OutcomeView::Complete {
                    data: contents.data,
                    kind: contents.kind,
                    continuity: if state.keyframe == GopState::Recovering {
                        Continuity::AfterGap
                    } else {
                        Continuity::Continuous
                    },
                },
            ),
            drops,
        }
    }
}

/// The packet cannot be used: the unit that it was to continue goes with it.
pub open spec fn rejected(
    state: AssemblerState,
    reason: PacketReject,
    buffered: int,
    drops: Option<DropCount>,
) -> Step {
    Step {
        state: AssemblerState { unit: None, keyframe: GopState::Recovering, ..state },
        outcome: Err(reason),
        drops: if buffered > 0 {
            drop_recorded(drops, buffered, AssemblyDrop::PacketRejection)
        } else {
            drops
        },
    }
}

/// The payload joins the buffered unit, or starts one.
pub open spec fn joined(state: AssemblerState, packet: Packet, drops: Option<DropCount>) -> Step {
    let (before, buffered) = match state.unit {
        Some(unit) => (unit.contents, unit.packets),
        None => (no_contents(), 0),
    };
    let packets = saturated(buffered + 1);
    match with_payload(before, packet.payload@) {
        Err(reason) => rejected(state, reason, buffered, drops),
        Ok(contents) => match packet.end {
            AccessUnitEnd::More => Step {
                state: AssemblerState {
                    unit: Some(BufferedUnit { timestamp: packet.timestamp, packets, contents }),
                    ..state
                },
                outcome: Ok(OutcomeView::Incomplete),
                drops,
            },
            AccessUnitEnd::Final => if contents.fragment is Some {
                rejected(state, PacketReject::MarkerEndedIncompleteFu, packets - 1, drops)
            } else {
                finished(state, contents, packets, drops)
            },
        },
    }
}

/// What consuming one packet does.
pub open spec fn consumed(state: AssemblerState, packet: Packet) -> Step {
    if cursor_advance(state.cursor, packet.generation, packet.sequence) == CursorAdvance::Stale {
        Step {
            state,
            outcome: Ok(OutcomeView::Dropped),
            drops: drop_recorded(None, 1, AssemblyDrop::StaleGeneration),
        }
    } else {
        let moved = AssemblerState {
            cursor: StreamCursor::Streaming {
                generation: packet.generation,
                next_sequence: packet.sequence.spec_next(),
            },
            ..state
        };
        match interruption(state, packet) {
            None => joined(moved, packet, None),
            Some(reason) => {
                let drops = match state.unit {
                    Some(unit) => drop_recorded(None, unit.packets, reason),
                    None => None,
                };
                let idle = AssemblerState { unit: None, keyframe: GopState::Recovering, ..moved };
                if reason == AssemblyDrop::TimestampDiscontinuity
                    && state.unit->0.contents.fragment is Some {
                    Step {
                        state: idle,
                        outcome: Err(PacketReject::TimestampChangedDuringFu),
                        drops,
                    }
                } else {
                    joined(idle, packet, drops)
                }
            },
        }
    }
}

// ---------------------------------------------------------------------------
// The assembler
// ---------------------------------------------------------------------------

pub open spec fn fragment_view(fragment: Option<NalType>) -> Option<u8> {
    match fragment {
        Some(kind) => Some(kind@),
        None => None,
    }
}

impl PartialUnit {
    pub open spec fn contents(self) -> Contents {
        Contents {
            data: self.data@,
            kind: self.kind,
            fragment: fragment_view(self.fragment),
        }
    }

    pub open spec fn view(&self) -> BufferedUnit {
        BufferedUnit {
            timestamp: self.timestamp,
            packets: self.packets@ as int,
            contents: self.contents(),
        }
    }

    fn start(timestamp: RtpTimestamp, payload: &[u8]) -> (r: Result<Self, PacketReject>)
        ensures
            match with_payload(no_contents(), payload@) {
                Ok(contents) => r matches Ok(unit) && unit@ == (BufferedUnit {
                    timestamp,
                    packets: 1,
                    contents,
                }),
                Err(reason) => r == Err::<Self, PacketReject>(reason),
            },
    {
        let mut unit = PartialUnit {
            timestamp,
            kind: FrameKind::Delta,
            data: Vec::new(),
            packets: NonZeroCount::one(),
            fragment: None,
        };
        assert(unit.contents() =~= no_contents());
        match unit.append_payload(payload) {
            Ok(()) => Ok(unit),
            Err(reason) => Err(reason),
        }
    }

    fn append_payload(&mut self, payload: &[u8]) -> (r: Result<(), PacketReject>)
        ensures
            match with_payload(old(self).contents(), payload@) {
                Ok(contents) => r is Ok && final(self)@ == (BufferedUnit {
                    contents,
                    ..old(self)@
                }),
                Err(reason) => r == Err::<(), PacketReject>(reason),
            },
    {
        if payload.len() == 0 {
            return Err(PacketReject::EmptyPayload);
        }
        proof {
            lemma_byte_fields(payload[0]);
        }
        let packet_type: u8 = payload[0] & 31;
        if self.fragment.is_some() && packet_type != 28 {
            return Err(PacketReject::NalInterleavedWithFu);
        }
        match packet_type {
            1..=23 => self.append_nal(payload),
            24 => self.append_stap(vstd::slice::slice_subrange(payload, 1, payload.len())),
            28 => self.append_fu(payload),
            kind => Err(PacketReject::UnsupportedPacketization { kind }),
        }
    }

    fn append_stap(&mut self, payload: &[u8]) -> (r: Result<(), PacketReject>)
        ensures
            match with_stap(old(self).contents(), payload@) {
                Ok(contents) => r is Ok && final(self)@ == (BufferedUnit {
                    contents,
                    ..old(self)@
                }),
                Err(reason) => r == Err::<(), PacketReject>(reason),
            },
    {
        let mut at: usize = 0;
        assert(payload@.skip(0) =~= payload@);
        while at < payload.len()
            invariant
                at <= payload.len(),
                self@ == (BufferedUnit { contents: self.contents(), ..old(self)@ }),
                with_stap(old(self).contents(), payload@) == with_stap(
                    self.contents(),
                    payload@.skip(at as int),
                ),
            decreases payload.len() - at,
        {
            let ghost rest = payload@.skip(at as int);
            if payload.len() - at < 2 {
                return Err(PacketReject::TruncatedStapLength);
            }
            let length: usize = from_be16(payload[at], payload[at + 1]) as usize;
            if length == 0 || length > payload.len() - at - 2 {
                return Err(PacketReject::InvalidStapNalLength);
            }
            let nal = vstd::slice::slice_subrange(payload, at + 2, at + 2 + length);
            proof {
                assert(rest[0] == payload@[at as int] && rest[1] == payload@[at + 1]);
                assert(rest.subrange(2, 2 + length) =~= nal@);
                assert(rest.skip(2 + length) =~= payload@.skip(at + 2 + length));
            }
            match self.append_nal(nal) {
                Ok(()) => {},
                Err(reason) => {
                    return Err(reason);
                },
            }
            at = at + 2 + length;
        }
        Ok(())
    }

    fn append_fu(&mut self, payload: &[u8]) -> (r: Result<(), PacketReject>)
        ensures
            match with_fu(old(self).contents(), payload@) {
                Ok(contents) => r is Ok && final(self)@ == (BufferedUnit {
                    contents,
                    ..old(self)@
                }),
                Err(reason) => r == Err::<(), PacketReject>(reason),
            },
    {
        if payload.len() < 3 {
            return Err(PacketReject::TruncatedFuPayload);
        }
        proof {
            lemma_byte_fields(payload[1]);
        }
        if payload[1] & 0x20 != 0 {
            return Err(PacketReject::InvalidFuHeader);
        }
        let kind = match NalType::new(payload[1] & 31) {
            Some(kind) => kind,
            None => {
                return Err(PacketReject::InvalidFuHeader);
            },
        };
        let first = payload[1] & 0x80 != 0;
        let last = payload[1] & 0x40 != 0;
        if first && last {
            return Err(PacketReject::InvalidFuHeader);
        }
        match self.fragment {
            None => {
                if !first {
                    return Err(PacketReject::InvalidFuSequence);
                }
                let indicator: u8 = payload[0];
                let value: u8 = kind.value();
                assert((indicator & 0xe0) | value == indicator / 32 * 32 + value) by (bit_vector)
                    requires
                        value < 32,
                ;
                let header: [u8; 5] = [0, 0, 0, 1, (indicator & 0xe0) | value];
                match self.push(&header) {
                    Ok(()) => {},
                    Err(reason) => {
                        return Err(reason);
                    },
                }
                assert(header@ =~= start_code().push(header@[4]));
                self.fragment = Some(kind);
            },
            Some(active) => {
                if first || active.value() != kind.value() {
                    return Err(PacketReject::InvalidFuSequence);
                }
            },
        }
        let ghost opened = self.data@;
        let body = vstd::slice::slice_subrange(payload, 2, payload.len());
        match self.push(body) {
            Ok(()) => {},
            Err(reason) => {
                return Err(reason);
            },
        }
        if kind.is_keyframe() {
            self.kind = FrameKind::Key;
        }
        if last {
            self.fragment = None;
        }
        proof {
            assert(body@ =~= payload@.skip(2));
            if !first {
                assert(old(self).data@ + Seq::<u8>::empty() =~= opened);
            }
        }
        Ok(())
    }

    fn append_nal(&mut self, nal: &[u8]) -> (r: Result<(), PacketReject>)
        requires
            nal@.len() > 0,
        ensures
            match with_nal(old(self).contents(), nal@) {
                Ok(contents) => r is Ok && final(self)@ == (BufferedUnit {
                    contents,
                    ..old(self)@
                }),
                Err(reason) => r == Err::<(), PacketReject>(reason),
            },
    {
        proof {
            lemma_byte_fields(nal[0]);
        }
        // Lengths delimit opaque member bytes, so a member type outside `NalType`
        // is appended, not rejected; only known types are classified.
        match NalType::new(nal[0] & 31) {
            Some(kind) => {
                if kind.is_keyframe() {
                    self.kind = FrameKind::Key;
                }
            },
            None => {},
        }
        let code: [u8; 4] = [0, 0, 0, 1];
        assert(code@ =~= start_code());
        match self.push(&code) {
            Ok(()) => self.push(nal),
            Err(reason) => Err(reason),
        }
    }

    fn push(&mut self, value: &[u8]) -> (r: Result<(), PacketReject>)
        ensures
            if old(self).data@.len() + value@.len() > MAX_ACCESS_UNIT {
                r == Err::<(), PacketReject>(PacketReject::AccessUnitTooLarge)
            } else {
                r is Ok && final(self)@ == (BufferedUnit {
                    contents: Contents {
                        data: old(self).data@ + value@,
                        ..old(self).contents()
                    },
                    ..old(self)@
                }) && final(self).fragment == old(self).fragment
            },
    {
        if self.data.len().saturating_add(value.len()) > MAX_ACCESS_UNIT {
            return Err(PacketReject::AccessUnitTooLarge);
        }
        self.data.extend_from_slice(value);
        assert(self.data@ =~= old(self).data@ + value@);
        Ok(())
    }
}

pub enum UnitAppend {
    Incomplete,
    Complete(PartialUnit),
}

pub struct RejectedPacket {
    pub reason: PacketReject,
    pub buffered: Option<NonZeroCount>,
}

pub open spec fn count_view(count: Option<NonZeroCount>) -> int {
    match count {
        Some(count) => count@ as int,
        None => 0,
    }
}

impl AccessUnit {
    pub open spec fn view(&self) -> Option<BufferedUnit> {
        match self {
            AccessUnit::Idle => None,
            AccessUnit::Collecting(unit) => Some(unit@),
        }
    }

    /// Empties the buffer and returns how many packets were in it.
    pub fn discard(&mut self) -> (r: Option<NonZeroCount>)
        ensures
            final(self)@ is None,
            r is Some <==> old(self)@ is Some,
            r matches Some(packets) ==> packets@ == old(self)@->0.packets,
    {
        let packets = match self {
            AccessUnit::Idle => None,
            AccessUnit::Collecting(unit) => Some(unit.packets),
        };
        *self = AccessUnit::Idle;
        packets
    }

    fn append(&mut self, timestamp: RtpTimestamp, payload: &[u8], end: AccessUnitEnd) -> (r: Result<
        UnitAppend,
        RejectedPacket,
    >)
        requires
            old(self)@ is Some ==> old(self)@->0.timestamp == timestamp,
        ensures
            ({
                let (before, buffered) = match old(self)@ {
                    Some(unit) => (unit.contents, unit.packets),
                    None => (no_contents(), 0),
                };
                let packets = saturated(buffered + 1);
                match with_payload(before, payload@) {
                    Err(reason) => {
                        &&& final(self)@ is None
                        &&& r matches Err(rejection)
                        &&& rejection.reason == reason
                        &&& count_view(rejection.buffered) == buffered
                    },
                    Ok(contents) => {
                        let unit = BufferedUnit { timestamp, packets, contents };
                        match end {
                            AccessUnitEnd::More => {
                                &&& final(self)@ == Some(unit)
                                &&& r is Ok
                                &&& r->Ok_0 is Incomplete
                            },
                            AccessUnitEnd::Final => if contents.fragment is Some {
                                &&& final(self)@ is None
                                &&& r matches Err(rejection)
                                &&& rejection.reason == PacketReject::MarkerEndedIncompleteFu
                                &&& count_view(rejection.buffered) == packets - 1
                            } else {
                                &&& final(self)@ is None
                                &&& r matches Ok(UnitAppend::Complete(partial))
                                &&& partial@ == unit
                            },
                        }
                    },
                }
            }),
            r matches Err(rejection) ==> (rejection.buffered matches Some(count) ==> count@ > 0),
    {
        let mut current = AccessUnit::Idle;
        std::mem::swap(self, &mut current);
        let unit = match current {
            AccessUnit::Idle => match PartialUnit::start(timestamp, payload) {
                Ok(unit) => unit,
                Err(reason) => {
                    return Err(RejectedPacket { reason, buffered: None });
                },
            },
            AccessUnit::Collecting(mut unit) => {
                let buffered = unit.packets;
                let count: u64 = buffered.get();
                match unit.append_payload(payload) {
                    Ok(()) => {},
                    Err(reason) => {
                        return Err(RejectedPacket { reason, buffered: Some(buffered) });
                    },
                }
                unit.packets = unit.packets.saturating_add(1);
                unit
            },
        };
        match end {
            AccessUnitEnd::More => {
                *self = AccessUnit::Collecting(unit);
                Ok(UnitAppend::Incomplete)
            },
            AccessUnitEnd::Final => {
                if unit.fragment.is_some() {
                    Err(
                        RejectedPacket {
                            reason: PacketReject::MarkerEndedIncompleteFu,
                            buffered: NonZeroCount::new(unit.packets.get() - 1),
                        },
                    )
                } else {
                    Ok(UnitAppend::Complete(unit))
                }
            },
        }
    }
}

impl StreamCursor {
    /// Moves past one packet, unless the packet is stale.
    pub fn advance(&mut self, generation: Generation, sequence: RtpSequence) -> (r: CursorAdvance)
        ensures
            r == cursor_advance(*old(self), generation, sequence),
            *final(self) == if r == CursorAdvance::Stale {
                *old(self)
            } else {
                StreamCursor::Streaming { generation, next_sequence: sequence.spec_next() }
            },
    {
        let moved = StreamCursor::Streaming { generation, next_sequence: sequence.next() };
        match *self {
            StreamCursor::Fresh => {
                *self = moved;
                CursorAdvance::Started
            },
            StreamCursor::Streaming { generation: current, next_sequence } => {
                if generation.get() < current.get() {
                    CursorAdvance::Stale
                } else if generation.get() > current.get() {
                    *self = moved;
                    CursorAdvance::GenerationChanged
                } else {
                    *self = moved;
                    if sequence == next_sequence {
                        CursorAdvance::Continuous
                    } else {
                        CursorAdvance::SequenceChanged
                    }
                }
            },
        }
    }
}

impl AssemblyResult {
    pub open spec fn outcome_view(self) -> Result<OutcomeView, PacketReject> {
        match self.outcome {
            Ok(AssemblyOutcome::Incomplete) => Ok(OutcomeView::Incomplete),
            Ok(AssemblyOutcome::Dropped) => Ok(OutcomeView::Dropped),
            Ok(AssemblyOutcome::Complete(unit)) => Ok(
                OutcomeView::Complete {
                    data: unit.data@,
                    kind: unit.kind,
                    continuity: unit.continuity,
                },
            ),
            Err(reason) => Err(reason),
        }
    }
}

impl Default for Assembler {
    fn default() -> (r: Self)
        ensures
            r@ == (AssemblerState {
                cursor: StreamCursor::Fresh,
                keyframe: GopState::KeyframeCached,
                unit: None,
            }),
    {
        Assembler {
            cursor: StreamCursor::Fresh,
            keyframe: GopState::KeyframeCached,
            unit: AccessUnit::Idle,
        }
    }
}

impl Assembler {
    pub open spec fn view(&self) -> AssemblerState {
        AssemblerState { cursor: self.cursor, keyframe: self.keyframe, unit: self.unit@ }
    }

    fn drop_unit(&mut self, drops: &mut Option<DroppedPackets>, reason: AssemblyDrop)
        ensures
            final(self)@ == (AssemblerState {
                unit: None,
                keyframe: GopState::Recovering,
                ..old(self)@
            }),
            DroppedPackets::slot_view(*final(drops)) == match old(self)@.unit {
                Some(unit) => drop_recorded(
                    DroppedPackets::slot_view(*old(drops)),
                    unit.packets,
                    reason,
                ),
                None => DroppedPackets::slot_view(*old(drops)),
            },
    {
        match self.unit.discard() {
            Some(packets) => DroppedPackets::record(drops, packets, reason),
            None => {},
        }
        self.keyframe = GopState::Recovering;
    }

    /// Takes one packet of the stream. A completed unit carries the timestamp and
    /// the generation of the packet that completed it.
    pub fn consume(&mut self, packet: Packet) -> (r: AssemblyResult)
        ensures
            final(self)@ == consumed(old(self)@, packet).state,
            r.outcome_view() == consumed(old(self)@, packet).outcome,
            DroppedPackets::slot_view(r.drops) == consumed(old(self)@, packet).drops,
            r.outcome matches Ok(AssemblyOutcome::Complete(unit)) ==> unit.timestamp
                == packet.timestamp && unit.generation == packet.generation,
    {
        let mut drops = None;
        match self.cursor.advance(packet.generation, packet.sequence) {
            CursorAdvance::Stale => {
                // The generation only grows. A packet from an older encoder must not
                // alter access-unit or restart state.
                DroppedPackets::record(
                    &mut drops,
                    NonZeroCount::one(),
                    AssemblyDrop::StaleGeneration,
                );
                return AssemblyResult { outcome: Ok(AssemblyOutcome::Dropped), drops };
            },
            CursorAdvance::GenerationChanged => {
                self.drop_unit(&mut drops, AssemblyDrop::GenerationDiscontinuity);
            },
            CursorAdvance::SequenceChanged => {
                self.drop_unit(&mut drops, AssemblyDrop::SequenceDiscontinuity);
            },
            CursorAdvance::Started | CursorAdvance::Continuous => {},
        }
        let (changed, fragmented) = match &self.unit {
            AccessUnit::Collecting(unit) => (
                unit.timestamp != packet.timestamp,
                unit.fragment.is_some(),
            ),
            AccessUnit::Idle => (false, false),
        };
        if changed {
            self.drop_unit(&mut drops, AssemblyDrop::TimestampDiscontinuity);
            if fragmented {
                return AssemblyResult {
                    outcome: Err(PacketReject::TimestampChangedDuringFu),
                    drops,
                };
            }
        }
        let unit = match self.unit.append(
            packet.timestamp,
            packet.payload.as_slice(),
            packet.end,
        ) {
            Ok(UnitAppend::Incomplete) => {
                return AssemblyResult { outcome: Ok(AssemblyOutcome::Incomplete), drops };
            },
            Ok(UnitAppend::Complete(unit)) => unit,
            Err(rejection) => {
                match rejection.buffered {
                    Some(packets) => DroppedPackets::record(
                        &mut drops,
                        packets,
                        AssemblyDrop::PacketRejection,
                    ),
                    None => {},
                }
                self.keyframe = GopState::Recovering;
                return AssemblyResult { outcome: Err(rejection.reason), drops };
            },
        };
        if unit.data.len() == 0 {
            DroppedPackets::record(&mut drops, unit.packets, AssemblyDrop::EmptyAccessUnit);
            return AssemblyResult { outcome: Ok(AssemblyOutcome::Dropped), drops };
        }
        let continuity = match (self.keyframe, unit.kind) {
            (GopState::Recovering, FrameKind::Delta) => {
                DroppedPackets::record(
                    &mut drops,
                    unit.packets,
                    AssemblyDrop::RecoveringWithoutKeyframe,
                );
                return AssemblyResult { outcome: Ok(AssemblyOutcome::Dropped), drops };
            },
            (GopState::Recovering, FrameKind::Key) => {
                self.keyframe = GopState::KeyframeCached;
                Continuity::AfterGap
            },
            (GopState::KeyframeCached, _) => Continuity::Continuous,
        };
        AssemblyResult {
            outcome: Ok(
                AssemblyOutcome::Complete(
                    Unit {
                        data: Arc::new(unit.data),
                        kind: unit.kind,
                        continuity,
                        timestamp: unit.timestamp,
                        generation: packet.generation,
                    },
                ),
            ),
            drops,
        }
    }
}

// ---------------------------------------------------------------------------
// Laws
// ---------------------------------------------------------------------------

/// What every state reached from the initial one satisfies: a buffered unit holds
/// at least one packet and no more bytes than an access unit may have.
pub open spec fn reachable_shape(state: AssemblerState) -> bool {
    state.unit matches Some(unit) ==> unit.packets > 0 && unit.contents.data.len()
        <= MAX_ACCESS_UNIT
}

proof fn lemma_stap_stays_bounded(contents: Contents, members: Seq<u8>)
    requires
        contents.data.len() <= MAX_ACCESS_UNIT,
    ensures
        with_stap(contents, members) matches Ok(next) ==> next.data.len() <= MAX_ACCESS_UNIT,
    decreases members.len(),
{
    if members.len() >= 2 {
        let length = be16(members[0], members[1]);
        if 0 < length <= members.len() - 2 {
            match with_nal(contents, members.subrange(2, 2 + length)) {
                Ok(next) => {
                    lemma_stap_stays_bounded(next, members.skip(2 + length));
                },
                Err(_) => {},
            }
        }
    }
}

/// The shape of the state is kept, and a delivered unit is neither empty nor
/// larger than an access unit may be.
pub proof fn law_units_are_bounded(state: AssemblerState, packet: Packet)
    requires
        reachable_shape(state),
    ensures
        reachable_shape(consumed(state, packet).state),
        consumed(state, packet).outcome matches Ok(OutcomeView::Complete { data, .. }) ==> 0
            < data.len() <= MAX_ACCESS_UNIT,
{
    lemma_stap_stays_bounded(no_contents(), packet.payload@.skip(1));
    if state.unit is Some {
        lemma_stap_stays_bounded(state.unit->0.contents, packet.payload@.skip(1));
    }
}

/// A packet of an older generation is counted and changes nothing else.
pub proof fn law_stale_generation_changes_nothing(
    state: AssemblerState,
    packet: Packet,
    current: Generation,
    next_sequence: RtpSequence,
)
    requires
        state.cursor == (StreamCursor::Streaming { generation: current, next_sequence }),
        packet.generation@ < current@,
    ensures
        consumed(state, packet).state == state,
        consumed(state, packet).outcome == Ok::<OutcomeView, PacketReject>(OutcomeView::Dropped),
        consumed(state, packet).drops == Some(
            DropCount { packets: 1, reason: AssemblyDrop::StaleGeneration },
        ),
{
}

/// While the stream waits for a keyframe nothing but a keyframe is delivered; it is
/// marked as coming after a gap and ends the wait, and nothing else ends it.
pub proof fn law_only_a_keyframe_ends_recovery(state: AssemblerState, packet: Packet)
    requires
        state.keyframe == GopState::Recovering,
    ensures
        match consumed(state, packet).outcome {
            Ok(OutcomeView::Complete { kind, continuity, .. }) => {
                &&& kind == FrameKind::Key
                &&& continuity == Continuity::AfterGap
                &&& consumed(state, packet).state.keyframe == GopState::KeyframeCached
            },
            _ => consumed(state, packet).state.keyframe == GopState::Recovering,
        },
{
}

/// A break of the stream, by generation, sequence number or timestamp, starts the
/// wait for a keyframe: a unit delivered by that very packet follows a gap.
pub proof fn law_interruption_is_marked(state: AssemblerState, packet: Packet)
    requires
        interruption(state, packet) is Some,
    ensures
        match consumed(state, packet).outcome {
            Ok(OutcomeView::Complete { kind, continuity, .. }) => kind == FrameKind::Key
                && continuity == Continuity::AfterGap,
            _ => consumed(state, packet).state.keyframe == GopState::Recovering,
        },
{
}

/// How many packets the unit is made of that a packet completes: the packet alone
/// where it interrupts the stream, else together with those that were buffered.
pub open spec fn delivered_packets(state: AssemblerState, packet: Packet) -> int {
    if !(consumed(state, packet).outcome matches Ok(OutcomeView::Complete { .. })) {
        0
    } else if interruption(state, packet) is Some || state.unit is None {
        1
    } else {
        state.unit->0.packets + 1
    }
}

/// Every packet is accounted for: it is delivered with its unit, still buffered,
/// counted as dropped, or rejected.
pub proof fn law_packets_are_accounted_for(state: AssemblerState, packet: Packet)
    requires
        reachable_shape(state),
        state.unit matches Some(unit) ==> unit.packets < u64::MAX,
    ensures
        ({
            let step = consumed(state, packet);
            let before = if state.unit is Some {
                state.unit->0.packets
            } else {
                0
            };
            let after = if step.state.unit is Some {
                step.state.unit->0.packets
            } else {
                0
            };
            let dropped = if step.drops is Some {
                step.drops->0.packets
            } else {
                0
            };
            let rejected: int = if step.outcome is Err {
                1
            } else {
                0
            };
            before + 1 == after + dropped + rejected + delivered_packets(state, packet)
        }),
{
}

/// The payload of one fragment of a NAL unit with the given header.
pub open spec fn fu_payload(header: u8, first: bool, last: bool, piece: Seq<u8>) -> Seq<u8> {
    let flags: int = if first {
        0x80
    } else if last {
        0x40
    } else {
        0
    };
    seq![(header / 32 * 32 + 28) as u8, (flags + header % 32) as u8] + piece
}

/// The contents after the fragments `from..` of a NAL unit.
pub open spec fn with_fragments(
    contents: Contents,
    header: u8,
    pieces: Seq<Seq<u8>>,
    from: int,
) -> Result<Contents, PacketReject>
    decreases pieces.len() - from,
{
    if from >= pieces.len() || from < 0 {
        Ok(contents)
    } else {
        match with_payload(
            contents,
            fu_payload(header, from == 0, from == pieces.len() - 1, pieces[from]),
        ) {
            Err(reason) => Err(reason),
            Ok(next) => with_fragments(next, header, pieces, from + 1),
        }
    }
}

pub open spec fn flattened(pieces: Seq<Seq<u8>>, from: int) -> Seq<u8>
    decreases pieces.len() - from,
{
    if from >= pieces.len() || from < 0 {
        Seq::empty()
    } else {
        pieces[from] + flattened(pieces, from + 1)
    }
}

#[verifier::rlimit(60)]
proof fn lemma_later_fragments(contents: Contents, header: u8, pieces: Seq<Seq<u8>>, from: int)
    requires
        1 <= from < pieces.len(),
        forall|i: int| 0 <= i < pieces.len() ==> (#[trigger] pieces[i]).len() > 0,
        NalType::valid(header as int % 32),
        contents.fragment == Some((header % 32) as u8),
        contents.data.len() + flattened(pieces, from).len() <= MAX_ACCESS_UNIT,
    ensures
        with_fragments(contents, header, pieces, from) == Ok::<Contents, PacketReject>(
            Contents {
                data: contents.data + flattened(pieces, from),
                kind: kind_with(contents.kind, header as int % 32),
                fragment: None,
            },
        ),
    decreases pieces.len() - from,
{
    let last = from == pieces.len() - 1;
    let payload = fu_payload(header, false, last, pieces[from]);
    assert(payload.skip(2) =~= pieces[from]);
    assert(pieces[from].len() > 0);
    assert(payload[0] % 32 == 28 && payload[1] % 32 == header % 32);
    assert(!has_bit(payload[1], 0x80) && has_bit(payload[1], 0x40) == last && !has_bit(
        payload[1],
        0x20,
    ));
    let next = Contents {
        data: contents.data + pieces[from],
        kind: kind_with(contents.kind, header as int % 32),
        fragment: if last {
            None
        } else {
            contents.fragment
        },
    };
    assert(flattened(pieces, from) == pieces[from] + flattened(pieces, from + 1));
    assert(contents.data + Seq::<u8>::empty() + payload.skip(2) =~= next.data);
    assert(with_payload(contents, payload) == Ok::<Contents, PacketReject>(next));
    if last {
        assert(flattened(pieces, from + 1) =~= Seq::empty());
        assert(contents.data + flattened(pieces, from) =~= next.data);
        assert(with_fragments(next, header, pieces, from + 1) == Ok::<Contents, PacketReject>(
            next,
        ));
    } else {
        lemma_later_fragments(next, header, pieces, from + 1);
        assert(contents.data + flattened(pieces, from) =~= next.data + flattened(
            pieces,
            from + 1,
        ));
    }
}

/// The contents after the first fragment of a NAL unit that has more of them.
proof fn lemma_first_fragment(contents: Contents, header: u8, piece: Seq<u8>) -> (next: Contents)
    requires
        piece.len() > 0,
        NalType::valid(header as int % 32),
        contents.fragment is None,
        contents.data.len() + 5 + piece.len() <= MAX_ACCESS_UNIT,
    ensures
        next == (Contents {
            data: contents.data + start_code().push(header) + piece,
            kind: kind_with(contents.kind, header as int % 32),
            fragment: Some((header % 32) as u8),
        }),
        with_payload(contents, fu_payload(header, true, false, piece)) == Ok::<
            Contents,
            PacketReject,
        >(next),
{
    let payload = fu_payload(header, true, false, piece);
    assert(payload.skip(2) =~= piece);
    assert(payload[0] / 32 * 32 + payload[1] % 32 == header);
    Contents {
        data: contents.data + start_code().push(header) + piece,
        kind: kind_with(contents.kind, header as int % 32),
        fragment: Some((header % 32) as u8),
    }
}

/// The contents after a NAL unit that arrives whole.
proof fn lemma_whole_unit(contents: Contents, nal: Seq<u8>)
    requires
        nal.len() > 0,
        NalType::valid(nal[0] as int % 32),
        contents.fragment is None,
        contents.data.len() + 4 + nal.len() <= MAX_ACCESS_UNIT,
    ensures
        with_payload(contents, nal) == Ok::<Contents, PacketReject>(
            Contents {
                data: contents.data + start_code() + nal,
                kind: kind_with(contents.kind, nal[0] as int % 32),
                fragment: None,
            },
        ),
{
}

/// Fragmentation is undone: a NAL unit that arrives in two or more fragments
/// leaves the same contents as the unit that arrives whole.
pub proof fn law_fragments_rebuild_the_nal_unit(
    contents: Contents,
    header: u8,
    pieces: Seq<Seq<u8>>,
)
    requires
        pieces.len() >= 2,
        forall|i: int| 0 <= i < pieces.len() ==> (#[trigger] pieces[i]).len() > 0,
        NalType::valid(header as int % 32),
        contents.fragment is None,
        contents.data.len() + 5 + flattened(pieces, 0).len() <= MAX_ACCESS_UNIT,
    ensures
        with_fragments(contents, header, pieces, 0) == with_payload(
            contents,
            seq![header] + flattened(pieces, 0),
        ),
{
    let nal = seq![header] + flattened(pieces, 0);
    assert(pieces[0].len() > 0);
    assert(flattened(pieces, 0) == pieces[0] + flattened(pieces, 1));
    let next = lemma_first_fragment(contents, header, pieces[0]);
    lemma_later_fragments(next, header, pieces, 1);
    assert(next.data + flattened(pieces, 1) =~= contents.data + start_code() + nal);
    lemma_whole_unit(contents, nal);
}

/// A NAL unit that comes alone in its packet is added behind a start code, up to 16 MiB
/// in all; a unit is a key unit from the first NAL unit of type 5 on.
pub proof fn law_single_nal_units_follow_a_start_code(contents: Contents, nal: Seq<u8>)
    requires
        contents.fragment is None,
        nal.len() > 0,
        1 <= nal[0] % 32 <= 23,
    ensures
        ({
            let fits = contents.data.len() + 4 + nal.len() <= 16_777_216;
            let result = with_payload(contents, nal);
            &&& fits ==> result is Ok && result->Ok_0.data == contents.data + seq![
                0u8,
                0u8,
                0u8,
                1u8,
            ] + nal && result->Ok_0.fragment is None && (result->Ok_0.kind == FrameKind::Key
                <==> contents.kind == FrameKind::Key || nal[0] % 32 == 5)
            &&& !fits ==> result == Err::<Contents, PacketReject>(PacketReject::AccessUnitTooLarge)
        }),
{
    assert(start_code() =~= seq![0u8, 0u8, 0u8, 1u8]);
}

/// The members of an aggregate packet, each behind its length.
pub open spec fn members_of(nals: Seq<Seq<u8>>) -> Seq<u8>
    decreases nals.len(),
{
    if nals.len() == 0 {
        Seq::empty()
    } else {
        let nal = nals[0];
        seq![(nal.len() / 256) as u8, (nal.len() % 256) as u8] + nal + members_of(nals.skip(1))
    }
}

/// The NAL units behind their start codes.
pub open spec fn annex_b(nals: Seq<Seq<u8>>) -> Seq<u8>
    decreases nals.len(),
{
    if nals.len() == 0 {
        Seq::empty()
    } else {
        seq![0u8, 0u8, 0u8, 1u8] + nals[0] + annex_b(nals.skip(1))
    }
}

pub open spec fn has_key_unit(nals: Seq<Seq<u8>>) -> bool {
    exists|i: int| 0 <= i < nals.len() && (#[trigger] nals[i])[0] % 32 == 5
}

proof fn lemma_members_are_added(contents: Contents, nals: Seq<Seq<u8>>)
    requires
        forall|i: int| 0 <= i < nals.len() ==> 0 < (#[trigger] nals[i]).len() <= 65535,
        contents.data.len() + annex_b(nals).len() <= 16_777_216,
    ensures
        with_stap(contents, members_of(nals)) == Ok::<Contents, PacketReject>(
            Contents {
                data: contents.data + annex_b(nals),
                kind: if has_key_unit(nals) {
                    FrameKind::Key
                } else {
                    contents.kind
                },
                fragment: contents.fragment,
            },
        ),
    decreases nals.len(),
{
    if nals.len() == 0 {
        assert(contents.data + annex_b(nals) =~= contents.data);
    } else {
        let nal = nals[0];
        let rest = nals.skip(1);
        let members = members_of(nals);
        assert(0 < nal.len() <= 65535);
        assert(members[0] == (nal.len() / 256) as u8 && members[1] == (nal.len() % 256) as u8);
        assert(be16(members[0], members[1]) == nal.len());
        assert(members.subrange(2, 2 + nal.len() as int) =~= nal);
        assert(members.skip(2 + nal.len() as int) =~= members_of(rest));
        assert(start_code() =~= seq![0u8, 0u8, 0u8, 1u8]);
        let next = with_nal(contents, nal)->Ok_0;
        assert forall|i: int| 0 <= i < rest.len() implies 0 < (#[trigger] rest[i]).len()
            <= 65535 by {
            assert(rest[i] == nals[i + 1]);
        }
        lemma_members_are_added(next, rest);
        assert(next.data + annex_b(rest) =~= contents.data + annex_b(nals));
        assert(has_key_unit(nals) == (nal[0] % 32 == 5 || has_key_unit(rest))) by {
            if has_key_unit(nals) {
                let i = choose|i: int| 0 <= i < nals.len() && (#[trigger] nals[i])[0] % 32 == 5;
                if i > 0 {
                    assert(rest[i - 1] == nals[i]);
                }
            }
            if has_key_unit(rest) {
                let i = choose|i: int| 0 <= i < rest.len() && (#[trigger] rest[i])[0] % 32 == 5;
                assert(nals[i + 1] == rest[i]);
            }
            if nal[0] % 32 == 5 {
                assert(nals[0][0] % 32 == 5);
            }
        }
    }
}

/// An aggregate packet adds its NAL units in order, each behind a start code of its
/// own, as if they had come alone.
pub proof fn law_aggregates_are_taken_apart(contents: Contents, indicator: u8, nals: Seq<Seq<u8>>)
    requires
        contents.fragment is None,
        indicator % 32 == 24,
        forall|i: int| 0 <= i < nals.len() ==> 0 < (#[trigger] nals[i]).len() <= 65535,
        contents.data.len() + annex_b(nals).len() <= 16_777_216,
    ensures
        with_payload(contents, seq![indicator] + members_of(nals)) == Ok::<Contents, PacketReject>(
            Contents {
                data: contents.data + annex_b(nals),
                kind: if has_key_unit(nals) {
                    FrameKind::Key
                } else {
                    contents.kind
                },
                fragment: None,
            },
        ),
{
    let payload = seq![indicator] + members_of(nals);
    assert(payload.skip(1) =~= members_of(nals));
    assert(payload[0] == indicator);
    lemma_members_are_added(contents, nals);
}

/// What is refused of a payload: none at all; anything but a fragment while one is
/// open; a fragment without data, with the reserved bit, with both ends, or of a type
/// that no NAL unit has; a first fragment while one is open, a later one while none is,
/// and one of another type; an aggregate with an odd byte left or a member that is empty
/// or cut off; and types that are none of these.
pub proof fn law_malformed_payloads_are_refused(contents: Contents, payload: Seq<u8>)
    ensures
        ({
            let result = with_payload(contents, payload);
            let kind = payload[0] % 32;
            let first = payload[1] / 128 == 1;
            let last = (payload[1] / 64) % 2 == 1;
            let reserved = (payload[1] / 32) % 2 == 1;
            let nal = payload[1] % 32;
            let malformed = reserved || nal == 0 || nal > 23 || (first && last);
            &&& payload.len() == 0 ==> result == Err::<Contents, PacketReject>(
                PacketReject::EmptyPayload,
            )
            &&& payload.len() > 0 && contents.fragment is Some && kind != 28 ==> result == Err::<
                Contents,
                PacketReject,
            >(PacketReject::NalInterleavedWithFu)
            &&& payload.len() > 0 && contents.fragment is None && (kind == 0 || kind > 24 && kind
                != 28) ==> result == Err::<Contents, PacketReject>(
                PacketReject::UnsupportedPacketization { kind },
            )
            &&& 0 < payload.len() < 3 && kind == 28 ==> result == Err::<Contents, PacketReject>(
                PacketReject::TruncatedFuPayload,
            )
            &&& payload.len() >= 3 && kind == 28 && malformed ==> result == Err::<
                Contents,
                PacketReject,
            >(PacketReject::InvalidFuHeader)
            &&& payload.len() >= 3 && kind == 28 && !malformed && (first == (
            contents.fragment is Some) || (contents.fragment is Some && contents.fragment->0 != nal))
                ==> result == Err::<Contents, PacketReject>(PacketReject::InvalidFuSequence)
            &&& contents.fragment is None && kind == 24 && payload.len() == 2 ==> result == Err::<
                Contents,
                PacketReject,
            >(PacketReject::TruncatedStapLength)
            &&& contents.fragment is None && kind == 24 && payload.len() >= 3 && (256 * payload[1]
                + payload[2] == 0 || 256 * payload[1] + payload[2] > payload.len() - 3) ==> result
                == Err::<Contents, PacketReject>(PacketReject::InvalidStapNalLength)
        }),
{
    let members = payload.skip(1);
    if payload.len() >= 2 {
        assert(members[0] == payload[1]);
    }
    if payload.len() >= 3 {
        assert(members[1] == payload[2]);
    }
}

/// What breaks a stream: a newer generation, or within a generation a number other than
/// the next one modulo 2^16, or another timestamp than that of the unit at hand. The
/// first packet of a stream breaks nothing.
pub proof fn law_streams_break_at_gaps(
    state: AssemblerState,
    packet: Packet,
    current: Generation,
    next_sequence: RtpSequence,
)
    ensures
        ({
            let same_time = state.unit is None || state.unit->0.timestamp == packet.timestamp;
            &&& state.cursor == StreamCursor::Fresh ==> (interruption(state, packet) is None
                <==> same_time)
            &&& state.cursor == (StreamCursor::Streaming { generation: current, next_sequence })
                ==> {
                &&& packet.generation@ > current@ ==> interruption(state, packet) == Some(
                    AssemblyDrop::GenerationDiscontinuity,
                )
                &&& packet.generation@ == current@ && packet.sequence.0 != next_sequence.0
                    ==> interruption(state, packet) == Some(AssemblyDrop::SequenceDiscontinuity)
                &&& packet.generation@ == current@ && packet.sequence.0 == next_sequence.0
                    && !same_time ==> interruption(state, packet) == Some(
                    AssemblyDrop::TimestampDiscontinuity,
                )
                &&& packet.generation@ == current@ && packet.sequence.0 == next_sequence.0
                    && same_time ==> interruption(state, packet) is None
            }
        }),
{
}

/// Every packet that is not stale moves the stream on to its generation and the number
/// after its own.
pub proof fn law_packets_move_the_stream_on(state: AssemblerState, packet: Packet)
    requires
        state.cursor matches StreamCursor::Streaming { generation, .. } ==> packet.generation@
            >= generation@,
    ensures
        consumed(state, packet).state.cursor matches StreamCursor::Streaming {
            generation,
            next_sequence,
        } && generation == packet.generation && next_sequence.0 == (packet.sequence.0 + 1)
            % 65_536,
{
}

/// The contents that payloads amount to, one after the other.
pub open spec fn with_payloads(contents: Contents, packets: Seq<Packet>) -> Result<
    Contents,
    PacketReject,
>
    decreases packets.len(),
{
    if packets.len() == 0 {
        Ok(contents)
    } else {
        match with_payloads(contents, packets.drop_last()) {
            Ok(before) => with_payload(before, packets.last().payload@),
            Err(reason) => Err(reason),
        }
    }
}

/// The state after the packets.
pub open spec fn consumed_all(state: AssemblerState, packets: Seq<Packet>) -> AssemblerState
    decreases packets.len(),
{
    if packets.len() == 0 {
        state
    } else {
        consumed(consumed_all(state, packets.drop_last()), packets.last()).state
    }
}

/// Packets of one unit in order: of one generation and time, numbered on end.
pub open spec fn consecutive(first: Packet, packets: Seq<Packet>) -> bool {
    forall|i: int|
        0 <= i < packets.len() ==> (#[trigger] packets[i]).generation == first.generation
            && packets[i].timestamp == first.timestamp && packets[i].sequence.0 == (
        first.sequence.0 + i) % 65_536
}

/// Whether a stream that stands between two units goes on with that packet.
pub open spec fn ready_for(state: AssemblerState, first: Packet) -> bool {
    &&& state.unit is None
    &&& state.keyframe == GopState::KeyframeCached
    &&& state.cursor matches StreamCursor::Streaming { generation, next_sequence } ==> generation
        == first.generation && next_sequence == first.sequence
}

proof fn lemma_packets_are_buffered(state: AssemblerState, first: Packet, packets: Seq<Packet>)
    requires
        packets.len() > 0,
        packets.len() < u64::MAX,
        consecutive(first, packets),
        ready_for(state, first),
        forall|i: int|
            0 <= i < packets.len() ==> (#[trigger] packets[i]).end == AccessUnitEnd::More,
        with_payloads(no_contents(), packets) is Ok,
    ensures
        consumed_all(state, packets) == (AssemblerState {
            cursor: StreamCursor::Streaming {
                generation: first.generation,
                next_sequence: RtpSequence(
                    ((first.sequence.0 + packets.len()) % 65_536) as u16,
                ),
            },
            keyframe: GopState::KeyframeCached,
            unit: Some(
                BufferedUnit {
                    timestamp: first.timestamp,
                    packets: packets.len() as int,
                    contents: with_payloads(no_contents(), packets)->Ok_0,
                },
            ),
        }),
    decreases packets.len(),
{
    let earlier = packets.drop_last();
    let packet = packets[packets.len() - 1];
    assert(packet == packets.last());
    assert(packet.end == AccessUnitEnd::More);
    assert forall|i: int| 0 <= i < earlier.len() implies (#[trigger] earlier[i]).end
        == AccessUnitEnd::More by {
        assert(earlier[i] == packets[i]);
    }
    assert(consecutive(first, earlier)) by {
        assert forall|i: int| 0 <= i < earlier.len() implies (#[trigger] earlier[i]).generation
            == first.generation && earlier[i].timestamp == first.timestamp && earlier[i].sequence.0
            == (first.sequence.0 + i) % 65_536 by {
            assert(earlier[i] == packets[i]);
        }
    }
    let before = consumed_all(state, earlier);
    let number = first.sequence.0 + packets.len() - 1;
    assert((number % 65_536 + 1) % 65_536 == (number + 1) % 65_536);
    assert(packet.sequence.spec_next() == RtpSequence(
        ((first.sequence.0 + packets.len()) % 65_536) as u16,
    ));
    if earlier.len() > 0 {
        lemma_packets_are_buffered(state, first, earlier);
        assert(packet.sequence == RtpSequence(
            ((first.sequence.0 + earlier.len()) % 65_536) as u16,
        ));
    } else {
        assert(before == state);
        assert(packet.sequence == first.sequence);
    }
    assert(interruption(before, packet) is None);
    assert(consumed_all(state, packets) =~= consumed(before, packet).state);
}

/// A unit that arrives in order is delivered whole with its last packet, and not
/// before: its data is what all its payloads amount to, its kind is that of its NAL
/// units, and it follows the unit before it without a gap.
pub proof fn law_units_in_order_are_delivered(
    state: AssemblerState,
    packets: Seq<Packet>,
    last: Packet,
)
    requires
        packets.len() < u64::MAX - 1,
        consecutive(
            if packets.len() > 0 {
                packets[0]
            } else {
                last
            },
            packets.push(last),
        ),
        ready_for(
            state,
            if packets.len() > 0 {
                packets[0]
            } else {
                last
            },
        ),
        forall|i: int|
            0 <= i < packets.len() ==> (#[trigger] packets[i]).end == AccessUnitEnd::More,
        last.end == AccessUnitEnd::Final,
        with_payloads(no_contents(), packets.push(last)) matches Ok(contents)
            && contents.fragment is None && contents.data.len() > 0,
    ensures
        ({
            let step = consumed(consumed_all(state, packets), last);
            let contents = with_payloads(no_contents(), packets.push(last))->Ok_0;
            &&& step.outcome == Ok::<OutcomeView, PacketReject>(
                OutcomeView::Complete {
                    data: contents.data,
                    kind: contents.kind,
                    continuity: Continuity::Continuous,
                },
            )
            &&& step.drops is None
            &&& step.state.unit is None
            &&& step.state.keyframe == GopState::KeyframeCached
        }),
{
    let all = packets.push(last);
    let first = if packets.len() > 0 {
        packets[0]
    } else {
        last
    };
    assert(all.drop_last() =~= packets);
    assert(all[packets.len() as int] == last);
    if packets.len() > 0 {
        assert(consecutive(first, packets)) by {
            assert forall|i: int| 0 <= i < packets.len() implies (
            #[trigger] packets[i]).generation == first.generation && packets[i].timestamp
                == first.timestamp && packets[i].sequence.0 == (first.sequence.0 + i) % 65_536 by {
                assert(all[i] == packets[i]);
            }
        }
        lemma_packets_are_buffered(state, first, packets);
    } else {
        assert(consumed_all(state, packets) == state);
    }
    let before = consumed_all(state, packets);
    assert(all.last() == last);
    assert(last.generation == first.generation && last.timestamp == first.timestamp);
    assert(last.sequence == RtpSequence(((first.sequence.0 + packets.len()) % 65_536) as u16));
    assert(with_payloads(no_contents(), all) == with_payload(
        with_payloads(no_contents(), packets)->Ok_0,
        last.payload@,
    ));
    assert(interruption(before, last) is None);
}

/// A packet that carries no marker delivers nothing and keeps what it brings; a marker
/// inside a fragmented NAL unit, and any refused payload, costs the unit and starts the
/// wait for a keyframe.
pub proof fn law_refused_packets_cost_their_unit(state: AssemblerState, packet: Packet)
    ensures
        packet.end == AccessUnitEnd::More ==> !(consumed(state, packet).outcome matches Ok(
            OutcomeView::Complete { .. },
        )),
        consumed(state, packet).outcome is Err ==> consumed(state, packet).state.unit is None
            && consumed(state, packet).state.keyframe == GopState::Recovering,
        consumed(state, packet).outcome matches Ok(OutcomeView::Incomplete) ==> consumed(
            state,
            packet,
        ).state.unit is Some && consumed(state, packet).state.unit->0.timestamp
            == packet.timestamp,
{
}

/// A packet behind a break starts a unit of its own, and the one that was cut off is
/// dropped with the reason; only a new timestamp in the middle of a fragmented NAL unit
/// makes the packet itself unusable.
pub proof fn law_packets_start_over_behind_a_break(state: AssemblerState, packet: Packet)
    requires
        interruption(state, packet) is Some,
        state.unit matches Some(unit) ==> 0 < unit.packets <= u64::MAX,
    ensures
        ({
            let step = consumed(state, packet);
            let why = interruption(state, packet)->0;
            let cut = why == AssemblyDrop::TimestampDiscontinuity
                && state.unit->0.contents.fragment is Some;
            let start = with_payload(no_contents(), packet.payload@);
            &&& cut ==> step.outcome == Err::<OutcomeView, PacketReject>(
                PacketReject::TimestampChangedDuringFu,
            ) && step.state.unit is None
            &&& !cut && start is Err ==> step.outcome == Err::<OutcomeView, PacketReject>(
                start->Err_0,
            )
            &&& !cut && start is Ok && packet.end == AccessUnitEnd::More ==> step.outcome == Ok::<
                OutcomeView,
                PacketReject,
            >(OutcomeView::Incomplete) && step.state.unit == Some(
                BufferedUnit {
                    timestamp: packet.timestamp,
                    packets: 1,
                    contents: start->Ok_0,
                },
            )
            &&& !cut && start is Ok && packet.end == AccessUnitEnd::Final
                && start->Ok_0.fragment is None && start->Ok_0.data.len() > 0 ==> step.outcome
                == if start->Ok_0.kind == FrameKind::Key {
                Ok::<OutcomeView, PacketReject>(
                    OutcomeView::Complete {
                        data: start->Ok_0.data,
                        kind: FrameKind::Key,
                        continuity: Continuity::AfterGap,
                    },
                )
            } else {
                Ok::<OutcomeView, PacketReject>(OutcomeView::Dropped)
            }
            &&& state.unit is Some && (cut || start is Ok && packet.end == AccessUnitEnd::More)
                ==> step.drops is Some && step.drops->0.reason == why && step.drops->0.packets
                == state.unit->0.packets
            &&& state.unit is None && start is Ok && packet.end == AccessUnitEnd::More
                ==> step.drops is None
        }),
{
}

/// A packet that continues the unit at hand adds its payload to it: the unit waits on,
/// one packet longer, or ends with a marker.
pub proof fn law_packets_continue_their_unit(
    state: AssemblerState,
    packet: Packet,
    unit: BufferedUnit,
)
    requires
        interruption(state, packet) is None,
        state.cursor matches StreamCursor::Streaming { generation, .. } ==> packet.generation@
            >= generation@,
        state.unit == Some(unit),
        0 < unit.packets < u64::MAX,
    ensures
        ({
            let step = consumed(state, packet);
            let next = with_payload(unit.contents, packet.payload@);
            &&& next is Ok && packet.end == AccessUnitEnd::More ==> step.outcome == Ok::<
                OutcomeView,
                PacketReject,
            >(OutcomeView::Incomplete) && step.drops is None && step.state.unit == Some(
                BufferedUnit {
                    timestamp: packet.timestamp,
                    packets: unit.packets + 1,
                    contents: next->Ok_0,
                },
            ) && step.state.keyframe == state.keyframe
            &&& next is Err ==> step.outcome == Err::<OutcomeView, PacketReject>(next->Err_0)
                && step.drops == Some(
                DropCount { packets: unit.packets, reason: AssemblyDrop::PacketRejection },
            )
            &&& next is Ok && packet.end == AccessUnitEnd::Final && next->Ok_0.fragment is Some
                ==> step.outcome == Err::<OutcomeView, PacketReject>(
                PacketReject::MarkerEndedIncompleteFu,
            )
            &&& next is Ok && packet.end == AccessUnitEnd::Final && next->Ok_0.fragment is None
                && next->Ok_0.data.len() == 0 ==> step.outcome == Ok::<OutcomeView, PacketReject>(
                OutcomeView::Dropped,
            ) && step.drops == Some(
                DropCount { packets: unit.packets + 1, reason: AssemblyDrop::EmptyAccessUnit },
            )
            &&& next is Ok && packet.end == AccessUnitEnd::Final && next->Ok_0.fragment is None
                && next->Ok_0.data.len() > 0 && state.keyframe == GopState::Recovering
                && next->Ok_0.kind == FrameKind::Delta ==> step.drops == Some(
                DropCount {
                    packets: unit.packets + 1,
                    reason: AssemblyDrop::RecoveringWithoutKeyframe,
                },
            )
        }),
{
}

} // verus!
