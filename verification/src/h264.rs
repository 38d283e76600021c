//! A look into an encoded stream: the NAL units of an access unit, and the colour
//! description in its sequence parameter set.

use crate::bits::{be16, from_be16, has_bit};
use vstd::prelude::*;
use vstd::slice::{slice_subrange, slice_to_vec};

verus! {

/// The NAL units of an access unit, as far as its RTP payloads have come in.
#[derive(Debug)]
pub struct H264AccessUnit {
    pub nal_units: Vec<Vec<u8>>,
    /// The unit of which fragments are still to come.
    pub fragmented_nal: Option<usize>,
}

#[verifier::ext_equal]
pub struct UnitModel {
    pub units: Seq<Seq<u8>>,
    pub fragmented: Option<int>,
}

pub open spec fn unit_bytes(units: Seq<Vec<u8>>) -> Seq<Seq<u8>> {
    units.map_values(|unit: Vec<u8>| unit@)
}

/// The units of an aggregation packet, each behind its length; none where the
/// packet is cut short or holds an empty unit.
pub open spec fn aggregated(rest: Seq<u8>) -> Option<Seq<Seq<u8>>>
    decreases rest.len(),
{
    if rest.len() == 0 {
        Some(Seq::empty())
    } else if rest.len() < 2 {
        None
    } else {
        let length = be16(rest[0], rest[1]);
        if length == 0 || rest.len() < 2 + length {
            None
        } else {
            match aggregated(rest.skip(2 + length)) {
                Some(others) => Some(seq![rest.subrange(2, 2 + length)] + others),
                None => None,
            }
        }
    }
}

/// The first bytes of a fragment as the header of the unit that it belongs to.
pub open spec fn fragment_header(payload: Seq<u8>) -> u8 {
    (payload[0] / 32 * 32 + payload[1] % 32) as u8
}

/// What an RTP payload adds to an access unit. `None` where it does not fit: an empty
/// payload, a type that is not used for packets, or a fragment out of turn.
pub open spec fn pushed(unit: UnitModel, payload: Seq<u8>) -> Option<UnitModel> {
    if payload.len() == 0 {
        None
    } else {
        let kind = payload[0] % 32;
        if 1 <= kind <= 23 {
            if unit.fragmented is None {
                Some(UnitModel { units: unit.units.push(payload), fragmented: None })
            } else {
                None
            }
        } else if kind == 24 {
            match aggregated(payload.skip(1)) {
                Some(units) if unit.fragmented is None => Some(
                    UnitModel { units: unit.units + units, fragmented: None },
                ),
                _ => None,
            }
        } else if kind == 28 {
            if payload.len() < 2 || payload[1] % 32 == 0 {
                None
            } else {
                let end = has_bit(payload[1], 0x40);
                if has_bit(payload[1], 0x80) {
                    if unit.fragmented is None {
                        Some(
                            UnitModel {
                                units: unit.units.push(
                                    seq![fragment_header(payload)] + payload.skip(2),
                                ),
                                fragmented: if end {
                                    None
                                } else {
                                    Some(unit.units.len() as int)
                                },
                            },
                        )
                    } else {
                        None
                    }
                } else {
                    match unit.fragmented {
                        Some(index) if unit.units[index][0] % 32 == payload[1] % 32 => Some(
                            UnitModel {
                                units: unit.units.update(
                                    index,
                                    unit.units[index] + payload.skip(2),
                                ),
                                fragmented: if end {
                                    None
                                } else {
                                    Some(index)
                                },
                            },
                        ),
                        _ => None,
                    }
                }
            }
        } else {
            None
        }
    }
}

impl Default for H264AccessUnit {
    fn default() -> (r: Self)
        ensures
            r.wf(),
            r@ == (UnitModel { units: Seq::empty(), fragmented: None }),
    {
        let unit = H264AccessUnit { nal_units: Vec::new(), fragmented_nal: None };
        assert(unit@ =~= (UnitModel { units: Seq::empty(), fragmented: None }));
        unit
    }
}

impl H264AccessUnit {
    pub open spec fn view(&self) -> UnitModel {
        UnitModel {
            units: unit_bytes(self.nal_units@),
            fragmented: match self.fragmented_nal {
                Some(index) => Some(index as int),
                None => None,
            },
        }
    }

    pub open spec fn wf(&self) -> bool {
        &&& self.fragmented_nal matches Some(index) ==> index < self.nal_units.len()
        &&& forall|i: int| 0 <= i < self.nal_units.len() ==> (#[trigger] self.nal_units[i]).len() > 0
    }

    fn push_unit(&mut self, unit: Vec<u8>)
        requires
            old(self).wf(),
            unit.len() > 0,
        ensures
            final(self).wf(),
            final(self)@ == (UnitModel { units: old(self)@.units.push(unit@), ..old(self)@ }),
            final(self).nal_units.len() == old(self).nal_units.len() + 1,
    {
        self.nal_units.push(unit);
        assert(self@.units =~= old(self)@.units.push(unit@));
    }

    /// Adds an RTP payload of the access unit: a whole NAL unit, several of them in
    /// one packet, or a fragment of one.
    pub fn push_rtp_payload(&mut self, payload: &[u8])
        requires
            old(self).wf(),
            pushed(old(self)@, payload@) is Some,
        ensures
            final(self).wf(),
            pushed(old(self)@, payload@) == Some(final(self)@),
    {
        let kind: u8 = payload[0] % 32;
        if 1 <= kind && kind <= 23 {
            self.push_unit(slice_to_vec(payload));
            assert(self@ =~= pushed(old(self)@, payload@)->Some_0);
        } else if kind == 24 {
            self.push_aggregate(slice_subrange(payload, 1, payload.len()));
            assert(payload@.subrange(1, payload@.len() as int) =~= payload@.skip(1));
            assert(self@ =~= pushed(old(self)@, payload@)->Some_0);
        } else {
            let start: bool = (payload[1] / 0x80) % 2 == 1;
            let end: bool = (payload[1] / 0x40) % 2 == 1;
            let body: &[u8] = slice_subrange(payload, 2, payload.len());
            assert(body@ =~= payload@.skip(2));
            if start {
                let index: usize = self.nal_units.len();
                let mut unit: Vec<u8> = Vec::new();
                unit.push(payload[0] / 32 * 32 + payload[1] % 32);
                unit.extend_from_slice(body);
                assert(unit@ =~= seq![fragment_header(payload@)] + payload@.skip(2));
                self.push_unit(unit);
                if !end {
                    self.fragmented_nal = Some(index);
                }
                assert(self@ =~= pushed(old(self)@, payload@)->Some_0);
            } else if let Some(index) = self.fragmented_nal {
                let ghost before = self.nal_units@;
                let mut unit: Vec<u8> = Vec::new();
                std::mem::swap(&mut self.nal_units[index], &mut unit);
                unit.extend_from_slice(body);
                assert(unit@ =~= before[index as int]@ + payload@.skip(2));
                self.nal_units.set(index, unit);
                assert(self@.units =~= old(self)@.units.update(
                    index as int,
                    old(self)@.units[index as int] + payload@.skip(2),
                ));
                assert forall|i: int| 0 <= i < self.nal_units.len() implies (
                #[trigger] self.nal_units[i]).len() > 0 by {
                    assert(before[i].len() > 0);
                    if i != index {
                        assert(self.nal_units[i] == before[i]);
                    }
                }
                if end {
                    self.fragmented_nal = None;
                }
                assert(self@ =~= pushed(old(self)@, payload@)->Some_0);
            }
        }
    }

    fn push_aggregate(&mut self, packet: &[u8])
        requires
            old(self).wf(),
            aggregated(packet@) is Some,
        ensures
            final(self).wf(),
            final(self)@ == (UnitModel {
                units: old(self)@.units + aggregated(packet@)->Some_0,
                ..old(self)@
            }),
    {
        let mut at: usize = 0;
        assert(packet@.skip(0) =~= packet@);
        assert(self@.units + aggregated(packet@)->Some_0 =~= old(self)@.units + aggregated(
            packet@,
        )->Some_0);
        while at < packet.len()
            invariant
                at <= packet.len(),
                self.wf(),
                aggregated(packet@) is Some,
                aggregated(packet@.skip(at as int)) is Some,
                self@.units + aggregated(packet@.skip(at as int))->Some_0 == old(self)@.units
                    + aggregated(packet@)->Some_0,
                self.fragmented_nal == old(self).fragmented_nal,
            decreases packet.len() - at,
        {
            let ghost rest = packet@.skip(at as int);
            assert(rest.len() >= 2);
            assert(rest[0] == packet@[at as int] && rest[1] == packet@[at + 1]);
            let length: usize = from_be16(packet[at], packet[at + 1]) as usize;
            let unit: Vec<u8> = slice_to_vec(slice_subrange(packet, at + 2, at + 2 + length));
            let ghost others = aggregated(rest.skip(2 + length))->Some_0;
            assert(unit@ =~= rest.subrange(2, 2 + length));
            assert(rest.skip(2 + length) =~= packet@.skip(at + 2 + length));
            let ghost before = self@.units;
            self.push_unit(unit);
            assert(before + (seq![unit@] + others) =~= self@.units + others);
            at = at + 2 + length;
        }
        assert(packet@.skip(at as int) =~= Seq::empty());
        assert(self@.units + Seq::<Seq<u8>>::empty() =~= self@.units);
        assert(self@ =~= (UnitModel {
            units: old(self)@.units + aggregated(packet@)->Some_0,
            ..old(self)@
        }));
    }

    /// The NAL units of an access unit that has come in whole.
    pub fn finish(self) -> (units: Vec<Vec<u8>>)
        requires
            self@.fragmented is None,
            self@.units.len() > 0,
        ensures
            unit_bytes(units@) == self@.units,
    {
        self.nal_units
    }
}

/// The access unit after fragments that carry `pieces` of the unit with that
/// header, the first and the last one marked as such.
pub open spec fn after_fragments(unit: UnitModel, header: u8, pieces: Seq<Seq<u8>>, from: int) ->
    Option<UnitModel>
    decreases pieces.len() - from,
{
    if from >= pieces.len() {
        Some(unit)
    } else {
        match pushed(unit, fragment(header, from == 0, from == pieces.len() - 1, pieces[from])) {
            Some(next) => after_fragments(next, header, pieces, from + 1),
            None => None,
        }
    }
}

/// A packet with a fragment.
pub open spec fn fragment(header: u8, start: bool, end: bool, piece: Seq<u8>) -> Seq<u8> {
    let marks = (if start {
        0x80int
    } else {
        0
    }) + (if end {
        0x40int
    } else {
        0
    });
    seq![(header / 32 * 32 + 28) as u8, (marks + header % 32) as u8] + piece
}

pub open spec fn assembled(pieces: Seq<Seq<u8>>, from: int) -> Seq<u8>
    decreases pieces.len() - from,
{
    if from >= pieces.len() {
        Seq::empty()
    } else {
        pieces[from] + assembled(pieces, from + 1)
    }
}

proof fn lemma_more_fragments(
    unit: UnitModel,
    header: u8,
    pieces: Seq<Seq<u8>>,
    from: int,
)
    requires
        1 <= from < pieces.len(),
        header % 32 != 0,
        unit.units.len() > 0,
        unit.fragmented == Some(unit.units.len() - 1),
        unit.units.last().len() > 0,
        unit.units.last()[0] == header,
    ensures
        after_fragments(unit, header, pieces, from) == Some(
            UnitModel {
                units: unit.units.drop_last().push(
                    unit.units.last() + assembled(pieces, from),
                ),
                fragmented: None,
            },
        ),
    decreases pieces.len() - from,
{
    let index = unit.units.len() - 1;
    let last = from == pieces.len() - 1;
    let payload = fragment(header, false, last, pieces[from]);
    assert(payload.skip(2) =~= pieces[from]);
    assert(payload[0] % 32 == 28);
    assert(payload[1] % 32 == header % 32);
    assert(!has_bit(payload[1], 0x80));
    assert(has_bit(payload[1], 0x40) == last);
    let next = UnitModel {
        units: unit.units.update(index, unit.units[index] + pieces[from]),
        fragmented: if last {
            None
        } else {
            Some(index)
        },
    };
    assert(pushed(unit, payload) == Some(next));
    assert(next.units.drop_last() =~= unit.units.drop_last());
    if last {
        assert(assembled(pieces, from + 1) =~= Seq::<u8>::empty());
        assert(after_fragments(next, header, pieces, from + 1) == Some(next));
        assert(next.units =~= unit.units.drop_last().push(
            unit.units.last() + assembled(pieces, from),
        )) by {
            assert(assembled(pieces, from) =~= pieces[from]);
        }
    } else {
        lemma_more_fragments(next, header, pieces, from + 1);
        assert(next.units.last() + assembled(pieces, from + 1) =~= unit.units.last() + assembled(
            pieces,
            from,
        ));
    }
}

/// Fragmentation is undone: a NAL unit that arrives in fragments is the same as one
/// that arrives whole.
pub proof fn law_fragments_make_up_a_unit(unit: UnitModel, header: u8, pieces: Seq<Seq<u8>>)
    requires
        unit.fragmented is None,
        pieces.len() >= 2,
        1 <= header % 32 <= 23,
    ensures
        after_fragments(unit, header, pieces, 0) == pushed(
            unit,
            seq![header] + assembled(pieces, 0),
        ),
{
    let payload = fragment(header, true, false, pieces[0]);
    assert(payload.skip(2) =~= pieces[0]);
    assert(payload[0] % 32 == 28);
    assert(payload[1] % 32 == header % 32);
    assert(has_bit(payload[1], 0x80));
    assert(!has_bit(payload[1], 0x40));
    assert(fragment_header(payload) == header);
    let next = UnitModel {
        units: unit.units.push(seq![header] + pieces[0]),
        fragmented: Some(unit.units.len() as int),
    };
    assert(pushed(unit, payload) == Some(next));
    lemma_more_fragments(next, header, pieces, 1);
    assert(next.units.drop_last() =~= unit.units);
    assert(next.units.last() + assembled(pieces, 1) =~= seq![header] + assembled(pieces, 0));
}

/// The payload of an RTP packet without options, of the stream's payload type.
pub fn rtp_payload(packet: &[u8]) -> (payload: &[u8])
    requires
        packet@.len() >= 12,
        packet@[0] == 0x80,
        packet@[1] % 128 == crate::encoder::PAYLOAD_TYPE,
    ensures
        payload@ == packet@.skip(12),
{
    assert(packet@.subrange(12, packet@.len() as int) =~= packet@.skip(12));
    slice_subrange(packet, 12, packet.len())
}

/// The bits of a sequence parameter set, read from the first to the last.
#[derive(Debug)]
pub struct BitReader {
    pub bytes: Vec<u8>,
    pub position: usize,
}

/// The bytes without those that only keep start codes out of them, and how many
/// zeroes stand at their end.
pub open spec fn unescaped(data: Seq<u8>) -> (Seq<u8>, int)
    decreases data.len(),
{
    if data.len() == 0 {
        (Seq::empty(), 0)
    } else {
        let (bytes, zeroes) = unescaped(data.drop_last());
        if zeroes >= 2 && data.last() == 3 {
            (bytes, 0)
        } else if data.last() == 0 {
            (bytes.push(data.last()), zeroes + 1)
        } else {
            (bytes.push(data.last()), 0)
        }
    }
}

/// The weight of a bit by its place in a byte, the first bit being the highest.
pub open spec fn bit_weight(place: int) -> int {
    if place == 0 {
        128
    } else if place == 1 {
        64
    } else if place == 2 {
        32
    } else if place == 3 {
        16
    } else if place == 4 {
        8
    } else if place == 5 {
        4
    } else if place == 6 {
        2
    } else {
        1
    }
}

pub open spec fn bit_at(bytes: Seq<u8>, position: int) -> bool {
    has_bit(bytes[position / 8], bit_weight(position % 8))
}

/// The number that `count` bits make up, the first one being the highest.
pub open spec fn bits_at(bytes: Seq<u8>, position: int, count: int) -> int
    decreases count,
{
    if count <= 0 {
        0
    } else {
        2 * bits_at(bytes, position, count - 1) + if bit_at(bytes, position + count - 1) {
            1int
        } else {
            0
        }
    }
}

/// How many zero bits come before the next one that is set, if one is.
pub open spec fn zeroes_at(bytes: Seq<u8>, position: int) -> Option<int>
    decreases 8 * bytes.len() - position,
{
    if position >= 8 * bytes.len() {
        None
    } else if bit_at(bytes, position) {
        Some(0)
    } else {
        match zeroes_at(bytes, position + 1) {
            Some(more) => Some(more + 1),
            None => None,
        }
    }
}

/// Where the Exp-Golomb number at a position ends, if it is all there and fits 32
/// bits.
pub open spec fn golomb_end(bytes: Seq<u8>, position: int) -> Option<int> {
    match zeroes_at(bytes, position) {
        Some(zeroes) if zeroes < 32 && position + 2 * zeroes + 1 <= 8 * bytes.len() => Some(
            position + 2 * zeroes + 1,
        ),
        _ => None,
    }
}

pub open spec fn golomb_at(bytes: Seq<u8>, position: int) -> int {
    let zeroes = zeroes_at(bytes, position)->Some_0;
    vstd::arithmetic::power2::pow2(zeroes as nat) - 1 + bits_at(bytes, position + zeroes + 1, zeroes)
}

proof fn lemma_bits_bound(bytes: Seq<u8>, position: int, count: int)
    requires
        0 <= count,
    ensures
        0 <= bits_at(bytes, position, count) < vstd::arithmetic::power2::pow2(count as nat),
    decreases count,
{
    if count == 0 {
        vstd::arithmetic::power2::lemma2_to64();
    } else {
        lemma_bits_bound(bytes, position, count - 1);
        vstd::arithmetic::power2::lemma_pow2_unfold(count as nat);
    }
}

proof fn lemma_zeroes_are_counted(bytes: Seq<u8>, position: int)
    ensures
        zeroes_at(bytes, position) matches Some(zeroes) ==> zeroes >= 0,
    decreases 8 * bytes.len() - position,
{
    if position < 8 * bytes.len() && !bit_at(bytes, position) {
        lemma_zeroes_are_counted(bytes, position + 1);
    }
}

impl BitReader {
    pub open spec fn wf(&self) -> bool {
        &&& self.bytes.len() <= usize::MAX / 8
        &&& self.position <= 8 * self.bytes.len()
    }

    /// Starts with the first bit behind the header of a sequence parameter set.
    pub fn for_sps(nal: &[u8]) -> (r: Self)
        requires
            nal@.len() > 0,
            nal@[0] % 32 == 7,
            nal@.len() <= usize::MAX / 8,
        ensures
            r.wf(),
            r.bytes@ == unescaped(nal@.skip(1)).0,
            r.position == 0,
    {
        let mut bytes: Vec<u8> = Vec::new();
        let mut zeroes: usize = 0;
        let mut at: usize = 1;
        let ghost data = nal@.skip(1);
        assert(data.take(0) =~= Seq::empty());
        while at < nal.len()
            invariant
                1 <= at <= nal.len(),
                nal@.len() <= usize::MAX / 8,
                data == nal@.skip(1),
                bytes.len() < at,
                zeroes < at,
                bytes@ == unescaped(data.take(at - 1)).0,
                zeroes == unescaped(data.take(at - 1)).1,
            decreases nal.len() - at,
        {
            let byte: u8 = nal[at];
            assert(data.take(at as int).drop_last() =~= data.take(at - 1));
            assert(data.take(at as int).last() == byte);
            if zeroes >= 2 && byte == 3 {
                zeroes = 0;
            } else {
                bytes.push(byte);
                zeroes = if byte == 0 {
                    zeroes + 1
                } else {
                    0
                };
            }
            at = at + 1;
        }
        assert(data.take(at - 1) =~= data);
        BitReader { bytes, position: 0 }
    }

    /// The next bit.
    pub fn bit(&mut self) -> (r: bool)
        requires
            old(self).wf(),
            old(self).position < 8 * old(self).bytes.len(),
        ensures
            final(self).wf(),
            final(self).bytes == old(self).bytes,
            final(self).position == old(self).position + 1,
            r == bit_at(old(self).bytes@, old(self).position as int),
    {
        let byte: u8 = self.bytes[self.position / 8];
        let weight: u8 = match self.position % 8 {
            0 => 128,
            1 => 64,
            2 => 32,
            3 => 16,
            4 => 8,
            5 => 4,
            6 => 2,
            _ => 1,
        };
        self.position = self.position + 1;
        (byte / weight) % 2 == 1
    }

    /// The number that the next bits make up.
    pub fn bits(&mut self, count: usize) -> (r: u32)
        requires
            old(self).wf(),
            count <= 32,
            old(self).position + count <= 8 * old(self).bytes.len(),
        ensures
            final(self).wf(),
            final(self).bytes == old(self).bytes,
            final(self).position == old(self).position + count,
            r == bits_at(old(self).bytes@, old(self).position as int, count as int),
    {
        let mut value: u64 = 0;
        let mut taken: usize = 0;
        let ghost start = self.position as int;
        proof {
            lemma_bits_bound(self.bytes@, start, count as int);
        }
        while taken < count
            invariant
                taken <= count <= 32,
                self.wf(),
                self.bytes == old(self).bytes,
                start == old(self).position,
                self.position == start + taken,
                start + count <= 8 * self.bytes.len(),
                value == bits_at(self.bytes@, start, taken as int),
            decreases count - taken,
        {
            proof {
                lemma_bits_bound(self.bytes@, start, taken as int);
                lemma_small_powers(taken as nat);
            }
            let set: bool = self.bit();
            value = value * 2 + if set {
                1
            } else {
                0
            };
            taken = taken + 1;
        }
        proof {
            lemma_small_powers(count as nat);
        }
        value as u32
    }

    /// The next number in Exp-Golomb code.
    pub fn unsigned_exp_golomb(&mut self) -> (r: u32)
        requires
            old(self).wf(),
            golomb_end(old(self).bytes@, old(self).position as int) is Some,
        ensures
            final(self).wf(),
            final(self).bytes == old(self).bytes,
            golomb_end(old(self).bytes@, old(self).position as int) == Some(
                final(self).position as int,
            ),
            r == golomb_at(old(self).bytes@, old(self).position as int),
    {
        let ghost start = self.position as int;
        let ghost all = zeroes_at(self.bytes@, start)->Some_0;
        proof {
            lemma_zeroes_are_counted(self.bytes@, start);
        }
        let mut zeroes: usize = 0;
        let mut set: bool = self.bit();
        while !set
            invariant
                self.wf(),
                self.bytes == old(self).bytes,
                start == old(self).position,
                golomb_end(self.bytes@, start) == Some(start + 2 * all + 1),
                zeroes_at(self.bytes@, start) == Some(all),
                0 <= zeroes <= all < 32,
                self.position == start + zeroes + 1,
                zeroes_at(self.bytes@, start + zeroes) == Some(all - zeroes),
                set == bit_at(self.bytes@, start + zeroes),
            decreases all - zeroes,
        {
            assert(zeroes_at(self.bytes@, start + zeroes + 1) == Some(all - zeroes - 1));
            proof {
                lemma_zeroes_are_counted(self.bytes@, start + zeroes + 1);
            }
            zeroes = zeroes + 1;
            set = self.bit();
        }
        assert(zeroes == all);
        let rest: u32 = self.bits(zeroes);
        proof {
            lemma_bits_bound(self.bytes@, start + all + 1, all);
            lemma_small_powers(all as nat);
        }
        power_of_two(zeroes) - 1 + rest
    }
}

proof fn lemma_small_powers(exponent: nat)
    requires
        exponent <= 32,
    ensures
        exponent < 32 ==> vstd::arithmetic::power2::pow2(exponent) <= 0x8000_0000,
        vstd::arithmetic::power2::pow2(exponent) <= 0x1_0000_0000,
        vstd::arithmetic::power2::pow2(exponent) > 0,
{
    vstd::arithmetic::power2::lemma2_to64();
    vstd::arithmetic::power2::lemma_pow2_pos(exponent);
    if exponent < 31 {
        vstd::arithmetic::power2::lemma_pow2_strictly_increases(exponent, 31);
    }
    if exponent < 32 {
        vstd::arithmetic::power2::lemma_pow2_strictly_increases(exponent, 32);
    }
}

fn power_of_two(exponent: usize) -> (r: u32)
    requires
        exponent < 32,
    ensures
        r == vstd::arithmetic::power2::pow2(exponent as nat),
{
    let mut value: u32 = 1;
    let mut at: usize = 0;
    proof {
        vstd::arithmetic::power2::lemma2_to64();
    }
    while at < exponent
        invariant
            at <= exponent < 32,
            value == vstd::arithmetic::power2::pow2(at as nat),
        decreases exponent - at,
    {
        proof {
            lemma_small_powers((at + 1) as nat);
            vstd::arithmetic::power2::lemma_pow2_unfold((at + 1) as nat);
        }
        value = value * 2;
        at = at + 1;
    }
    value
}

/// What a sequence parameter set says of the stream's profile and colours.
#[derive(Clone, Copy, Debug, PartialEq, Eq, Structural)]
pub struct SpsColorContract {
    pub profile: u8,
    pub constraints: u8,
    pub level: u8,
    pub chroma_format: u32,
    pub full_range: bool,
    pub color_primaries: u8,
    pub transfer_characteristics: u8,
    pub matrix_coefficients: u8,
}

/// The position behind `count` bits, if they are all there.
pub open spec fn skip_bits(bytes: Seq<u8>, position: Option<int>, count: int) -> Option<int> {
    match position {
        Some(at) if at + count <= 8 * bytes.len() => Some(at + count),
        _ => None,
    }
}

/// The position behind an Exp-Golomb number, if it is all there.
pub open spec fn skip_golomb(bytes: Seq<u8>, position: Option<int>) -> Option<int> {
    match position {
        Some(at) => golomb_end(bytes, at),
        None => None,
    }
}

/// Whether the bit at the position is there and set.
pub open spec fn flag(bytes: Seq<u8>, position: Option<int>) -> bool {
    position matches Some(at) && at < 8 * bytes.len() && bit_at(bytes, at)
}

/// The position behind a flag that has to have that value.
pub open spec fn expect_flag(bytes: Seq<u8>, position: Option<int>, value: bool) -> Option<int> {
    match skip_bits(bytes, position, 1) {
        Some(next) if flag(bytes, position) == value => Some(next),
        _ => None,
    }
}

/// Where the chroma format stands: behind the profile, the constraints, the level
/// and the set's identifier.
pub open spec fn chroma_position(bytes: Seq<u8>) -> Option<int> {
    skip_golomb(bytes, skip_bits(bytes, Some(0), 24))
}

pub open spec fn chroma_format_of(bytes: Seq<u8>) -> int {
    golomb_at(bytes, chroma_position(bytes)->Some_0)
}

/// The position behind the sample format, which must not set scaling matrices.
pub open spec fn sample_format_end(bytes: Seq<u8>) -> Option<int> {
    let chroma = skip_golomb(bytes, chroma_position(bytes));
    let planes = if chroma_format_of(bytes) == 3 {
        skip_bits(bytes, chroma, 1)
    } else {
        chroma
    };
    let depths = skip_golomb(bytes, skip_golomb(bytes, planes));
    expect_flag(bytes, skip_bits(bytes, depths, 1), false)
}

/// The position behind the picture's order, size and cropping. The order must be
/// the one of streams whose frames come out as they come in, and the set must say
/// how the video is used.
pub open spec fn picture_end(bytes: Seq<u8>, start: Option<int>) -> Option<int> {
    let order = skip_golomb(bytes, start);
    let references = skip_golomb(bytes, order);
    let size = skip_bits(bytes, skip_golomb(bytes, references), 1);
    let frames = skip_golomb(bytes, skip_golomb(bytes, size));
    let fields = skip_bits(
        bytes,
        frames,
        if flag(bytes, frames) {
            1
        } else {
            2
        },
    );
    let cropping = skip_bits(bytes, fields, 1);
    let cropped = if flag(bytes, cropping) {
        skip_golomb(
            bytes,
            skip_golomb(
                bytes,
                skip_golomb(bytes, skip_golomb(bytes, skip_bits(bytes, cropping, 1))),
            ),
        )
    } else {
        skip_bits(bytes, cropping, 1)
    };
    if order is Some && references is Some && golomb_at(bytes, order->Some_0) == 2 {
        expect_flag(bytes, cropped, true)
    } else {
        None
    }
}

/// The position behind the pixels' shape and the overscan, where the description of
/// the video signal must stand.
pub open spec fn signal_position(bytes: Seq<u8>, start: Option<int>) -> Option<int> {
    let shape = skip_bits(bytes, start, 1);
    let shaped = if flag(bytes, start) {
        let known = skip_bits(bytes, shape, 8);
        if known is Some && bits_at(bytes, shape->Some_0, 8) == 255 {
            skip_bits(bytes, known, 32)
        } else {
            known
        }
    } else {
        shape
    };
    let overscan = skip_bits(
        bytes,
        shaped,
        if flag(bytes, shaped) {
            2
        } else {
            1
        },
    );
    expect_flag(bytes, overscan, true)
}

/// The position of the colour description, which must be there.
pub open spec fn color_position(bytes: Seq<u8>, signal: Option<int>) -> Option<int> {
    expect_flag(bytes, skip_bits(bytes, signal, 4), true)
}

pub open spec fn sps_signal(bytes: Seq<u8>) -> Option<int> {
    signal_position(bytes, picture_end(bytes, sample_format_end(bytes)))
}

/// What a sequence parameter set of the High or High 4:4:4 profile says, if it says
/// all of it.
pub open spec fn parsed_sps(bytes: Seq<u8>) -> Option<SpsColorContract> {
    let profile = bits_at(bytes, 0, 8);
    match color_position(bytes, sps_signal(bytes)) {
        Some(color) if (profile == 100 || profile == 244) && color + 24 <= 8 * bytes.len() => Some(
            SpsColorContract {
                profile: profile as u8,
                constraints: bits_at(bytes, 8, 8) as u8,
                level: bits_at(bytes, 16, 8) as u8,
                chroma_format: chroma_format_of(bytes) as u32,
                full_range: bit_at(bytes, sps_signal(bytes)->Some_0 + 3),
                color_primaries: bits_at(bytes, color, 8) as u8,
                transfer_characteristics: bits_at(bytes, color + 8, 8) as u8,
                matrix_coefficients: bits_at(bytes, color + 16, 8) as u8,
            },
        ),
        _ => None,
    }
}

impl BitReader {
    /// The next eight bits as a byte.
    fn byte(&mut self) -> (r: u8)
        requires
            old(self).wf(),
            old(self).position + 8 <= 8 * old(self).bytes.len(),
        ensures
            final(self).wf(),
            final(self).bytes == old(self).bytes,
            final(self).position == old(self).position + 8,
            r == bits_at(old(self).bytes@, old(self).position as int, 8),
    {
        proof {
            lemma_bits_bound(self.bytes@, self.position as int, 8);
            vstd::arithmetic::power2::lemma2_to64();
        }
        self.bits(8) as u8
    }

    /// Reads the sample format and returns the chroma format.
    fn sample_format(&mut self) -> (r: u32)
        requires
            old(self).wf(),
            skip_bits(old(self).bytes@, Some(0), 24) == Some(old(self).position as int),
            sample_format_end(old(self).bytes@) is Some,
        ensures
            final(self).wf(),
            final(self).bytes == old(self).bytes,
            sample_format_end(old(self).bytes@) == Some(final(self).position as int),
            r == chroma_format_of(old(self).bytes@),
    {
        self.unsigned_exp_golomb();
        let chroma_format: u32 = self.unsigned_exp_golomb();
        if chroma_format == 3 {
            self.bit();
        }
        self.unsigned_exp_golomb();
        self.unsigned_exp_golomb();
        self.bit();
        self.bit();
        chroma_format
    }

    /// Reads the picture's order, size and cropping.
    fn picture(&mut self)
        requires
            old(self).wf(),
            picture_end(old(self).bytes@, Some(old(self).position as int)) is Some,
        ensures
            final(self).wf(),
            final(self).bytes == old(self).bytes,
            picture_end(old(self).bytes@, Some(old(self).position as int)) == Some(
                final(self).position as int,
            ),
    {
        self.unsigned_exp_golomb();
        self.unsigned_exp_golomb();
        self.unsigned_exp_golomb();
        self.bit();
        self.unsigned_exp_golomb();
        self.unsigned_exp_golomb();
        if !self.bit() {
            self.bit();
        }
        self.bit();
        if self.bit() {
            self.unsigned_exp_golomb();
            self.unsigned_exp_golomb();
            self.unsigned_exp_golomb();
            self.unsigned_exp_golomb();
        }
        self.bit();
    }

    /// Reads up to the description of the video signal.
    fn signal(&mut self)
        requires
            old(self).wf(),
            signal_position(old(self).bytes@, Some(old(self).position as int)) is Some,
        ensures
            final(self).wf(),
            final(self).bytes == old(self).bytes,
            signal_position(old(self).bytes@, Some(old(self).position as int)) == Some(
                final(self).position as int,
            ),
    {
        if self.bit() {
            if self.bits(8) == 255 {
                self.bits(16);
                self.bits(16);
            }
        }
        if self.bit() {
            self.bit();
        }
        self.bit();
    }
}

/// Reads the profile and the colour description out of a sequence parameter set.
pub fn parse_test_sps(nal: &[u8]) -> (r: SpsColorContract)
    requires
        nal@.len() > 0,
        nal@[0] % 32 == 7,
        nal@.len() <= usize::MAX / 8,
        parsed_sps(unescaped(nal@.skip(1)).0) is Some,
    ensures
        parsed_sps(unescaped(nal@.skip(1)).0) == Some(r),
{
    let mut bits: BitReader = BitReader::for_sps(nal);
    let ghost bytes = bits.bytes@;
    assert(skip_bits(bytes, Some(0), 24) is Some);
    let profile: u8 = bits.byte();
    let constraints: u8 = bits.byte();
    let level: u8 = bits.byte();
    let chroma_format: u32 = bits.sample_format();
    bits.picture();
    bits.signal();
    bits.bits(3);
    let full_range: bool = bits.bit();
    bits.bit();
    let color_primaries: u8 = bits.byte();
    let transfer_characteristics: u8 = bits.byte();
    let matrix_coefficients: u8 = bits.byte();
    SpsColorContract {
        profile,
        constraints,
        level,
        chroma_format,
        full_range,
        color_primaries,
        transfer_characteristics,
        matrix_coefficients,
    }
}

/// Eight bits from the start of a byte make up that byte.
pub proof fn law_eight_bits_are_a_byte(bytes: Seq<u8>, index: int)
    requires
        0 <= index < bytes.len(),
    ensures
        bits_at(bytes, 8 * index, 8) == bytes[index],
{
    let byte = bytes[index] as int;
    let at = 8 * index;
    lemma_bits_of_a_byte(bytes, index, 0);
    assert(bits_at(bytes, at, 0) == 0);
    assert(bits_at(bytes, at, 1) == byte / 128);
    lemma_bits_of_a_byte(bytes, index, 1);
    assert(bits_at(bytes, at, 2) == byte / 64);
    lemma_bits_of_a_byte(bytes, index, 2);
    assert(bits_at(bytes, at, 3) == byte / 32);
    lemma_bits_of_a_byte(bytes, index, 3);
    assert(bits_at(bytes, at, 4) == byte / 16);
    lemma_bits_of_a_byte(bytes, index, 4);
    assert(bits_at(bytes, at, 5) == byte / 8);
    lemma_bits_of_a_byte(bytes, index, 5);
    assert(bits_at(bytes, at, 6) == byte / 4);
    lemma_bits_of_a_byte(bytes, index, 6);
    assert(bits_at(bytes, at, 7) == byte / 2);
    lemma_bits_of_a_byte(bytes, index, 7);
    assert(bits_at(bytes, at, 8) == byte / 1);
}

/// One more bit of a byte, by its place.
proof fn lemma_bits_of_a_byte(bytes: Seq<u8>, index: int, place: int)
    requires
        0 <= place < 8,
    ensures
        bits_at(bytes, 8 * index, place + 1) == 2 * bits_at(bytes, 8 * index, place) + (
        bytes[index] as int / bit_weight(place)) % 2,
{
    assert((8 * index + place) / 8 == index && (8 * index + place) % 8 == place);
    assert(bit_at(bytes, 8 * index + place) == has_bit(bytes[index], bit_weight(place)));
    let part = bytes[index] as int / bit_weight(place);
    assert(0 <= part % 2 < 2);
}

/// More bits are read as fewer of them, doubled, and one more.
pub proof fn law_bits_are_read_from_the_highest(bytes: Seq<u8>, position: int, count: int)
    requires
        count >= 0,
    ensures
        bits_at(bytes, position, 0) == 0,
        bit_at(bytes, position + count) ==> bits_at(bytes, position, count + 1) == 2 * bits_at(
            bytes,
            position,
            count,
        ) + 1,
        !bit_at(bytes, position + count) ==> bits_at(bytes, position, count + 1) == 2 * bits_at(
            bytes,
            position,
            count,
        ),
{
}

/// An Exp-Golomb number starts with as many zeroes as bits follow its first one, and
/// ends with them.
pub proof fn law_exp_golomb_counts_its_zeroes(bytes: Seq<u8>, position: int, zeroes: int)
    requires
        0 <= zeroes < 32,
        position + 2 * zeroes + 1 <= 8 * bytes.len(),
        forall|i: int| position <= i < position + zeroes ==> !#[trigger] bit_at(bytes, i),
        bit_at(bytes, position + zeroes),
    ensures
        golomb_end(bytes, position) == Some(position + 2 * zeroes + 1),
        golomb_at(bytes, position) == vstd::arithmetic::power2::pow2(zeroes as nat) - 1 + bits_at(
            bytes,
            position + zeroes + 1,
            zeroes,
        ),
{
    lemma_zeroes_before_a_one(bytes, position, zeroes);
}

proof fn lemma_zeroes_before_a_one(bytes: Seq<u8>, position: int, zeroes: int)
    requires
        0 <= zeroes,
        position + zeroes < 8 * bytes.len(),
        forall|i: int| position <= i < position + zeroes ==> !#[trigger] bit_at(bytes, i),
        bit_at(bytes, position + zeroes),
    ensures
        zeroes_at(bytes, position) == Some(zeroes),
    decreases zeroes,
{
    if zeroes > 0 {
        assert(!bit_at(bytes, position));
        lemma_zeroes_before_a_one(bytes, position + 1, zeroes - 1);
    }
}

/// A three behind two zeroes only keeps start codes out and is left out again; bytes
/// without a three are what they say.
pub proof fn law_escapes_are_undone(data: Seq<u8>)
    ensures
        unescaped(data + seq![0u8, 0u8, 3u8]).0 == unescaped(data).0 + seq![0u8, 0u8],
        (forall|i: int| 0 <= i < data.len() ==> #[trigger] data[i] != 3) ==> unescaped(data).0
            == data,
    decreases data.len(),
{
    lemma_zeroes_at_the_end(data);
    let one = data.push(0);
    let two = one.push(0);
    assert(one.drop_last() =~= data && two.drop_last() =~= one);
    let three = two.push(3);
    assert(three.drop_last() =~= two);
    assert(data + seq![0u8, 0u8, 3u8] =~= three);
    assert(one.last() == 0 && two.last() == 0 && three.last() == 3);
    assert(unescaped(one) == (unescaped(data).0.push(0u8), unescaped(data).1 + 1));
    assert(unescaped(two) == (unescaped(one).0.push(0u8), unescaped(one).1 + 1));
    assert(unescaped(three).0 == unescaped(two).0);
    assert(unescaped(three).0 =~= unescaped(data).0 + seq![0u8, 0u8]);
    if data.len() > 0 && (forall|i: int| 0 <= i < data.len() ==> #[trigger] data[i] != 3) {
        let earlier = data.drop_last();
        assert forall|i: int| 0 <= i < earlier.len() implies #[trigger] earlier[i] != 3 by {
            assert(earlier[i] == data[i]);
        }
        law_escapes_are_undone(earlier);
        assert(data[data.len() - 1] != 3);
        assert(unescaped(data).0 =~= data);
    }
}

proof fn lemma_zeroes_at_the_end(data: Seq<u8>)
    ensures
        unescaped(data).1 >= 0,
    decreases data.len(),
{
    if data.len() > 0 {
        lemma_zeroes_at_the_end(data.drop_last());
    }
}

/// The members of an aggregation packet come out as they were put in, in order.
pub proof fn law_aggregates_hold_their_members(nals: Seq<Seq<u8>>)
    requires
        forall|i: int| 0 <= i < nals.len() ==> 0 < (#[trigger] nals[i]).len() <= 65535,
    ensures
        aggregated(crate::assembler::members_of(nals)) == Some(nals),
    decreases nals.len(),
{
    let packet = crate::assembler::members_of(nals);
    if nals.len() == 0 {
        assert(Seq::<Seq<u8>>::empty() =~= nals);
    } else {
        let nal = nals[0];
        let rest = nals.skip(1);
        assert(0 < nal.len() <= 65535);
        assert(packet[0] == (nal.len() / 256) as u8 && packet[1] == (nal.len() % 256) as u8);
        assert(be16(packet[0], packet[1]) == nal.len());
        assert(packet.subrange(2, 2 + nal.len() as int) =~= nal);
        assert(packet.skip(2 + nal.len() as int) =~= crate::assembler::members_of(rest));
        assert forall|i: int| 0 <= i < rest.len() implies 0 < (#[trigger] rest[i]).len()
            <= 65535 by {
            assert(rest[i] == nals[i + 1]);
        }
        law_aggregates_hold_their_members(rest);
        assert(seq![nal] + rest =~= nals);
    }
}

/// A whole NAL unit joins the others as it is; nothing but a fragment may follow one.
pub proof fn law_whole_units_join_the_others(unit: UnitModel, payload: Seq<u8>)
    requires
        payload.len() > 0,
    ensures
        unit.fragmented is None && 1 <= payload[0] % 32 <= 23 ==> pushed(unit, payload) == Some(
            UnitModel { units: unit.units.push(payload), fragmented: None },
        ),
        unit.fragmented is Some && payload[0] % 32 != 28 ==> pushed(unit, payload) is None,
        payload[0] % 32 == 0 || payload[0] % 32 > 24 && payload[0] % 32 != 28 ==> pushed(
            unit,
            payload,
        ) is None,
{
}

} // verus!
