//! MIDI events as the host application speaks of them, and their wire form.
//! Channel messages go to the worker; system real-time events are dropped.

use vstd::prelude::*;
use crate::bytes::u32_le;
use crate::protocol;

verus! {

/// What a MIDI event says.
#[allow(inconsistent_fields)]
#[derive(Debug, Clone, Copy, PartialEq, Eq, Structural)]
pub enum MidiEventKind {
    NoteOn { note: u8, velocity: u8, channel: u8 },
    NoteOff { note: u8, velocity: u8, channel: u8 },
    ControlChange { controller: u8, value: u8, channel: u8 },
    ProgramChange { program: u8, channel: u8 },
    PitchBend { value: u16, channel: u8 },
    PolyphonicAftertouch { note: u8, pressure: u8, channel: u8 },
    ChannelAftertouch { pressure: u8, channel: u8 },
    TimingClock,
    Start,
    Continue,
    Stop,
    ActiveSensing,
    SystemReset,
}

/// A MIDI event at an offset, in samples, within the current block.
#[derive(Debug, Clone, Copy, PartialEq, Eq, Structural)]
pub struct MidiEvent {
    pub sample_offset: u32,
    pub kind: MidiEventKind,
}

/// The status byte of a channel message: the kind in the high nibble, the
/// channel, cut to four bits, in the low one.
pub open spec fn status_byte(high: u8, channel: u8) -> u8 {
    high | (channel & 0x0F)
}

impl MidiEventKind {
    /// Status and the two data bytes of a channel message. The two halves
    /// of a pitch bend are its low seven bits, then the seven above them.
    /// A system real-time event has none: it is dropped.
    pub open spec fn raw(self) -> Option<(u8, u8, u8)> {
        match self {
            MidiEventKind::NoteOn { note, velocity, channel } => Some(
                (status_byte(0x90, channel), note, velocity),
            ),
            MidiEventKind::NoteOff { note, velocity, channel } => Some(
                (status_byte(0x80, channel), note, velocity),
            ),
            MidiEventKind::ControlChange { controller, value, channel } => Some(
                (status_byte(0xB0, channel), controller, value),
            ),
            MidiEventKind::ProgramChange { program, channel } => Some(
                (status_byte(0xC0, channel), program, 0),
            ),
            MidiEventKind::PitchBend { value, channel } => Some(
                (status_byte(0xE0, channel), (value & 0x7F) as u8, ((value >> 7) & 0x7F) as u8),
            ),
            MidiEventKind::PolyphonicAftertouch { note, pressure, channel } => Some(
                (status_byte(0xA0, channel), note, pressure),
            ),
            MidiEventKind::ChannelAftertouch { pressure, channel } => Some(
                (status_byte(0xD0, channel), pressure, 0),
            ),
            MidiEventKind::TimingClock => None,
            MidiEventKind::Start => None,
            MidiEventKind::Continue => None,
            MidiEventKind::Stop => None,
            MidiEventKind::ActiveSensing => None,
            MidiEventKind::SystemReset => None,
        }
    }

    /// Whether the event goes to the worker: so a channel message, and no
    /// system real-time event.
    pub open spec fn is_sent(self) -> bool {
        self.raw() is Some
    }

    /// Status and the two data bytes of a channel message; nothing for a
    /// system real-time event.
    pub fn to_raw(&self) -> (r: Option<(u8, u8, u8)>)
        ensures
            r == self.raw(),
    {
        match *self {
            MidiEventKind::NoteOn { note, velocity, channel } => Some(
                (0x90 | (channel & 0x0F), note, velocity),
            ),
            MidiEventKind::NoteOff { note, velocity, channel } => Some(
                (0x80 | (channel & 0x0F), note, velocity),
            ),
            MidiEventKind::ControlChange { controller, value, channel } => Some(
                (0xB0 | (channel & 0x0F), controller, value),
            ),
            MidiEventKind::ProgramChange { program, channel } => Some(
                (0xC0 | (channel & 0x0F), program, 0),
            ),
            MidiEventKind::PitchBend { value, channel } => {
                let lsb: u8 = (value & 0x7F) as u8;
                let msb: u8 = ((value >> 7) & 0x7F) as u8;
                Some((0xE0 | (channel & 0x0F), lsb, msb))
            },
            MidiEventKind::PolyphonicAftertouch { note, pressure, channel } => Some(
                (0xA0 | (channel & 0x0F), note, pressure),
            ),
            MidiEventKind::ChannelAftertouch { pressure, channel } => Some(
                (0xD0 | (channel & 0x0F), pressure, 0),
            ),
            MidiEventKind::TimingClock => None,
            MidiEventKind::Start => None,
            MidiEventKind::Continue => None,
            MidiEventKind::Stop => None,
            MidiEventKind::ActiveSensing => None,
            MidiEventKind::SystemReset => None,
        }
    }
}

/// The status byte in numbers: sixteen times the kind's nibble, plus the
/// channel's remainder by sixteen.
pub proof fn lemma_status_byte(nibble: u8, channel: u8)
    requires
        nibble < 16,
    ensures
        status_byte((nibble * 16) as u8, channel) == nibble * 16 + channel % 16,
{
    let high: u8 = (nibble * 16) as u8;
    assert(high | (channel & 0x0F) == high + channel % 16) by (bit_vector)
        requires
            high % 16 == 0,
    ;
}

/// The two halves of a pitch bend in numbers: the remainder by 128, and
/// the quotient's remainder by 128; each fits seven bits.
pub proof fn lemma_pitch_bend(value: u16, channel: u8)
    ensures
        (MidiEventKind::PitchBend { value, channel }).raw() is Some,
        (MidiEventKind::PitchBend { value, channel }).raw().unwrap().1 == value % 128,
        (MidiEventKind::PitchBend { value, channel }).raw().unwrap().2 == (value / 128) % 128,
{
    assert((value & 0x7F) == value % 128) by (bit_vector);
    assert(((value >> 7) & 0x7F) == (value / 128) % 128) by (bit_vector);
}

/// How many of the events go to the worker: the channel messages.
pub open spec fn sent_count(events: Seq<MidiEvent>) -> nat
    decreases events.len(),
{
    if events.len() == 0 {
        0
    } else if events.last().kind.is_sent() {
        sent_count(events.drop_last()) + 1
    } else {
        sent_count(events.drop_last())
    }
}

/// The records of the events that go to the worker, in their order; a
/// system real-time event leaves none.
pub open spec fn event_records(events: Seq<MidiEvent>) -> Seq<u8>
    decreases events.len(),
{
    if events.len() == 0 {
        Seq::empty()
    } else {
        event_records(events.drop_last()) + events.last().record()
    }
}

/// There are eight bytes of records for each event that goes to the worker,
/// and no more events go than there are.
pub proof fn lemma_event_records_len(events: Seq<MidiEvent>)
    ensures
        event_records(events).len() == 8 * sent_count(events),
        sent_count(events) <= events.len(),
    decreases events.len(),
{
    if events.len() > 0 {
        lemma_event_records_len(events.drop_last());
    }
}

impl MidiEvent {
    /// The eight bytes that carry a channel message on the wire: the
    /// offset, the status, the two data bytes and a zero. A system
    /// real-time event takes no bytes.
    pub open spec fn record(self) -> Seq<u8> {
        match self.kind.raw() {
            Some(raw) => u32_le(self.sample_offset) + seq![raw.0, raw.1, raw.2, 0u8],
            None => Seq::empty(),
        }
    }

    /// The record that carries the event on the wire; none for a system
    /// real-time event.
    pub fn to_wire(&self) -> (r: Option<protocol::MidiEvent>)
        ensures
            r is Some <==> self.kind.is_sent(),
            r matches Some(e) ==> e.sample_offset == self.sample_offset && e.wire()
                == self.record(),
            r is None ==> self.record() == Seq::<u8>::empty(),
    {
        match self.kind.to_raw() {
            Some((status, data1, data2)) => Some(
                protocol::MidiEvent::new(self.sample_offset, status, data1, data2),
            ),
            None => None,
        }
    }
}

} // verus!
