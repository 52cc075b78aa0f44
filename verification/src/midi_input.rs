//! Decoding of raw MIDI channel voice messages.
//!
//! The decoder is a pure, total function over byte sequences: well-formed
//! 3-byte channel voice messages become [`MidiEvent`] values, everything
//! else (empty input, short messages, unhandled status nibbles) yields
//! `None`. Per the wire convention, a Note On with velocity 0 is
//! normalized to a Note Off at decode time.

use vstd::prelude::*;

verus! {

/// A decoded MIDI channel voice message.
#[derive(Debug, Clone, PartialEq, Eq, Structural)]
pub enum MidiEvent {
    /// Note number and velocity; velocity is never 0 (normalized away).
    NoteOn(u8, u8),
    /// Note number and release velocity.
    NoteOff(u8, u8),
    /// Controller number and controller value.
    ControlChange(u8, u8),
    /// 14-bit pitch-bend value; 8192 is the neutral center.
    PitchBend(i16),
}

/// The pitch-bend value carried by data bytes `lsb` and `msb`: the 7+7 bit
/// little-endian reconstruction `(msb << 7) | lsb`.
pub open spec fn spec_pitch_bend_value(lsb: u8, msb: u8) -> i16 {
    ((((msb as u16) << 7u16) | (lsb as u16))) as i16
}

/// The decoding table for one raw message, dispatching on the high nibble
/// of the status byte. This is the full definition of what `parse_message`
/// returns.
pub open spec fn spec_parse(bytes: Seq<u8>) -> Option<MidiEvent> {
    if bytes.len() < 3 {
        None
    } else {
        let status = bytes[0] & 0xf0u8;
        if status == 0x90u8 {
            if bytes[2] > 0 {
                Some(MidiEvent::NoteOn(bytes[1], bytes[2]))
            } else {
                Some(MidiEvent::NoteOff(bytes[1], bytes[2]))
            }
        } else if status == 0x80u8 {
            Some(MidiEvent::NoteOff(bytes[1], bytes[2]))
        } else if status == 0xb0u8 {
            Some(MidiEvent::ControlChange(bytes[1], bytes[2]))
        } else if status == 0xe0u8 {
            Some(MidiEvent::PitchBend(spec_pitch_bend_value(bytes[1], bytes[2])))
        } else {
            None
        }
    }
}

/// Decode one raw MIDI message.
///
/// Total and pure: every input maps to exactly the event given by
/// [`spec_parse`], and for in-range data bytes a pitch bend decodes to the
/// arithmetic value `msb * 128 + lsb`.
pub fn parse_message(bytes: &[u8]) -> (r: Option<MidiEvent>)
    ensures
        r == spec_parse(bytes@),
        (bytes@.len() >= 3 && bytes@[0] & 0xf0u8 == 0xe0u8 && bytes@[1] < 128 && bytes@[2] < 128)
            ==> r == Some(MidiEvent::PitchBend((bytes@[2] * 128 + bytes@[1]) as i16)),
{
    if bytes.len() < 3 {
        return None;
    }
    let status = bytes[0] & 0xf0;
    if status == 0x90 {
        if bytes[2] > 0 {
            Some(MidiEvent::NoteOn(bytes[1], bytes[2]))
        } else {
            // A Note On with velocity 0 means Note Off on the wire.
            Some(MidiEvent::NoteOff(bytes[1], bytes[2]))
        }
    } else if status == 0x80 {
        Some(MidiEvent::NoteOff(bytes[1], bytes[2]))
    } else if status == 0xb0 {
        Some(MidiEvent::ControlChange(bytes[1], bytes[2]))
    } else if status == 0xe0 {
        let lsb = bytes[1];
        let msb = bytes[2];
        let value: u16 = ((msb as u16) << 7) | (lsb as u16);
        proof {
            if lsb < 128 && msb < 128 {
                assert(((((msb as u16) << 7u16) | (lsb as u16))) == msb as u16 * 128 + lsb as u16)
                    by (bit_vector)
                    requires
                        lsb < 128,
                        msb < 128,
                ;
            }
        }
        Some(MidiEvent::PitchBend(value as i16))
    } else {
        None
    }
}

} // verus!
