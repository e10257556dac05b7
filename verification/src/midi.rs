//! Decoding of raw MIDI byte frames into typed musical events.
//!
//! A frame is the byte sequence a hardware callback delivers for one
//! message: a status byte (high bit set, upper nibble the message kind,
//! lower nibble the channel) followed by 7-bit data bytes. Recognized
//! channel-voice kinds become typed events; well-formed frames of any
//! other kind become [`MidiEvent::Other`] so the simulation can skip
//! them; malformed frames are rejected with a [`DecodeError`] and must
//! never give rise to an event.

use vstd::prelude::*;

verus! {

/// A typed musical event. `channel` is the zero-based channel index
/// (`0..16`); note numbers, velocities, controller numbers and values
/// are 7-bit (`0..128`).
#[derive(Clone, Copy, PartialEq, Eq, Structural, Debug)]
pub enum MidiEvent {
    NoteOn { channel: u8, note: u8, velocity: u8 },
    NoteOff { channel: u8, note: u8, velocity: u8 },
    ControlChange { channel: u8, controller: u8, value: u8 },
    Other,
}

/// Why a byte frame was rejected.
#[derive(Clone, Copy, PartialEq, Eq, Structural, Debug)]
pub enum DecodeError {
    /// The frame holds no bytes at all.
    Empty,
    /// The first byte is not a status byte (its high bit is clear).
    NoStatus,
    /// The frame's length does not fit its message kind.
    WrongLength,
    /// A data byte is out of the 7-bit range.
    DataOutOfRange,
}

/// Every field of a decoded event is in its MIDI range.
pub open spec fn event_wf(e: MidiEvent) -> bool {
    match e {
        MidiEvent::NoteOn { channel, note, velocity } => channel < 16 && note < 128 && velocity
            < 128,
        MidiEvent::NoteOff { channel, note, velocity } => channel < 16 && note < 128 && velocity
            < 128,
        MidiEvent::ControlChange { channel, controller, value } => channel < 16 && controller < 128
            && value < 128,
        MidiEvent::Other => true,
    }
}

/// The meaning of a raw frame: the standard channel-voice layout.
/// Note-off, note-on and control-change frames become their typed
/// events; the other channel-voice kinds and all system messages become
/// [`MidiEvent::Other`]; anything else is an error.
pub open spec fn decode_spec(s: Seq<u8>) -> Result<MidiEvent, DecodeError> {
    if s.len() == 0 {
        Err(DecodeError::Empty)
    } else if s[0] < 128 {
        Err(DecodeError::NoStatus)
    } else {
        let kind = s[0] / 16;
        let channel = s[0] % 16;
        if kind == 8 || kind == 9 || kind == 10 || kind == 11 || kind == 14 {
            if s.len() != 3 {
                Err(DecodeError::WrongLength)
            } else if s[1] >= 128 || s[2] >= 128 {
                Err(DecodeError::DataOutOfRange)
            } else if kind == 8 {
                Ok(MidiEvent::NoteOff { channel, note: s[1], velocity: s[2] })
            } else if kind == 9 {
                Ok(MidiEvent::NoteOn { channel, note: s[1], velocity: s[2] })
            } else if kind == 11 {
                Ok(MidiEvent::ControlChange { channel, controller: s[1], value: s[2] })
            } else {
                Ok(MidiEvent::Other)
            }
        } else if kind == 12 || kind == 13 {
            if s.len() != 2 {
                Err(DecodeError::WrongLength)
            } else if s[1] >= 128 {
                Err(DecodeError::DataOutOfRange)
            } else {
                Ok(MidiEvent::Other)
            }
        } else {
            Ok(MidiEvent::Other)
        }
    }
}

/// Decodes one raw frame; total, and exactly [`decode_spec`].
pub fn decode(bytes: &[u8]) -> (r: Result<MidiEvent, DecodeError>)
    ensures
        r == decode_spec(bytes@),
        r is Ok ==> event_wf(r->Ok_0),
{
    if bytes.len() == 0 {
        return Err(DecodeError::Empty);
    }
    let status = bytes[0];
    if status < 128 {
        return Err(DecodeError::NoStatus);
    }
    let kind = status / 16;
    let channel = status % 16;
    if kind == 8 || kind == 9 || kind == 10 || kind == 11 || kind == 14 {
        if bytes.len() != 3 {
            Err(DecodeError::WrongLength)
        } else if bytes[1] >= 128 || bytes[2] >= 128 {
            Err(DecodeError::DataOutOfRange)
        } else if kind == 8 {
            Ok(MidiEvent::NoteOff { channel, note: bytes[1], velocity: bytes[2] })
        } else if kind == 9 {
            Ok(MidiEvent::NoteOn { channel, note: bytes[1], velocity: bytes[2] })
        } else if kind == 11 {
            Ok(MidiEvent::ControlChange { channel, controller: bytes[1], value: bytes[2] })
        } else {
            Ok(MidiEvent::Other)
        }
    } else if kind == 12 || kind == 13 {
        if bytes.len() != 2 {
            Err(DecodeError::WrongLength)
        } else if bytes[1] >= 128 {
            Err(DecodeError::DataOutOfRange)
        } else {
            Ok(MidiEvent::Other)
        }
    } else {
        Ok(MidiEvent::Other)
    }
}

} // verus!
