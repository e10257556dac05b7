use midi_particles::midi::{decode, DecodeError, MidiEvent};

#[test]
fn note_on_frame_decodes() {
    let r = decode(&[0x90, 60, 100]);
    assert_eq!(r, Ok(MidiEvent::NoteOn { channel: 0, note: 60, velocity: 100 }));
}

#[test]
fn note_off_frame_decodes() {
    let r = decode(&[0x85, 72, 10]);
    assert_eq!(r, Ok(MidiEvent::NoteOff { channel: 5, note: 72, velocity: 10 }));
}

#[test]
fn control_change_frame_decodes() {
    let r = decode(&[0xB2, 1, 64]);
    assert_eq!(r, Ok(MidiEvent::ControlChange { channel: 2, controller: 1, value: 64 }));
}

#[test]
fn unsupported_kinds_become_other() {
    // Polyphonic aftertouch, program change, channel pressure,
    // pitch bend and a system realtime byte are all skipped as Other.
    assert_eq!(decode(&[0xA0, 1, 1]), Ok(MidiEvent::Other));
    assert_eq!(decode(&[0xC3, 5]), Ok(MidiEvent::Other));
    assert_eq!(decode(&[0xD1, 7]), Ok(MidiEvent::Other));
    assert_eq!(decode(&[0xE0, 0, 64]), Ok(MidiEvent::Other));
    assert_eq!(decode(&[0xF8]), Ok(MidiEvent::Other));
}

#[test]
fn empty_frame_rejected() {
    assert_eq!(decode(&[]), Err(DecodeError::Empty));
}

#[test]
fn missing_status_rejected() {
    assert_eq!(decode(&[60, 100]), Err(DecodeError::NoStatus));
}

#[test]
fn wrong_length_rejected() {
    assert_eq!(decode(&[0x90, 60]), Err(DecodeError::WrongLength));
    assert_eq!(decode(&[0x90, 60, 100, 0]), Err(DecodeError::WrongLength));
    assert_eq!(decode(&[0xC0]), Err(DecodeError::WrongLength));
}

#[test]
fn data_out_of_range_rejected() {
    assert_eq!(decode(&[0x90, 200, 100]), Err(DecodeError::DataOutOfRange));
    assert_eq!(decode(&[0x90, 60, 255]), Err(DecodeError::DataOutOfRange));
    assert_eq!(decode(&[0xC0, 128]), Err(DecodeError::DataOutOfRange));
}
