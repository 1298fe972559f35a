//! What raw messages mean.

use ivory_ui::midi_event::{parse_message, MidiEvent};

#[test]
fn message_parsing_semantics() {
    assert_eq!(
        parse_message(&[0x91, 60, 100]),
        Some(MidiEvent::NoteOn {
            note: 60,
            velocity: 100
        })
    );
    assert_eq!(
        parse_message(&[0x95, 60, 0]),
        Some(MidiEvent::NoteOff { note: 60 })
    );
    assert_eq!(
        parse_message(&[0x80, 61, 40]),
        Some(MidiEvent::NoteOff { note: 61 })
    );
    assert_eq!(
        parse_message(&[0xB0, 64, 64]),
        Some(MidiEvent::Sustain { down: true })
    );
    assert_eq!(
        parse_message(&[0xB2, 64, 63]),
        Some(MidiEvent::Sustain { down: false })
    );
    assert_eq!(parse_message(&[0xB0, 1, 127]), None);
    assert_eq!(parse_message(&[0xE0, 0, 64]), None);
}

#[test]
fn short_messages_and_trailing_bytes() {
    assert_eq!(parse_message(&[]), None);
    assert_eq!(parse_message(&[0x90, 60]), None);
    assert_eq!(
        parse_message(&[0x90, 60, 1, 0xFF]),
        Some(MidiEvent::NoteOn { note: 60, velocity: 1 })
    );
}

#[test]
fn every_channel_says_the_same() {
    for channel in 0..16u8 {
        assert_eq!(
            parse_message(&[0x90 | channel, 72, 64]),
            Some(MidiEvent::NoteOn { note: 72, velocity: 64 })
        );
        assert_eq!(
            parse_message(&[0x80 | channel, 72, 64]),
            parse_message(&[0x90 | channel, 72, 0])
        );
        assert_eq!(
            parse_message(&[0xB0 | channel, 64, 127]),
            Some(MidiEvent::Sustain { down: true })
        );
    }
}
