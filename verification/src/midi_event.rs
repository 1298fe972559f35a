//! What a MIDI keyboard says, once the wire format is gone.

use vstd::prelude::*;

verus! {

/// Everything the app acts on. Channels are folded together.
#[derive(Debug, Clone, Copy, PartialEq, Eq, Structural)]
pub enum MidiEvent {
    NoteOn { note: u8, velocity: u8 },
    NoteOff { note: u8 },
    Sustain { down: bool },
}

/// The upper four bits of a status byte: the kind of message, whatever channel.
pub open spec fn kind_of(status: u8) -> int {
    status as int / 16
}

/// What a message means: a note-on with no velocity is a note-off, and the
/// sustain pedal, controller 64, is down from its halfway point up.
pub open spec fn meaning(message: Seq<u8>) -> Option<MidiEvent> {
    if message.len() < 3 {
        None
    } else if kind_of(message[0]) == 9 && message[2] > 0 {
        Some(MidiEvent::NoteOn { note: message[1], velocity: message[2] })
    } else if kind_of(message[0]) == 9 || kind_of(message[0]) == 8 {
        Some(MidiEvent::NoteOff { note: message[1] })
    } else if kind_of(message[0]) == 11 && message[1] == 64 {
        Some(MidiEvent::Sustain { down: message[2] >= 64 })
    } else {
        None
    }
}

/// One raw MIDI message. `None` for anything the app does not act on.
pub fn parse_message(message: &[u8]) -> (r: Option<MidiEvent>)
    ensures
        r == meaning(message@),
{
    if message.len() < 3 {
        return None;
    }
    let first: u8 = message[0];
    let status: u8 = first & 0xF0;
    let data1: u8 = message[1];
    let data2: u8 = message[2];
    assert(status == (first / 16) * 16) by (bit_vector)
        requires
            status == first & 0xF0u8,
    ;
    match status {
        0x90 if data2 > 0 => Some(MidiEvent::NoteOn { note: data1, velocity: data2 }),
        0x90 | 0x80 => Some(MidiEvent::NoteOff { note: data1 }),
        0xB0 if data1 == 64 => Some(MidiEvent::Sustain { down: data2 >= 64 }),
        _ => None,
    }
}

/// The channel a message arrived on changes nothing.
pub proof fn channels_are_folded_together(a: Seq<u8>, b: Seq<u8>)
    requires
        a.len() >= 3,
        b.len() >= 3,
        kind_of(a[0]) == kind_of(b[0]),
        a[1] == b[1],
        a[2] == b[2],
    ensures
        meaning(a) == meaning(b),
{
}

/// A note-on with velocity 0 says the same as the note-off for that note.
pub proof fn a_silent_note_on_is_a_note_off(on: Seq<u8>, off: Seq<u8>)
    requires
        on.len() >= 3,
        off.len() >= 3,
        kind_of(on[0]) == 9,
        kind_of(off[0]) == 8,
        on[1] == off[1],
        on[2] == 0,
    ensures
        meaning(on) == meaning(off),
{
}

} // verus!
