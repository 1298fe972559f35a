//! What a keyboard says, and what a host may do.

use crate::host::Caps;
use crate::midi_event::{parse_message, MidiEvent};
use vstd::prelude::*;

verus! {

/// On every channel a key struck is a note-on with its own note and velocity, a
/// key let go a note-off with its own note, and so is a key struck with no
/// velocity at all. Controller 64 is the pedal, down from 64 up. Everything else
/// and everything too short says nothing.
pub proof fn every_message_says_one_thing(message: &[u8], r: Option<MidiEvent>)
    requires
        call_ensures(parse_message, (message,), r),
    ensures
        message@.len() < 3 ==> r is None,
        message@.len() >= 3 ==> {
            let (status, first, second) = (message@[0], message@[1], message@[2]);
            &&& 0x90 <= status <= 0x9F && second > 0 ==> r == Some(
                MidiEvent::NoteOn { note: first, velocity: second },
            )
            &&& 0x90 <= status <= 0x9F && second == 0 ==> r == Some(
                MidiEvent::NoteOff { note: first },
            )
            &&& 0x80 <= status <= 0x8F ==> r == Some(MidiEvent::NoteOff { note: first })
            &&& 0xB0 <= status <= 0xBF && first == 64 ==> r == Some(
                MidiEvent::Sustain { down: second >= 64 },
            )
            &&& 0xB0 <= status <= 0xBF && first != 64 ==> r is None
            &&& status < 0x80 || 0xA0 <= status <= 0xAF || status >= 0xC0 ==> r is None
        },
{
}

/// The desktop may do everything, a plugin may only ask for a size, and the
/// desktop without a recorder may neither open devices nor write files and
/// everything else.
pub proof fn each_host_may_do_its_own(desktop: Caps, plugin: Caps, minimal: Caps, usual: Caps)
    requires
        call_ensures(Caps::desktop, (), desktop),
        call_ensures(Caps::plugin, (), plugin),
        call_ensures(Caps::minimal, (), minimal),
        call_ensures(Caps::default, (), usual),
    ensures
        desktop.child_windows && desktop.detachable && desktop.window_sizing
            && desktop.size_presets && desktop.midi_ports && desktop.persist_global_settings
            && desktop.capture_devices && desktop.write_user_files && desktop.native_file_dialogs,
        plugin.size_presets,
        !plugin.child_windows && !plugin.detachable && !plugin.window_sizing && !plugin.midi_ports
            && !plugin.persist_global_settings && !plugin.capture_devices
            && !plugin.write_user_files && !plugin.native_file_dialogs,
        !minimal.capture_devices && !minimal.write_user_files,
        minimal.child_windows && minimal.detachable && minimal.window_sizing
            && minimal.size_presets && minimal.midi_ports && minimal.persist_global_settings
            && minimal.native_file_dialogs,
        usual == desktop,
{
}

} // verus!
