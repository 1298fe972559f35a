//! What the thing hosting us can actually do.

use vstd::prelude::*;

verus! {

/// What this host permits. Each field names a capability, never a host.
#[derive(Debug, Clone, Copy, PartialEq, Eq, Structural)]
pub struct Caps {
    /// The UI may open additional OS windows.
    pub child_windows: bool,
    /// The chord readout and the fretboard may be popped into their own
    /// windows. Requires `child_windows`.
    pub detachable: bool,
    /// The UI may set its own size.
    pub window_sizing: bool,
    /// A size percentage is a meaningful thing to offer: a plugin cannot set
    /// its own size, but it can ask for one.
    pub size_presets: bool,
    /// The UI chooses its own MIDI input.
    pub midi_ports: bool,
    /// Settings changes may be written to the shared settings file.
    pub persist_global_settings: bool,
    /// The UI may open a camera or an audio input.
    pub capture_devices: bool,
    /// The UI may create take directories and write media.
    pub write_user_files: bool,
    /// A "Choose folder..." button is a meaningful thing to offer.
    pub native_file_dialogs: bool,
}

impl Caps {
    /// The standalone app can do everything.
    pub open spec fn all() -> Caps {
        Caps {
            child_windows: true,
            detachable: true,
            window_sizing: true,
            size_presets: true,
            midi_ports: true,
            persist_global_settings: true,
            capture_devices: true,
            write_user_files: true,
            native_file_dialogs: true,
        }
    }

    /// A plugin editor can only ask for a size.
    pub open spec fn asking() -> Caps {
        Caps {
            child_windows: false,
            detachable: false,
            window_sizing: false,
            size_presets: true,
            midi_ports: false,
            persist_global_settings: false,
            capture_devices: false,
            write_user_files: false,
            native_file_dialogs: false,
        }
    }

    /// Everything but the recorder's two capabilities.
    pub open spec fn without_recorder() -> Caps {
        Caps { capture_devices: false, write_user_files: false, ..Caps::all() }
    }

    /// Detaching opens a window, and recording takes both of its halves: what
    /// every host this crate names keeps to.
    pub open spec fn consistent(self) -> bool {
        &&& self.detachable ==> self.child_windows
        &&& self.capture_devices == self.write_user_files
    }

    /// The standalone app.
    pub fn desktop() -> (r: Caps)
        ensures
            r == Caps::all(),
            r.consistent(),
    {
        Caps {
            child_windows: true,
            detachable: true,
            window_sizing: true,
            size_presets: true,
            midi_ports: true,
            persist_global_settings: true,
            capture_devices: true,
            write_user_files: true,
            native_file_dialogs: true,
        }
    }

    /// A plugin editor: one host-owned window, host-supplied notes, host-driven
    /// size, and shared settings it must not fight over.
    pub fn plugin() -> (r: Caps)
        ensures
            r == Caps::asking(),
            r.consistent(),
    {
        Caps {
            child_windows: false,
            detachable: false,
            window_sizing: false,
            size_presets: true,
            midi_ports: false,
            persist_global_settings: false,
            capture_devices: false,
            write_user_files: false,
            native_file_dialogs: false,
        }
    }

    /// The standalone app, built without the recorder.
    pub fn minimal() -> (r: Caps)
        ensures
            r == Caps::without_recorder(),
            r.consistent(),
    {
        Caps { capture_devices: false, write_user_files: false, ..Caps::desktop() }
    }
}

impl Default for Caps {
    /// The desktop: a default that silently disabled things would be a bug
    /// generator.
    fn default() -> (r: Caps)
        ensures
            r == Caps::all(),
    {
        Caps::desktop()
    }
}

} // verus!
