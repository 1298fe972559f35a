//! What each host can do.

use ivory_ui::host::Caps;

#[test]
fn detaching_requires_being_able_to_open_a_window() {
    for c in [Caps::desktop(), Caps::plugin(), Caps::default()] {
        assert!(
            !c.detachable || c.child_windows,
            "{c:?} claims it can detach without being able to open a window"
        );
    }
}

#[test]
fn the_plugin_gives_up_everything_the_desktop_owns() {
    assert_eq!(Caps::default(), Caps::desktop());
    let p = Caps::plugin();
    assert!(!p.child_windows && !p.detachable && !p.window_sizing);
    assert!(
        p.size_presets,
        "a plugin can still ASK the host for a size, and must be able to"
    );
    assert!(!p.midi_ports, "a plugin is handed its notes");
    assert!(!p.persist_global_settings, "a plugin shares that file");
    assert!(!p.capture_devices, "a plugin must not open a camera");
    assert!(
        !p.write_user_files,
        "multiple instances and offline bounce make plugin-side file \
         writing actively dangerous"
    );
    assert!(
        !p.native_file_dialogs,
        "a native modal inside a DAW is a hang report waiting to happen"
    );
}

#[test]
fn minimal_gives_up_the_recorder_and_nothing_else() {
    let m = Caps::minimal();
    assert!(!m.capture_devices && !m.write_user_files);
    assert!(
        m.child_windows && m.detachable && m.window_sizing && m.midi_ports,
        "Minimal still owns a real window and a real MIDI device"
    );
    assert!(
        m.persist_global_settings && m.native_file_dialogs && m.size_presets,
        "nothing else is taken away"
    );
}

#[test]
fn capture_and_writing_files_travel_together() {
    for c in [Caps::desktop(), Caps::plugin(), Caps::minimal(), Caps::default()] {
        assert_eq!(
            c.capture_devices, c.write_user_files,
            "{c:?} can do one half of recording and not the other"
        );
    }
}
