//! Sources of notes and pictures, without a device behind them.

use ivory_ui::midi_event::MidiEvent;
use ivory_ui::ports::{CaptureDevices, DeviceInfo, MidiPorts};
use std::sync::mpsc;

#[derive(Default)]
struct Fake {
    available: Vec<String>,
    open: Option<String>,
}

impl MidiPorts for Fake {
    fn list(&self) -> Vec<String> {
        self.available.clone()
    }
    fn connect(&mut self, name: &str, _tx: mpsc::Sender<MidiEvent>) -> Result<(), String> {
        if self.available.iter().any(|n| n == name) {
            self.open = Some(name.to_owned());
            Ok(())
        } else {
            Err(format!("no port named '{name}'"))
        }
    }
    fn current(&self) -> Option<String> {
        self.open.clone()
    }
}

#[test]
fn a_port_source_can_be_faked_without_a_device() {
    let (tx, _rx) = mpsc::channel();
    let mut p = Fake {
        available: vec!["Scarlett 2i2".into(), "USB-MIDI 1".into()],
        open: None,
    };
    assert_eq!(p.current(), None);
    assert!(p.connect("USB-MIDI 1", tx.clone()).is_ok());
    assert_eq!(p.current().as_deref(), Some("USB-MIDI 1"));
    assert!(p.connect("Nothing", tx).is_err());
    assert_eq!(
        p.current().as_deref(),
        Some("USB-MIDI 1"),
        "a failed connect must not close the port that was working"
    );
}

#[test]
fn the_trait_object_is_send() {
    fn assert_send<T: Send>() {}
    assert_send::<Box<dyn MidiPorts>>();
    assert_send::<Box<dyn CaptureDevices>>();
}

#[derive(Default)]
struct FakeDevices {
    present: Vec<DeviceInfo>,
    open: Option<String>,
}

impl CaptureDevices for FakeDevices {
    fn list(&self) -> Vec<DeviceInfo> {
        self.present.clone()
    }
    fn open(&mut self, uid: &str) -> Result<(), String> {
        if uid.is_empty() {
            self.open = None;
            return Ok(());
        }
        if self.present.iter().any(|d| d.uid == uid) {
            self.open = Some(uid.to_owned());
            Ok(())
        } else {
            Err(format!("no device with uid '{uid}'"))
        }
    }
    fn current(&self) -> Option<String> {
        self.open.clone()
    }
    fn current_name(&self) -> Option<String> {
        let uid = self.open.as_ref()?;
        self.present
            .iter()
            .find(|d| &d.uid == uid)
            .map(|d| d.name.clone())
    }
}

#[test]
fn two_devices_sharing_a_name_are_still_told_apart() {
    let mut d = FakeDevices {
        present: vec![
            DeviceInfo {
                uid: "0x1400000046d0825".into(),
                name: "HD Pro Webcam C920".into(),
                default: true,
            },
            DeviceInfo {
                uid: "0x1a11000046d0825".into(),
                name: "HD Pro Webcam C920".into(),
                default: false,
            },
        ],
        open: None,
    };
    assert!(d.open("0x1a11000046d0825").is_ok());
    assert_eq!(d.current().as_deref(), Some("0x1a11000046d0825"));
    assert_eq!(d.current_name().as_deref(), Some("HD Pro Webcam C920"));
    assert!(d.open("gone").is_err());
    assert_eq!(
        d.current().as_deref(),
        Some("0x1a11000046d0825"),
        "a failed open must not close the device that was working"
    );
}

#[test]
fn an_empty_uid_closes_the_device() {
    let mut d = FakeDevices {
        present: vec![DeviceInfo {
            uid: "a".into(),
            name: "A".into(),
            default: true,
        }],
        open: Some("a".into()),
    };
    assert!(d.open("").is_ok());
    assert_eq!(d.current(), None);
    assert_eq!(d.current_name(), None);
}
