//! The joystick bus devices: port decoding, wired-AND reads, and the
//! selectable multi-joystick controller.

use spectrusty::bus::joystick::{
    JoystickBusDevice, JoystickSelect, KempstonJoyPortAddress, KempstonJoystick,
    MultiJoystickBusDevice,
};
use spectrusty::bus::{BusDevice, NullDevice, PortAddress};
use spectrusty::clock::VideoTs;
use spectrusty::peripherals::joystick::{JoystickInterface, KempstonJoystickDevice};

type Null = NullDevice<VideoTs>;

#[test]
fn kempston_port_decoding() {
    assert!(KempstonJoyPortAddress::match_port(0x001f));
    assert!(KempstonJoyPortAddress::match_port(0xfadf));
    assert!(!KempstonJoyPortAddress::match_port(0x0020));
    assert!(!KempstonJoyPortAddress::match_port(0xffff));
}

#[test]
fn joystick_wired_and_combines_matching_reads() {
    // A Kempston controller chained over another device that answers
    // the same port with 0xF0: the read is the bitwise AND of both.
    let mut inner: KempstonJoystick<Null> = JoystickBusDevice::default();
    inner.joystick.state.set_buttons(0xf0);
    let mut joy: KempstonJoystick<KempstonJoystick<Null>> = JoystickBusDevice {
        joystick: KempstonJoystickDevice::default(),
        bus: inner,
        _port_decode: core::marker::PhantomData,
    };
    joy.joystick.state.set_buttons(0x1f);
    let ts = VideoTs::new(0, 0);
    assert_eq!(joy.read_io(0x001f, ts), Some((0xf0 & 0x1f, None)));
    // A port no device decodes reads as unclaimed.
    assert_eq!(joy.read_io(0x0020, ts), None);
}

#[test]
fn multi_joystick_reads_selected_variant() {
    let mut multi: MultiJoystickBusDevice<Null> = MultiJoystickBusDevice::default();
    assert!(multi.joystick.is_kempston());
    if let Some(state) = multi.joystick.joystick_interface(0) {
        state.set_buttons(0x1f);
    } else {
        panic!("kempston joystick expected at index 0");
    }
    let ts = VideoTs::new(0, 0);
    assert_eq!(multi.read_io(0x001f, ts), Some((0x1f, None)));
    assert_eq!(multi.joystick.joystick_interface(1).is_none(), true);
}

#[test]
fn joystick_select_name_parsing() {
    for name in ["Kempston", "kempston", "KEMPSTON"] {
        let (joy, n) = JoystickSelect::new_from_name(name).unwrap();
        assert!(joy.is_kempston());
        assert_eq!(n, 1);
    }
    let (joy, n) = JoystickSelect::new_from_name("Fuller").unwrap();
    assert!(joy.is_fuller());
    assert_eq!(n, 1);
    for name in ["Cursor", "Protek", "AGF", "agf"] {
        let (joy, n) = JoystickSelect::new_from_name(name).unwrap();
        assert!(joy.is_cursor());
        assert_eq!(n, 1);
    }
    for name in ["Sinclair", "Interface II", "Interface 2", "IF II", "if 2"] {
        let (joy, n) = JoystickSelect::new_from_name(name).unwrap();
        assert!(joy.is_sinclair());
        assert_eq!(n, 2);
    }
    assert!(JoystickSelect::new_from_name("Suncom").is_none());
    assert!(JoystickSelect::try_from_name("Suncom").is_err());
    assert!(JoystickSelect::try_from_name("cursor").is_ok());
}

#[test]
fn joystick_select_index_and_rotation() {
    let (joy, i) = JoystickSelect::new_with_index(0).unwrap();
    assert!(joy.is_kempston());
    assert_eq!(i, 0);
    let (joy, i) = JoystickSelect::new_with_index(2).unwrap();
    assert!(joy.is_sinclair());
    assert_eq!(i, 0);
    let (joy, i) = JoystickSelect::new_with_index(3).unwrap();
    assert!(joy.is_sinclair());
    assert_eq!(i, 1);
    let (joy, i) = JoystickSelect::new_with_index(4).unwrap();
    assert!(joy.is_cursor());
    assert_eq!(i, 0);
    assert!(JoystickSelect::new_with_index(5).is_none());

    let mut joy = JoystickSelect::default();
    assert!(joy.is_kempston());
    assert!(!joy.is_last());
    assert_eq!(joy.len(), 1);
    assert_eq!(joy.select_next_joystick(0), 0);
    assert!(joy.is_fuller());
    assert_eq!(joy.select_next_joystick(0), 0);
    assert!(joy.is_sinclair());
    assert_eq!(joy.len(), 2);
    assert_eq!(joy.select_next_joystick(0), 1);
    assert!(joy.is_sinclair());
    assert_eq!(joy.select_next_joystick(1), 0);
    assert!(joy.is_cursor());
    assert!(joy.is_last());
    assert_eq!(joy.select_next_joystick(0), 0);
    assert!(joy.is_kempston());
}

#[test]
fn joystick_name_follows_variant() {
    assert_eq!(JoystickSelect::default().name(), "Kempston");
    let (joy, _) = JoystickSelect::new_with_index(4).unwrap();
    assert_eq!(joy.name(), "Cursor");
}
