//! Joystick devices: the canonical input state and the per-protocol wire
//! encodings each device presents on its port.

use vstd::prelude::*;

verus! {

/// Canonical joystick input bits: right, left, down, up and fire.
pub const JOY_RIGHT: u8 = 0x01;

pub const JOY_LEFT: u8 = 0x02;

pub const JOY_DOWN: u8 = 0x04;

pub const JOY_UP: u8 = 0x08;

pub const JOY_FIRE: u8 = 0x10;

/// The canonical input state shared by every joystick device.
#[derive(Clone, Copy, PartialEq, Eq, Structural, Debug)]
pub struct JoystickState {
    /// The pressed buttons, as canonical input bits.
    pub buttons: u8,
}

/// User-input access to a joystick device.
pub trait JoystickInterface: Sized {
    /// The pressed buttons, as canonical input bits.
    spec fn spec_buttons(self) -> u8;

    /// Exec twin of [`JoystickInterface::spec_buttons`].
    fn get_buttons(&self) -> (r: u8)
        ensures
            r == self.spec_buttons(),
    ;

    /// Replaces the pressed buttons.
    fn set_buttons(&mut self, buttons: u8)
        ensures
            final(self).spec_buttons() == buttons,
    ;

    /// Whether fire is pressed.
    fn fire(&self) -> (r: bool)
        ensures
            r == (self.spec_buttons() & JOY_FIRE != 0),
    ;

    /// Presses or releases fire.
    fn set_fire(&mut self, pressed: bool)
        ensures
            final(self).spec_buttons() == if pressed {
                old(self).spec_buttons() | JOY_FIRE
            } else {
                old(self).spec_buttons() & !JOY_FIRE
            },
    ;
}

impl JoystickInterface for JoystickState {
    open spec fn spec_buttons(self) -> u8 {
        self.buttons
    }

    fn get_buttons(&self) -> (r: u8) {
        self.buttons
    }

    fn set_buttons(&mut self, buttons: u8) {
        self.buttons = buttons;
    }

    fn fire(&self) -> (r: bool) {
        self.buttons & JOY_FIRE != 0
    }

    fn set_fire(&mut self, pressed: bool) {
        if pressed {
            self.buttons = self.buttons | JOY_FIRE;
        } else {
            self.buttons = self.buttons & !JOY_FIRE;
        }
    }
}

/// A joystick device: decodes reads and writes of its port.
pub trait JoystickDevice: Sized {
    /// The byte the device drives onto the bus for a read of `port`.
    spec fn spec_port_read(self, port: u16) -> u8;

    /// Exec twin of [`JoystickDevice::spec_port_read`].
    fn port_read(&self, port: u16) -> (r: u8)
        ensures
            r == self.spec_port_read(port),
    ;

    /// Whether the device claims a write of `data` to `port`.
    spec fn spec_port_write(self, port: u16, data: u8) -> (Self, bool);

    /// Exec twin of [`JoystickDevice::spec_port_write`].
    fn port_write(&mut self, port: u16, data: u8) -> (r: bool)
        ensures
            (*final(self), r) == old(self).spec_port_write(port, data),
    ;
}

/// A joystick that is not there: reads as an open bus, claims nothing.
#[derive(Clone, Copy, PartialEq, Eq, Structural, Debug)]
pub struct NullJoystickDevice;

impl JoystickDevice for NullJoystickDevice {
    open spec fn spec_port_read(self, port: u16) -> u8 {
        0xff
    }

    fn port_read(&self, port: u16) -> (r: u8) {
        0xff
    }

    open spec fn spec_port_write(self, port: u16, data: u8) -> (Self, bool) {
        (self, false)
    }

    fn port_write(&mut self, port: u16, data: u8) -> (r: bool) {
        false
    }
}

/// Kempston interface: active-high `000F UDLR`, which the canonical bits
/// match exactly.
#[derive(Clone, Copy, PartialEq, Eq, Structural, Debug)]
pub struct KempstonJoystickDevice {
    pub state: JoystickState,
}

impl JoystickDevice for KempstonJoystickDevice {
    open spec fn spec_port_read(self, port: u16) -> u8 {
        self.state.buttons
    }

    fn port_read(&self, port: u16) -> (r: u8) {
        self.state.buttons
    }

    open spec fn spec_port_write(self, port: u16, data: u8) -> (Self, bool) {
        (self, false)
    }

    fn port_write(&mut self, port: u16, data: u8) -> (r: bool) {
        false
    }
}

/// The Fuller box wire format: active low, up 1, down 2, left 4,
/// right 8, fire 0x80.
pub open spec fn spec_fuller_byte(buttons: u8) -> u8 {
    !(((buttons & JOY_UP) / JOY_UP) | (((buttons & JOY_DOWN) / JOY_DOWN) << 1) | (((buttons & JOY_LEFT) / JOY_LEFT) << 2) | (((buttons & JOY_RIGHT) / JOY_RIGHT) << 3) | (((buttons & JOY_FIRE) / JOY_FIRE) << 7))
}

/// Fuller box joystick: active-low directions and fire on bit 7.
#[derive(Clone, Copy, PartialEq, Eq, Structural, Debug)]
pub struct FullerJoystickDevice {
    pub state: JoystickState,
}

impl JoystickDevice for FullerJoystickDevice {
    open spec fn spec_port_read(self, port: u16) -> u8 {
        spec_fuller_byte(self.state.buttons)
    }

    fn port_read(&self, port: u16) -> (r: u8) {
        let b = self.state.buttons;
        let up: u8 = (b & JOY_UP) / JOY_UP;
        let down: u8 = (b & JOY_DOWN) / JOY_DOWN;
        let left: u8 = (b & JOY_LEFT) / JOY_LEFT;
        let right: u8 = (b & JOY_RIGHT) / JOY_RIGHT;
        let fire: u8 = (b & JOY_FIRE) / JOY_FIRE;
        !(up | (down << 1) | (left << 2) | (right << 3) | (fire << 7))
    }

    open spec fn spec_port_write(self, port: u16, data: u8) -> (Self, bool) {
        (self, false)
    }

    fn port_write(&mut self, port: u16, data: u8) -> (r: bool) {
        false
    }
}

/// A Sinclair keyboard-row mapping: which key bit each direction drives.
pub trait SinclairJoyMap: Sized {
    /// The active-low key bits for the given canonical buttons.
    spec fn spec_key_bits(buttons: u8) -> u8;

    /// Exec twin of [`SinclairJoyMap::spec_key_bits`].
    fn key_bits(buttons: u8) -> (r: u8)
        ensures
            r == Self::spec_key_bits(buttons),
    ;

    /// The mapping value itself (mappings carry no state).
    fn new() -> Self;
}

/// Left Sinclair joystick mapping onto keys 1 to 5.
#[derive(Default, Clone, Copy, PartialEq, Eq, Structural, Debug)]
pub struct SinclairJoyLeftMap;

impl SinclairJoyMap for SinclairJoyLeftMap {
    open spec fn spec_key_bits(buttons: u8) -> u8 {
        ((buttons & JOY_LEFT) / JOY_LEFT) | (((buttons & JOY_RIGHT) / JOY_RIGHT) << 1) | (((buttons & JOY_DOWN) / JOY_DOWN) << 2) | (((buttons & JOY_UP) / JOY_UP) << 3) | (((buttons & JOY_FIRE) / JOY_FIRE) << 4)
    }

    fn key_bits(buttons: u8) -> (r: u8) {
        let b = buttons;
        let up: u8 = (b & JOY_UP) / JOY_UP;
        let down: u8 = (b & JOY_DOWN) / JOY_DOWN;
        let left: u8 = (b & JOY_LEFT) / JOY_LEFT;
        let right: u8 = (b & JOY_RIGHT) / JOY_RIGHT;
        let fire: u8 = (b & JOY_FIRE) / JOY_FIRE;
        left | (right << 1) | (down << 2) | (up << 3) | (fire << 4)
    }

    fn new() -> Self {
        SinclairJoyLeftMap
    }
}

/// Right Sinclair joystick mapping onto keys 6 to 0.
#[derive(Default, Clone, Copy, PartialEq, Eq, Structural, Debug)]
pub struct SinclairJoyRightMap;

impl SinclairJoyMap for SinclairJoyRightMap {
    open spec fn spec_key_bits(buttons: u8) -> u8 {
        ((buttons & JOY_FIRE) / JOY_FIRE) | (((buttons & JOY_UP) / JOY_UP) << 1) | (((buttons & JOY_DOWN) / JOY_DOWN) << 2) | (((buttons & JOY_RIGHT) / JOY_RIGHT) << 3) | (((buttons & JOY_LEFT) / JOY_LEFT) << 4)
    }

    fn key_bits(buttons: u8) -> (r: u8) {
        let b = buttons;
        let up: u8 = (b & JOY_UP) / JOY_UP;
        let down: u8 = (b & JOY_DOWN) / JOY_DOWN;
        let left: u8 = (b & JOY_LEFT) / JOY_LEFT;
        let right: u8 = (b & JOY_RIGHT) / JOY_RIGHT;
        let fire: u8 = (b & JOY_FIRE) / JOY_FIRE;
        fire | (up << 1) | (down << 2) | (right << 3) | (left << 4)
    }

    fn new() -> Self {
        SinclairJoyRightMap
    }
}

/// A Sinclair Interface II joystick, presenting active-low key bits.
#[derive(Clone, Copy, PartialEq, Eq, Structural, Debug)]
pub struct SinclairJoystickDevice<M> {
    pub state: JoystickState,
    pub map: M,
}

impl<M: SinclairJoyMap> JoystickDevice for SinclairJoystickDevice<M> {
    open spec fn spec_port_read(self, port: u16) -> u8 {
        !M::spec_key_bits(self.state.buttons)
    }

    fn port_read(&self, port: u16) -> (r: u8) {
        !M::key_bits(self.state.buttons)
    }

    open spec fn spec_port_write(self, port: u16, data: u8) -> (Self, bool) {
        (self, false)
    }

    fn port_write(&mut self, port: u16, data: u8) -> (r: bool) {
        false
    }
}

/// The cursor-joystick key bits for one keyboard half-row: key 5 (left)
/// lives on one row; keys 0 (fire), 6 (down), 7 (up) and 8 (right) on
/// the other. Which rows a read selects is taken from the port address.
pub open spec fn spec_cursor_byte(buttons: u8, port: u16) -> u8 {
    let row57 = if port & 0x0800 == 0 {
        ((buttons & JOY_LEFT) / JOY_LEFT) << 4
    } else {
        0u8
    };
    let row60 = if port & 0x1000 == 0 {
        ((buttons & JOY_FIRE) / JOY_FIRE) | (((buttons & JOY_DOWN) / JOY_DOWN) << 4) | (((buttons & JOY_UP) / JOY_UP) << 3) | (((buttons & JOY_RIGHT) / JOY_RIGHT) << 2)
    } else {
        0u8
    };
    !(row57 | row60)
}

/// A cursor (Protek/AGF) joystick, driving the cursor keys.
#[derive(Clone, Copy, PartialEq, Eq, Structural, Debug)]
pub struct CursorJoystickDevice {
    pub state: JoystickState,
}

impl JoystickDevice for CursorJoystickDevice {
    open spec fn spec_port_read(self, port: u16) -> u8 {
        spec_cursor_byte(self.state.buttons, port)
    }

    fn port_read(&self, port: u16) -> (r: u8) {
        let b = self.state.buttons;
        let up: u8 = (b & JOY_UP) / JOY_UP;
        let down: u8 = (b & JOY_DOWN) / JOY_DOWN;
        let left: u8 = (b & JOY_LEFT) / JOY_LEFT;
        let right: u8 = (b & JOY_RIGHT) / JOY_RIGHT;
        let fire: u8 = (b & JOY_FIRE) / JOY_FIRE;
        let row57: u8 = if port & 0x0800 == 0 {
            left << 4
        } else {
            0
        };
        let row60: u8 = if port & 0x1000 == 0 {
            fire | (down << 4) | (up << 3) | (right << 2)
        } else {
            0
        };
        !(row57 | row60)
    }

    open spec fn spec_port_write(self, port: u16, data: u8) -> (Self, bool) {
        (self, false)
    }

    fn port_write(&mut self, port: u16, data: u8) -> (r: bool) {
        false
    }
}

impl Default for JoystickState {
    fn default() -> (r: Self)
        ensures
            r.buttons == 0,
    {
        JoystickState { buttons: 0 }
    }
}

impl Default for NullJoystickDevice {
    fn default() -> (r: Self)
        ensures
            r == NullJoystickDevice,
    {
        NullJoystickDevice
    }
}

impl Default for KempstonJoystickDevice {
    fn default() -> (r: Self)
        ensures
            r.state.buttons == 0,
    {
        KempstonJoystickDevice { state: JoystickState { buttons: 0 } }
    }
}

impl Default for FullerJoystickDevice {
    fn default() -> (r: Self)
        ensures
            r.state.buttons == 0,
    {
        FullerJoystickDevice { state: JoystickState { buttons: 0 } }
    }
}

impl<M: SinclairJoyMap> Default for SinclairJoystickDevice<M> {
    fn default() -> (r: Self)
        ensures
            r.state.buttons == 0,
    {
        SinclairJoystickDevice { state: JoystickState { buttons: 0 }, map: M::new() }
    }
}

impl Default for CursorJoystickDevice {
    fn default() -> (r: Self)
        ensures
            r.state.buttons == 0,
    {
        CursorJoystickDevice { state: JoystickState { buttons: 0 } }
    }
}

} // verus!
