//! Emulators of the peripheral devices the bus can host.

pub mod ay;
pub mod joystick;
