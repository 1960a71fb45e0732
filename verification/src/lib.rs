//! Core of a cycle-accurate emulator of ZX Spectrum home computers: the ULA
//! video/memory controller's frame timing, memory contention, per-frame event
//! logs, the AY-3-891x sound generator, and the peripheral bus-device chain.

pub mod audio;
pub mod bus;
pub mod chip;
pub mod clock;
pub mod memory;
pub mod peripherals;
pub mod video;

pub use clock::{FTs, Ts, VideoTs, VideoTsData1, VideoTsData2, VideoTsData3};
pub use video::{Ula128VidFrame, UlaVideoFrame, VideoFrame};
