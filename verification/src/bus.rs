//! The bus-device chain: a linear daisy chain of peripherals observing
//! port reads and writes in order, with wired-AND read semantics.

pub mod ay;
pub mod joystick;

use vstd::prelude::*;

verus! {

/// The model of one chain link: the device's own state paired with the
/// model of the rest of the chain.
pub struct DevView<S, B> {
    /// The device's own state.
    pub dev: S,
    /// The model of the rest of the chain.
    pub bus: B,
}

/// One link of the daisy chain. Reads consult the device first and AND
/// its byte with whatever the rest of the chain drives; writes are
/// consumed by the first device that claims them; the control calls
/// reach every link. Each operation's outcome is pinned down over the
/// link's mathematical model, [`BusDevice::bus_view`].
pub trait BusDevice: Sized {
    /// The clock type the chain shares.
    type Timestamp: Copy;

    /// The next link towards the end of the chain.
    type NextDevice;

    /// The mathematical model of this link and the chain behind it.
    type ChainView;

    /// The model of the current state.
    spec fn bus_view(self) -> Self::ChainView;

    /// The next link's state.
    spec fn spec_next_device(self) -> Self::NextDevice;

    /// This link with the next link's state replaced.
    spec fn spec_with_next(self, next: Self::NextDevice) -> Self;

    /// The model after a reset.
    spec fn spec_reset(v: Self::ChainView, ts: Self::Timestamp) -> Self::ChainView;

    /// The model after a timestamp update.
    spec fn spec_update_timestamp(v: Self::ChainView, ts: Self::Timestamp) -> Self::ChainView;

    /// The model when a new frame begins.
    spec fn spec_next_frame(v: Self::ChainView, ts: Self::Timestamp) -> Self::ChainView;

    /// The model and wired-AND result of a port read.
    spec fn spec_read_io(v: Self::ChainView, port: u16, ts: Self::Timestamp) -> (
        Self::ChainView,
        Option<(u8, Option<u16>)>,
    );

    /// The model and claim result of a port write.
    spec fn spec_write_io(v: Self::ChainView, port: u16, data: u8, ts: Self::Timestamp) -> (
        Self::ChainView,
        Option<u16>,
    );

    /// A reference to the next link.
    fn next_device_ref(&self) -> (r: &Self::NextDevice)
        ensures
            *r == self.spec_next_device(),
    ;

    /// A mutable reference to the next link.
    fn next_device_mut(&mut self) -> (r: &mut Self::NextDevice)
        ensures
            *r == old(self).spec_next_device(),
            *final(self) == old(self).spec_with_next(*final(r)),
    ;

    /// Resets every device of the chain.
    fn reset(&mut self, timestamp: Self::Timestamp)
        ensures
            final(self).bus_view() == Self::spec_reset(old(self).bus_view(), timestamp),
    ;

    /// Hands the current timestamp to every device of the chain.
    fn update_timestamp(&mut self, timestamp: Self::Timestamp)
        ensures
            final(self).bus_view() == Self::spec_update_timestamp(
                old(self).bus_view(),
                timestamp,
            ),
    ;

    /// Tells every device of the chain that a new frame begins.
    fn next_frame(&mut self, timestamp: Self::Timestamp)
        ensures
            final(self).bus_view() == Self::spec_next_frame(old(self).bus_view(), timestamp),
    ;

    /// Reads a port: every matching device of the chain contributes its
    /// byte, wired-AND together; `None` when nothing matched.
    fn read_io(&mut self, port: u16, timestamp: Self::Timestamp) -> (r: Option<(u8, Option<u16>)>)
        ensures
            (final(self).bus_view(), r) == Self::spec_read_io(
                old(self).bus_view(),
                port,
                timestamp,
            ),
    ;

    /// Writes a port: the first matching device of the chain consumes
    /// the write; `None` when nothing claimed it.
    fn write_io(&mut self, port: u16, data: u8, timestamp: Self::Timestamp) -> (r: Option<u16>)
        ensures
            (final(self).bus_view(), r) == Self::spec_write_io(
                old(self).bus_view(),
                port,
                data,
                timestamp,
            ),
    ;
}

/// The terminating link: matches nothing and never changes.
#[derive(Debug)]
pub struct NullDevice<T> {
    pub _ts: core::marker::PhantomData<T>,
}

impl<T> NullDevice<T> {
    pub fn new() -> (r: Self) {
        NullDevice { _ts: core::marker::PhantomData }
    }
}

impl<T> Default for NullDevice<T> {
    fn default() -> (r: Self) {
        NullDevice { _ts: core::marker::PhantomData }
    }
}

impl<T: Copy> BusDevice for NullDevice<T> {
    type Timestamp = T;

    type NextDevice = NullDevice<T>;

    type ChainView = ();

    open spec fn bus_view(self) -> () {
        ()
    }

    open spec fn spec_next_device(self) -> NullDevice<T> {
        self
    }

    open spec fn spec_with_next(self, next: NullDevice<T>) -> Self {
        next
    }

    open spec fn spec_reset(v: (), ts: T) -> () {
        v
    }

    open spec fn spec_update_timestamp(v: (), ts: T) -> () {
        v
    }

    open spec fn spec_next_frame(v: (), ts: T) -> () {
        v
    }

    open spec fn spec_read_io(v: (), port: u16, ts: T) -> ((), Option<(u8, Option<u16>)>) {
        (v, None)
    }

    open spec fn spec_write_io(v: (), port: u16, data: u8, ts: T) -> ((), Option<u16>) {
        (v, None)
    }

    fn next_device_ref(&self) -> (r: &Self::NextDevice) {
        self
    }

    fn next_device_mut(&mut self) -> (r: &mut Self::NextDevice) {
        self
    }

    fn reset(&mut self, timestamp: T) {
    }

    fn update_timestamp(&mut self, timestamp: T) {
    }

    fn next_frame(&mut self, timestamp: T) {
    }

    fn read_io(&mut self, port: u16, timestamp: T) -> (r: Option<(u8, Option<u16>)>) {
        None
    }

    fn write_io(&mut self, port: u16, data: u8, timestamp: T) -> (r: Option<u16>) {
        None
    }
}

/// A port decoding: which 16-bit addresses a device answers to.
pub trait PortAddress: Sized {
    /// The bits of the address that take part in the match.
    spec fn spec_address_mask() -> u16;

    /// The values the masked bits must take.
    spec fn spec_address_bits() -> u16;

    /// Exec twin of [`PortAddress::spec_address_mask`].
    fn address_mask() -> (r: u16)
        ensures
            r == Self::spec_address_mask(),
    ;

    /// Exec twin of [`PortAddress::spec_address_bits`].
    fn address_bits() -> (r: u16)
        ensures
            r == Self::spec_address_bits(),
    ;

    /// Whether the device answers a bus cycle addressed at `address`.
    spec fn spec_match_port(address: u16) -> bool;

    /// Exec twin of [`PortAddress::spec_match_port`].
    fn match_port(address: u16) -> (r: bool)
        ensures
            r == Self::spec_match_port(address),
    ;
}

/// A link that may hold a device or be empty; an empty link passes every
/// bus operation straight to the next one. A held device contributes its
/// reads wired-AND and takes writes first.
#[derive(Debug)]
pub struct OptionalBusDevice<D, N> {
    /// The optional device itself.
    pub device: Option<D>,
    /// The next link of the chain.
    pub next_device: N,
}

impl<D, N> OptionalBusDevice<D, N> {
    pub fn new(device: Option<D>, next_device: N) -> (r: Self)
        ensures
            r.device == device,
            r.next_device == next_device,
    {
        OptionalBusDevice { device, next_device }
    }
}

impl<D, N> BusDevice for OptionalBusDevice<D, N> where
    D: BusDevice,
    N: BusDevice<Timestamp = D::Timestamp>,
 {
    type Timestamp = D::Timestamp;

    type NextDevice = N;

    type ChainView = DevView<Option<D::ChainView>, N::ChainView>;

    open spec fn bus_view(self) -> Self::ChainView {
        DevView {
            dev: match self.device {
                Some(d) => Some(d.bus_view()),
                None => None,
            },
            bus: self.next_device.bus_view(),
        }
    }

    open spec fn spec_next_device(self) -> N {
        self.next_device
    }

    open spec fn spec_with_next(self, next: N) -> Self {
        OptionalBusDevice { device: self.device, next_device: next }
    }

    open spec fn spec_reset(v: Self::ChainView, ts: D::Timestamp) -> Self::ChainView {
        DevView {
            dev: match v.dev {
                Some(d) => Some(D::spec_reset(d, ts)),
                None => None,
            },
            bus: N::spec_reset(v.bus, ts),
        }
    }

    open spec fn spec_update_timestamp(v: Self::ChainView, ts: D::Timestamp) -> Self::ChainView {
        DevView {
            dev: match v.dev {
                Some(d) => Some(D::spec_update_timestamp(d, ts)),
                None => None,
            },
            bus: N::spec_update_timestamp(v.bus, ts),
        }
    }

    open spec fn spec_next_frame(v: Self::ChainView, ts: D::Timestamp) -> Self::ChainView {
        DevView {
            dev: match v.dev {
                Some(d) => Some(D::spec_next_frame(d, ts)),
                None => None,
            },
            bus: N::spec_next_frame(v.bus, ts),
        }
    }

    open spec fn spec_read_io(v: Self::ChainView, port: u16, ts: D::Timestamp) -> (
        Self::ChainView,
        Option<(u8, Option<u16>)>,
    ) {
        let (bus, bus_r) = N::spec_read_io(v.bus, port, ts);
        match v.dev {
            Some(d) => {
                let (d2, dev_r) = D::spec_read_io(d, port, ts);
                let s = DevView { dev: Some(d2), bus };
                match (dev_r, bus_r) {
                    (Some((data, ws)), Some((bdata, bws))) => (
                        s,
                        Some(
                            (
                                data & bdata,
                                if ws is Some {
                                    ws
                                } else {
                                    bws
                                },
                            ),
                        ),
                    ),
                    (Some((data, ws)), None) => (s, Some((data, ws))),
                    (None, br) => (s, br),
                }
            },
            None => (DevView { dev: v.dev, bus }, bus_r),
        }
    }

    open spec fn spec_write_io(v: Self::ChainView, port: u16, data: u8, ts: D::Timestamp) -> (
        Self::ChainView,
        Option<u16>,
    ) {
        match v.dev {
            Some(d) => {
                let (d2, dev_r) = D::spec_write_io(d, port, data, ts);
                if dev_r is Some {
                    (DevView { dev: Some(d2), bus: v.bus }, dev_r)
                } else {
                    let (bus, bus_r) = N::spec_write_io(v.bus, port, data, ts);
                    (DevView { dev: Some(d2), bus }, bus_r)
                }
            },
            None => {
                let (bus, bus_r) = N::spec_write_io(v.bus, port, data, ts);
                (DevView { dev: v.dev, bus }, bus_r)
            },
        }
    }

    fn next_device_ref(&self) -> (r: &N) {
        &self.next_device
    }

    fn next_device_mut(&mut self) -> (r: &mut N) {
        &mut self.next_device
    }

    fn reset(&mut self, timestamp: D::Timestamp) {
        match &mut self.device {
            Some(d) => d.reset(timestamp),
            None => {},
        }
        self.next_device.reset(timestamp);
    }

    fn update_timestamp(&mut self, timestamp: D::Timestamp) {
        match &mut self.device {
            Some(d) => d.update_timestamp(timestamp),
            None => {},
        }
        self.next_device.update_timestamp(timestamp);
    }

    fn next_frame(&mut self, timestamp: D::Timestamp) {
        match &mut self.device {
            Some(d) => d.next_frame(timestamp),
            None => {},
        }
        self.next_device.next_frame(timestamp);
    }

    fn read_io(&mut self, port: u16, timestamp: D::Timestamp) -> (r: Option<(u8, Option<u16>)>) {
        let bus_r = self.next_device.read_io(port, timestamp);
        match &mut self.device {
            Some(d) => {
                let dev_r = d.read_io(port, timestamp);
                match (dev_r, bus_r) {
                    (Some((data, ws)), Some((bdata, bws))) => {
                        let w = if ws.is_some() {
                            ws
                        } else {
                            bws
                        };
                        Some((data & bdata, w))
                    },
                    (Some((data, ws)), None) => Some((data, ws)),
                    (None, br) => br,
                }
            },
            None => bus_r,
        }
    }

    fn write_io(&mut self, port: u16, data: u8, timestamp: D::Timestamp) -> (r: Option<u16>) {
        match &mut self.device {
            Some(d) => {
                let dev_r = d.write_io(port, data, timestamp);
                if dev_r.is_some() {
                    return dev_r;
                }
            },
            None => {},
        }
        self.next_device.write_io(port, data, timestamp)
    }
}

/// Wired-AND combination of one more device's answer with a bus read
/// collected so far: a matching device ANDs its byte in (an unclaimed
/// bus so far reads as all ones) and its wait states take over; an
/// unmatching device leaves the collected answer alone.
pub fn combine_read_results(acc: Option<(u8, Option<u16>)>, dev: Option<(u8, Option<u16>)>) -> (r:
    Option<(u8, Option<u16>)>)
    ensures
        dev is None ==> r == acc,
        (dev matches Some((d, ws)) ==> r == Some(
            (
                d & (match acc {
                    Some((a, _)) => a,
                    None => 0xffu8,
                }),
                ws,
            ),
        )),
{
    match dev {
        Some((d, ws)) => {
            let a = match acc {
                Some((a, _)) => a,
                None => 0xff,
            };
            Some((d & a, ws))
        },
        None => acc,
    }
}

} // verus!
