//! Bus devices for connecting joysticks: the fixed-protocol controllers
//! and the run-time selectable multi-joystick controller.

use vstd::prelude::*;
use vstd::string::StringSliceAdditionalSpecFns;

use crate::bus::{BusDevice, DevView, PortAddress};
use crate::bus::ay::PassByAyAudioBusDevice;
use crate::clock::VideoTs;
use crate::peripherals::joystick::{
    CursorJoystickDevice, FullerJoystickDevice, JoystickDevice, JoystickState,
    KempstonJoystickDevice, SinclairJoyLeftMap, SinclairJoyRightMap, SinclairJoystickDevice,
};

verus! {

/// A convenient Kempston joystick bus device type.
pub type KempstonJoystick<D> = JoystickBusDevice<
    KempstonJoyPortAddress,
    KempstonJoystickDevice,
    D,
>;

/// A convenient Fuller joystick bus device type.
pub type FullerJoystick<D> = JoystickBusDevice<FullerJoyPortAddress, FullerJoystickDevice, D>;

/// A convenient left Sinclair joystick bus device type.
pub type SinclairLeftJoystick<D> = JoystickBusDevice<
    SinclairLeftJoyPortAddress,
    SinclairJoystickDevice<SinclairJoyLeftMap>,
    D,
>;

/// A convenient right Sinclair joystick bus device type.
pub type SinclairRightJoystick<D> = JoystickBusDevice<
    SinclairRightJoyPortAddress,
    SinclairJoystickDevice<SinclairJoyRightMap>,
    D,
>;

/// A convenient pair of left and right Sinclair joystick bus devices.
pub type SinclairJoystick<D> = SinclairLeftJoystick<SinclairRightJoystick<D>>;

/// A convenient cursor joystick bus device type.
pub type CursorJoystick<D> = JoystickBusDevice<CursorJoyPortAddress, CursorJoystickDevice, D>;

/// Kempston port decoding.
#[derive(Clone, Copy, Default, PartialEq, Eq, Structural, Debug)]
pub struct KempstonJoyPortAddress;

impl PortAddress for KempstonJoyPortAddress {
    open spec fn spec_address_mask() -> u16 {
        0x0020
    }

    open spec fn spec_address_bits() -> u16 {
        0x001f
    }

    fn address_mask() -> (r: u16) {
        0x0020
    }

    fn address_bits() -> (r: u16) {
        0x001f
    }

    open spec fn spec_match_port(address: u16) -> bool {
        address & 0x0020 == 0x001f & 0x0020
    }

    fn match_port(address: u16) -> (r: bool) {
        address & 0x0020 == 0x001f & 0x0020
    }
}

/// Fuller box port decoding.
#[derive(Clone, Copy, Default, PartialEq, Eq, Structural, Debug)]
pub struct FullerJoyPortAddress;

impl PortAddress for FullerJoyPortAddress {
    open spec fn spec_address_mask() -> u16 {
        0x00ff
    }

    open spec fn spec_address_bits() -> u16 {
        0x007f
    }

    fn address_mask() -> (r: u16) {
        0x00ff
    }

    fn address_bits() -> (r: u16) {
        0x007f
    }

    open spec fn spec_match_port(address: u16) -> bool {
        address & 0x00ff == 0x007f & 0x00ff
    }

    fn match_port(address: u16) -> (r: bool) {
        address & 0x00ff == 0x007f & 0x00ff
    }
}

/// Left Sinclair port decoding.
#[derive(Clone, Copy, Default, PartialEq, Eq, Structural, Debug)]
pub struct SinclairLeftJoyPortAddress;

impl PortAddress for SinclairLeftJoyPortAddress {
    open spec fn spec_address_mask() -> u16 {
        0x0800
    }

    open spec fn spec_address_bits() -> u16 {
        0xf7fe
    }

    fn address_mask() -> (r: u16) {
        0x0800
    }

    fn address_bits() -> (r: u16) {
        0xf7fe
    }

    open spec fn spec_match_port(address: u16) -> bool {
        address & 0x0800 == 0xf7fe & 0x0800
    }

    fn match_port(address: u16) -> (r: bool) {
        address & 0x0800 == 0xf7fe & 0x0800
    }
}

/// Right Sinclair port decoding.
#[derive(Clone, Copy, Default, PartialEq, Eq, Structural, Debug)]
pub struct SinclairRightJoyPortAddress;

impl PortAddress for SinclairRightJoyPortAddress {
    open spec fn spec_address_mask() -> u16 {
        0x1000
    }

    open spec fn spec_address_bits() -> u16 {
        0xeffe
    }

    fn address_mask() -> (r: u16) {
        0x1000
    }

    fn address_bits() -> (r: u16) {
        0xeffe
    }

    open spec fn spec_match_port(address: u16) -> bool {
        address & 0x1000 == 0xeffe & 0x1000
    }

    fn match_port(address: u16) -> (r: bool) {
        address & 0x1000 == 0xeffe & 0x1000
    }
}

/// Cursor port decoding: matches whenever one of the two keyboard
/// half-rows it drives is selected, that is `address & MASK != MASK`.
#[derive(Clone, Copy, Default, PartialEq, Eq, Structural, Debug)]
pub struct CursorJoyPortAddress;

impl PortAddress for CursorJoyPortAddress {
    open spec fn spec_address_mask() -> u16 {
        0x1800
    }

    open spec fn spec_address_bits() -> u16 {
        0xe7fe
    }

    fn address_mask() -> (r: u16) {
        0x1800
    }

    fn address_bits() -> (r: u16) {
        0xe7fe
    }

    open spec fn spec_match_port(address: u16) -> bool {
        address & 0x1800 != 0x1800
    }

    fn match_port(address: u16) -> (r: bool) {
        address & 0x1800 != 0x1800
    }
}

/// A joystick controller bus device: on a matching read it drives its
/// joystick's byte wired-AND with whatever the rest of the chain drives.
#[derive(Debug)]
pub struct JoystickBusDevice<P, J, D> {
    /// The joystick device plugged into the controller.
    pub joystick: J,
    pub bus: D,
    pub _port_decode: core::marker::PhantomData<P>,
}

impl<P, J: Default, D: Default> Default for JoystickBusDevice<P, J, D> {
    fn default() -> Self {
        JoystickBusDevice {
            joystick: J::default(),
            bus: D::default(),
            _port_decode: core::marker::PhantomData,
        }
    }
}

impl<P, J, D> PassByAyAudioBusDevice for JoystickBusDevice<P, J, D> {

}

impl<P, J, D> BusDevice for JoystickBusDevice<P, J, D> where
    P: PortAddress,
    J: JoystickDevice,
    D: BusDevice<Timestamp = VideoTs>,
 {
    type Timestamp = VideoTs;

    type NextDevice = D;

    type ChainView = DevView<J, D::ChainView>;

    open spec fn bus_view(self) -> Self::ChainView {
        DevView { dev: self.joystick, bus: self.bus.bus_view() }
    }

    open spec fn spec_next_device(self) -> D {
        self.bus
    }

    open spec fn spec_with_next(self, next: D) -> Self {
        JoystickBusDevice { joystick: self.joystick, bus: next, _port_decode: self._port_decode }
    }

    open spec fn spec_reset(v: Self::ChainView, ts: VideoTs) -> Self::ChainView {
        DevView { dev: v.dev, bus: D::spec_reset(v.bus, ts) }
    }

    open spec fn spec_update_timestamp(v: Self::ChainView, ts: VideoTs) -> Self::ChainView {
        DevView { dev: v.dev, bus: D::spec_update_timestamp(v.bus, ts) }
    }

    open spec fn spec_next_frame(v: Self::ChainView, ts: VideoTs) -> Self::ChainView {
        DevView { dev: v.dev, bus: D::spec_next_frame(v.bus, ts) }
    }

    /// A matching read returns the joystick's byte ANDed with any byte
    /// the rest of the chain drives; otherwise the chain's result.
    open spec fn spec_read_io(v: Self::ChainView, port: u16, ts: VideoTs) -> (
        Self::ChainView,
        Option<(u8, Option<u16>)>,
    ) {
        let (bus, bus_r) = D::spec_read_io(v.bus, port, ts);
        let s = DevView { dev: v.dev, bus };
        if P::spec_match_port(port) {
            let joy_data = v.dev.spec_port_read(port);
            match bus_r {
                Some((data, ws)) => (s, Some((data & joy_data, ws))),
                None => (s, Some((joy_data, None))),
            }
        } else {
            (s, bus_r)
        }
    }

    /// A matching write the joystick claims stops here; everything else
    /// goes on down the chain.
    open spec fn spec_write_io(v: Self::ChainView, port: u16, data: u8, ts: VideoTs) -> (
        Self::ChainView,
        Option<u16>,
    ) {
        if P::spec_match_port(port) {
            let (joy, claimed) = v.dev.spec_port_write(port, data);
            if claimed {
                (DevView { dev: joy, bus: v.bus }, Some(0u16))
            } else {
                let (bus, bus_r) = D::spec_write_io(v.bus, port, data, ts);
                (DevView { dev: joy, bus }, bus_r)
            }
        } else {
            let (bus, bus_r) = D::spec_write_io(v.bus, port, data, ts);
            (DevView { dev: v.dev, bus }, bus_r)
        }
    }

    fn next_device_ref(&self) -> (r: &D) {
        &self.bus
    }

    fn next_device_mut(&mut self) -> (r: &mut D) {
        &mut self.bus
    }

    fn reset(&mut self, timestamp: VideoTs) {
        self.bus.reset(timestamp);
    }

    fn update_timestamp(&mut self, timestamp: VideoTs) {
        self.bus.update_timestamp(timestamp);
    }

    fn next_frame(&mut self, timestamp: VideoTs) {
        self.bus.next_frame(timestamp);
    }

    fn read_io(&mut self, port: u16, timestamp: VideoTs) -> (r: Option<(u8, Option<u16>)>) {
        let bus_data = self.bus.read_io(port, timestamp);
        if P::match_port(port) {
            let joy_data = self.joystick.port_read(port);
            match bus_data {
                Some((data, ws)) => Some((data & joy_data, ws)),
                None => Some((joy_data, None)),
            }
        } else {
            bus_data
        }
    }

    fn write_io(&mut self, port: u16, data: u8, timestamp: VideoTs) -> (r: Option<u16>) {
        if P::match_port(port) {
            if self.joystick.port_write(port, data) {
                return Some(0);
            }
        }
        self.bus.write_io(port, data, timestamp)
    }
}

/// An enum of the joystick device variants a [`MultiJoystickBusDevice`]
/// can switch between; `Sinclair` carries two joysticks.
#[derive(Clone, Copy, PartialEq, Eq, Structural, Debug)]
pub enum JoystickSelect {
    Kempston(KempstonJoystickDevice),
    Fuller(FullerJoystickDevice),
    Sinclair(
        SinclairJoystickDevice<SinclairJoyLeftMap>,
        SinclairJoystickDevice<SinclairJoyRightMap>,
    ),
    Cursor(CursorJoystickDevice),
}

impl Default for JoystickSelect {
    fn default() -> (r: Self)
        ensures
            r == JoystickSelect::Kempston(
                KempstonJoystickDevice { state: JoystickState { buttons: 0u8 } },
            ),
    {
        JoystickSelect::Kempston(KempstonJoystickDevice { state: JoystickState { buttons: 0 } })
    }
}

/// An error returned when parsing an unrecognized joystick name.
#[derive(Clone, Copy, PartialEq, Eq, Structural, Debug)]
pub struct ParseJoystickSelectError;

/// An error carrying the unrecognized joystick name that was offered.
#[derive(Clone, PartialEq, Eq, Debug)]
pub struct TryFromStrJoystickSelectError(pub String);

/// Lower-cases one ASCII byte.
pub open spec fn spec_lower(b: u8) -> u8 {
    if 0x41 <= b <= 0x5a {
        (b + 0x20) as u8
    } else {
        b
    }
}

fn lower(b: u8) -> (r: u8)
    ensures
        r == spec_lower(b),
{
    if 0x41 <= b && b <= 0x5a {
        b + 0x20
    } else {
        b
    }
}

/// Whether the bytes spell the target, ASCII case aside. The target is
/// given lower-case.
pub open spec fn spec_name_is(s: Seq<u8>, target: Seq<u8>) -> bool {
    s.len() == target.len() && (forall|i: int|
        0 <= i < s.len() ==> spec_lower(s[i]) == target[i])
}

fn name_is(s: &[u8], target: &[u8]) -> (r: bool)
    ensures
        r == spec_name_is(s@, target@),
{
    if s.len() != target.len() {
        return false;
    }
    let n = s.len();
    let mut i: usize = 0;
    while i < n
        invariant
            i <= n,
            n == s@.len(),
            n == target@.len(),
            forall|j: int| 0 <= j < i ==> spec_lower(s@[j]) == target@[j],
        decreases n - i,
    {
        if lower(s[i]) != target[i] {
            return false;
        }
        i = i + 1;
    }
    true
}

/// The joystick variant (and its joystick count) a name selects:
/// `Kempston`, `Fuller`, `Cursor` (also `Protek` or `AGF`) or `Sinclair`
/// (also `Interface II`, `Interface 2`, `IF II` or `IF 2`), all ASCII
/// case-insensitive.
pub open spec fn spec_new_from_name(s: Seq<u8>) -> Option<(JoystickSelect, usize)> {
    let kempston = JoystickSelect::Kempston(
        KempstonJoystickDevice { state: JoystickState { buttons: 0u8 } },
    );
    let fuller = JoystickSelect::Fuller(
        FullerJoystickDevice { state: JoystickState { buttons: 0u8 } },
    );
    let cursor = JoystickSelect::Cursor(
        CursorJoystickDevice { state: JoystickState { buttons: 0u8 } },
    );
    let sinclair = JoystickSelect::Sinclair(
        SinclairJoystickDevice { state: JoystickState { buttons: 0u8 }, map: SinclairJoyLeftMap },
        SinclairJoystickDevice { state: JoystickState { buttons: 0u8 }, map: SinclairJoyRightMap },
    );
    if spec_name_is(s, spec_kempston_name()) {
        Some((kempston, 1usize))
    } else if spec_name_is(s, spec_fuller_name()) {
        Some((fuller, 1usize))
    } else if spec_name_is(s, spec_cursor_name()) || spec_name_is(s, spec_protek_name())
        || spec_name_is(s, spec_agf_name()) {
        Some((cursor, 1usize))
    } else if spec_name_is(s, spec_sinclair_name()) || spec_name_is(s, spec_interface_ii_name())
        || spec_name_is(s, spec_interface_2_name()) || spec_name_is(s, spec_if_ii_name())
        || spec_name_is(s, spec_if_2_name()) {
        Some((sinclair, 2usize))
    } else {
        None
    }
}

pub open spec fn spec_kempston_name() -> Seq<u8> {
    seq![107u8, 101u8, 109u8, 112u8, 115u8, 116u8, 111u8, 110u8]
}

pub open spec fn spec_fuller_name() -> Seq<u8> {
    seq![102u8, 117u8, 108u8, 108u8, 101u8, 114u8]
}

pub open spec fn spec_cursor_name() -> Seq<u8> {
    seq![99u8, 117u8, 114u8, 115u8, 111u8, 114u8]
}

pub open spec fn spec_protek_name() -> Seq<u8> {
    seq![112u8, 114u8, 111u8, 116u8, 101u8, 107u8]
}

pub open spec fn spec_agf_name() -> Seq<u8> {
    seq![97u8, 103u8, 102u8]
}

pub open spec fn spec_sinclair_name() -> Seq<u8> {
    seq![115u8, 105u8, 110u8, 99u8, 108u8, 97u8, 105u8, 114u8]
}

pub open spec fn spec_interface_ii_name() -> Seq<u8> {
    seq![
        105u8,
        110u8,
        116u8,
        101u8,
        114u8,
        102u8,
        97u8,
        99u8,
        101u8,
        32u8,
        105u8,
        105u8,
    ]
}

pub open spec fn spec_interface_2_name() -> Seq<u8> {
    seq![105u8, 110u8, 116u8, 101u8, 114u8, 102u8, 97u8, 99u8, 101u8, 32u8, 50u8]
}

pub open spec fn spec_if_ii_name() -> Seq<u8> {
    seq![105u8, 102u8, 32u8, 105u8, 105u8]
}

pub open spec fn spec_if_2_name() -> Seq<u8> {
    seq![105u8, 102u8, 32u8, 50u8]
}

fn kempston_name() -> (r: Vec<u8>)
    ensures
        r@ == spec_kempston_name(),
{
    let mut v: Vec<u8> = Vec::new();
    v.push(107);
    v.push(101);
    v.push(109);
    v.push(112);
    v.push(115);
    v.push(116);
    v.push(111);
    v.push(110);
    proof {
        assert(v@ =~= spec_kempston_name());
    }
    v
}

fn fuller_name() -> (r: Vec<u8>)
    ensures
        r@ == spec_fuller_name(),
{
    let mut v: Vec<u8> = Vec::new();
    v.push(102);
    v.push(117);
    v.push(108);
    v.push(108);
    v.push(101);
    v.push(114);
    proof {
        assert(v@ =~= spec_fuller_name());
    }
    v
}

fn cursor_name() -> (r: Vec<u8>)
    ensures
        r@ == spec_cursor_name(),
{
    let mut v: Vec<u8> = Vec::new();
    v.push(99);
    v.push(117);
    v.push(114);
    v.push(115);
    v.push(111);
    v.push(114);
    proof {
        assert(v@ =~= spec_cursor_name());
    }
    v
}

fn protek_name() -> (r: Vec<u8>)
    ensures
        r@ == spec_protek_name(),
{
    let mut v: Vec<u8> = Vec::new();
    v.push(112);
    v.push(114);
    v.push(111);
    v.push(116);
    v.push(101);
    v.push(107);
    proof {
        assert(v@ =~= spec_protek_name());
    }
    v
}

fn agf_name() -> (r: Vec<u8>)
    ensures
        r@ == spec_agf_name(),
{
    let mut v: Vec<u8> = Vec::new();
    v.push(97);
    v.push(103);
    v.push(102);
    proof {
        assert(v@ =~= spec_agf_name());
    }
    v
}

fn sinclair_name() -> (r: Vec<u8>)
    ensures
        r@ == spec_sinclair_name(),
{
    let mut v: Vec<u8> = Vec::new();
    v.push(115);
    v.push(105);
    v.push(110);
    v.push(99);
    v.push(108);
    v.push(97);
    v.push(105);
    v.push(114);
    proof {
        assert(v@ =~= spec_sinclair_name());
    }
    v
}

fn interface_ii_name() -> (r: Vec<u8>)
    ensures
        r@ == spec_interface_ii_name(),
{
    let mut v: Vec<u8> = Vec::new();
    v.push(105);
    v.push(110);
    v.push(116);
    v.push(101);
    v.push(114);
    v.push(102);
    v.push(97);
    v.push(99);
    v.push(101);
    v.push(32);
    v.push(105);
    v.push(105);
    proof {
        assert(v@ =~= spec_interface_ii_name());
    }
    v
}

fn interface_2_name() -> (r: Vec<u8>)
    ensures
        r@ == spec_interface_2_name(),
{
    let mut v: Vec<u8> = Vec::new();
    v.push(105);
    v.push(110);
    v.push(116);
    v.push(101);
    v.push(114);
    v.push(102);
    v.push(97);
    v.push(99);
    v.push(101);
    v.push(32);
    v.push(50);
    proof {
        assert(v@ =~= spec_interface_2_name());
    }
    v
}

fn if_ii_name() -> (r: Vec<u8>)
    ensures
        r@ == spec_if_ii_name(),
{
    let mut v: Vec<u8> = Vec::new();
    v.push(105);
    v.push(102);
    v.push(32);
    v.push(105);
    v.push(105);
    proof {
        assert(v@ =~= spec_if_ii_name());
    }
    v
}

fn if_2_name() -> (r: Vec<u8>)
    ensures
        r@ == spec_if_2_name(),
{
    let mut v: Vec<u8> = Vec::new();
    v.push(105);
    v.push(102);
    v.push(32);
    v.push(50);
    proof {
        assert(v@ =~= spec_if_2_name());
    }
    v
}

/// The state of the joystick the variant exposes at `index`, if any.
pub open spec fn spec_interface_state(joy: JoystickSelect, index: usize) -> Option<JoystickState> {
    match joy {
        JoystickSelect::Kempston(j) => if index == 0 {
            Some(j.state)
        } else {
            None
        },
        JoystickSelect::Fuller(j) => if index == 0 {
            Some(j.state)
        } else {
            None
        },
        JoystickSelect::Sinclair(j1, j2) => if index == 0 {
            Some(j1.state)
        } else if index == 1 {
            Some(j2.state)
        } else {
            None
        },
        JoystickSelect::Cursor(j) => if index == 0 {
            Some(j.state)
        } else {
            None
        },
    }
}

/// The variant with the joystick state at `index` replaced.
pub open spec fn spec_with_interface_state(
    joy: JoystickSelect,
    index: usize,
    st: JoystickState,
) -> JoystickSelect {
    match joy {
        JoystickSelect::Kempston(j) => if index == 0 {
            JoystickSelect::Kempston(KempstonJoystickDevice { state: st })
        } else {
            joy
        },
        JoystickSelect::Fuller(j) => if index == 0 {
            JoystickSelect::Fuller(FullerJoystickDevice { state: st })
        } else {
            joy
        },
        JoystickSelect::Sinclair(j1, j2) => if index == 0 {
            JoystickSelect::Sinclair(SinclairJoystickDevice { state: st, map: j1.map }, j2)
        } else if index == 1 {
            JoystickSelect::Sinclair(j1, SinclairJoystickDevice { state: st, map: j2.map })
        } else {
            joy
        },
        JoystickSelect::Cursor(j) => if index == 0 {
            JoystickSelect::Cursor(CursorJoystickDevice { state: st })
        } else {
            joy
        },
    }
}

/// The byte the selected joystick variant drives for a read of `port`,
/// if the variant decodes it; `Sinclair` may combine both its joysticks
/// wired-AND.
pub open spec fn spec_joy_read(joy: JoystickSelect, port: u16) -> Option<u8> {
    match joy {
        JoystickSelect::Kempston(j) => if KempstonJoyPortAddress::spec_match_port(port) {
            Some(j.spec_port_read(port))
        } else {
            None
        },
        JoystickSelect::Fuller(j) => if FullerJoyPortAddress::spec_match_port(port) {
            Some(j.spec_port_read(port))
        } else {
            None
        },
        JoystickSelect::Sinclair(j1, j2) => {
            let d1 = if SinclairLeftJoyPortAddress::spec_match_port(port) {
                Some(j1.spec_port_read(port))
            } else {
                None
            };
            let d2 = if SinclairRightJoyPortAddress::spec_match_port(port) {
                Some(j2.spec_port_read(port))
            } else {
                None
            };
            match (d1, d2) {
                (Some(a), Some(b)) => Some(a & b),
                (Some(a), None) => Some(a),
                (None, Some(b)) => Some(b),
                (None, None) => None,
            }
        },
        JoystickSelect::Cursor(j) => if CursorJoyPortAddress::spec_match_port(port) {
            Some(j.spec_port_read(port))
        } else {
            None
        },
    }
}

impl JoystickSelect {
    /// The largest `global_index` accepted by [`JoystickSelect::new_with_index`].
    pub fn max_global_index() -> (r: usize)
        ensures
            r == 4,
    {
        4
    }

    /// Creates a joystick variant from a name, with the number of
    /// joysticks the variant carries.
    pub fn new_from_name(name: &str) -> (r: Option<(JoystickSelect, usize)>)
        ensures
            r == spec_new_from_name(name.spec_bytes()),
    {
        let bytes = name.as_bytes();
        if name_is(bytes, kempston_name().as_slice()) {
            Some((JoystickSelect::Kempston(KempstonJoystickDevice { state: JoystickState { buttons: 0 } }), 1))
        } else if name_is(bytes, fuller_name().as_slice()) {
            Some((JoystickSelect::Fuller(FullerJoystickDevice { state: JoystickState { buttons: 0 } }), 1))
        } else if name_is(bytes, cursor_name().as_slice()) || name_is(
            bytes,
            protek_name().as_slice(),
        ) || name_is(bytes, agf_name().as_slice()) {
            Some((JoystickSelect::Cursor(CursorJoystickDevice { state: JoystickState { buttons: 0 } }), 1))
        } else if name_is(bytes, sinclair_name().as_slice()) || name_is(
            bytes,
            interface_ii_name().as_slice(),
        ) || name_is(bytes, interface_2_name().as_slice()) || name_is(
            bytes,
            if_ii_name().as_slice(),
        ) || name_is(bytes, if_2_name().as_slice()) {
            Some(
                (
                    JoystickSelect::Sinclair(
                        SinclairJoystickDevice {
                            state: JoystickState { buttons: 0 },
                            map: SinclairJoyLeftMap,
                        },
                        SinclairJoystickDevice {
                            state: JoystickState { buttons: 0 },
                            map: SinclairJoyRightMap,
                        },
                    ),
                    2,
                ),
            )
        } else {
            None
        }
    }

    /// Creates a joystick variant from a global joystick index 0 to 4,
    /// with the index of the selected joystick within the variant.
    pub fn new_with_index(global_index: usize) -> (r: Option<(JoystickSelect, usize)>)
        ensures
            global_index == 0 ==> (r matches Some((j, i)) && j is Kempston && i == 0),
            global_index == 1 ==> (r matches Some((j, i)) && j is Fuller && i == 0),
            global_index == 2 ==> (r matches Some((j, i)) && j is Sinclair && i == 0),
            global_index == 3 ==> (r matches Some((j, i)) && j is Sinclair && i == 1),
            global_index == 4 ==> (r matches Some((j, i)) && j is Cursor && i == 0),
            global_index > 4 ==> r is None,
    {
        match global_index {
            0 => Some((JoystickSelect::Kempston(KempstonJoystickDevice { state: JoystickState { buttons: 0 } }), 0)),
            1 => Some((JoystickSelect::Fuller(FullerJoystickDevice { state: JoystickState { buttons: 0 } }), 0)),
            2 => Some(
                (
                    JoystickSelect::Sinclair(
                        SinclairJoystickDevice {
                            state: JoystickState { buttons: 0 },
                            map: SinclairJoyLeftMap,
                        },
                        SinclairJoystickDevice {
                            state: JoystickState { buttons: 0 },
                            map: SinclairJoyRightMap,
                        },
                    ),
                    0,
                ),
            ),
            3 => Some(
                (
                    JoystickSelect::Sinclair(
                        SinclairJoystickDevice {
                            state: JoystickState { buttons: 0 },
                            map: SinclairJoyLeftMap,
                        },
                        SinclairJoystickDevice {
                            state: JoystickState { buttons: 0 },
                            map: SinclairJoyRightMap,
                        },
                    ),
                    1,
                ),
            ),
            4 => Some((JoystickSelect::Cursor(CursorJoystickDevice { state: JoystickState { buttons: 0 } }), 0)),
            _ => None,
        }
    }

    /// How many joysticks the current variant carries.
    pub fn len(&self) -> (r: usize)
        ensures
            r == if self is Sinclair {
                2int
            } else {
                1int
            },
    {
        match self {
            JoystickSelect::Sinclair(..) => 2,
            _ => 1,
        }
    }

    /// User-input access to the joystick at `index` within the variant.
    pub fn joystick_interface(&mut self, index: usize) -> (r: Option<&mut JoystickState>)
        ensures
            spec_interface_state(*old(self), index) is None ==> r is None && *final(self) == *old(
                self,
            ),
            (spec_interface_state(*old(self), index) matches Some(s0) ==> r matches Some(st)
                && *st == s0 && *final(self) == spec_with_interface_state(
                *old(self),
                index,
                *final(st),
            )),
    {
        match self {
            JoystickSelect::Kempston(j) => if index == 0 {
                Some(&mut j.state)
            } else {
                None
            },
            JoystickSelect::Fuller(j) => if index == 0 {
                Some(&mut j.state)
            } else {
                None
            },
            JoystickSelect::Sinclair(j1, j2) => if index == 0 {
                Some(&mut j1.state)
            } else if index == 1 {
                Some(&mut j2.state)
            } else {
                None
            },
            JoystickSelect::Cursor(j) => if index == 0 {
                Some(&mut j.state)
            } else {
                None
            },
        }
    }

    /// Cycles to the next joystick: within a multi-joystick variant the
    /// next index, then the next variant in the fixed rotation
    /// `Kempston`, `Fuller`, `Sinclair`, `Cursor` and around; returns
    /// the index of the newly selected joystick.
    pub fn select_next_joystick(&mut self, index: usize) -> (r: usize)
        ensures
            *old(self) is Kempston ==> *final(self) == JoystickSelect::Fuller(
                FullerJoystickDevice { state: JoystickState { buttons: 0u8 } },
            ) && r == 0,
            *old(self) is Fuller ==> *final(self) == JoystickSelect::Sinclair(
                SinclairJoystickDevice {
                    state: JoystickState { buttons: 0u8 },
                    map: SinclairJoyLeftMap,
                },
                SinclairJoystickDevice {
                    state: JoystickState { buttons: 0u8 },
                    map: SinclairJoyRightMap,
                },
            ) && r == 0,
            *old(self) is Sinclair && index == 0 ==> *final(self) == *old(self) && r == 1,
            *old(self) is Sinclair && index != 0 ==> *final(self) == JoystickSelect::Cursor(
                CursorJoystickDevice { state: JoystickState { buttons: 0u8 } },
            ) && r == 0,
            *old(self) is Cursor ==> *final(self) == JoystickSelect::Kempston(
                KempstonJoystickDevice { state: JoystickState { buttons: 0u8 } },
            ) && r == 0,
    {
        match self {
            JoystickSelect::Kempston(..) => {
                *self = JoystickSelect::Fuller(FullerJoystickDevice { state: JoystickState { buttons: 0 } });
                0
            },
            JoystickSelect::Fuller(..) => {
                *self = JoystickSelect::Sinclair(
                    SinclairJoystickDevice {
                        state: JoystickState { buttons: 0 },
                        map: SinclairJoyLeftMap,
                    },
                    SinclairJoystickDevice {
                        state: JoystickState { buttons: 0 },
                        map: SinclairJoyRightMap,
                    },
                );
                0
            },
            JoystickSelect::Sinclair(..) => {
                if index == 0 {
                    return 1;
                }
                *self = JoystickSelect::Cursor(CursorJoystickDevice { state: JoystickState { buttons: 0 } });
                0
            },
            JoystickSelect::Cursor(..) => {
                *self = JoystickSelect::Kempston(KempstonJoystickDevice { state: JoystickState { buttons: 0 } });
                0
            },
        }
    }

    /// Whether the variant is the last of the rotation.
    pub fn is_last(&self) -> (r: bool)
        ensures
            r == self is Cursor,
    {
        self.is_cursor()
    }

    pub fn is_kempston(&self) -> (r: bool)
        ensures
            r == self is Kempston,
    {
        match self {
            JoystickSelect::Kempston(..) => true,
            _ => false,
        }
    }

    pub fn is_fuller(&self) -> (r: bool)
        ensures
            r == self is Fuller,
    {
        match self {
            JoystickSelect::Fuller(..) => true,
            _ => false,
        }
    }

    pub fn is_sinclair(&self) -> (r: bool)
        ensures
            r == self is Sinclair,
    {
        match self {
            JoystickSelect::Sinclair(..) => true,
            _ => false,
        }
    }

    pub fn is_cursor(&self) -> (r: bool)
        ensures
            r == self is Cursor,
    {
        match self {
            JoystickSelect::Cursor(..) => true,
            _ => false,
        }
    }

    /// The variant's display name.
    pub fn name(&self) -> (r: &'static str) {
        match self {
            JoystickSelect::Kempston(..) => "Kempston",
            JoystickSelect::Fuller(..) => "Fuller",
            JoystickSelect::Sinclair(..) => "Sinclair",
            JoystickSelect::Cursor(..) => "Cursor",
        }
    }

    /// The byte the variant drives for a read of `port`, if it decodes
    /// the port.
    pub fn joy_read(&self, port: u16) -> (r: Option<u8>)
        ensures
            r == spec_joy_read(*self, port),
    {
        match self {
            JoystickSelect::Kempston(j) => if KempstonJoyPortAddress::match_port(port) {
                Some(j.port_read(port))
            } else {
                None
            },
            JoystickSelect::Fuller(j) => if FullerJoyPortAddress::match_port(port) {
                Some(j.port_read(port))
            } else {
                None
            },
            JoystickSelect::Sinclair(j1, j2) => {
                let d1 = if SinclairLeftJoyPortAddress::match_port(port) {
                    Some(j1.port_read(port))
                } else {
                    None
                };
                let d2 = if SinclairRightJoyPortAddress::match_port(port) {
                    Some(j2.port_read(port))
                } else {
                    None
                };
                match (d1, d2) {
                    (Some(a), Some(b)) => Some(a & b),
                    (Some(a), None) => Some(a),
                    (None, Some(b)) => Some(b),
                    (None, None) => None,
                }
            },
            JoystickSelect::Cursor(j) => if CursorJoyPortAddress::match_port(port) {
                Some(j.port_read(port))
            } else {
                None
            },
        }
    }

    /// Parses a joystick name, keeping the name in the error.
    pub fn try_from_name(name: &str) -> (r: Result<JoystickSelect, TryFromStrJoystickSelectError>)
        ensures
            spec_new_from_name(name.spec_bytes()) matches Some((j, n)) ==> r matches Ok(joy)
                && joy == j,
            spec_new_from_name(name.spec_bytes()) is None ==> r is Err,
    {
        match JoystickSelect::new_from_name(name) {
            Some((joy, _)) => Ok(joy),
            None => Err(TryFromStrJoystickSelectError(name.to_owned())),
        }
    }
}

impl core::str::FromStr for JoystickSelect {
    type Err = ParseJoystickSelectError;

    fn from_str(name: &str) -> Result<Self, Self::Err> {
        match JoystickSelect::new_from_name(name) {
            Some((joy, _)) => Ok(joy),
            None => Err(ParseJoystickSelectError),
        }
    }
}

/// A selectable joystick controller: holds one [`JoystickSelect`] and
/// answers matching reads with the selected joystick's byte, wired-AND
/// with whatever the rest of the chain drives.
#[derive(Debug)]
pub struct MultiJoystickBusDevice<D> {
    /// The selected joystick variant.
    pub joystick: JoystickSelect,
    pub bus: D,
}

impl<D> MultiJoystickBusDevice<D> {
    pub fn new_with(joystick: JoystickSelect, bus: D) -> (r: Self)
        ensures
            r.joystick == joystick,
            r.bus == bus,
    {
        MultiJoystickBusDevice { joystick, bus }
    }
}

impl<D: Default> Default for MultiJoystickBusDevice<D> {
    fn default() -> (r: Self)
        ensures
            r.joystick is Kempston,
    {
        MultiJoystickBusDevice { joystick: JoystickSelect::default(), bus: D::default() }
    }
}

impl<D> PassByAyAudioBusDevice for MultiJoystickBusDevice<D> {

}

impl<D: BusDevice> BusDevice for MultiJoystickBusDevice<D> {
    type Timestamp = D::Timestamp;

    type NextDevice = D;

    type ChainView = DevView<JoystickSelect, D::ChainView>;

    open spec fn bus_view(self) -> Self::ChainView {
        DevView { dev: self.joystick, bus: self.bus.bus_view() }
    }

    open spec fn spec_next_device(self) -> D {
        self.bus
    }

    open spec fn spec_with_next(self, next: D) -> Self {
        MultiJoystickBusDevice { joystick: self.joystick, bus: next }
    }

    open spec fn spec_reset(v: Self::ChainView, ts: D::Timestamp) -> Self::ChainView {
        DevView { dev: v.dev, bus: D::spec_reset(v.bus, ts) }
    }

    open spec fn spec_update_timestamp(v: Self::ChainView, ts: D::Timestamp) -> Self::ChainView {
        DevView { dev: v.dev, bus: D::spec_update_timestamp(v.bus, ts) }
    }

    open spec fn spec_next_frame(v: Self::ChainView, ts: D::Timestamp) -> Self::ChainView {
        DevView { dev: v.dev, bus: D::spec_next_frame(v.bus, ts) }
    }

    /// A read the selected joystick decodes is wired-AND combined with
    /// any byte the rest of the chain drives.
    open spec fn spec_read_io(v: Self::ChainView, port: u16, ts: D::Timestamp) -> (
        Self::ChainView,
        Option<(u8, Option<u16>)>,
    ) {
        let (bus, bus_r) = D::spec_read_io(v.bus, port, ts);
        let s = DevView { dev: v.dev, bus };
        match spec_joy_read(v.dev, port) {
            Some(joy_data) => match bus_r {
                Some((data, ws)) => (s, Some((data & joy_data, ws))),
                None => (s, Some((joy_data, None))),
            },
            None => (s, bus_r),
        }
    }

    open spec fn spec_write_io(v: Self::ChainView, port: u16, data: u8, ts: D::Timestamp) -> (
        Self::ChainView,
        Option<u16>,
    ) {
        let (bus, bus_r) = D::spec_write_io(v.bus, port, data, ts);
        (DevView { dev: v.dev, bus }, bus_r)
    }

    fn next_device_ref(&self) -> (r: &D) {
        &self.bus
    }

    fn next_device_mut(&mut self) -> (r: &mut D) {
        &mut self.bus
    }

    fn reset(&mut self, timestamp: D::Timestamp) {
        self.bus.reset(timestamp);
    }

    fn update_timestamp(&mut self, timestamp: D::Timestamp) {
        self.bus.update_timestamp(timestamp);
    }

    fn next_frame(&mut self, timestamp: D::Timestamp) {
        self.bus.next_frame(timestamp);
    }

    fn read_io(&mut self, port: u16, timestamp: D::Timestamp) -> (r: Option<(u8, Option<u16>)>) {
        let bus_data = self.bus.read_io(port, timestamp);
        let joy_data = self.joystick.joy_read(port);
        match joy_data {
            Some(joy) => match bus_data {
                Some((data, ws)) => Some((data & joy, ws)),
                None => Some((joy, None)),
            },
            None => bus_data,
        }
    }

    fn write_io(&mut self, port: u16, data: u8, timestamp: D::Timestamp) -> (r: Option<u16>) {
        self.bus.write_io(port, data, timestamp)
    }
}

/// The wired-AND law of the chain: a port decoded by several joystick
/// controllers reads as the bitwise AND of every matching controller's
/// byte, together with whatever the rest of the chain drives.
pub proof fn lemma_wired_and_chain<P, J1, J2, D>(
    v: DevView<J1, DevView<J2, D::ChainView>>,
    port: u16,
    ts: VideoTs,
)
    where P: PortAddress, J1: JoystickDevice, J2: JoystickDevice, D: BusDevice<Timestamp = VideoTs>
    requires
        P::spec_match_port(port),
    ensures
        ({
            let r = JoystickBusDevice::<P, J1, JoystickBusDevice<P, J2, D>>::spec_read_io(
                v,
                port,
                ts,
            ).1;
            let rest = D::spec_read_io(v.bus.bus, port, ts).1;
            match rest {
                Some((data, ws)) => r == Some(
                    ((data & v.bus.dev.spec_port_read(port)) & v.dev.spec_port_read(port), ws),
                ),
                None => r == Some(
                    (
                        v.bus.dev.spec_port_read(port) & v.dev.spec_port_read(port),
                        None::<u16>,
                    ),
                ),
            }
        }),
{
}

} // verus!
