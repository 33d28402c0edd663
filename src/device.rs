use vstd::prelude::*;

use crate::error::CanError;

verus! {

/// The adapter families that share the USB CAN-FD native driver.
#[derive(Clone, Copy, Debug, PartialEq, Eq, Structural)]
pub enum DeviceFamily {
    UsbCan1,
    UsbCan2,
    UsbCanFd200U,
    UsbCanFd100U,
    UsbCanFdMini,
}

impl DeviceFamily {
    /// The device type code by which the native driver and the preset table name it.
    pub open spec fn spec_code(self) -> u32 {
        match self {
            DeviceFamily::UsbCan1 => 3,
            DeviceFamily::UsbCan2 => 4,
            DeviceFamily::UsbCanFd200U => 41,
            DeviceFamily::UsbCanFd100U => 42,
            DeviceFamily::UsbCanFdMini => 43,
        }
    }

    /// It transfers CAN-FD frames.
    pub open spec fn spec_fd(self) -> bool {
        self is UsbCanFd200U || self is UsbCanFd100U || self is UsbCanFdMini
    }

    /// It has LIN channels.
    pub open spec fn spec_lin(self) -> bool {
        self is UsbCanFd200U
    }

    /// Its bus termination can be switched.
    pub open spec fn spec_resistance(self) -> bool {
        self is UsbCanFd200U || self is UsbCanFd100U || self is UsbCanFdMini
    }

    /// It takes the generic get/set value mechanism.
    pub open spec fn spec_values(self) -> bool {
        self is UsbCanFd200U || self is UsbCanFd100U
    }

    pub fn code(&self) -> (r: u32)
        ensures
            r == self.spec_code(),
    {
        match self {
            DeviceFamily::UsbCan1 => 3,
            DeviceFamily::UsbCan2 => 4,
            DeviceFamily::UsbCanFd200U => 41,
            DeviceFamily::UsbCanFd100U => 42,
            DeviceFamily::UsbCanFdMini => 43,
        }
    }

    /// The family of a device type code, if it is one of these.
    pub fn from_code(code: u32) -> (r: Option<DeviceFamily>)
        ensures
            r matches Some(f) ==> f.spec_code() == code,
            r is None ==> forall|f: DeviceFamily| f.spec_code() != code,
    {
        match code {
            3 => Some(DeviceFamily::UsbCan1),
            4 => Some(DeviceFamily::UsbCan2),
            41 => Some(DeviceFamily::UsbCanFd200U),
            42 => Some(DeviceFamily::UsbCanFd100U),
            43 => Some(DeviceFamily::UsbCanFdMini),
            _ => None,
        }
    }

    pub fn canfd_support(&self) -> (r: bool)
        ensures
            r == self.spec_fd(),
    {
        match self {
            DeviceFamily::UsbCanFd200U | DeviceFamily::UsbCanFd100U
            | DeviceFamily::UsbCanFdMini => true,
            _ => false,
        }
    }

    pub fn lin_support(&self) -> (r: bool)
        ensures
            r == self.spec_lin(),
    {
        match self {
            DeviceFamily::UsbCanFd200U => true,
            _ => false,
        }
    }

    pub fn has_resistance(&self) -> (r: bool)
        ensures
            r == self.spec_resistance(),
    {
        match self {
            DeviceFamily::UsbCanFd200U | DeviceFamily::UsbCanFd100U
            | DeviceFamily::UsbCanFdMini => true,
            _ => false,
        }
    }

    pub fn get_value_support(&self) -> (r: bool)
        ensures
            r == self.spec_values(),
    {
        match self {
            DeviceFamily::UsbCanFd200U | DeviceFamily::UsbCanFd100U => true,
            _ => false,
        }
    }
}

/// Little-endian 16-bit value at offset `o`.
pub open spec fn le16(b: Seq<u8>, o: int) -> u16 {
    (b[o] + b[o + 1] * 256) as u16
}

/// Little-endian 32-bit value at offset `o`.
pub open spec fn le32(b: Seq<u8>, o: int) -> u32 {
    (b[o] + b[o + 1] * 256 + b[o + 2] * 65536 + b[o + 3] * 16777216) as u32
}

fn read_le16(b: &Vec<u8>, o: usize) -> (r: u16)
    requires
        o + 2 <= b@.len(),
    ensures
        r == le16(b@, o as int),
{
    let len = b.len();
    assert(o + 1 < len);
    let lo: u16 = b[o] as u16;
    let hi: u16 = b[o + 1] as u16;
    assert(lo <= 255 && hi <= 255);
    lo + hi * 256
}

fn read_le32(b: &Vec<u8>, o: usize) -> (r: u32)
    requires
        o + 4 <= b@.len(),
    ensures
        r == le32(b@, o as int),
{
    let len = b.len();
    assert(o + 3 < len);
    let b0: u32 = b[o] as u32;
    let b1: u32 = b[o + 1] as u32;
    let b2: u32 = b[o + 2] as u32;
    let b3: u32 = b[o + 3] as u32;
    assert(b0 <= 255 && b1 <= 255 && b2 <= 255 && b3 <= 255);
    b0 + b1 * 256 + b2 * 65536 + b3 * 16777216
}

fn copy_range(b: &Vec<u8>, from: usize, to: usize) -> (r: Vec<u8>)
    requires
        from <= to <= b@.len(),
    ensures
        r@ == b@.subrange(from as int, to as int),
{
    let mut v: Vec<u8> = Vec::new();
    let mut i: usize = from;
    while i < to
        invariant
            from <= i <= to <= b@.len(),
            v@ == b@.subrange(from as int, i as int),
        decreases to - i,
    {
        v.push(b[i]);
        i = i + 1;
    }
    v
}

/// Bytes of the board information record that the library reads.
pub const BOARD_INFO_LEN: usize = 71;
/// Bytes of the channel status record.
pub const CHANNEL_STATUS_LEN: usize = 8;
/// Bytes of the channel error record.
pub const CHANNEL_ERROR_LEN: usize = 8;

/// What a device reports of itself.
#[derive(Clone, Debug, PartialEq, Eq)]
pub struct DeviceInfo {
    pub hardware_version: u16,
    pub firmware_version: u16,
    pub driver_version: u16,
    pub api_version: u16,
    pub irq_num: u16,
    pub can_channels: u8,
    pub serial: Vec<u8>,
    pub hw_type: Vec<u8>,
    pub fd: bool,
}

impl DeviceInfo {
    /// The fields are those that the board information record `b` holds, and `fd`.
    pub open spec fn parsed_from(&self, b: Seq<u8>, fd: bool) -> bool {
        &&& self.hardware_version == le16(b, 0)
        &&& self.firmware_version == le16(b, 2)
        &&& self.driver_version == le16(b, 4)
        &&& self.api_version == le16(b, 6)
        &&& self.irq_num == le16(b, 8)
        &&& self.can_channels == b[10]
        &&& self.serial@ == b.subrange(11, 31)
        &&& self.hw_type@ == b.subrange(31, 71)
        &&& self.fd == fd
    }

    /// Reads the board information record: five little-endian 16-bit versions and
    /// counters, the CAN channel count, 20 bytes of serial number and 40 of hardware
    /// type; `fd` says whether the device's family transfers CAN-FD frames. Fails with
    /// `InvalidLength` where the record is shorter than `BOARD_INFO_LEN`.
    pub fn from_record(b: &Vec<u8>, fd: bool) -> (r: Result<DeviceInfo, CanError>)
        ensures
            b@.len() < BOARD_INFO_LEN ==> r == Err::<DeviceInfo, CanError>(
                CanError::InvalidLength(b@.len() as usize),
            ),
            b@.len() >= BOARD_INFO_LEN ==> (r matches Ok(i) && i.parsed_from(b@, fd)),
    {
        if b.len() < BOARD_INFO_LEN {
            return Err(CanError::InvalidLength(b.len()));
        }
        Ok(
            DeviceInfo {
                hardware_version: read_le16(b, 0),
                firmware_version: read_le16(b, 2),
                driver_version: read_le16(b, 4),
                api_version: read_le16(b, 6),
                irq_num: read_le16(b, 8),
                can_channels: b[10],
                serial: copy_range(b, 11, 31),
                hw_type: copy_range(b, 31, 71),
                fd,
            },
        )
    }

    pub fn can_channels(&self) -> (r: u8)
        ensures
            r == self.can_channels,
    {
        self.can_channels
    }

    pub fn canfd(&self) -> (r: bool)
        ensures
            r == self.fd,
    {
        self.fd
    }
}

/// The controller status of a channel.
#[derive(Clone, Copy, Debug, PartialEq, Eq, Structural)]
pub struct ChannelStatus {
    pub err_interrupt: u8,
    pub reg_mode: u8,
    pub reg_status: u8,
    pub reg_al_capture: u8,
    pub reg_ec_capture: u8,
    pub reg_ew_limit: u8,
    pub rx_errors: u8,
    pub tx_errors: u8,
}

impl ChannelStatus {
    /// Reads the eight status registers in order; `InvalidLength` where the record is
    /// shorter than `CHANNEL_STATUS_LEN`.
    pub fn from_record(b: &Vec<u8>) -> (r: Result<ChannelStatus, CanError>)
        ensures
            b@.len() < CHANNEL_STATUS_LEN ==> r == Err::<ChannelStatus, CanError>(
                CanError::InvalidLength(b@.len() as usize),
            ),
            b@.len() >= CHANNEL_STATUS_LEN ==> r == Ok::<ChannelStatus, CanError>(
                ChannelStatus {
                    err_interrupt: b@[0],
                    reg_mode: b@[1],
                    reg_status: b@[2],
                    reg_al_capture: b@[3],
                    reg_ec_capture: b@[4],
                    reg_ew_limit: b@[5],
                    rx_errors: b@[6],
                    tx_errors: b@[7],
                },
            ),
    {
        if b.len() < CHANNEL_STATUS_LEN {
            return Err(CanError::InvalidLength(b.len()));
        }
        Ok(
            ChannelStatus {
                err_interrupt: b[0],
                reg_mode: b[1],
                reg_status: b[2],
                reg_al_capture: b[3],
                reg_ec_capture: b[4],
                reg_ew_limit: b[5],
                rx_errors: b[6],
                tx_errors: b[7],
            },
        )
    }

    /// The controller has left the bus: the top bit of the status register.
    pub fn bus_off(&self) -> (r: bool)
        ensures
            r == (self.reg_status >= 0x80),
    {
        self.reg_status >= 0x80
    }
}

/// The last error that a channel recorded.
#[derive(Clone, Copy, Debug, PartialEq, Eq, Structural)]
pub struct ChannelErrorInfo {
    pub error_code: u32,
    pub passive_rx: u8,
    pub passive_tx: u8,
    pub passive_code: u8,
    pub arbitration_lost: u8,
}

impl ChannelErrorInfo {
    /// Reads a little-endian error code, three passive-error bytes and the arbitration
    /// lost byte; `InvalidLength` where the record is shorter than `CHANNEL_ERROR_LEN`.
    pub fn from_record(b: &Vec<u8>) -> (r: Result<ChannelErrorInfo, CanError>)
        ensures
            b@.len() < CHANNEL_ERROR_LEN ==> r == Err::<ChannelErrorInfo, CanError>(
                CanError::InvalidLength(b@.len() as usize),
            ),
            b@.len() >= CHANNEL_ERROR_LEN ==> r == Ok::<ChannelErrorInfo, CanError>(
                ChannelErrorInfo {
                    error_code: le32(b@, 0),
                    passive_rx: b@[4],
                    passive_tx: b@[5],
                    passive_code: b@[6],
                    arbitration_lost: b@[7],
                },
            ),
    {
        if b.len() < CHANNEL_ERROR_LEN {
            return Err(CanError::InvalidLength(b.len()));
        }
        Ok(
            ChannelErrorInfo {
                error_code: read_le32(b, 0),
                passive_rx: b[4],
                passive_tx: b[5],
                passive_code: b[6],
                arbitration_lost: b[7],
            },
        )
    }
}

/// Whether a CAN channel has been set up.
#[derive(Clone, Copy, Debug, PartialEq, Eq, Structural)]
pub enum ChannelState {
    /// Not initialised since the device was opened.
    Idle,
    /// Initialised but stopped (after a reset).
    Initialized,
    /// Initialised and started: frames can be transferred.
    Started,
}

/// The value of channel `ch` in a list of channel entries: the last entry wins, and a
/// channel without an entry has the default `d`.
pub open spec fn lookup_channel<T>(s: Seq<(u8, T)>, ch: u8, d: T) -> T
    decreases s.len(),
{
    if s.len() == 0 {
        d
    } else if s.last().0 == ch {
        s.last().1
    } else {
        lookup_channel(s.drop_last(), ch, d)
    }
}

fn find_channel<T: Copy>(s: &Vec<(u8, T)>, ch: u8, d: T) -> (r: T)
    ensures
        r == lookup_channel(s@, ch, d),
{
    let mut i: usize = s.len();
    assert(s@.subrange(0, i as int) =~= s@);
    while i > 0
        invariant
            i <= s@.len(),
            lookup_channel(s@, ch, d) == lookup_channel(s@.subrange(0, i as int), ch, d),
        decreases i,
    {
        assert(s@.subrange(0, i as int).drop_last() =~= s@.subrange(0, i - 1));
        if s[i - 1].0 == ch {
            return s[i - 1].1;
        }
        i = i - 1;
    }
    d
}

/// One device: its family, its index, whether it is open, and the state of each of its
/// CAN and LIN channels. The channel states live here, so that closing the device
/// reaches every channel derived from it.
#[derive(Debug)]
pub struct DeviceContext {
    family: DeviceFamily,
    index: u32,
    opened: bool,
    can: Vec<(u8, ChannelState)>,
    lin: Vec<(u8, bool)>,
}

impl DeviceContext {
    pub closed spec fn spec_family(&self) -> DeviceFamily {
        self.family
    }

    pub closed spec fn spec_index(&self) -> u32 {
        self.index
    }

    pub closed spec fn spec_opened(&self) -> bool {
        self.opened
    }

    /// The state of CAN channel `ch`.
    pub closed spec fn can_state(&self, ch: u8) -> ChannelState {
        lookup_channel(self.can@, ch, ChannelState::Idle)
    }

    /// LIN channel `ch` is started.
    pub closed spec fn lin_on(&self, ch: u8) -> bool {
        lookup_channel(self.lin@, ch, false)
    }

    /// No channel of the device is set up.
    pub open spec fn all_idle(&self) -> bool {
        forall|c: u8| self.can_state(c) == ChannelState::Idle && !self.lin_on(c)
    }

    /// A closed context for the device of the given family and index.
    pub fn new(family: DeviceFamily, index: u32) -> (r: DeviceContext)
        ensures
            r.spec_family() == family,
            r.spec_index() == index,
            !r.spec_opened(),
            r.all_idle(),
    {
        DeviceContext { family, index, opened: false, can: Vec::new(), lin: Vec::new() }
    }

    pub fn family(&self) -> (r: DeviceFamily)
        ensures
            r == self.spec_family(),
    {
        self.family
    }

    pub fn device_type(&self) -> (r: u32)
        ensures
            r == self.spec_family().spec_code(),
    {
        self.family.code()
    }

    pub fn device_index(&self) -> (r: u32)
        ensures
            r == self.spec_index(),
    {
        self.index
    }

    pub fn is_open(&self) -> (r: bool)
        ensures
            r == self.spec_opened(),
    {
        self.opened
    }

    pub fn channel_state(&self, ch: u8) -> (r: ChannelState)
        ensures
            r == self.can_state(ch),
    {
        find_channel(&self.can, ch, ChannelState::Idle)
    }

    pub fn lin_started(&self, ch: u8) -> (r: bool)
        ensures
            r == self.lin_on(ch),
    {
        find_channel(&self.lin, ch, false)
    }

    /// Opens or closes the device; either way every channel starts over idle.
    pub(crate) fn set_opened(&mut self, opened: bool)
        ensures
            final(self).spec_family() == old(self).spec_family(),
            final(self).spec_index() == old(self).spec_index(),
            final(self).spec_opened() == opened,
            final(self).all_idle(),
    {
        self.opened = opened;
        self.can = Vec::new();
        self.lin = Vec::new();
    }

    pub(crate) fn set_can_state(&mut self, ch: u8, state: ChannelState)
        ensures
            final(self).spec_family() == old(self).spec_family(),
            final(self).spec_index() == old(self).spec_index(),
            final(self).spec_opened() == old(self).spec_opened(),
            final(self).can_state(ch) == state,
            forall|c: u8| c != ch ==> final(self).can_state(c) == old(self).can_state(c),
            forall|c: u8| final(self).lin_on(c) == old(self).lin_on(c),
    {
        self.can.push((ch, state));
        assert(self.can@.drop_last() =~= old(self).can@);
    }

    pub(crate) fn set_lin_on(&mut self, ch: u8, on: bool)
        ensures
            final(self).spec_family() == old(self).spec_family(),
            final(self).spec_index() == old(self).spec_index(),
            final(self).spec_opened() == old(self).spec_opened(),
            final(self).lin_on(ch) == on,
            forall|c: u8| c != ch ==> final(self).lin_on(c) == old(self).lin_on(c),
            forall|c: u8| final(self).can_state(c) == old(self).can_state(c),
    {
        self.lin.push((ch, on));
        assert(self.lin@.drop_last() =~= old(self).lin@);
    }
}

/// A handle on one channel of a device: which device (family and index) and which
/// channel. Its state lives in the device context, which every operation takes.
#[derive(Clone, Copy, Debug, PartialEq, Eq, Structural)]
pub struct ChannelContext {
    family: DeviceFamily,
    index: u32,
    channel: u8,
}

impl ChannelContext {
    pub closed spec fn spec_family(&self) -> DeviceFamily {
        self.family
    }

    pub closed spec fn spec_index(&self) -> u32 {
        self.index
    }

    pub closed spec fn spec_channel(&self) -> u8 {
        self.channel
    }

    /// The device context is the one this channel was derived from.
    pub open spec fn of(&self, dev: &DeviceContext) -> bool {
        dev.spec_family() == self.spec_family() && dev.spec_index() == self.spec_index()
    }

    /// The channel's device is open: the channel may be used.
    pub open spec fn live(&self, dev: &DeviceContext) -> bool {
        self.of(dev) && dev.spec_opened()
    }

    /// The state of this CAN channel in its device.
    pub open spec fn state_in(&self, dev: &DeviceContext) -> ChannelState {
        dev.can_state(self.spec_channel())
    }

    /// Frames can be transferred on the CAN channel.
    pub open spec fn can_ready(&self, dev: &DeviceContext) -> bool {
        self.live(dev) && self.state_in(dev) == ChannelState::Started
    }

    /// Frames can be transferred on the LIN channel.
    pub open spec fn lin_ready(&self, dev: &DeviceContext) -> bool {
        self.live(dev) && dev.lin_on(self.spec_channel())
    }

    /// Channel `channel` of the device.
    pub fn new(device: &DeviceContext, channel: u8) -> (r: ChannelContext)
        ensures
            r.of(device),
            r.spec_channel() == channel,
    {
        ChannelContext { family: device.family(), index: device.device_index(), channel }
    }

    pub fn family(&self) -> (r: DeviceFamily)
        ensures
            r == self.spec_family(),
    {
        self.family
    }

    pub fn device_type(&self) -> (r: u32)
        ensures
            r == self.spec_family().spec_code(),
    {
        self.family.code()
    }

    pub fn device_index(&self) -> (r: u32)
        ensures
            r == self.spec_index(),
    {
        self.index
    }

    pub fn channel(&self) -> (r: u8)
        ensures
            r == self.spec_channel(),
    {
        self.channel
    }

    pub fn is_live(&self, dev: &DeviceContext) -> (r: bool)
        ensures
            r == self.live(dev),
    {
        self.family == dev.family() && self.index == dev.device_index() && dev.is_open()
    }

    pub fn state(&self, dev: &DeviceContext) -> (r: ChannelState)
        ensures
            r == self.state_in(dev),
    {
        dev.channel_state(self.channel)
    }
}

/// A channel can transfer frames only while the device it was derived from is open:
/// a closed device leaves every channel idle, and one that is not its own never counts.
pub proof fn lemma_ready_implies_open(ch: ChannelContext, dev: DeviceContext)
    ensures
        ch.can_ready(&dev) ==> dev.spec_opened() && ch.of(&dev),
        ch.lin_ready(&dev) ==> dev.spec_opened() && ch.of(&dev),
        !dev.spec_opened() ==> !ch.can_ready(&dev) && !ch.lin_ready(&dev),
{
}

} // verus!
