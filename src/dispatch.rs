use vstd::prelude::*;

use crate::device::{ChannelContext, ChannelState, DeviceContext, DeviceInfo};
use crate::error::{CanError, Failure, NativeFn, STATUS_OK};
use crate::frame::{decode, encode, from_hardware, readable, to_hardware, valid_len};
use crate::frame::{CanMessage, FrameKind, HardwareFrame};
use crate::config::{ChannelConfig, ExtraValue, CHANNEL_MODE, CHANNEL_TYPE};
use crate::timing::{PresetTable, TimingDescriptor};

verus! {

/// Bit of the channel argument of the pending-count call that asks for FD frames.
pub const FD_CHANNEL_BIT: u32 = 0x8000_0000;
/// Bytes that the native driver writes for a generic value.
pub const VALUE_BUFFER_LEN: usize = 16;
/// Vendor parameter that switches the bus termination of a channel.
pub const REFERENCE_RESISTANCE: u32 = 0x18;
/// Channel type: classic CAN.
pub const CHANNEL_TYPE_CAN: u8 = 0;
/// Channel type: CAN-FD after ISO 11898-1.
pub const CHANNEL_TYPE_CANFD_ISO: u8 = 1;
/// Channel type: CAN-FD before ISO standardisation.
pub const CHANNEL_TYPE_CANFD_NON_ISO: u8 = 2;
/// Channel mode: normal.
pub const CHANNEL_MODE_NORMAL: u8 = 0;
/// Channel mode: listen only.
pub const CHANNEL_MODE_LISTEN_ONLY: u8 = 1;
/// Most data bytes of a LIN frame.
pub const LIN_DATA_MAX: usize = 8;

/// The device, and the channel on it, that a native call is for.
#[derive(Clone, Copy, Debug, PartialEq, Eq, Structural)]
pub struct Target {
    pub dev_type: u32,
    pub dev_idx: u32,
    pub channel: u32,
}

/// The channel initialisation record of the native driver.
#[derive(Clone, Copy, Debug, PartialEq, Eq, Structural)]
pub struct FdInitConfig {
    /// Channel type: classic, FD ISO or FD non-ISO.
    pub can_type: u8,
    /// Channel mode: normal or listen-only.
    pub mode: u8,
    pub timing: TimingDescriptor,
}

/// The initialisation record of a LIN channel.
#[derive(Clone, Copy, Debug, PartialEq, Eq, Structural)]
pub struct LinConfig {
    pub master: bool,
    pub max_length: u8,
    pub baud: u32,
}

/// A LIN frame: protected identifier and up to eight data bytes.
#[derive(Clone, Debug, PartialEq, Eq)]
pub struct LinFrame {
    pub pid: u8,
    pub data: Vec<u8>,
}

/// A LIN subscription: which identifier to listen to, with what length and checksum.
#[derive(Clone, Copy, Debug, PartialEq, Eq, Structural)]
pub struct LinSubscribe {
    pub pid: u8,
    pub data_len: u8,
    pub checksum_mode: u8,
}

/// A LIN publication: which identifier to answer, with what data and checksum.
#[derive(Clone, Debug, PartialEq, Eq)]
pub struct LinPublish {
    pub pid: u8,
    pub data: Vec<u8>,
    pub checksum_mode: u8,
}

/// Which pending frames a count asks for.
#[derive(Clone, Copy, Debug, PartialEq, Eq, Structural)]
pub enum CountKind {
    Can,
    CanFd,
    All,
}

/// One call into the native driver, with all its arguments as plain values. The caller
/// performs it and hands the status (or count) it returned back to the library.
#[derive(Clone, Debug)]
pub enum NativeCall {
    OpenDevice { dev_type: u32, dev_idx: u32 },
    CloseDevice { dev_type: u32, dev_idx: u32 },
    ReadBoardInfo { dev_type: u32, dev_idx: u32 },
    SetReference { target: Target, cmd: u32, value: Vec<u8> },
    GetReference { target: Target, cmd: u32, len: usize },
    InitCan { target: Target, cfg: FdInitConfig },
    StartCan { target: Target },
    ResetCan { target: Target },
    ReadCanStatus { target: Target },
    ReadErrInfo { target: Target },
    ClearBuffer { target: Target },
    GetReceiveNum { target: Target },
    Transmit { target: Target, kind: FrameKind, frames: Vec<HardwareFrame> },
    Receive { target: Target, kind: FrameKind, size: u32, timeout: u32 },
    Debug { level: u32 },
    InitLin { target: Target, cfg: LinConfig },
    StartLin { target: Target },
    ResetLin { target: Target },
    ClearLinBuffer { target: Target },
    GetLinReceiveNum { target: Target },
    TransmitLin { target: Target, frames: Vec<LinFrame> },
    ReceiveLin { target: Target, size: u32, timeout: u32 },
    SetLinSubscribe { target: Target, cfg: Vec<LinSubscribe> },
    SetLinPublish { target: Target, cfg: Vec<LinPublish> },
}

/// The entry point that a call goes to.
pub open spec fn call_fn(c: NativeCall) -> NativeFn {
    match c {
        NativeCall::OpenDevice { .. } => NativeFn::OpenDevice,
        NativeCall::CloseDevice { .. } => NativeFn::CloseDevice,
        NativeCall::ReadBoardInfo { .. } => NativeFn::ReadBoardInfo,
        NativeCall::SetReference { .. } => NativeFn::SetReference,
        NativeCall::GetReference { .. } => NativeFn::GetReference,
        NativeCall::InitCan { .. } => NativeFn::InitCan,
        NativeCall::StartCan { .. } => NativeFn::StartCan,
        NativeCall::ResetCan { .. } => NativeFn::ResetCan,
        NativeCall::ReadCanStatus { .. } => NativeFn::ReadCanStatus,
        NativeCall::ReadErrInfo { .. } => NativeFn::ReadErrInfo,
        NativeCall::ClearBuffer { .. } => NativeFn::ClearBuffer,
        NativeCall::GetReceiveNum { .. } => NativeFn::GetReceiveNum,
        NativeCall::Transmit { kind, .. } => if kind == FrameKind::Fd {
            NativeFn::TransmitFd
        } else {
            NativeFn::Transmit
        },
        NativeCall::Receive { kind, .. } => if kind == FrameKind::Fd {
            NativeFn::ReceiveFd
        } else {
            NativeFn::Receive
        },
        NativeCall::Debug { .. } => NativeFn::Debug,
        NativeCall::InitLin { .. } => NativeFn::InitLin,
        NativeCall::StartLin { .. } => NativeFn::StartLin,
        NativeCall::ResetLin { .. } => NativeFn::ResetLin,
        NativeCall::ClearLinBuffer { .. } => NativeFn::ClearLinBuffer,
        NativeCall::GetLinReceiveNum { .. } => NativeFn::GetLinReceiveNum,
        NativeCall::TransmitLin { .. } => NativeFn::TransmitLin,
        NativeCall::ReceiveLin { .. } => NativeFn::ReceiveLin,
        NativeCall::SetLinSubscribe { .. } => NativeFn::SetLinSubscribe,
        NativeCall::SetLinPublish { .. } => NativeFn::SetLinPublish,
    }
}

/// A refusal by these entry points is an initialisation error; by the others, an
/// operation error.
pub open spec fn initializing(f: NativeFn) -> bool {
    f == NativeFn::OpenDevice || f == NativeFn::InitCan || f == NativeFn::StartCan || f
        == NativeFn::InitLin || f == NativeFn::StartLin
}

/// The error that a refusal of `f` with `status` becomes.
pub open spec fn refusal(f: NativeFn, status: u32) -> CanError {
    if initializing(f) {
        CanError::InitializeError(Failure::Native(f, status))
    } else {
        CanError::OperationError(Failure::Native(f, status))
    }
}

impl NativeCall {
    pub fn func(&self) -> (r: NativeFn)
        ensures
            r == call_fn(*self),
    {
        match self {
            NativeCall::OpenDevice { .. } => NativeFn::OpenDevice,
            NativeCall::CloseDevice { .. } => NativeFn::CloseDevice,
            NativeCall::ReadBoardInfo { .. } => NativeFn::ReadBoardInfo,
            NativeCall::SetReference { .. } => NativeFn::SetReference,
            NativeCall::GetReference { .. } => NativeFn::GetReference,
            NativeCall::InitCan { .. } => NativeFn::InitCan,
            NativeCall::StartCan { .. } => NativeFn::StartCan,
            NativeCall::ResetCan { .. } => NativeFn::ResetCan,
            NativeCall::ReadCanStatus { .. } => NativeFn::ReadCanStatus,
            NativeCall::ReadErrInfo { .. } => NativeFn::ReadErrInfo,
            NativeCall::ClearBuffer { .. } => NativeFn::ClearBuffer,
            NativeCall::GetReceiveNum { .. } => NativeFn::GetReceiveNum,
            NativeCall::Transmit { kind, .. } => match kind {
                FrameKind::Fd => NativeFn::TransmitFd,
                FrameKind::Classic => NativeFn::Transmit,
            },
            NativeCall::Receive { kind, .. } => match kind {
                FrameKind::Fd => NativeFn::ReceiveFd,
                FrameKind::Classic => NativeFn::Receive,
            },
            NativeCall::Debug { .. } => NativeFn::Debug,
            NativeCall::InitLin { .. } => NativeFn::InitLin,
            NativeCall::StartLin { .. } => NativeFn::StartLin,
            NativeCall::ResetLin { .. } => NativeFn::ResetLin,
            NativeCall::ClearLinBuffer { .. } => NativeFn::ClearLinBuffer,
            NativeCall::GetLinReceiveNum { .. } => NativeFn::GetLinReceiveNum,
            NativeCall::TransmitLin { .. } => NativeFn::TransmitLin,
            NativeCall::ReceiveLin { .. } => NativeFn::ReceiveLin,
            NativeCall::SetLinSubscribe { .. } => NativeFn::SetLinSubscribe,
            NativeCall::SetLinPublish { .. } => NativeFn::SetLinPublish,
        }
    }
}

fn refusal_of(f: NativeFn, status: u32) -> (r: CanError)
    ensures
        r == refusal(f, status),
{
    match f {
        NativeFn::OpenDevice | NativeFn::InitCan | NativeFn::StartCan | NativeFn::InitLin
        | NativeFn::StartLin => CanError::InitializeError(Failure::Native(f, status)),
        _ => CanError::OperationError(Failure::Native(f, status)),
    }
}

/// The outcome of a call that answers with a status: success exactly on `STATUS_OK`.
pub fn check_status(call: &NativeCall, status: u32) -> (r: Result<(), CanError>)
    ensures
        status == STATUS_OK ==> r is Ok,
        status != STATUS_OK ==> r == Err::<(), CanError>(refusal(call_fn(*call), status)),
{
    if status == STATUS_OK {
        Ok(())
    } else {
        Err(refusal_of(call.func(), status))
    }
}

/// The call that sets the debug level of the native driver.
pub fn debug(level: u32) -> (r: NativeCall)
    ensures
        r == (NativeCall::Debug { level }),
{
    NativeCall::Debug { level }
}

impl DeviceContext {
    /// The call that opens the device; refused where it is open already.
    pub fn open(&self) -> (r: Result<NativeCall, CanError>)
        ensures
            self.spec_opened() ==> r == Err::<NativeCall, CanError>(
                CanError::InitializeError(Failure::AlreadyOpen),
            ),
            !self.spec_opened() ==> r == Ok::<NativeCall, CanError>(
                NativeCall::OpenDevice {
                    dev_type: self.spec_family().spec_code(),
                    dev_idx: self.spec_index(),
                },
            ),
    {
        if self.is_open() {
            return Err(CanError::InitializeError(Failure::AlreadyOpen));
        }
        Ok(NativeCall::OpenDevice { dev_type: self.device_type(), dev_idx: self.device_index() })
    }

    /// Takes the status of the open call: the device is open exactly when it succeeded.
    pub fn complete_open(&mut self, status: u32) -> (r: Result<(), CanError>)
        ensures
            status == STATUS_OK ==> r is Ok && final(self).spec_opened() && final(self).all_idle(),
            status != STATUS_OK ==> r == Err::<(), CanError>(
                CanError::InitializeError(Failure::Native(NativeFn::OpenDevice, status)),
            ) && *final(self) == *old(self),
            final(self).spec_family() == old(self).spec_family(),
            final(self).spec_index() == old(self).spec_index(),
    {
        if status != STATUS_OK {
            return Err(CanError::InitializeError(Failure::Native(NativeFn::OpenDevice, status)));
        }
        self.set_opened(true);
        Ok(())
    }

    /// The call that closes the device.
    pub fn close(&self) -> (r: NativeCall)
        ensures
            r == (NativeCall::CloseDevice {
                dev_type: self.spec_family().spec_code(),
                dev_idx: self.spec_index(),
            }),
    {
        NativeCall::CloseDevice { dev_type: self.device_type(), dev_idx: self.device_index() }
    }

    /// Takes the status of the close call: the device is closed exactly when it succeeded.
    pub fn complete_close(&mut self, status: u32) -> (r: Result<(), CanError>)
        ensures
            status == STATUS_OK ==> r is Ok && !final(self).spec_opened() && final(self).all_idle(),
            status != STATUS_OK ==> r == Err::<(), CanError>(
                CanError::OperationError(Failure::Native(NativeFn::CloseDevice, status)),
            ) && *final(self) == *old(self),
            final(self).spec_family() == old(self).spec_family(),
            final(self).spec_index() == old(self).spec_index(),
    {
        if status != STATUS_OK {
            return Err(
                CanError::OperationError(Failure::Native(NativeFn::CloseDevice, status)),
            );
        }
        self.set_opened(false);
        Ok(())
    }

    /// The call that reads the board information; refused on a closed device.
    pub fn read_device_info(&self) -> (r: Result<NativeCall, CanError>)
        ensures
            !self.spec_opened() ==> r == Err::<NativeCall, CanError>(
                CanError::OperationError(Failure::DeviceClosed),
            ),
            self.spec_opened() ==> r == Ok::<NativeCall, CanError>(
                NativeCall::ReadBoardInfo {
                    dev_type: self.spec_family().spec_code(),
                    dev_idx: self.spec_index(),
                },
            ),
    {
        if !self.is_open() {
            return Err(CanError::OperationError(Failure::DeviceClosed));
        }
        Ok(NativeCall::ReadBoardInfo { dev_type: self.device_type(), dev_idx: self.device_index() })
    }

    /// Takes the status and the record of the board information call; the FD flag of the
    /// result is the family's.
    pub fn complete_read_device_info(&self, status: u32, record: &Vec<u8>) -> (r: Result<
        DeviceInfo,
        CanError,
    >)
        ensures
            status != STATUS_OK ==> r == Err::<DeviceInfo, CanError>(
                CanError::OperationError(Failure::Native(NativeFn::ReadBoardInfo, status)),
            ),
            status == STATUS_OK && record@.len() < crate::device::BOARD_INFO_LEN ==> r == Err::<
                DeviceInfo,
                CanError,
            >(CanError::InvalidLength(record@.len() as usize)),
            status == STATUS_OK && record@.len() >= crate::device::BOARD_INFO_LEN ==> (r matches Ok(
                i,
            ) && i.parsed_from(record@, self.spec_family().spec_fd())),
    {
        if status != STATUS_OK {
            return Err(
                CanError::OperationError(Failure::Native(NativeFn::ReadBoardInfo, status)),
            );
        }
        DeviceInfo::from_record(record, self.family().canfd_support())
    }
}

/// The frames in the hardware layout of `kind`, one for one.
pub open spec fn marshalled(hw: Seq<HardwareFrame>, frames: Seq<CanMessage>, kind: FrameKind) -> bool {
    &&& hw.len() == frames.len()
    &&& forall|i: int| 0 <= i < frames.len() ==> #[trigger] hw[i]@ == encode(frames[i]@, kind)
}

/// Every frame has a payload length of the buckets of `kind`.
pub open spec fn all_valid_len(frames: Seq<CanMessage>, kind: FrameKind) -> bool {
    forall|i: int| 0 <= i < frames.len() ==> valid_len(kind, #[trigger] frames[i].data@.len())
}

fn marshal_all(frames: &Vec<CanMessage>, kind: FrameKind) -> (r: Result<Vec<HardwareFrame>, CanError>)
    requires
        forall|i: int| 0 <= i < frames@.len() ==> (#[trigger] frames@[i]).id.wf(),
    ensures
        all_valid_len(frames@, kind) ==> (r matches Ok(hw) && marshalled(hw@, frames@, kind)),
        !all_valid_len(frames@, kind) ==> r matches Err(CanError::InvalidLength(_)),
{
    let mut hw: Vec<HardwareFrame> = Vec::new();
    let mut i: usize = 0;
    while i < frames.len()
        invariant
            i <= frames@.len(),
            forall|j: int| 0 <= j < frames@.len() ==> (#[trigger] frames@[j]).id.wf(),
            hw@.len() == i,
            forall|j: int| 0 <= j < i ==> valid_len(kind, #[trigger] frames@[j].data@.len()),
            forall|j: int| 0 <= j < i ==> #[trigger] hw@[j]@ == encode(frames@[j]@, kind),
        decreases frames@.len() - i,
    {
        match to_hardware(&frames[i], kind) {
            Ok(h) => {
                hw.push(h);
            },
            Err(e) => {
                assert(!valid_len(kind, frames@[i as int].data@.len()));
                return Err(e);
            },
        }
        i = i + 1;
    }
    Ok(hw)
}

/// The portable frames of the first `min(count, raw.len())` hardware frames; the
/// native driver fills no more than it counts.
pub fn complete_receive(raw: &Vec<HardwareFrame>, count: u32) -> (r: Result<
    Vec<CanMessage>,
    CanError,
>)
    ensures
        ({
            let n = if count as int <= raw@.len() {
                count as int
            } else {
                raw@.len() as int
            };
            &&& (forall|i: int| 0 <= i < n ==> readable(#[trigger] raw@[i]@)) ==> (r matches Ok(
                v,
            ) && v@.len() == n && forall|i: int| 0 <= i < n ==> #[trigger] v@[i]@ == decode(
                raw@[i]@,
            ))
            &&& !(forall|i: int| 0 <= i < n ==> readable(#[trigger] raw@[i]@)) ==> (r matches Err(
                CanError::InvalidLength(_),
            ))
        }),
{
    let n: usize = if (count as usize) <= raw.len() {
        count as usize
    } else {
        raw.len()
    };
    let mut v: Vec<CanMessage> = Vec::new();
    let mut i: usize = 0;
    while i < n
        invariant
            n <= raw@.len(),
            n == (if count as int <= raw@.len() {
                count as int
            } else {
                raw@.len() as int
            }),
            i <= n,
            v@.len() == i,
            forall|j: int| 0 <= j < i ==> readable(#[trigger] raw@[j]@),
            forall|j: int| 0 <= j < i ==> #[trigger] v@[j]@ == decode(raw@[j]@),
        decreases n - i,
    {
        match from_hardware(&raw[i]) {
            Ok(m) => {
                v.push(m);
            },
            Err(e) => {
                return Err(e);
            },
        }
        i = i + 1;
    }
    Ok(v)
}

impl ChannelContext {
    pub open spec fn spec_target(&self) -> Target {
        Target {
            dev_type: self.spec_family().spec_code(),
            dev_idx: self.spec_index(),
            channel: self.spec_channel() as u32,
        }
    }

    pub fn target(&self) -> (r: Target)
        ensures
            r == self.spec_target(),
    {
        Target {
            dev_type: self.device_type(),
            dev_idx: self.device_index(),
            channel: self.channel() as u32,
        }
    }

    /// The call that sets a vendor parameter; refused on a closed device.
    pub fn set_reference(&self, dev: &DeviceContext, cmd: u32, value: Vec<u8>) -> (r: Result<NativeCall, CanError>)
        ensures
            !self.live(dev) ==> r == Err::<NativeCall, CanError>(
                CanError::OperationError(Failure::DeviceClosed),
            ),
            self.live(dev) ==> r == Ok::<NativeCall, CanError>(
                NativeCall::SetReference { target: self.spec_target(), cmd, value },
            ),
    {
        if !self.is_live(dev) {
            return Err(CanError::OperationError(Failure::DeviceClosed));
        }
        Ok(NativeCall::SetReference { target: self.target(), cmd, value })
    }

    /// The call that reads a vendor parameter into a buffer of `len` bytes; refused on a
    /// closed device.
    pub fn get_reference(&self, dev: &DeviceContext, cmd: u32, len: usize) -> (r: Result<NativeCall, CanError>)
        ensures
            !self.live(dev) ==> r == Err::<NativeCall, CanError>(
                CanError::OperationError(Failure::DeviceClosed),
            ),
            self.live(dev) ==> r == Ok::<NativeCall, CanError>(
                NativeCall::GetReference { target: self.spec_target(), cmd, len },
            ),
    {
        if !self.is_live(dev) {
            return Err(CanError::OperationError(Failure::DeviceClosed));
        }
        Ok(NativeCall::GetReference { target: self.target(), cmd, len })
    }

    /// The generic value setter: `NotSupportedError` on a family without the mechanism,
    /// else as `set_reference`.
    pub fn set_value(&self, dev: &DeviceContext, cmd: u32, value: Vec<u8>) -> (r: Result<NativeCall, CanError>)
        ensures
            !self.spec_family().spec_values() ==> r == Err::<NativeCall, CanError>(
                CanError::NotSupportedError,
            ),
            self.spec_family().spec_values() && !self.live(dev)
                ==> r == Err::<NativeCall, CanError>(
                CanError::OperationError(Failure::DeviceClosed),
            ),
            self.spec_family().spec_values() && self.live(dev)
                ==> r == Ok::<NativeCall, CanError>(
                NativeCall::SetReference { target: self.spec_target(), cmd, value },
            ),
    {
        if !self.family().get_value_support() {
            return Err(CanError::NotSupportedError);
        }
        self.set_reference(dev, cmd, value)
    }

    /// The generic value getter: `NotSupportedError` on a family without the mechanism,
    /// else a read of `VALUE_BUFFER_LEN` bytes.
    pub fn get_value(&self, dev: &DeviceContext, cmd: u32) -> (r: Result<NativeCall, CanError>)
        ensures
            !self.spec_family().spec_values() ==> r == Err::<NativeCall, CanError>(
                CanError::NotSupportedError,
            ),
            self.spec_family().spec_values() && !self.live(dev)
                ==> r == Err::<NativeCall, CanError>(
                CanError::OperationError(Failure::DeviceClosed),
            ),
            self.spec_family().spec_values() && self.live(dev)
                ==> r == Ok::<NativeCall, CanError>(
                NativeCall::GetReference {
                    target: self.spec_target(),
                    cmd,
                    len: VALUE_BUFFER_LEN,
                },
            ),
    {
        if !self.family().get_value_support() {
            return Err(CanError::NotSupportedError);
        }
        self.get_reference(dev, cmd, VALUE_BUFFER_LEN)
    }

    /// Takes the status of a value read and the buffer it filled.
    pub fn complete_get_value(&self, status: u32, buffer: Vec<u8>) -> (r: Result<
        Vec<u8>,
        CanError,
    >)
        ensures
            status == STATUS_OK ==> r == Ok::<Vec<u8>, CanError>(buffer),
            status != STATUS_OK ==> r == Err::<Vec<u8>, CanError>(
                CanError::OperationError(Failure::Native(NativeFn::GetReference, status)),
            ),
    {
        if status != STATUS_OK {
            return Err(
                CanError::OperationError(Failure::Native(NativeFn::GetReference, status)),
            );
        }
        Ok(buffer)
    }

    /// The call that resets the CAN channel; refused on a closed device or a channel that
    /// was never initialised.
    pub fn reset_can_chl(&self, dev: &DeviceContext) -> (r: Result<NativeCall, CanError>)
        ensures
            !self.live(dev) ==> r == Err::<NativeCall, CanError>(
                CanError::OperationError(Failure::DeviceClosed),
            ),
            self.live(dev) && self.state_in(dev) == ChannelState::Idle ==> r
                == Err::<NativeCall, CanError>(
                CanError::OperationError(Failure::ChannelNotStarted),
            ),
            self.live(dev) && self.state_in(dev) != ChannelState::Idle ==> r
                == Ok::<NativeCall, CanError>(NativeCall::ResetCan { target: self.spec_target() }),
    {
        if !self.is_live(dev) {
            return Err(CanError::OperationError(Failure::DeviceClosed));
        }
        match self.state(dev) {
            ChannelState::Idle => Err(CanError::OperationError(Failure::ChannelNotStarted)),
            _ => Ok(NativeCall::ResetCan { target: self.target() }),
        }
    }

    /// Takes the status of the reset call: on success a started channel is stopped and
    /// stays initialised; the other channels are untouched.
    pub fn complete_reset_can_chl(&self, dev: &mut DeviceContext, status: u32) -> (r: Result<
        (),
        CanError,
    >)
        ensures
            !self.live(old(dev)) ==> r == Err::<(), CanError>(
                CanError::OperationError(Failure::DeviceClosed),
            ) && *final(dev) == *old(dev),
            self.live(old(dev)) && status != STATUS_OK ==> r == Err::<(), CanError>(
                CanError::OperationError(Failure::Native(NativeFn::ResetCan, status)),
            ) && *final(dev) == *old(dev),
            self.live(old(dev)) && status == STATUS_OK ==> {
                &&& r is Ok
                &&& same_device(old(dev), final(dev))
                &&& self.state_in(final(dev)) == (if self.state_in(old(dev))
                    == ChannelState::Started {
                    ChannelState::Initialized
                } else {
                    self.state_in(old(dev))
                })
                &&& forall|c: u8|
                    c != self.spec_channel() ==> final(dev).can_state(c) == old(dev).can_state(c)
                &&& forall|c: u8| final(dev).lin_on(c) == old(dev).lin_on(c)
            },
    {
        if !self.is_live(dev) {
            return Err(CanError::OperationError(Failure::DeviceClosed));
        }
        if status != STATUS_OK {
            return Err(CanError::OperationError(Failure::Native(NativeFn::ResetCan, status)));
        }
        match self.state(dev) {
            ChannelState::Started => dev.set_can_state(self.channel(), ChannelState::Initialized),
            _ => {},
        }
        Ok(())
    }

    fn require_open(&self, dev: &DeviceContext) -> (r: Result<(), CanError>)
        ensures
            self.live(dev) ==> r is Ok,
            !self.live(dev) ==> r == Err::<(), CanError>(
                CanError::OperationError(Failure::DeviceClosed),
            ),
    {
        if self.is_live(dev) {
            Ok(())
        } else {
            Err(CanError::OperationError(Failure::DeviceClosed))
        }
    }

    /// The call that reads the channel status; refused on a closed device.
    pub fn read_can_chl_status(&self, dev: &DeviceContext) -> (r: Result<NativeCall, CanError>)
        ensures
            !self.live(dev) ==> r == Err::<NativeCall, CanError>(
                CanError::OperationError(Failure::DeviceClosed),
            ),
            self.live(dev) ==> r == Ok::<NativeCall, CanError>(
                NativeCall::ReadCanStatus { target: self.spec_target() },
            ),
    {
        match self.require_open(dev) {
            Err(e) => Err(e),
            Ok(()) => Ok(NativeCall::ReadCanStatus { target: self.target() }),
        }
    }

    /// The call that reads the last channel error; refused on a closed device.
    pub fn read_can_chl_error(&self, dev: &DeviceContext) -> (r: Result<NativeCall, CanError>)
        ensures
            !self.live(dev) ==> r == Err::<NativeCall, CanError>(
                CanError::OperationError(Failure::DeviceClosed),
            ),
            self.live(dev) ==> r == Ok::<NativeCall, CanError>(
                NativeCall::ReadErrInfo { target: self.spec_target() },
            ),
    {
        match self.require_open(dev) {
            Err(e) => Err(e),
            Ok(()) => Ok(NativeCall::ReadErrInfo { target: self.target() }),
        }
    }

    /// The call that empties the receive buffer; refused on a closed device.
    pub fn clear_can_buffer(&self, dev: &DeviceContext) -> (r: Result<NativeCall, CanError>)
        ensures
            !self.live(dev) ==> r == Err::<NativeCall, CanError>(
                CanError::OperationError(Failure::DeviceClosed),
            ),
            self.live(dev) ==> r == Ok::<NativeCall, CanError>(
                NativeCall::ClearBuffer { target: self.spec_target() },
            ),
    {
        match self.require_open(dev) {
            Err(e) => Err(e),
            Ok(()) => Ok(NativeCall::ClearBuffer { target: self.target() }),
        }
    }

    /// The call that counts pending frames: classic ones on the channel itself, FD ones
    /// with `FD_CHANNEL_BIT` added to the channel. Asking for all kinds at once is
    /// `OtherError`; asking for FD frames of a classic family is `NotSupportedError`.
    pub fn get_can_num(&self, dev: &DeviceContext, kind: CountKind) -> (r: Result<NativeCall, CanError>)
        ensures
            kind == CountKind::All ==> r == Err::<NativeCall, CanError>(CanError::OtherError),
            kind == CountKind::CanFd && !self.spec_family().spec_fd() ==> r == Err::<
                NativeCall,
                CanError,
            >(CanError::NotSupportedError),
            kind != CountKind::All && (kind == CountKind::CanFd ==> self.spec_family().spec_fd())
                ==> {
                &&& !self.live(dev) ==> r == Err::<NativeCall, CanError>(
                    CanError::OperationError(Failure::DeviceClosed),
                )
                &&& self.live(dev) ==> r == Ok::<NativeCall, CanError>(
                    NativeCall::GetReceiveNum {
                        target: Target {
                            channel: if kind == CountKind::CanFd {
                                (self.spec_channel() as u32 + FD_CHANNEL_BIT) as u32
                            } else {
                                self.spec_channel() as u32
                            },
                            ..self.spec_target()
                        },
                    },
                )
            },
    {
        let mut target = self.target();
        match kind {
            CountKind::Can => {},
            CountKind::CanFd => {
                if !self.family().canfd_support() {
                    return Err(CanError::NotSupportedError);
                }
                target.channel = target.channel + FD_CHANNEL_BIT;
            },
            CountKind::All => {
                return Err(CanError::OtherError);
            },
        }
        match self.require_open(dev) {
            Err(e) => Err(e),
            Ok(()) => Ok(NativeCall::GetReceiveNum { target }),
        }
    }

    fn require_started(&self, dev: &DeviceContext) -> (r: Result<(), CanError>)
        ensures
            !self.live(dev) ==> r == Err::<(), CanError>(
                CanError::OperationError(Failure::DeviceClosed),
            ),
            self.live(dev) && self.state_in(dev) != ChannelState::Started ==> r
                == Err::<(), CanError>(CanError::OperationError(Failure::ChannelNotStarted)),
            self.can_ready(dev) ==> r is Ok,
    {
        if !self.is_live(dev) {
            return Err(CanError::OperationError(Failure::DeviceClosed));
        }
        match self.state(dev) {
            ChannelState::Started => Ok(()),
            _ => Err(CanError::OperationError(Failure::ChannelNotStarted)),
        }
    }

    fn transmit_kind(&self, dev: &DeviceContext, frames: &Vec<CanMessage>, kind: FrameKind) -> (r: Result<
        NativeCall,
        CanError,
    >)
        requires
            forall|i: int| 0 <= i < frames@.len() ==> (#[trigger] frames@[i]).id.wf(),
        ensures
            !self.live(dev) ==> r == Err::<NativeCall, CanError>(
                CanError::OperationError(Failure::DeviceClosed),
            ),
            self.live(dev) && self.state_in(dev) != ChannelState::Started ==> r
                == Err::<NativeCall, CanError>(
                CanError::OperationError(Failure::ChannelNotStarted),
            ),
            self.can_ready(dev) && !all_valid_len(frames@, kind) ==> r matches Err(
                CanError::InvalidLength(_),
            ),
            self.can_ready(dev) && all_valid_len(frames@, kind) ==> (r matches Ok(
                NativeCall::Transmit { target, kind: k, frames: hw },
            ) && target == self.spec_target() && k == kind && marshalled(hw@, frames@, kind)),
    {
        match self.require_started(dev) {
            Err(e) => {
                return Err(e);
            },
            Ok(()) => {},
        }
        match marshal_all(frames, kind) {
            Err(e) => Err(e),
            Ok(hw) => Ok(NativeCall::Transmit { target: self.target(), kind, frames: hw }),
        }
    }

    /// The call that sends classic frames; refused without a native call on a closed
    /// device, on a channel that is not started, and (with `InvalidLength`) where a
    /// payload is longer than eight bytes. The native driver answers with the number of
    /// frames it accepted.
    pub fn transmit_can(&self, dev: &DeviceContext, frames: &Vec<CanMessage>) -> (r: Result<NativeCall, CanError>)
        requires
            forall|i: int| 0 <= i < frames@.len() ==> (#[trigger] frames@[i]).id.wf(),
        ensures
            !self.live(dev) ==> r == Err::<NativeCall, CanError>(
                CanError::OperationError(Failure::DeviceClosed),
            ),
            self.live(dev) && self.state_in(dev) != ChannelState::Started ==> r
                == Err::<NativeCall, CanError>(
                CanError::OperationError(Failure::ChannelNotStarted),
            ),
            self.can_ready(dev) && !all_valid_len(frames@, FrameKind::Classic) ==> r matches Err(
                CanError::InvalidLength(_),
            ),
            self.can_ready(dev) && all_valid_len(frames@, FrameKind::Classic) ==> (r matches Ok(
                NativeCall::Transmit { target, kind, frames: hw },
            ) && target == self.spec_target() && kind == FrameKind::Classic && marshalled(
                hw@,
                frames@,
                FrameKind::Classic,
            )),
    {
        self.transmit_kind(dev, frames, FrameKind::Classic)
    }

    /// The call that sends FD frames: as `transmit_can`, with the FD length buckets, and
    /// `NotSupportedError` first on a family without CAN-FD.
    pub fn transmit_canfd(&self, dev: &DeviceContext, frames: &Vec<CanMessage>) -> (r: Result<NativeCall, CanError>)
        requires
            forall|i: int| 0 <= i < frames@.len() ==> (#[trigger] frames@[i]).id.wf(),
        ensures
            !self.spec_family().spec_fd() ==> r == Err::<NativeCall, CanError>(
                CanError::NotSupportedError,
            ),
            self.spec_family().spec_fd() ==> {
                &&& !self.live(dev) ==> r == Err::<NativeCall, CanError>(
                    CanError::OperationError(Failure::DeviceClosed),
                )
                &&& self.live(dev) && self.state_in(dev) != ChannelState::Started
                    ==> r == Err::<NativeCall, CanError>(
                    CanError::OperationError(Failure::ChannelNotStarted),
                )
                &&& self.can_ready(dev) && !all_valid_len(frames@, FrameKind::Fd) ==> (r matches Err(
                    CanError::InvalidLength(_),
                ))
                &&& self.can_ready(dev) && all_valid_len(frames@, FrameKind::Fd) ==> (r matches Ok(
                    NativeCall::Transmit { target, kind, frames: hw },
                ) && target == self.spec_target() && kind == FrameKind::Fd && marshalled(
                    hw@,
                    frames@,
                    FrameKind::Fd,
                ))
            },
    {
        if !self.family().canfd_support() {
            return Err(CanError::NotSupportedError);
        }
        self.transmit_kind(dev, frames, FrameKind::Fd)
    }

    /// The call that receives up to `size` classic frames within `timeout` milliseconds;
    /// refused on a closed device or a channel that is not started.
    pub fn receive_can(&self, dev: &DeviceContext, size: u32, timeout: u32) -> (r: Result<NativeCall, CanError>)
        ensures
            !self.live(dev) ==> r == Err::<NativeCall, CanError>(
                CanError::OperationError(Failure::DeviceClosed),
            ),
            self.live(dev) && self.state_in(dev) != ChannelState::Started ==> r
                == Err::<NativeCall, CanError>(
                CanError::OperationError(Failure::ChannelNotStarted),
            ),
            self.can_ready(dev) ==> r == Ok::<NativeCall, CanError>(
                NativeCall::Receive {
                    target: self.spec_target(),
                    kind: FrameKind::Classic,
                    size,
                    timeout,
                },
            ),
    {
        match self.require_started(dev) {
            Err(e) => Err(e),
            Ok(()) => Ok(
                NativeCall::Receive { target: self.target(), kind: FrameKind::Classic, size, timeout },
            ),
        }
    }

    /// The call that receives up to `size` FD frames: as `receive_can`, and
    /// `NotSupportedError` first on a family without CAN-FD.
    pub fn receive_canfd(&self, dev: &DeviceContext, size: u32, timeout: u32) -> (r: Result<NativeCall, CanError>)
        ensures
            !self.spec_family().spec_fd() ==> r == Err::<NativeCall, CanError>(
                CanError::NotSupportedError,
            ),
            self.spec_family().spec_fd() ==> {
                &&& !self.live(dev) ==> r == Err::<NativeCall, CanError>(
                    CanError::OperationError(Failure::DeviceClosed),
                )
                &&& self.live(dev) && self.state_in(dev) != ChannelState::Started
                    ==> r == Err::<NativeCall, CanError>(
                    CanError::OperationError(Failure::ChannelNotStarted),
                )
                &&& self.can_ready(dev) ==> r == Ok::<NativeCall, CanError>(
                    NativeCall::Receive {
                        target: self.spec_target(),
                        kind: FrameKind::Fd,
                        size,
                        timeout,
                    },
                )
            },
    {
        if !self.family().canfd_support() {
            return Err(CanError::NotSupportedError);
        }
        match self.require_started(dev) {
            Err(e) => Err(e),
            Ok(()) => Ok(
                NativeCall::Receive { target: self.target(), kind: FrameKind::Fd, size, timeout },
            ),
        }
    }
}

/// The `u8` extra of a configuration under `key`, or `default` where none is set.
pub open spec fn extra_u8_or(cfg: &ChannelConfig, key: Seq<char>, default: u8) -> Result<
    u8,
    CanError,
> {
    match cfg.extra(key) {
        None => Ok(default),
        Some(ExtraValue::U8(v)) => Ok(v),
        Some(_) => Err(CanError::TypeMismatch),
    }
}

/// The initialisation record that a configuration asks for on a family: the resolved
/// timing, the channel type (FD ISO by default) and the channel mode (normal by default).
pub open spec fn init_record(table: &PresetTable, family: u32, cfg: &ChannelConfig) -> Result<
    FdInitConfig,
    CanError,
> {
    match table.resolution(family, cfg) {
        Err(e) => Err(e),
        Ok(d) => match extra_u8_or(cfg, CHANNEL_TYPE@, CHANNEL_TYPE_CANFD_ISO) {
            Err(e) => Err(e),
            Ok(t) => match extra_u8_or(cfg, CHANNEL_MODE@, CHANNEL_MODE_NORMAL) {
                Err(e) => Err(e),
                Ok(m) => Ok(FdInitConfig { can_type: t, mode: m, timing: d }),
            },
        },
    }
}

/// The calls that set up a CAN channel, in order: the termination (where the family can
/// switch it; on unless the configuration says otherwise) before the timing, then start.
pub open spec fn init_plan(
    plan: Seq<NativeCall>,
    target: Target,
    rec: FdInitConfig,
    switchable: bool,
    resistance: Option<bool>,
) -> bool {
    let on = match resistance {
        Some(b) => b,
        None => true,
    };
    if switchable {
        &&& plan.len() == 3
        &&& plan[0] matches NativeCall::SetReference { target: t, cmd, value }
        &&& t == target
        &&& cmd == REFERENCE_RESISTANCE
        &&& value@ == seq![if on { 0x31u8 } else { 0x30u8 }, 0u8]
        &&& plan[1] == (NativeCall::InitCan { target, cfg: rec })
        &&& plan[2] == (NativeCall::StartCan { target })
    } else {
        &&& plan.len() == 2
        &&& plan[0] == (NativeCall::InitCan { target, cfg: rec })
        &&& plan[1] == (NativeCall::StartCan { target })
    }
}

/// The family, index and open flag of the two contexts agree.
pub open spec fn same_device(a: &DeviceContext, b: &DeviceContext) -> bool {
    a.spec_family() == b.spec_family() && a.spec_index() == b.spec_index() && a.spec_opened()
        == b.spec_opened()
}

/// The device and channel that a call of an initialisation plan is for.
pub open spec fn call_target(c: NativeCall) -> Option<Target> {
    match c {
        NativeCall::SetReference { target, .. } => Some(target),
        NativeCall::InitCan { target, .. } => Some(target),
        NativeCall::StartCan { target } => Some(target),
        NativeCall::InitLin { target, .. } => Some(target),
        NativeCall::StartLin { target } => Some(target),
        _ => None,
    }
}

/// A plan that `init_can_chl` or `init_lin_chl` makes for the channel `t`: every call
/// is for `t`, and it is termination, init, start; or init, start (CAN or LIN).
pub open spec fn init_plan_shape(plan: Seq<NativeCall>, t: Target) -> bool {
    &&& (plan.len() == 2 || plan.len() == 3)
    &&& forall|i: int| 0 <= i < plan.len() ==> call_target(#[trigger] plan[i]) == Some(t)
    &&& {
        ||| (plan.len() == 3 && plan[0] is SetReference && plan[1] is InitCan && plan[2] is StartCan)
        ||| (plan.len() == 2 && plan[0] is InitCan && plan[1] is StartCan)
        ||| (plan.len() == 2 && plan[0] is InitLin && plan[1] is StartLin)
    }
}

/// What to do after one call of an initialisation plan.
#[derive(Clone, Copy, Debug)]
pub enum InitStep {
    /// Perform the call at this index of the plan next.
    Next(usize),
    /// The plan is over, with this outcome.
    Done(Result<(), CanError>),
}

impl ChannelContext {
    /// The calls that initialise and start the CAN channel with `cfg`, for the caller to
    /// perform one by one through `advance_init`. Everything that can fail before a
    /// native call fails here: a closed device, a timing that the table does not hold
    /// (no nearest match), an extra of the wrong type.
    pub fn init_can_chl(&self, dev: &DeviceContext, table: &PresetTable, cfg: &ChannelConfig) -> (r: Result<
        Vec<NativeCall>,
        CanError,
    >)
        ensures
            !self.live(dev) ==> r == Err::<Vec<NativeCall>, CanError>(
                CanError::InitializeError(Failure::DeviceClosed),
            ),
            self.live(dev) ==> match init_record(
                table,
                self.spec_family().spec_code(),
                cfg,
            ) {
                Err(e) => r == Err::<Vec<NativeCall>, CanError>(e),
                Ok(rec) => r matches Ok(plan) && init_plan(
                    plan@,
                    self.spec_target(),
                    rec,
                    self.spec_family().spec_resistance(),
                    cfg.spec_resistance(),
                ),
            },
            r matches Ok(plan) ==> init_plan_shape(plan@, self.spec_target()),
    {
        if !self.is_live(dev) {
            return Err(CanError::InitializeError(Failure::DeviceClosed));
        }
        let family = self.family();
        let timing = match table.resolve(family.code(), cfg) {
            Ok(t) => t,
            Err(e) => {
                return Err(e);
            },
        };
        let can_type = match cfg.get_u8(CHANNEL_TYPE) {
            Ok(Some(t)) => t,
            Ok(None) => CHANNEL_TYPE_CANFD_ISO,
            Err(e) => {
                return Err(e);
            },
        };
        let mode = match cfg.get_u8(CHANNEL_MODE) {
            Ok(Some(m)) => m,
            Ok(None) => CHANNEL_MODE_NORMAL,
            Err(e) => {
                return Err(e);
            },
        };
        let target = self.target();
        let rec = FdInitConfig { can_type, mode, timing };
        let mut plan: Vec<NativeCall> = Vec::new();
        if family.has_resistance() {
            let on = match cfg.resistance() {
                Some(b) => b,
                None => true,
            };
            let digit: u8 = if on {
                0x31
            } else {
                0x30
            };
            let value: Vec<u8> = vec![digit, 0u8];
            plan.push(NativeCall::SetReference { target, cmd: REFERENCE_RESISTANCE, value });
        }
        plan.push(NativeCall::InitCan { target, cfg: rec });
        plan.push(NativeCall::StartCan { target });
        Ok(plan)
    }

    /// Takes the status of the call at index `done` of an initialisation plan made by
    /// `init_can_chl` or `init_lin_chl`: a refusal ends the plan with `InitializeError`
    /// and leaves the device context as it was; success moves on to the next call, and
    /// after the last one (a start) the channel is started.
    pub fn advance_init(
        &self,
        dev: &mut DeviceContext,
        plan: &Vec<NativeCall>,
        done: usize,
        status: u32,
    ) -> (r: InitStep)
        requires
            done < plan@.len(),
            init_plan_shape(plan@, self.spec_target()),
        ensures
            !self.live(old(dev)) ==> r == InitStep::Done(
                Err(CanError::InitializeError(Failure::DeviceClosed)),
            ) && *final(dev) == *old(dev),
            self.live(old(dev)) && status != STATUS_OK ==> r == InitStep::Done(
                Err(CanError::InitializeError(Failure::Native(call_fn(plan@[done as int]), status))),
            ) && *final(dev) == *old(dev),
            self.live(old(dev)) && status == STATUS_OK && done + 1 < plan@.len() ==> r
                == InitStep::Next((done + 1) as usize) && *final(dev) == *old(dev),
            self.live(old(dev)) && status == STATUS_OK && done + 1 == plan@.len() ==> {
                &&& r == InitStep::Done(Ok(()))
                &&& same_device(old(dev), final(dev))
                &&& plan@[done as int] is StartCan ==> {
                    &&& self.state_in(final(dev)) == ChannelState::Started
                    &&& forall|c: u8|
                        c != self.spec_channel() ==> final(dev).can_state(c) == old(dev).can_state(
                            c,
                        )
                    &&& forall|c: u8| final(dev).lin_on(c) == old(dev).lin_on(c)
                }
                &&& plan@[done as int] is StartLin ==> {
                    &&& final(dev).lin_on(self.spec_channel())
                    &&& forall|c: u8|
                        c != self.spec_channel() ==> final(dev).lin_on(c) == old(dev).lin_on(c)
                    &&& forall|c: u8| final(dev).can_state(c) == old(dev).can_state(c)
                }
            },
    {
        if !self.is_live(dev) {
            return InitStep::Done(Err(CanError::InitializeError(Failure::DeviceClosed)));
        }
        if status != STATUS_OK {
            return InitStep::Done(
                Err(CanError::InitializeError(Failure::Native(plan[done].func(), status))),
            );
        }
        if done < plan.len() - 1 {
            return InitStep::Next(done + 1);
        }
        match &plan[done] {
            NativeCall::StartCan { .. } => dev.set_can_state(self.channel(), ChannelState::Started),
            NativeCall::StartLin { .. } => dev.set_lin_on(self.channel(), true),
            _ => {},
        }
        InitStep::Done(Ok(()))
    }

    fn require_lin(&self, dev: &DeviceContext) -> (r: Result<(), CanError>)
        ensures
            !self.spec_family().spec_lin() ==> r == Err::<(), CanError>(
                CanError::NotSupportedError,
            ),
            self.spec_family().spec_lin() && !self.live(dev) ==> r
                == Err::<(), CanError>(CanError::OperationError(Failure::DeviceClosed)),
            self.spec_family().spec_lin() && self.live(dev) ==> r is Ok,
    {
        if !self.family().lin_support() {
            return Err(CanError::NotSupportedError);
        }
        self.require_open(dev)
    }

    /// The calls that initialise and start the LIN channel, for `advance_init`;
    /// `NotSupportedError` on a family without LIN.
    pub fn init_lin_chl(&self, dev: &DeviceContext, cfg: LinConfig) -> (r: Result<Vec<NativeCall>, CanError>)
        ensures
            !self.spec_family().spec_lin() ==> r == Err::<Vec<NativeCall>, CanError>(
                CanError::NotSupportedError,
            ),
            self.spec_family().spec_lin() && !self.live(dev) ==> r
                == Err::<Vec<NativeCall>, CanError>(
                CanError::InitializeError(Failure::DeviceClosed),
            ),
            self.spec_family().spec_lin() && self.live(dev) ==> (r matches Ok(
                plan,
            ) && plan@ == seq![
                NativeCall::InitLin { target: self.spec_target(), cfg },
                NativeCall::StartLin { target: self.spec_target() },
            ]),
            r matches Ok(plan) ==> init_plan_shape(plan@, self.spec_target()),
    {
        if !self.family().lin_support() {
            return Err(CanError::NotSupportedError);
        }
        if !self.is_live(dev) {
            return Err(CanError::InitializeError(Failure::DeviceClosed));
        }
        let target = self.target();
        let plan: Vec<NativeCall> = vec![
            NativeCall::InitLin { target, cfg },
            NativeCall::StartLin { target },
        ];
        Ok(plan)
    }

    /// The call that resets the LIN channel; `NotSupportedError` on a family without LIN.
    pub fn reset_lin_chl(&self, dev: &DeviceContext) -> (r: Result<NativeCall, CanError>)
        ensures
            !self.spec_family().spec_lin() ==> r == Err::<NativeCall, CanError>(
                CanError::NotSupportedError,
            ),
            self.spec_family().spec_lin() && !self.live(dev) ==> r
                == Err::<NativeCall, CanError>(CanError::OperationError(Failure::DeviceClosed)),
            self.spec_family().spec_lin() && self.live(dev) ==> r
                == Ok::<NativeCall, CanError>(NativeCall::ResetLin { target: self.spec_target() }),
    {
        match self.require_lin(dev) {
            Err(e) => Err(e),
            Ok(()) => Ok(NativeCall::ResetLin { target: self.target() }),
        }
    }

    /// Takes the status of the LIN reset: on success the LIN channel is stopped; the other
    /// channels are untouched.
    pub fn complete_reset_lin_chl(&self, dev: &mut DeviceContext, status: u32) -> (r: Result<
        (),
        CanError,
    >)
        ensures
            !self.live(old(dev)) ==> r == Err::<(), CanError>(
                CanError::OperationError(Failure::DeviceClosed),
            ) && *final(dev) == *old(dev),
            self.live(old(dev)) && status != STATUS_OK ==> r == Err::<(), CanError>(
                CanError::OperationError(Failure::Native(NativeFn::ResetLin, status)),
            ) && *final(dev) == *old(dev),
            self.live(old(dev)) && status == STATUS_OK ==> {
                &&& r is Ok
                &&& same_device(old(dev), final(dev))
                &&& !final(dev).lin_on(self.spec_channel())
                &&& forall|c: u8|
                    c != self.spec_channel() ==> final(dev).lin_on(c) == old(dev).lin_on(c)
                &&& forall|c: u8| final(dev).can_state(c) == old(dev).can_state(c)
            },
    {
        if !self.is_live(dev) {
            return Err(CanError::OperationError(Failure::DeviceClosed));
        }
        if status != STATUS_OK {
            return Err(CanError::OperationError(Failure::Native(NativeFn::ResetLin, status)));
        }
        dev.set_lin_on(self.channel(), false);
        Ok(())
    }

    /// The call that empties the LIN receive buffer; `NotSupportedError` on a family
    /// without LIN.
    pub fn clear_lin_buffer(&self, dev: &DeviceContext) -> (r: Result<NativeCall, CanError>)
        ensures
            !self.spec_family().spec_lin() ==> r == Err::<NativeCall, CanError>(
                CanError::NotSupportedError,
            ),
            self.spec_family().spec_lin() && !self.live(dev) ==> r
                == Err::<NativeCall, CanError>(CanError::OperationError(Failure::DeviceClosed)),
            self.spec_family().spec_lin() && self.live(dev) ==> r
                == Ok::<NativeCall, CanError>(
                NativeCall::ClearLinBuffer { target: self.spec_target() },
            ),
    {
        match self.require_lin(dev) {
            Err(e) => Err(e),
            Ok(()) => Ok(NativeCall::ClearLinBuffer { target: self.target() }),
        }
    }

    /// The call that counts pending LIN frames; `NotSupportedError` on a family without
    /// LIN.
    pub fn get_lin_num(&self, dev: &DeviceContext) -> (r: Result<NativeCall, CanError>)
        ensures
            !self.spec_family().spec_lin() ==> r == Err::<NativeCall, CanError>(
                CanError::NotSupportedError,
            ),
            self.spec_family().spec_lin() && !self.live(dev) ==> r
                == Err::<NativeCall, CanError>(CanError::OperationError(Failure::DeviceClosed)),
            self.spec_family().spec_lin() && self.live(dev) ==> r
                == Ok::<NativeCall, CanError>(
                NativeCall::GetLinReceiveNum { target: self.spec_target() },
            ),
    {
        match self.require_lin(dev) {
            Err(e) => Err(e),
            Ok(()) => Ok(NativeCall::GetLinReceiveNum { target: self.target() }),
        }
    }

    /// The call that receives up to `size` LIN frames; `NotSupportedError` on a family
    /// without LIN, and refused on a LIN channel that is not started.
    pub fn receive_lin(&self, dev: &DeviceContext, size: u32, timeout: u32) -> (r: Result<NativeCall, CanError>)
        ensures
            !self.spec_family().spec_lin() ==> r == Err::<NativeCall, CanError>(
                CanError::NotSupportedError,
            ),
            self.spec_family().spec_lin() && !self.live(dev) ==> r
                == Err::<NativeCall, CanError>(CanError::OperationError(Failure::DeviceClosed)),
            self.spec_family().spec_lin() && self.live(dev)
                && !dev.lin_on(self.spec_channel()) ==> r == Err::<NativeCall, CanError>(
                CanError::OperationError(Failure::ChannelNotStarted),
            ),
            self.spec_family().spec_lin() && self.lin_ready(dev) ==> r == Ok::<
                NativeCall,
                CanError,
            >(NativeCall::ReceiveLin { target: self.spec_target(), size, timeout }),
    {
        match self.require_lin(dev) {
            Err(e) => {
                return Err(e);
            },
            Ok(()) => {},
        }
        if !dev.lin_started(self.channel()) {
            return Err(CanError::OperationError(Failure::ChannelNotStarted));
        }
        Ok(NativeCall::ReceiveLin { target: self.target(), size, timeout })
    }

    /// The call that sends LIN frames unchanged and in order; `NotSupportedError` on a
    /// family without LIN, refused on a LIN channel that is not started, and
    /// `InvalidLength` for more than `LIN_DATA_MAX` data bytes, which the native frame
    /// cannot hold.
    pub fn transmit_lin(&self, dev: &DeviceContext, frames: Vec<LinFrame>) -> (r: Result<NativeCall, CanError>)
        ensures
            !self.spec_family().spec_lin() ==> r == Err::<NativeCall, CanError>(
                CanError::NotSupportedError,
            ),
            self.spec_family().spec_lin() && !self.live(dev) ==> r
                == Err::<NativeCall, CanError>(CanError::OperationError(Failure::DeviceClosed)),
            self.spec_family().spec_lin() && self.live(dev)
                && !dev.lin_on(self.spec_channel()) ==> r == Err::<NativeCall, CanError>(
                CanError::OperationError(Failure::ChannelNotStarted),
            ),
            self.spec_family().spec_lin() && self.lin_ready(dev) ==> {
                &&& lin_frames_ok(frames@) ==> r == Ok::<NativeCall, CanError>(
                    NativeCall::TransmitLin { target: self.spec_target(), frames },
                )
                &&& !lin_frames_ok(frames@) ==> (r matches Err(CanError::InvalidLength(_)))
            },
    {
        match self.require_lin(dev) {
            Err(e) => {
                return Err(e);
            },
            Ok(()) => {},
        }
        if !dev.lin_started(self.channel()) {
            return Err(CanError::OperationError(Failure::ChannelNotStarted));
        }
        let mut i: usize = 0;
        while i < frames.len()
            invariant
                i <= frames@.len(),
                self.spec_family().spec_lin(),
                self.lin_ready(dev),
                forall|j: int| 0 <= j < i ==> lin_frame_ok(#[trigger] frames@[j]),
            decreases frames@.len() - i,
        {
            if frames[i].data.len() > LIN_DATA_MAX {
                return Err(CanError::InvalidLength(frames[i].data.len()));
            }
            i = i + 1;
        }
        Ok(NativeCall::TransmitLin { target: self.target(), frames })
    }

    /// The call that configures LIN subscriptions; `NotSupportedError` on a family
    /// without LIN.
    pub fn set_lin_subscribe(&self, dev: &DeviceContext, cfg: Vec<LinSubscribe>) -> (r: Result<NativeCall, CanError>)
        ensures
            !self.spec_family().spec_lin() ==> r == Err::<NativeCall, CanError>(
                CanError::NotSupportedError,
            ),
            self.spec_family().spec_lin() && !self.live(dev) ==> r
                == Err::<NativeCall, CanError>(CanError::OperationError(Failure::DeviceClosed)),
            self.spec_family().spec_lin() && self.live(dev) ==> r
                == Ok::<NativeCall, CanError>(
                NativeCall::SetLinSubscribe { target: self.spec_target(), cfg },
            ),
    {
        match self.require_lin(dev) {
            Err(e) => Err(e),
            Ok(()) => Ok(NativeCall::SetLinSubscribe { target: self.target(), cfg }),
        }
    }

    /// The call that configures LIN publications; `NotSupportedError` on a family
    /// without LIN, and `InvalidLength` for more than `LIN_DATA_MAX` data bytes, which
    /// the native record cannot hold.
    pub fn set_lin_publish(&self, dev: &DeviceContext, cfg: Vec<LinPublish>) -> (r: Result<
        NativeCall,
        CanError,
    >)
        ensures
            !self.spec_family().spec_lin() ==> r == Err::<NativeCall, CanError>(
                CanError::NotSupportedError,
            ),
            self.spec_family().spec_lin() && !self.live(dev) ==> r == Err::<NativeCall, CanError>(
                CanError::OperationError(Failure::DeviceClosed),
            ),
            self.spec_family().spec_lin() && self.live(dev) && lin_publish_ok(cfg@) ==> r == Ok::<
                NativeCall,
                CanError,
            >(NativeCall::SetLinPublish { target: self.spec_target(), cfg }),
            self.spec_family().spec_lin() && self.live(dev) && !lin_publish_ok(cfg@) ==> (r matches Err(
                CanError::InvalidLength(_),
            )),
    {
        match self.require_lin(dev) {
            Err(e) => {
                return Err(e);
            },
            Ok(()) => {},
        }
        let mut i: usize = 0;
        while i < cfg.len()
            invariant
                i <= cfg@.len(),
                self.spec_family().spec_lin(),
                self.live(dev),
                forall|j: int| 0 <= j < i ==> (#[trigger] cfg@[j]).data@.len() <= LIN_DATA_MAX,
            decreases cfg@.len() - i,
        {
            if cfg[i].data.len() > LIN_DATA_MAX {
                return Err(CanError::InvalidLength(cfg[i].data.len()));
            }
            i = i + 1;
        }
        Ok(NativeCall::SetLinPublish { target: self.target(), cfg })
    }
}

pub open spec fn lin_frame_ok(f: LinFrame) -> bool {
    f.data@.len() <= LIN_DATA_MAX
}

pub open spec fn lin_frames_ok(s: Seq<LinFrame>) -> bool {
    forall|i: int| 0 <= i < s.len() ==> lin_frame_ok(#[trigger] s[i])
}

pub open spec fn lin_publish_ok(s: Seq<LinPublish>) -> bool {
    forall|i: int| 0 <= i < s.len() ==> (#[trigger] s[i]).data@.len() <= LIN_DATA_MAX
}

/// The first `min(count, raw.len())` LIN frames: the native driver fills no more than
/// it counts.
pub fn complete_receive_lin(raw: Vec<LinFrame>, count: u32) -> (r: Vec<LinFrame>)
    ensures
        count as int <= raw@.len() ==> r@ == raw@.subrange(0, count as int),
        count as int > raw@.len() ==> r@ == raw@,
{
    let mut v = raw;
    v.truncate(count as usize);
    v
}

} // verus!
