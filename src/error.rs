use vstd::prelude::*;

verus! {

/// The status value with which every native driver entry point signals success.
pub const STATUS_OK: u32 = 1;

/// The native driver entry points whose status codes this library interprets.
#[derive(Clone, Copy, Debug, PartialEq, Eq, Structural)]
pub enum NativeFn {
    OpenDevice,
    CloseDevice,
    ReadBoardInfo,
    SetReference,
    GetReference,
    InitCan,
    StartCan,
    ResetCan,
    ReadCanStatus,
    ReadErrInfo,
    ClearBuffer,
    GetReceiveNum,
    Transmit,
    TransmitFd,
    Receive,
    ReceiveFd,
    Debug,
    InitLin,
    StartLin,
    ResetLin,
    ClearLinBuffer,
    GetLinReceiveNum,
    TransmitLin,
    ReceiveLin,
    SetLinSubscribe,
    SetLinPublish,
}

/// Why a transition or an operation was refused.
#[derive(Clone, Copy, Debug, PartialEq, Eq, Structural)]
pub enum Failure {
    /// The native entry point answered with this status code instead of `STATUS_OK`.
    Native(NativeFn, u32),
    /// The timing preset table holds no entry for this device type code.
    FamilyNotConfigured(u32),
    /// The device is not open.
    DeviceClosed,
    /// The device is already open.
    AlreadyOpen,
    /// The channel has not been initialised and started.
    ChannelNotStarted,
}

/// The error taxonomy shared by every part of the library.
#[derive(Clone, Copy, Debug, PartialEq, Eq, Structural)]
pub enum CanError {
    /// Opening, initialising or starting was refused; the context is unchanged.
    InitializeError(Failure),
    /// An operation after initialisation was refused; the channel state is unchanged.
    OperationError(Failure),
    /// The device family does not implement the requested capability.
    NotSupportedError,
    /// The timing preset source is malformed.
    ConfigLoadError,
    /// The preset table of the family holds no entry for this bitrate.
    UnsupportedBitrateError(u32),
    /// A payload length (or length code) outside the valid buckets.
    InvalidLength(usize),
    /// A configuration extra holds a value of another type than the one asked for.
    TypeMismatch,
    /// A parameter that the call does not accept.
    OtherError,
}

} // verus!
