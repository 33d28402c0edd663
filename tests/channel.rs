use zlgcan::config::{ChannelConfig, ExtraValue, CHANNEL_MODE, CHANNEL_TYPE};
use zlgcan::device::{
    ChannelContext, ChannelErrorInfo, ChannelState, ChannelStatus, DeviceContext, DeviceFamily,
};
use zlgcan::dispatch::{
    check_status, complete_receive, complete_receive_lin, debug, CountKind, InitStep, LinConfig,
    LinFrame, LinPublish, NativeCall, CHANNEL_MODE_NORMAL, CHANNEL_TYPE_CAN, REFERENCE_RESISTANCE,
};
use zlgcan::error::{CanError, Failure, NativeFn, STATUS_OK};
use zlgcan::frame::{to_hardware, CanMessage, FrameKind, Identifier};
use zlgcan::timing::{BusTiming, PresetTable};

fn table() -> PresetTable {
    let t = BusTiming { tseg1: 14, tseg2: 3, sjw: 2, smp: 0, brp: 5 };
    let mut tb = PresetTable::new();
    for fam in ["41", "42", "4"] {
        tb.add_family(fam, 60_000_000).unwrap();
        tb.add_timing(fam, false, "500000", t).unwrap();
        tb.add_timing(fam, true, "500000", t).unwrap();
    }
    tb
}

fn board_record(channels: u8) -> Vec<u8> {
    let mut r = vec![0u8; 80];
    r[0] = 0x01;
    r[1] = 0x02;
    r[10] = channels;
    r[11] = b'S';
    r[31] = b'U';
    r
}

fn opened(family: DeviceFamily) -> DeviceContext {
    let mut d = DeviceContext::new(family, 0);
    assert!(matches!(d.open(), Ok(NativeCall::OpenDevice { .. })));
    d.complete_open(STATUS_OK).unwrap();
    d
}

/// Runs an initialisation plan against a driver that answers every call with `status`.
fn run_plan(
    ch: &ChannelContext,
    dev: &mut DeviceContext,
    plan: &Vec<NativeCall>,
    status: u32,
) -> Result<(), CanError> {
    let mut i = 0usize;
    loop {
        match ch.advance_init(dev, plan, i, status) {
            InitStep::Next(j) => i = j,
            InitStep::Done(r) => return r,
        }
    }
}

fn started(family: DeviceFamily) -> (DeviceContext, ChannelContext) {
    let mut dev = opened(family);
    let ch = ChannelContext::new(&dev, 0);
    let plan = ch.init_can_chl(&dev, &table(), &ChannelConfig::new(500_000)).unwrap();
    run_plan(&ch, &mut dev, &plan, STATUS_OK).unwrap();
    (dev, ch)
}

#[test]
fn test_init_channel() {
    let dev_type = DeviceFamily::UsbCanFd200U;
    let dev_idx = 0;
    let channel = 0;
    let channels = 2;

    let mut cfg = ChannelConfig::new(500_000);
    cfg.set_extra(CHANNEL_TYPE, ExtraValue::U8(CHANNEL_TYPE_CAN));
    cfg.set_extra(CHANNEL_MODE, ExtraValue::U8(CHANNEL_MODE_NORMAL));

    let mut context = DeviceContext::new(dev_type, dev_idx);
    let call = context.open().unwrap();
    assert!(matches!(call, NativeCall::OpenDevice { dev_type: 41, dev_idx: 0 }));
    context.complete_open(STATUS_OK).unwrap();

    context.read_device_info().unwrap();
    let dev_info = context.complete_read_device_info(STATUS_OK, &board_record(2)).unwrap();
    println!("{:?}", dev_info);
    assert_eq!(dev_info.can_channels(), channels);
    assert!(dev_info.canfd());

    let chl = ChannelContext::new(&context, channel);
    let plan = chl.init_can_chl(&context, &table(), &cfg).unwrap();
    run_plan(&chl, &mut context, &plan, STATUS_OK).unwrap();
    let frame = CanMessage::new(Identifier::new(0x7E0, false).unwrap(), [0x01, 0x02, 0x03].as_slice())
        .ok_or(CanError::OtherError)
        .unwrap();
    let frame1 = CanMessage::new(
        Identifier::new(0x1888FF00, true).unwrap(),
        [0x01, 0x02, 0x03, 0x04, 0x05, 0x06, 0x07, 0x08].as_slice(),
    )
    .ok_or(CanError::OtherError)
    .unwrap();
    let frames = vec![frame, frame1];
    let ret = match chl.transmit_can(&context, &frames).unwrap() {
        NativeCall::Transmit { frames, .. } => frames.len(),
        _ => 0,
    };
    assert_eq!(ret, 2);

    let reset = chl.reset_can_chl(&context).unwrap();
    check_status(&reset, STATUS_OK).unwrap();
    chl.complete_reset_can_chl(&mut context, STATUS_OK).unwrap();

    let _ = context.close();
    context.complete_close(STATUS_OK).unwrap();
}

#[test]
fn device_info_reports_channels_and_fd() {
    let d = opened(DeviceFamily::UsbCanFd200U);
    let info = d.complete_read_device_info(STATUS_OK, &board_record(2)).unwrap();
    assert_eq!(info.can_channels(), 2);
    assert!(info.canfd());
    assert_eq!(info.hardware_version, 0x0201);
    assert_eq!(info.serial[0], b'S');
    assert_eq!(info.serial.len(), 20);
    assert_eq!(info.hw_type[0], b'U');
    let d = opened(DeviceFamily::UsbCan2);
    let info = d.complete_read_device_info(STATUS_OK, &board_record(2)).unwrap();
    assert!(!info.canfd());
    assert_eq!(
        d.complete_read_device_info(7, &board_record(2)),
        Err(CanError::OperationError(Failure::Native(NativeFn::ReadBoardInfo, 7)))
    );
    assert_eq!(d.complete_read_device_info(STATUS_OK, &vec![0; 10]), Err(CanError::InvalidLength(10)));
}

#[test]
fn transmit_two_frames_on_initialized_channel() {
    let (dev, ch) = started(DeviceFamily::UsbCanFd200U);
    let frames = vec![
        CanMessage::new(Identifier::new(0x7E0, false).unwrap(), &[1, 2, 3]).unwrap(),
        CanMessage::new(Identifier::new(0x1888FF00, true).unwrap(), &[1, 2, 3, 4, 5, 6, 7, 8]).unwrap(),
    ];
    match ch.transmit_can(&dev, &frames).unwrap() {
        NativeCall::Transmit { target, kind, frames: hw } => {
            assert_eq!(kind, FrameKind::Classic);
            assert_eq!(target.dev_type, 41);
            assert_eq!(hw.len(), 2);
            assert_eq!(hw[0], to_hardware(&frames[0], FrameKind::Classic).unwrap());
            assert_eq!(hw[1].id_word, 0x9888FF00);
        }
        other => panic!("unexpected call {:?}", other),
    }
}

#[test]
fn open_failure_leaves_device_closed() {
    let mut d = DeviceContext::new(DeviceFamily::UsbCanFd100U, 1);
    assert_eq!(
        d.complete_open(0),
        Err(CanError::InitializeError(Failure::Native(NativeFn::OpenDevice, 0)))
    );
    assert!(!d.is_open());
    d.complete_open(STATUS_OK).unwrap();
    assert_eq!(d.open().unwrap_err(), CanError::InitializeError(Failure::AlreadyOpen));
}

#[test]
fn transmit_from_closed_fails_fast() {
    let dev = DeviceContext::new(DeviceFamily::UsbCanFd200U, 0);
    let ch = ChannelContext::new(&dev, 0);
    let frames = vec![CanMessage::new(Identifier::new(1, false).unwrap(), &[1]).unwrap()];
    assert_eq!(ch.transmit_can(&dev, &frames).unwrap_err(), CanError::OperationError(Failure::DeviceClosed));
    assert_eq!(
        ch.init_can_chl(&dev, &table(), &ChannelConfig::new(500_000)).unwrap_err(),
        CanError::InitializeError(Failure::DeviceClosed)
    );
    let dev = opened(DeviceFamily::UsbCanFd200U);
    let ch = ChannelContext::new(&dev, 0);
    assert_eq!(ch.transmit_can(&dev, &frames).unwrap_err(), CanError::OperationError(Failure::ChannelNotStarted));
    assert_eq!(ch.receive_can(&dev, 1, 0).unwrap_err(), CanError::OperationError(Failure::ChannelNotStarted));
}

#[test]
fn close_invalidates_every_channel() {
    let (mut dev, ch0) = started(DeviceFamily::UsbCanFd200U);
    let ch1 = ChannelContext::new(&dev, 1);
    let plan = ch1.init_can_chl(&dev, &table(), &ChannelConfig::new(500_000)).unwrap();
    run_plan(&ch1, &mut dev, &plan, STATUS_OK).unwrap();
    assert_eq!(ch0.state(&dev), ChannelState::Started);
    assert_eq!(ch1.state(&dev), ChannelState::Started);
    assert_eq!(
        dev.complete_close(3),
        Err(CanError::OperationError(Failure::Native(NativeFn::CloseDevice, 3)))
    );
    assert_eq!(ch0.state(&dev), ChannelState::Started);
    let _ = dev.close();
    dev.complete_close(STATUS_OK).unwrap();
    assert_eq!(ch0.state(&dev), ChannelState::Idle);
    assert_eq!(ch1.state(&dev), ChannelState::Idle);
    let frames = vec![CanMessage::new(Identifier::new(1, false).unwrap(), &[1]).unwrap()];
    assert_eq!(ch0.transmit_can(&dev, &frames).unwrap_err(), CanError::OperationError(Failure::DeviceClosed));
    assert_eq!(ch1.read_can_chl_status(&dev).unwrap_err(), CanError::OperationError(Failure::DeviceClosed));
    let plan = ChannelContext::new(&opened(DeviceFamily::UsbCanFd200U), 1)
        .init_can_chl(&opened(DeviceFamily::UsbCanFd200U), &table(), &ChannelConfig::new(500_000))
        .unwrap();
    match ch1.advance_init(&mut dev, &plan, 2, STATUS_OK) {
        InitStep::Done(r) => assert_eq!(r, Err(CanError::InitializeError(Failure::DeviceClosed))),
        InitStep::Next(_) => panic!("went on on a closed device"),
    }
    dev.complete_open(STATUS_OK).unwrap();
    assert_eq!(ch0.transmit_can(&dev, &frames).unwrap_err(), CanError::OperationError(Failure::ChannelNotStarted));
}

#[test]
fn a_channel_refuses_another_device() {
    let dev_a = opened(DeviceFamily::UsbCanFd200U);
    let (dev_b, _) = started(DeviceFamily::UsbCanFd100U);
    let ch = ChannelContext::new(&dev_a, 0);
    let frames = vec![CanMessage::new(Identifier::new(1, false).unwrap(), &[1]).unwrap()];
    assert_eq!(ch.transmit_can(&dev_b, &frames).unwrap_err(), CanError::OperationError(Failure::DeviceClosed));
}

#[test]
fn init_plan_sets_resistance_first() {
    let dev = opened(DeviceFamily::UsbCanFd200U);
    let ch = ChannelContext::new(&dev, 1);
    let cfg = ChannelConfig::new(500_000).with_resistance(false);
    let plan = ch.init_can_chl(&dev, &table(), &cfg).unwrap();
    assert_eq!(plan.len(), 3);
    match &plan[0] {
        NativeCall::SetReference { cmd, value, target } => {
            assert_eq!(*cmd, REFERENCE_RESISTANCE);
            assert_eq!(value, &vec![b'0', 0]);
            assert_eq!(target.channel, 1);
        }
        other => panic!("unexpected call {:?}", other),
    }
    match &plan[1] {
        NativeCall::InitCan { cfg, .. } => {
            assert_eq!(cfg.can_type, 1);
            assert_eq!(cfg.mode, 0);
            assert_eq!(cfg.timing.clock, 60_000_000);
        }
        other => panic!("unexpected call {:?}", other),
    }
    assert!(matches!(plan[2], NativeCall::StartCan { .. }));
    let dev = opened(DeviceFamily::UsbCan2);
    let ch = ChannelContext::new(&dev, 0);
    let plan = ch.init_can_chl(&dev, &table(), &ChannelConfig::new(500_000)).unwrap();
    assert_eq!(plan.len(), 2);
    assert!(matches!(plan[0], NativeCall::InitCan { .. }));
}

#[test]
fn init_stops_at_first_refusal() {
    let mut dev = opened(DeviceFamily::UsbCanFd200U);
    let ch = ChannelContext::new(&dev, 0);
    let plan = ch.init_can_chl(&dev, &table(), &ChannelConfig::new(500_000)).unwrap();
    match ch.advance_init(&mut dev, &plan, 0, 5) {
        InitStep::Done(r) => assert_eq!(
            r,
            Err(CanError::InitializeError(Failure::Native(NativeFn::SetReference, 5)))
        ),
        InitStep::Next(_) => panic!("went on after a refusal"),
    }
    assert_eq!(ch.state(&dev), ChannelState::Idle);
    assert!(matches!(ch.advance_init(&mut dev, &plan, 0, STATUS_OK), InitStep::Next(1)));
    match ch.advance_init(&mut dev, &plan, 2, 9) {
        InitStep::Done(r) => assert_eq!(
            r,
            Err(CanError::InitializeError(Failure::Native(NativeFn::StartCan, 9)))
        ),
        InitStep::Next(_) => panic!("went on after a refusal"),
    }
    assert_eq!(ch.state(&dev), ChannelState::Idle);
}

#[test]
fn init_with_unsupported_bitrate_makes_no_call() {
    let dev = opened(DeviceFamily::UsbCanFd200U);
    let ch = ChannelContext::new(&dev, 0);
    assert_eq!(
        ch.init_can_chl(&dev, &table(), &ChannelConfig::new(125_000)).unwrap_err(),
        CanError::UnsupportedBitrateError(125_000)
    );
    assert_eq!(
        ch.init_can_chl(&dev, &table(), &ChannelConfig::new(500_000).with_data_bitrate(5_000_000))
            .unwrap_err(),
        CanError::UnsupportedBitrateError(5_000_000)
    );
    let mut cfg = ChannelConfig::new(500_000);
    cfg.set_extra(CHANNEL_TYPE, ExtraValue::Bool(true));
    assert_eq!(ch.init_can_chl(&dev, &table(), &cfg).unwrap_err(), CanError::TypeMismatch);
    let dev = opened(DeviceFamily::UsbCanFdMini);
    let ch = ChannelContext::new(&dev, 0);
    assert_eq!(
        ch.init_can_chl(&dev, &table(), &ChannelConfig::new(500_000)).unwrap_err(),
        CanError::InitializeError(Failure::FamilyNotConfigured(43))
    );
}

#[test]
fn reset_moves_started_to_initialized() {
    let (mut dev, ch) = started(DeviceFamily::UsbCanFd200U);
    assert_eq!(
        ch.complete_reset_can_chl(&mut dev, 2),
        Err(CanError::OperationError(Failure::Native(NativeFn::ResetCan, 2)))
    );
    assert_eq!(ch.state(&dev), ChannelState::Started);
    ch.complete_reset_can_chl(&mut dev, STATUS_OK).unwrap();
    assert_eq!(ch.state(&dev), ChannelState::Initialized);
    let frames = vec![CanMessage::new(Identifier::new(1, false).unwrap(), &[1]).unwrap()];
    assert_eq!(ch.transmit_can(&dev, &frames).unwrap_err(), CanError::OperationError(Failure::ChannelNotStarted));
    let idle = ChannelContext::new(&dev, 3);
    assert_eq!(idle.reset_can_chl(&dev).unwrap_err(), CanError::OperationError(Failure::ChannelNotStarted));
}

#[test]
fn missing_capabilities_are_not_supported() {
    let (dev, ch) = started(DeviceFamily::UsbCan2);
    let fd = vec![CanMessage::new_fd(Identifier::new(1, false).unwrap(), &[0; 12], false).unwrap()];
    assert_eq!(ch.transmit_canfd(&dev, &fd).unwrap_err(), CanError::NotSupportedError);
    assert_eq!(ch.receive_canfd(&dev, 4, 10).unwrap_err(), CanError::NotSupportedError);
    assert_eq!(ch.get_can_num(&dev, CountKind::CanFd).unwrap_err(), CanError::NotSupportedError);
    assert_eq!(ch.get_value(&dev, 1).unwrap_err(), CanError::NotSupportedError);
    assert_eq!(ch.set_value(&dev, 1, vec![1]).unwrap_err(), CanError::NotSupportedError);
    let cfg = LinConfig { master: true, max_length: 8, baud: 19_200 };
    assert_eq!(ch.init_lin_chl(&dev, cfg).unwrap_err(), CanError::NotSupportedError);
    assert_eq!(ch.reset_lin_chl(&dev).unwrap_err(), CanError::NotSupportedError);
    assert_eq!(ch.clear_lin_buffer(&dev).unwrap_err(), CanError::NotSupportedError);
    assert_eq!(ch.get_lin_num(&dev).unwrap_err(), CanError::NotSupportedError);
    assert_eq!(ch.receive_lin(&dev, 1, 1).unwrap_err(), CanError::NotSupportedError);
    assert_eq!(ch.transmit_lin(&dev, vec![]).unwrap_err(), CanError::NotSupportedError);
    assert_eq!(ch.set_lin_subscribe(&dev, vec![]).unwrap_err(), CanError::NotSupportedError);
    assert_eq!(ch.set_lin_publish(&dev, vec![]).unwrap_err(), CanError::NotSupportedError);
    let closed = DeviceContext::new(DeviceFamily::UsbCan1, 0);
    let ch = ChannelContext::new(&closed, 0);
    assert_eq!(ch.transmit_canfd(&closed, &fd).unwrap_err(), CanError::NotSupportedError);
}

#[test]
fn fd_transfer_on_fd_family() {
    let (dev, ch) = started(DeviceFamily::UsbCanFd200U);
    let fd = vec![CanMessage::new_fd(Identifier::new(1, true).unwrap(), &[9; 20], true).unwrap()];
    match ch.transmit_canfd(&dev, &fd).unwrap() {
        NativeCall::Transmit { kind, frames, .. } => {
            assert_eq!(kind, FrameKind::Fd);
            assert_eq!(frames[0].dlc, 11);
            assert_eq!(frames[0].flags, 1);
        }
        other => panic!("unexpected call {:?}", other),
    }
    assert!(ch.transmit_can(&dev, &fd).is_err());
    match ch.receive_canfd(&dev, 10, 100).unwrap() {
        NativeCall::Receive { kind, size, timeout, .. } => {
            assert_eq!((kind, size, timeout), (FrameKind::Fd, 10, 100));
        }
        other => panic!("unexpected call {:?}", other),
    }
}

#[test]
fn pending_counts() {
    let dev = opened(DeviceFamily::UsbCanFd200U);
    let ch = ChannelContext::new(&dev, 1);
    match ch.get_can_num(&dev, CountKind::CanFd).unwrap() {
        NativeCall::GetReceiveNum { target } => assert_eq!(target.channel, 0x8000_0001),
        other => panic!("unexpected call {:?}", other),
    }
    match ch.get_can_num(&dev, CountKind::Can).unwrap() {
        NativeCall::GetReceiveNum { target } => assert_eq!(target.channel, 1),
        other => panic!("unexpected call {:?}", other),
    }
    assert_eq!(ch.get_can_num(&dev, CountKind::All).unwrap_err(), CanError::OtherError);
}

#[test]
fn receive_keeps_only_counted_frames() {
    let m = CanMessage::new(Identifier::new(0x55, false).unwrap(), &[4, 5]).unwrap();
    let h = to_hardware(&m, FrameKind::Classic).unwrap();
    let raw = vec![h.clone(), h.clone(), h];
    let got = complete_receive(&raw, 2).unwrap();
    assert_eq!(got, vec![m.clone(), m.clone()]);
    assert_eq!(complete_receive(&raw, 0).unwrap(), vec![]);
    assert_eq!(complete_receive(&raw, 7).unwrap().len(), 3);
    let mut broken = raw.clone();
    broken[1].dlc = 12;
    assert!(matches!(complete_receive(&broken, 3), Err(CanError::InvalidLength(_))));
    assert_eq!(complete_receive(&broken, 1).unwrap(), vec![m]);
}

#[test]
fn status_reads_are_parsed() {
    let dev = opened(DeviceFamily::UsbCanFd200U);
    let ch = ChannelContext::new(&dev, 0);
    assert!(matches!(ch.read_can_chl_status(&dev), Ok(NativeCall::ReadCanStatus { .. })));
    assert!(matches!(ch.read_can_chl_error(&dev), Ok(NativeCall::ReadErrInfo { .. })));
    assert!(matches!(ch.clear_can_buffer(&dev), Ok(NativeCall::ClearBuffer { .. })));
    let s = ChannelStatus::from_record(&vec![1, 2, 0x80, 4, 5, 6, 7, 8]).unwrap();
    assert!(s.bus_off());
    assert_eq!((s.rx_errors, s.tx_errors), (7, 8));
    let e = ChannelErrorInfo::from_record(&vec![0x01, 0x02, 0, 0, 9, 8, 7, 6]).unwrap();
    assert_eq!(e.error_code, 0x0201);
    assert_eq!(e.arbitration_lost, 6);
    assert_eq!(ChannelStatus::from_record(&vec![0; 3]), Err(CanError::InvalidLength(3)));
}

#[test]
fn generic_values() {
    let dev = opened(DeviceFamily::UsbCanFd200U);
    let ch = ChannelContext::new(&dev, 0);
    match ch.get_value(&dev, 7).unwrap() {
        NativeCall::GetReference { cmd, len, .. } => assert_eq!((cmd, len), (7, 16)),
        other => panic!("unexpected call {:?}", other),
    }
    assert_eq!(ch.complete_get_value(STATUS_OK, vec![1, 2]), Ok(vec![1, 2]));
    assert_eq!(
        ch.complete_get_value(0, vec![1, 2]),
        Err(CanError::OperationError(Failure::Native(NativeFn::GetReference, 0)))
    );
    assert!(matches!(ch.set_value(&dev, 3, vec![1]), Ok(NativeCall::SetReference { cmd: 3, .. })));
    let closed = DeviceContext::new(DeviceFamily::UsbCanFd200U, 0);
    let ch = ChannelContext::new(&closed, 0);
    assert_eq!(ch.set_reference(&closed, 1, vec![]).unwrap_err(), CanError::OperationError(Failure::DeviceClosed));
    assert!(matches!(debug(3), NativeCall::Debug { level: 3 }));
}

#[test]
fn status_codes_map_to_taxonomy() {
    let open = NativeCall::OpenDevice { dev_type: 41, dev_idx: 0 };
    assert_eq!(check_status(&open, STATUS_OK), Ok(()));
    assert_eq!(
        check_status(&open, 0),
        Err(CanError::InitializeError(Failure::Native(NativeFn::OpenDevice, 0)))
    );
    let close = NativeCall::CloseDevice { dev_type: 41, dev_idx: 0 };
    assert_eq!(
        check_status(&close, 4),
        Err(CanError::OperationError(Failure::Native(NativeFn::CloseDevice, 4)))
    );
}

#[test]
fn lin_lifecycle() {
    let mut dev = opened(DeviceFamily::UsbCanFd200U);
    let ch = ChannelContext::new(&dev, 0);
    let frames = vec![LinFrame { pid: 0x10, data: vec![1, 2] }];
    assert_eq!(
        ch.transmit_lin(&dev, frames.clone()).unwrap_err(),
        CanError::OperationError(Failure::ChannelNotStarted)
    );
    let plan = ch.init_lin_chl(&dev, LinConfig { master: true, max_length: 8, baud: 19_200 }).unwrap();
    assert_eq!(plan.len(), 2);
    run_plan(&ch, &mut dev, &plan, STATUS_OK).unwrap();
    assert!(dev.lin_started(0));
    assert_eq!(ch.state(&dev), ChannelState::Idle);
    assert!(matches!(ch.transmit_lin(&dev, frames), Ok(NativeCall::TransmitLin { .. })));
    assert_eq!(
        ch.transmit_lin(&dev, vec![LinFrame { pid: 0x10, data: vec![0; 9] }]).unwrap_err(),
        CanError::InvalidLength(9)
    );
    match ch.transmit_lin(&dev, vec![LinFrame { pid: 0xC1, data: vec![] }]).unwrap() {
        NativeCall::TransmitLin { frames, .. } => assert_eq!(frames, vec![LinFrame { pid: 0xC1, data: vec![] }]),
        other => panic!("unexpected call {:?}", other),
    }
    assert!(matches!(ch.receive_lin(&dev, 4, 10), Ok(NativeCall::ReceiveLin { size: 4, .. })));
    let got = complete_receive_lin(
        vec![LinFrame { pid: 1, data: vec![] }, LinFrame { pid: 2, data: vec![] }],
        1,
    );
    assert_eq!(got, vec![LinFrame { pid: 1, data: vec![] }]);
    let long = vec![LinPublish { pid: 1, data: vec![0; 9], checksum_mode: 0 }];
    assert_eq!(ch.set_lin_publish(&dev, long).unwrap_err(), CanError::InvalidLength(9));
    let ok = vec![LinPublish { pid: 1, data: vec![0; 8], checksum_mode: 0 }];
    assert!(matches!(ch.set_lin_publish(&dev, ok), Ok(NativeCall::SetLinPublish { .. })));
    ch.complete_reset_lin_chl(&mut dev, STATUS_OK).unwrap();
    assert!(!dev.lin_started(0));
}
